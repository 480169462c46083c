//! Paddle movement system.

use vstd::prelude::*;

use crate::game::ARENA_HEIGHT;
use crate::game::GameState;
use crate::game::Player;
use crate::game::Position;

verus! {

/// Paddle displacement per frame for a full axis deflection, in milli
/// world-units (1.2 units).
pub const PADDLE_SPEED_SCALE: i64 = 1_200;

/// An axis reading of 1000 stands for a full deflection of 1.0.
pub const AXIS_SCALE: i64 = 1_000;

/// Largest axis reading magnitude the system accepts. Hosts report
/// roughly [-1, 1], that is about [-1000, 1000] in axis thousandths;
/// this bound is far above that and only keeps the arithmetic in
/// machine range.
pub const MAX_AXIS: i64 = 1_000_000;

/// The paddle displacement for one frame: 1.2 milli-units per axis
/// thousandth, truncated toward zero to a whole milli-unit (as the
/// host's fractional scaling is).
pub open spec fn scaled_axis(axis: int) -> int {
    if axis >= 0 {
        PADDLE_SPEED_SCALE * axis / AXIS_SCALE as int
    } else {
        -(PADDLE_SPEED_SCALE * -axis / AXIS_SCALE as int)
    }
}

/// v forced into [lo, hi].
pub open spec fn clamped(v: int, lo: int, hi: int) -> int {
    if v < lo {
        lo
    } else if v > hi {
        hi
    } else {
        v
    }
}

/// The paddle's Y position after one frame: unchanged when no axis
/// reading is present (an unbound input is not an error), otherwise
/// moved by the scaled reading and clamped to the paddle's movement
/// range.
pub open spec fn paddle_moved_y(y: int, player: Player, axis: Option<i64>) -> int {
    match axis {
        None => y,
        Some(a) => clamped(y + scaled_axis(a as int), player.min_y(), player.max_y()),
    }
}

/// Whether an axis reading is absent or within machine bounds.
pub open spec fn axis_ok(axis: Option<i64>) -> bool {
    match axis {
        None => true,
        Some(a) => -MAX_AXIS <= a <= MAX_AXIS,
    }
}

/// Moves one paddle by one frame's axis reading, clamped to its range.
fn move_paddle(player: &Player, pos: &mut Position, axis: Option<i64>)
    requires
        player.wf(),
        player.min_y() <= old(pos).y <= player.max_y(),
        axis_ok(axis),
    ensures
        final(pos).x == old(pos).x,
        final(pos).y == paddle_moved_y(old(pos).y as int, *player, axis),
        player.min_y() <= final(pos).y <= player.max_y(),
{
    match axis {
        None => {},
        Some(mv_amount) => {
            let scaled_amount: i64 = if mv_amount >= 0 {
                PADDLE_SPEED_SCALE * mv_amount / AXIS_SCALE
            } else {
                -(PADDLE_SPEED_SCALE * -mv_amount / AXIS_SCALE)
            };
            let min_y = player.height / 2;
            let max_y = ARENA_HEIGHT - player.height / 2;
            let y = pos.y + scaled_amount;
            pos.y = if y > max_y {
                max_y
            } else if y < min_y {
                min_y
            } else {
                y
            };
        },
    }
}

/// Moves each paddle by its player's input axis reading.
pub struct PlayerMovementSystem;

impl PlayerMovementSystem {
    /// One movement pass over the paddles. The host hands in the
    /// frame's reading of the "left_player" and "right_player" axes;
    /// an absent reading leaves that paddle where it is. Each paddle
    /// moves only along Y and stays clamped to
    /// [height/2, ARENA_HEIGHT - height/2]. The ball is untouched.
    pub fn run(&mut self, state: &mut GameState, left_axis: Option<i64>, right_axis: Option<i64>)
        requires
            old(state).valid(),
            axis_ok(left_axis),
            axis_ok(right_axis),
        ensures
            final(state).left_pos.x == old(state).left_pos.x,
            final(state).left_pos.y == paddle_moved_y(old(state).left_pos.y as int, old(state).left, left_axis),
            final(state).right_pos.x == old(state).right_pos.x,
            final(state).right_pos.y == paddle_moved_y(old(state).right_pos.y as int, old(state).right, right_axis),
            final(state).left == old(state).left,
            final(state).right == old(state).right,
            final(state).ball == old(state).ball,
            final(state).ball_pos == old(state).ball_pos,
            final(state).valid(),
    {
        let left = state.left;
        move_paddle(&left, &mut state.left_pos, left_axis);
        let right = state.right;
        move_paddle(&right, &mut state.right_pos, right_axis);
    }
}

/// One movement frame keeps a paddle's Y inside its range: clamping to
/// a non-empty range lands inside it, whatever the axis reading.
pub proof fn lemma_paddle_clamp(y: int, player: Player, axis: Option<i64>)
    requires
        player.wf(),
        player.min_y() <= y <= player.max_y(),
    ensures
        player.min_y() <= paddle_moved_y(y, player, axis) <= player.max_y(),
{
}

/// The paddle's Y position after a whole sequence of frames, one axis
/// reading per frame.
pub open spec fn paddle_y_after(y0: int, player: Player, axes: Seq<Option<i64>>) -> int
    decreases axes.len(),
{
    if axes.len() == 0 {
        y0
    } else {
        paddle_moved_y(paddle_y_after(y0, player, axes.drop_last()), player, axes.last())
    }
}

/// For any input sequence, a paddle that starts inside its movement
/// range [height/2, ARENA_HEIGHT - height/2] is still inside it after
/// every movement-system frame.
pub proof fn lemma_paddle_clamp_sequence(y0: int, player: Player, axes: Seq<Option<i64>>)
    requires
        player.wf(),
        player.min_y() <= y0 <= player.max_y(),
    ensures
        player.min_y() <= paddle_y_after(y0, player, axes) <= player.max_y(),
    decreases axes.len(),
{
    if axes.len() > 0 {
        lemma_paddle_clamp_sequence(y0, player, axes.drop_last());
        lemma_paddle_clamp(paddle_y_after(y0, player, axes.drop_last()), player, axes.last());
    }
}

} // verus!
