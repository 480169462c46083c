//! Ball movement and bounce systems.

use vstd::prelude::*;

use crate::game::ARENA_HEIGHT;
use crate::game::GameState;
use crate::game::MAX_COORD;
use crate::game::MAX_DT_MS;
use crate::game::MAX_SPEED;
use crate::game::Player;
use crate::game::PlayerSide;
use crate::game::Position;

verus! {

/// Whether (x, y) lies inside the axis-aligned rectangle with corners
/// (left, bottom) and (right, top), all four bounds inclusive.
pub open spec fn in_rect(x: int, y: int, left: int, bottom: int, right: int, top: int) -> bool {
    left <= x <= right && bottom <= y <= top
}

/// Point-in-rectangle test, inclusive on all four sides.
pub fn point_in_rect(x: i64, y: i64, left: i64, bottom: i64, right: i64, top: i64) -> (r: bool)
    ensures
        r == in_rect(x as int, y as int, left as int, bottom as int, right as int, top as int),
{
    x >= left && x <= right && y >= bottom && y <= top
}

/// The vertical velocity after the wall test: negated exactly when the
/// ball touches the bottom (y <= radius) while moving down, or the top
/// (y >= ARENA_HEIGHT - radius) while moving up. The
/// direction-of-travel guard keeps a ball resting on a boundary from
/// flipping sign every frame.
pub open spec fn wall_bounce_vy(y: int, radius: int, vy: int) -> int {
    if (y <= radius && vy < 0) || (y >= ARENA_HEIGHT - radius && vy > 0) {
        -vy
    } else {
        vy
    }
}

/// Whether the ball's center lies inside the paddle's rectangle grown
/// outward by the ball's radius on all four sides (a Minkowski-sum
/// approximation of circle-vs-rectangle contact). The paddle's
/// bottom-left corner is derived from its center position.
pub open spec fn paddle_hit(ball_pos: Position, radius: int, player: Player, paddle_pos: Position) -> bool {
    let player_x = paddle_pos.x - player.width as int / 2;
    let player_y = paddle_pos.y - player.height as int / 2;
    in_rect(
        ball_pos.x as int,
        ball_pos.y as int,
        player_x - radius,
        player_y - radius,
        player_x + player.width + radius,
        player_y + player.height + radius,
    )
}

/// The horizontal velocity after testing one paddle: negated exactly
/// when the ball is inside the paddle's grown rectangle and moving
/// toward that paddle's side. The guard keeps a ball that stays inside
/// the hit box across frames from being reflected twice.
pub open spec fn paddle_bounce_vx(ball_pos: Position, radius: int, vx: int, player: Player, paddle_pos: Position) -> int {
    if paddle_hit(ball_pos, radius, player, paddle_pos)
        && ((player.side == PlayerSide::Left && vx < 0)
            || (player.side == PlayerSide::Right && vx > 0)) {
        -vx
    } else {
        vx
    }
}

/// Tests the ball against one paddle and returns the (possibly
/// flipped) horizontal velocity.
fn bounce_off_paddle(ball_pos: Position, radius: i64, velocity_x: i64, player: &Player, paddle_pos: Position) -> (vx: i64)
    requires
        player.wf(),
        0 < radius <= ARENA_HEIGHT,
        -MAX_SPEED <= velocity_x <= MAX_SPEED,
        -MAX_COORD <= paddle_pos.x <= MAX_COORD,
        -MAX_COORD <= paddle_pos.y <= MAX_COORD,
    ensures
        vx == paddle_bounce_vx(ball_pos, radius as int, velocity_x as int, *player, paddle_pos),
        -MAX_SPEED <= vx <= MAX_SPEED,
{
    let player_x = paddle_pos.x - player.width / 2;
    let player_y = paddle_pos.y - player.height / 2;
    if point_in_rect(
        ball_pos.x,
        ball_pos.y,
        player_x - radius,
        player_y - radius,
        player_x + player.width + radius,
        player_y + player.height + radius,
    ) {
        if (player.side == PlayerSide::Left && velocity_x < 0)
            || (player.side == PlayerSide::Right && velocity_x > 0) {
            return -velocity_x;
        }
    }
    velocity_x
}

/// Advances the ball by its velocity and the frame's elapsed time.
pub struct BallMovementSystem;

impl BallMovementSystem {
    /// Moves the ball by velocity x elapsed time, applied independently
    /// to X and Y. No bounds are enforced: the ball may leave the arena
    /// horizontally, which ends the point. Everything else in the world
    /// is untouched.
    pub fn run(&mut self, state: &mut GameState, dt_ms: i64)
        requires
            old(state).valid(),
            0 <= dt_ms <= MAX_DT_MS,
            -MAX_COORD <= old(state).ball_pos.x <= MAX_COORD,
            -MAX_COORD <= old(state).ball_pos.y <= MAX_COORD,
        ensures
            final(state).ball_pos.x == old(state).ball_pos.x + old(state).ball.velocity_x * dt_ms,
            final(state).ball_pos.y == old(state).ball_pos.y + old(state).ball.velocity_y * dt_ms,
            final(state).ball == old(state).ball,
            final(state).left == old(state).left,
            final(state).left_pos == old(state).left_pos,
            final(state).right == old(state).right,
            final(state).right_pos == old(state).right_pos,
            final(state).valid(),
    {
        proof {
            let vx = old(state).ball.velocity_x;
            let vy = old(state).ball.velocity_y;
            assert(-0x10_0000_0000_0000 <= vx * dt_ms <= 0x10_0000_0000_0000) by (nonlinear_arith)
                requires
                    -MAX_SPEED <= vx <= MAX_SPEED,
                    0 <= dt_ms <= MAX_DT_MS,
            ;
            assert(-0x10_0000_0000_0000 <= vy * dt_ms <= 0x10_0000_0000_0000) by (nonlinear_arith)
                requires
                    -MAX_SPEED <= vy <= MAX_SPEED,
                    0 <= dt_ms <= MAX_DT_MS,
            ;
        }
        state.ball_pos.x = state.ball_pos.x + state.ball.velocity_x * dt_ms;
        state.ball_pos.y = state.ball_pos.y + state.ball.velocity_y * dt_ms;
    }
}

/// Flips the ball's velocity on wall and paddle contact.
pub struct BallBounceSystem;

impl BallBounceSystem {
    /// One bounce pass over the world: the wall test may negate the
    /// vertical velocity, then each paddle in turn (left first, then
    /// right, as they were created) may negate the horizontal velocity.
    /// Positions, paddles and the ball's radius are untouched.
    pub fn run(&mut self, state: &mut GameState)
        requires
            old(state).valid(),
        ensures
            final(state).ball.velocity_y == wall_bounce_vy(
                old(state).ball_pos.y as int,
                old(state).ball.radius as int,
                old(state).ball.velocity_y as int,
            ),
            final(state).ball.velocity_x == paddle_bounce_vx(
                old(state).ball_pos,
                old(state).ball.radius as int,
                paddle_bounce_vx(
                    old(state).ball_pos,
                    old(state).ball.radius as int,
                    old(state).ball.velocity_x as int,
                    old(state).left,
                    old(state).left_pos,
                ),
                old(state).right,
                old(state).right_pos,
            ),
            final(state).ball.radius == old(state).ball.radius,
            final(state).ball_pos == old(state).ball_pos,
            final(state).left == old(state).left,
            final(state).left_pos == old(state).left_pos,
            final(state).right == old(state).right,
            final(state).right_pos == old(state).right_pos,
            final(state).valid(),
    {
        let ball_x = state.ball_pos.x;
        let ball_y = state.ball_pos.y;

        // Bounce at the top or the bottom of the arena.
        if (ball_y <= state.ball.radius && state.ball.velocity_y < 0)
            || (ball_y >= ARENA_HEIGHT - state.ball.radius && state.ball.velocity_y > 0) {
            state.ball.velocity_y = -state.ball.velocity_y;
        }

        let vx_after_left = bounce_off_paddle(
            state.ball_pos,
            state.ball.radius,
            state.ball.velocity_x,
            &state.left,
            state.left_pos,
        );
        let vx_after_right = bounce_off_paddle(
            state.ball_pos,
            state.ball.radius,
            vx_after_left,
            &state.right,
            state.right_pos,
        );
        state.ball.velocity_x = vx_after_right;
    }
}

/// The wall test flips a velocity at most once: applied a second time
/// at the same position, it leaves the already-reflected velocity
/// unchanged, because the reflected ball moves away from the wall it
/// touched. This needs the ball to fit in the arena (2 * radius <
/// ARENA_HEIGHT); a ball as tall as the arena touches both walls at
/// once and would flip on every pass.
pub proof fn lemma_wall_bounce_idempotent(y: int, radius: int, vy: int)
    requires
        0 < radius,
        2 * radius < ARENA_HEIGHT,
    ensures
        wall_bounce_vy(y, radius, wall_bounce_vy(y, radius, vy)) == wall_bounce_vy(y, radius, vy),
{
}

/// A point exactly on any of the four boundaries of a rectangle lies
/// inside it, and a point one milli-unit outside any boundary does not.
pub proof fn lemma_in_rect_boundary(x: int, y: int, left: int, bottom: int, right: int, top: int)
    requires
        left <= x <= right,
        bottom <= y <= top,
    ensures
        in_rect(left, y, left, bottom, right, top),
        in_rect(right, y, left, bottom, right, top),
        in_rect(x, bottom, left, bottom, right, top),
        in_rect(x, top, left, bottom, right, top),
        !in_rect(left - 1, y, left, bottom, right, top),
        !in_rect(right + 1, y, left, bottom, right, top),
        !in_rect(x, bottom - 1, left, bottom, right, top),
        !in_rect(x, top + 1, left, bottom, right, top),
{
}

} // verus!
