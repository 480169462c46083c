//! Entities (paddles, ball), the arena configuration and world
//! initialization.

use vstd::prelude::*;

verus! {

/// Height of the play field, in milli world-units (100 units).
pub const ARENA_HEIGHT: i64 = 100_000;
/// Width of the play field, in milli world-units (100 units).
pub const ARENA_WIDTH: i64 = 100_000;

/// Paddle width at creation, in milli world-units (4 units).
pub const PLAYER_START_WIDTH: i64 = 4_000;
/// Paddle height at creation, in milli world-units (16 units).
pub const PLAYER_START_HEIGHT: i64 = 16_000;

/// Initial horizontal ball velocity, in milli-units per millisecond
/// (75 units per second).
pub const BALL_VELOCITY_X: i64 = 75;
/// Initial vertical ball velocity, in milli-units per millisecond
/// (50 units per second).
pub const BALL_VELOCITY_Y: i64 = 50;
/// Ball radius, in milli world-units (2 units).
pub const BALL_RADIUS: i64 = 2_000;

/// Largest magnitude of a velocity component the systems accept,
/// in milli-units per millisecond.
pub const MAX_SPEED: i64 = 1_000_000;
/// Largest frame delta the movement systems accept, in milliseconds.
pub const MAX_DT_MS: i64 = 1_000_000;
/// Largest coordinate magnitude the systems accept, in milli
/// world-units. A ball that leaves the arena horizontally keeps
/// moving, so its coordinates are bounded by the caller, not by the
/// arena.
pub const MAX_COORD: i64 = 0x1000_0000_0000_0000;

/// Which vertical edge a paddle defends. Fixed at creation.
#[derive(Clone, Copy, Debug, PartialEq, Eq, Structural)]
pub enum PlayerSide {
    Left,
    Right,
}

/// A 2D point in milli world-units. Stands for the translation part of
/// the host's transform component; this core only reads and writes X
/// and Y.
#[derive(Clone, Copy, Debug, PartialEq, Eq, Structural)]
pub struct Position {
    pub x: i64,
    pub y: i64,
}

/// A player-controlled paddle. Its dimensions are fixed after
/// creation; only its Y position moves.
#[derive(Clone, Copy, Debug, PartialEq, Eq, Structural)]
pub struct Player {
    pub side: PlayerSide,
    /// Milli world-units, positive.
    pub width: i64,
    /// Milli world-units, positive.
    pub height: i64,
}

impl Player {
    /// A paddle's dimensions are positive and fit inside the arena, so
    /// that its movement range [height/2, ARENA_HEIGHT - height/2] is
    /// not empty.
    pub open spec fn wf(self) -> bool {
        &&& 0 < self.width <= ARENA_WIDTH
        &&& 0 < self.height <= ARENA_HEIGHT
    }

    /// The lowest Y a paddle's center may take.
    pub open spec fn min_y(self) -> int {
        self.height as int / 2
    }

    /// The highest Y a paddle's center may take.
    pub open spec fn max_y(self) -> int {
        ARENA_HEIGHT - self.height as int / 2
    }

    pub fn new(side: PlayerSide) -> (p: Player)
        ensures
            p.side == side,
            p.width == PLAYER_START_WIDTH,
            p.height == PLAYER_START_HEIGHT,
            p.wf(),
    {
        Player { side, width: PLAYER_START_WIDTH, height: PLAYER_START_HEIGHT }
    }
}

/// The moving ball: velocity signs flip on bounce, magnitudes stay.
#[derive(Clone, Copy, Debug, PartialEq, Eq, Structural)]
pub struct Ball {
    /// Milli-units per millisecond.
    pub velocity_x: i64,
    /// Milli-units per millisecond.
    pub velocity_y: i64,
    /// Milli world-units, positive.
    pub radius: i64,
}

impl Ball {
    /// The radius is positive and no larger than the arena; velocity
    /// components stay within MAX_SPEED (bounces only flip signs).
    pub open spec fn wf(self) -> bool {
        &&& 0 < self.radius <= ARENA_HEIGHT
        &&& -MAX_SPEED <= self.velocity_x <= MAX_SPEED
        &&& -MAX_SPEED <= self.velocity_y <= MAX_SPEED
    }
}

/// The whole game world: two paddles and one ball, each with the
/// position the host's transform component would hold. Created once at
/// game-state start; the per-frame systems mutate it in place.
#[derive(Clone, Copy, Debug, PartialEq, Eq, Structural)]
pub struct GameState {
    pub left: Player,
    pub left_pos: Position,
    pub right: Player,
    pub right_pos: Position,
    pub ball: Ball,
    pub ball_pos: Position,
}

impl GameState {
    /// What every system preserves: the paddles keep their sides and
    /// well-formed dimensions, each paddle's center stays within its
    /// movement range [height/2, ARENA_HEIGHT - height/2], paddles
    /// never leave their vertical edge (X within machine bounds; only
    /// Y is ever written), and the ball stays well-formed. The ball's
    /// position is not constrained here: it may leave the arena
    /// horizontally, which ends the point.
    pub open spec fn valid(self) -> bool {
        &&& self.left.side == PlayerSide::Left
        &&& self.right.side == PlayerSide::Right
        &&& self.left.wf()
        &&& self.right.wf()
        &&& self.left.min_y() <= self.left_pos.y <= self.left.max_y()
        &&& self.right.min_y() <= self.right_pos.y <= self.right.max_y()
        &&& -MAX_COORD <= self.left_pos.x <= MAX_COORD
        &&& -MAX_COORD <= self.right_pos.x <= MAX_COORD
        &&& self.ball.wf()
    }

    /// Builds the starting world: paddles against the left and right
    /// edges at half arena height, ball at the arena center with the
    /// configured velocity.
    pub fn new() -> (s: GameState)
        ensures
            s.valid(),
            s.left.side == PlayerSide::Left,
            s.right.side == PlayerSide::Right,
            s.left.width == PLAYER_START_WIDTH,
            s.left.height == PLAYER_START_HEIGHT,
            s.right.width == PLAYER_START_WIDTH,
            s.right.height == PLAYER_START_HEIGHT,
            s.left_pos.x == PLAYER_START_WIDTH / 2,
            s.left_pos.y == ARENA_HEIGHT / 2,
            s.right_pos.x == ARENA_WIDTH - PLAYER_START_WIDTH / 2,
            s.right_pos.y == ARENA_HEIGHT / 2,
            s.ball.velocity_x == BALL_VELOCITY_X,
            s.ball.velocity_y == BALL_VELOCITY_Y,
            s.ball.radius == BALL_RADIUS,
            s.ball_pos.x == ARENA_WIDTH / 2,
            s.ball_pos.y == ARENA_HEIGHT / 2,
    {
        let (left, left_pos, right, right_pos) = initialise_players();
        let (ball, ball_pos) = initialise_ball();
        GameState { left, left_pos, right, right_pos, ball, ball_pos }
    }
}

/// Places the two paddles: each half a paddle width in from its edge,
/// vertically centered.
pub fn initialise_players() -> (r: (Player, Position, Player, Position))
    ensures
        r.0.side == PlayerSide::Left,
        r.0.width == PLAYER_START_WIDTH,
        r.0.height == PLAYER_START_HEIGHT,
        r.0.wf(),
        r.1.x == PLAYER_START_WIDTH / 2,
        r.1.y == ARENA_HEIGHT / 2,
        r.2.side == PlayerSide::Right,
        r.2.width == PLAYER_START_WIDTH,
        r.2.height == PLAYER_START_HEIGHT,
        r.2.wf(),
        r.3.x == ARENA_WIDTH - PLAYER_START_WIDTH / 2,
        r.3.y == ARENA_HEIGHT / 2,
{
    let arena_half_height: i64 = ARENA_HEIGHT / 2;
    let left_player = Player::new(PlayerSide::Left);
    let right_player = Player::new(PlayerSide::Right);
    let left_transform = Position { x: left_player.width / 2, y: arena_half_height };
    let right_transform = Position { x: ARENA_WIDTH - right_player.width / 2, y: arena_half_height };
    (left_player, left_transform, right_player, right_transform)
}

/// Places the ball at the arena center with the configured velocity
/// and radius.
pub fn initialise_ball() -> (r: (Ball, Position))
    ensures
        r.0.velocity_x == BALL_VELOCITY_X,
        r.0.velocity_y == BALL_VELOCITY_Y,
        r.0.radius == BALL_RADIUS,
        r.0.wf(),
        r.1.x == ARENA_WIDTH / 2,
        r.1.y == ARENA_HEIGHT / 2,
{
    let local_transform = Position { x: ARENA_WIDTH / 2, y: ARENA_HEIGHT / 2 };
    let ball = Ball { velocity_x: BALL_VELOCITY_X, velocity_y: BALL_VELOCITY_Y, radius: BALL_RADIUS };
    (ball, local_transform)
}

} // verus!
