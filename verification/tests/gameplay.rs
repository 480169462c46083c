use pong_core::game::Ball;
use pong_core::game::GameState;
use pong_core::game::Player;
use pong_core::game::PlayerSide;
use pong_core::game::Position;
use pong_core::systems::ball::point_in_rect;
use pong_core::systems::ball::BallBounceSystem;
use pong_core::systems::ball::BallMovementSystem;
use pong_core::systems::player::PlayerMovementSystem;

fn paddle(side: PlayerSide) -> Player {
    Player { side, width: 4_000, height: 16_000 }
}

/// A world with both paddles vertically centered and the ball wherever
/// a test wants it.
fn world(ball: Ball, ball_pos: Position) -> GameState {
    GameState {
        left: paddle(PlayerSide::Left),
        left_pos: Position { x: 2_000, y: 50_000 },
        right: paddle(PlayerSide::Right),
        right_pos: Position { x: 98_000, y: 50_000 },
        ball,
        ball_pos,
    }
}

#[test]
fn initial_world_placement() {
    let s = GameState::new();
    assert_eq!(s.left.side, PlayerSide::Left);
    assert_eq!(s.right.side, PlayerSide::Right);
    assert_eq!(s.left.width, 4_000);
    assert_eq!(s.left.height, 16_000);
    assert_eq!(s.left_pos, Position { x: 2_000, y: 50_000 });
    assert_eq!(s.right_pos, Position { x: 98_000, y: 50_000 });
    assert_eq!(s.ball_pos, Position { x: 50_000, y: 50_000 });
    assert_eq!(s.ball.velocity_x, 75);
    assert_eq!(s.ball.velocity_y, 50);
    assert_eq!(s.ball.radius, 2_000);
}

#[test]
fn point_on_each_boundary_is_inside() {
    // Rectangle [10, 30] x [-5, 25].
    assert!(point_in_rect(10, 0, 10, -5, 30, 25)); // x = left
    assert!(point_in_rect(30, 0, 10, -5, 30, 25)); // x = right
    assert!(point_in_rect(20, -5, 10, -5, 30, 25)); // y = bottom
    assert!(point_in_rect(20, 25, 10, -5, 30, 25)); // y = top
    assert!(point_in_rect(10, -5, 10, -5, 30, 25)); // a corner
    assert!(point_in_rect(20, 0, 10, -5, 30, 25)); // interior
}

#[test]
fn point_one_outside_any_boundary_is_outside() {
    assert!(!point_in_rect(9, 0, 10, -5, 30, 25));
    assert!(!point_in_rect(31, 0, 10, -5, 30, 25));
    assert!(!point_in_rect(20, -6, 10, -5, 30, 25));
    assert!(!point_in_rect(20, 26, 10, -5, 30, 25));
}

#[test]
fn wall_bounce_flips_at_bottom_when_moving_down() {
    let mut bounce = BallBounceSystem;
    let mut s = world(
        Ball { velocity_x: 0, velocity_y: -50, radius: 2_000 },
        Position { x: 50_000, y: 1_500 },
    );
    bounce.run(&mut s);
    assert_eq!(s.ball.velocity_y, 50);
}

#[test]
fn wall_bounce_leaves_bottom_contact_moving_up() {
    let mut bounce = BallBounceSystem;
    let mut s = world(
        Ball { velocity_x: 0, velocity_y: 50, radius: 2_000 },
        Position { x: 50_000, y: 1_500 },
    );
    bounce.run(&mut s);
    assert_eq!(s.ball.velocity_y, 50);
}

#[test]
fn wall_bounce_flips_at_top_when_moving_up() {
    // Ball at (50.0, 98.5), radius 2, vy = +50: 98.5 >= 100 - 2 = 98,
    // so the bounce flips vy to -50.
    let mut bounce = BallBounceSystem;
    let mut s = world(
        Ball { velocity_x: 0, velocity_y: 50, radius: 2_000 },
        Position { x: 50_000, y: 98_500 },
    );
    bounce.run(&mut s);
    assert_eq!(s.ball.velocity_y, -50);
}

#[test]
fn wall_bounce_leaves_ball_away_from_walls() {
    let mut bounce = BallBounceSystem;
    let mut s = world(
        Ball { velocity_x: 0, velocity_y: -50, radius: 2_000 },
        Position { x: 50_000, y: 50_000 },
    );
    bounce.run(&mut s);
    assert_eq!(s.ball.velocity_y, -50);
}

#[test]
fn wall_bounce_leaves_resting_ball() {
    let mut bounce = BallBounceSystem;
    let mut s = world(
        Ball { velocity_x: 0, velocity_y: 0, radius: 2_000 },
        Position { x: 50_000, y: 1_000 },
    );
    bounce.run(&mut s);
    assert_eq!(s.ball.velocity_y, 0);
}

#[test]
fn wall_bounce_does_not_reflip_on_second_pass() {
    // Same position, velocity sign already points away from the wall:
    // a second pass leaves it alone.
    let mut bounce = BallBounceSystem;
    let mut s = world(
        Ball { velocity_x: 0, velocity_y: -50, radius: 2_000 },
        Position { x: 50_000, y: 1_500 },
    );
    bounce.run(&mut s);
    assert_eq!(s.ball.velocity_y, 50);
    bounce.run(&mut s);
    assert_eq!(s.ball.velocity_y, 50);
}

#[test]
fn left_paddle_reflects_incoming_ball() {
    // Left paddle at (2.0, 50.0), 4 x 16, ball at (4.0, 50.0) radius 2,
    // vx = -75 moving into the paddle: flipped to +75.
    let mut bounce = BallBounceSystem;
    let mut s = world(
        Ball { velocity_x: -75, velocity_y: 0, radius: 2_000 },
        Position { x: 4_000, y: 50_000 },
    );
    bounce.run(&mut s);
    assert_eq!(s.ball.velocity_x, 75);
    assert_eq!(s.ball.velocity_y, 0);
}

#[test]
fn left_paddle_leaves_outgoing_ball() {
    // Same contact but vx = +75 moving away: the guard prevents the flip.
    let mut bounce = BallBounceSystem;
    let mut s = world(
        Ball { velocity_x: 75, velocity_y: 0, radius: 2_000 },
        Position { x: 4_000, y: 50_000 },
    );
    bounce.run(&mut s);
    assert_eq!(s.ball.velocity_x, 75);
}

#[test]
fn right_paddle_reflects_incoming_ball() {
    let mut bounce = BallBounceSystem;
    let mut s = world(
        Ball { velocity_x: 75, velocity_y: 0, radius: 2_000 },
        Position { x: 96_000, y: 50_000 },
    );
    bounce.run(&mut s);
    assert_eq!(s.ball.velocity_x, -75);
}

#[test]
fn paddle_miss_leaves_velocity() {
    // Ball level with the left edge but far above the paddle.
    let mut bounce = BallBounceSystem;
    let mut s = world(
        Ball { velocity_x: -75, velocity_y: 0, radius: 2_000 },
        Position { x: 4_000, y: 80_000 },
    );
    bounce.run(&mut s);
    assert_eq!(s.ball.velocity_x, -75);
}

#[test]
fn bounce_touches_nothing_else() {
    let mut bounce = BallBounceSystem;
    let mut s = world(
        Ball { velocity_x: -75, velocity_y: -50, radius: 2_000 },
        Position { x: 4_000, y: 50_000 },
    );
    bounce.run(&mut s);
    assert_eq!(s.ball_pos, Position { x: 4_000, y: 50_000 });
    assert_eq!(s.left_pos, Position { x: 2_000, y: 50_000 });
    assert_eq!(s.right_pos, Position { x: 98_000, y: 50_000 });
    assert_eq!(s.ball.radius, 2_000);
}

#[test]
fn movement_advances_ball_by_velocity_times_dt() {
    // Ball at (50, 50), velocity (75, 50) units/s, dt = 0.1 s:
    // new position (57.5, 55.0).
    let mut movement = BallMovementSystem;
    let mut s = world(
        Ball { velocity_x: 75, velocity_y: 50, radius: 2_000 },
        Position { x: 50_000, y: 50_000 },
    );
    movement.run(&mut s, 100);
    assert_eq!(s.ball_pos, Position { x: 57_500, y: 55_000 });
    // Movement does not touch velocities or paddles.
    assert_eq!(s.ball.velocity_x, 75);
    assert_eq!(s.ball.velocity_y, 50);
    assert_eq!(s.left_pos.y, 50_000);
}

#[test]
fn movement_with_zero_dt_stands_still() {
    let mut movement = BallMovementSystem;
    let mut s = world(
        Ball { velocity_x: 75, velocity_y: 50, radius: 2_000 },
        Position { x: 50_000, y: 50_000 },
    );
    movement.run(&mut s, 0);
    assert_eq!(s.ball_pos, Position { x: 50_000, y: 50_000 });
}

#[test]
fn movement_lets_ball_exit_arena_horizontally() {
    let mut movement = BallMovementSystem;
    let mut s = world(
        Ball { velocity_x: -75, velocity_y: 0, radius: 2_000 },
        Position { x: 1_000, y: 50_000 },
    );
    movement.run(&mut s, 1_000);
    assert_eq!(s.ball_pos.x, -74_000);
}

#[test]
fn paddle_moves_by_scaled_axis() {
    // Full deflection 1.0 moves 1.2 units; -0.5 moves -0.6 units.
    let mut paddles = PlayerMovementSystem;
    let mut s = GameState::new();
    paddles.run(&mut s, Some(1_000), Some(-500));
    assert_eq!(s.left_pos.y, 51_200);
    assert_eq!(s.right_pos.y, 49_400);
    // X and the ball are untouched.
    assert_eq!(s.left_pos.x, 2_000);
    assert_eq!(s.right_pos.x, 98_000);
    assert_eq!(s.ball_pos, Position { x: 50_000, y: 50_000 });
}

#[test]
fn paddle_scaling_truncates_toward_zero() {
    // 1200 * 999 / 1000 = 1198.8, truncated to 1198 either way.
    let mut paddles = PlayerMovementSystem;
    let mut s = GameState::new();
    paddles.run(&mut s, Some(999), Some(-999));
    assert_eq!(s.left_pos.y, 51_198);
    assert_eq!(s.right_pos.y, 48_802);
}

#[test]
fn absent_axis_reading_leaves_paddle() {
    let mut paddles = PlayerMovementSystem;
    let mut s = GameState::new();
    paddles.run(&mut s, None, Some(200));
    assert_eq!(s.left_pos.y, 50_000);
    assert_eq!(s.right_pos.y, 50_240);
}

#[test]
fn paddle_clamps_at_range_ends() {
    let mut paddles = PlayerMovementSystem;
    let mut s = GameState::new();
    s.left_pos.y = 91_500;
    s.right_pos.y = 8_300;
    paddles.run(&mut s, Some(1_000), Some(-1_000));
    assert_eq!(s.left_pos.y, 92_000); // ARENA_HEIGHT - height/2
    assert_eq!(s.right_pos.y, 8_000); // height/2
}

#[test]
fn paddle_stays_in_range_over_any_input_sequence() {
    let mut paddles = PlayerMovementSystem;
    let mut s = GameState::new();
    let inputs: [Option<i64>; 12] = [
        Some(1_000),
        Some(1_000),
        None,
        Some(-1_000),
        Some(777),
        Some(-3),
        Some(1_000_000),
        Some(-1_000_000),
        None,
        Some(500),
        Some(1_000_000),
        Some(1_000_000),
    ];
    for (i, axis) in inputs.iter().enumerate() {
        let other = inputs[inputs.len() - 1 - i];
        paddles.run(&mut s, *axis, other);
        assert!(8_000 <= s.left_pos.y && s.left_pos.y <= 92_000);
        assert!(8_000 <= s.right_pos.y && s.right_pos.y <= 92_000);
    }
}

#[test]
fn frame_order_movement_then_bounce() {
    // One whole frame at the starting world with the ball just under
    // the top wall: movement first, then bounce flips vy.
    let mut movement = BallMovementSystem;
    let mut bounce = BallBounceSystem;
    let mut s = world(
        Ball { velocity_x: 75, velocity_y: 50, radius: 2_000 },
        Position { x: 50_000, y: 97_000 },
    );
    movement.run(&mut s, 100);
    assert_eq!(s.ball_pos, Position { x: 57_500, y: 102_000 });
    bounce.run(&mut s);
    assert_eq!(s.ball.velocity_y, -50);
    assert_eq!(s.ball.velocity_x, 75);
}
