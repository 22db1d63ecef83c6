use pong::arena::{
    BALL_SIZE, BOTTOM_WALL, LEFT_WALL, PADDLE_BOTTOM_BOUND, PADDLE_HEIGHT, PADDLE_SPEED,
    PADDLE_TOP_BOUND, PADDLE_WIDTH, RIGHT_WALL, STEPS_PER_UNIT, TICK_RATE, TOP_WALL,
    WALL_THICKNESS,
};
use pong::entity::{Entity, WallLocation};
use pong::geometry::{Collision, Vector};
use pong::input::{Intent, Intents};

fn both(intent: Intent) -> Intents {
    Intents { player0: intent, player1: intent }
}

#[test]
fn arena_constants_in_steps() {
    assert_eq!(STEPS_PER_UNIT, 60);
    assert_eq!(TICK_RATE, 60);
    assert_eq!(LEFT_WALL, -27000);
    assert_eq!(RIGHT_WALL, 27000);
    assert_eq!(BOTTOM_WALL, -18000);
    assert_eq!(TOP_WALL, 18000);
    assert_eq!(WALL_THICKNESS, 600);
    assert_eq!(PADDLE_WIDTH, 1200);
    assert_eq!(PADDLE_HEIGHT, 7200);
    assert_eq!(BALL_SIZE, 1800);
    assert_eq!(PADDLE_SPEED, 500);
}

#[test]
fn paddle_band_is_235_units_either_way() {
    assert_eq!(PADDLE_BOTTOM_BOUND, -235 * STEPS_PER_UNIT);
    assert_eq!(PADDLE_TOP_BOUND, 235 * STEPS_PER_UNIT);
    assert_eq!(PADDLE_BOTTOM_BOUND, -14100);
    assert_eq!(PADDLE_TOP_BOUND, 14100);
}

#[test]
fn wall_positions() {
    assert_eq!(WallLocation::Left.position(), Vector { x: -27000, y: 0 });
    assert_eq!(WallLocation::Right.position(), Vector { x: 27000, y: 0 });
    assert_eq!(WallLocation::Bottom.position(), Vector { x: 0, y: -18000 });
    assert_eq!(WallLocation::Top.position(), Vector { x: 0, y: 18000 });
}

#[test]
fn wall_sizes() {
    let upright = Vector { x: 10 * STEPS_PER_UNIT, y: 610 * STEPS_PER_UNIT };
    let flat = Vector { x: 910 * STEPS_PER_UNIT, y: 10 * STEPS_PER_UNIT };
    assert_eq!(WallLocation::Left.size(), upright);
    assert_eq!(WallLocation::Right.size(), upright);
    assert_eq!(WallLocation::Bottom.size(), flat);
    assert_eq!(WallLocation::Top.size(), flat);
}

#[test]
fn a_wall_is_a_collider_at_its_location() {
    let wall = Entity::wall(WallLocation::Top);
    assert_eq!(wall.position, WallLocation::Top.position());
    assert_eq!(wall.size, WallLocation::Top.size());
    assert_eq!(wall.wall, Some(WallLocation::Top));
    assert!(wall.collider);
    assert!(!wall.ball);
    assert_eq!(wall.velocity, None);
    assert_eq!(wall.paddle, None);
}

#[test]
fn a_new_paddle_and_a_new_ball() {
    let paddle = Entity::paddle(1, 25800);
    assert_eq!(paddle.position, Vector { x: 25800, y: 0 });
    assert_eq!(paddle.size, Vector { x: 1200, y: 7200 });
    assert_eq!(paddle.paddle, Some(1));
    assert!(paddle.collider && !paddle.ball);
    let ball = Entity::ball();
    assert_eq!(ball.position, Vector { x: 0, y: 0 });
    assert_eq!(ball.size, Vector { x: 1800, y: 1800 });
    assert_eq!(ball.velocity, Some(Vector { x: 400, y: 400 }));
    assert!(ball.ball && !ball.collider);
}

#[test]
fn a_paddle_moves_a_tick_of_paddle_speed() {
    let mut paddle = Entity::paddle(0, -25800);
    paddle.steer(both(Intent::Up));
    assert_eq!(paddle.position, Vector { x: -25800, y: 500 });
    paddle.steer(both(Intent::Down));
    paddle.steer(both(Intent::Down));
    assert_eq!(paddle.position, Vector { x: -25800, y: -500 });
    paddle.steer(both(Intent::Stay));
    assert_eq!(paddle.position, Vector { x: -25800, y: -500 });
    // 500 steps are 500/60 units: the paddle speed times the length of a tick.
    let moved_units = 500.0_f64 / STEPS_PER_UNIT as f64;
    assert!((moved_units - 500.0 / 60.0).abs() < 1e-12);
}

#[test]
fn a_paddle_follows_its_own_player() {
    let intents = Intents { player0: Intent::Up, player1: Intent::Down };
    let mut left = Entity::paddle(0, -25800);
    let mut right = Entity::paddle(1, 25800);
    let mut stray = Entity::paddle(7, 0);
    left.steer(intents);
    right.steer(intents);
    stray.steer(intents);
    assert_eq!(left.position.y, 500);
    assert_eq!(right.position.y, -500);
    assert_eq!(stray.position.y, 0);
}

#[test]
fn a_paddle_stops_at_the_ends_of_the_band() {
    let mut paddle = Entity::paddle(0, -25800);
    for _ in 0..28 {
        paddle.steer(both(Intent::Up));
    }
    assert_eq!(paddle.position.y, 14000);
    paddle.steer(both(Intent::Up));
    assert_eq!(paddle.position.y, 14100);
    paddle.steer(both(Intent::Up));
    assert_eq!(paddle.position.y, 14100);
    for _ in 0..100 {
        paddle.steer(both(Intent::Down));
        assert!(-14100 <= paddle.position.y && paddle.position.y <= 14100);
    }
    assert_eq!(paddle.position.y, -14100);
}

#[test]
fn a_paddle_outside_the_band_is_brought_back() {
    let mut high = Entity::paddle(0, 0);
    high.position.y = i64::MAX;
    high.steer(both(Intent::Up));
    assert_eq!(high.position.y, 14100);
    let mut low = Entity::paddle(0, 0);
    low.position.y = i64::MIN;
    low.steer(both(Intent::Down));
    assert_eq!(low.position.y, -14100);
    let mut idle = Entity::paddle(0, 0);
    idle.position.y = 20000;
    idle.steer(both(Intent::Stay));
    assert_eq!(idle.position.y, 14100);
}

#[test]
fn steering_leaves_other_entities_alone() {
    let mut ball = Entity::ball();
    ball.steer(both(Intent::Up));
    assert_eq!(ball, Entity::ball());
    let mut wall = Entity::wall(WallLocation::Left);
    wall.steer(both(Intent::Down));
    assert_eq!(wall, Entity::wall(WallLocation::Left));
}

#[test]
fn the_ball_advances_by_its_velocity() {
    let mut ball = Entity::ball();
    assert!(ball.can_advance());
    ball.advance();
    assert_eq!(ball.position, Vector { x: 400, y: 400 });
    let in_units = ball.position.x as f64 / STEPS_PER_UNIT as f64;
    assert!((in_units - 400.0 / 60.0).abs() < 1e-12);
    assert!((in_units - 6.667).abs() < 1e-3);
    ball.advance();
    assert_eq!(ball.position, Vector { x: 800, y: 800 });
    assert_eq!(ball.velocity, Some(Vector { x: 400, y: 400 }));
}

#[test]
fn an_entity_without_velocity_stays() {
    let mut wall = Entity::wall(WallLocation::Bottom);
    assert!(wall.can_advance());
    wall.advance();
    assert_eq!(wall, Entity::wall(WallLocation::Bottom));
}

#[test]
fn motion_knows_where_the_range_ends() {
    let mut ball = Entity::ball();
    ball.position = Vector { x: i64::MAX - 400, y: 0 };
    assert!(ball.can_advance());
    ball.advance();
    assert_eq!(ball.position, Vector { x: i64::MAX, y: 400 });
    assert!(!ball.can_advance());
    ball.position = Vector { x: 0, y: i64::MIN };
    ball.velocity = Some(Vector { x: 0, y: -1 });
    assert!(!ball.can_advance());
}

#[test]
fn the_ball_responds_to_a_plain_collider() {
    let mut ball = Entity::ball();
    ball.position = Vector { x: 1234, y: -77 };
    ball.respond(Collision::Left, None);
    assert_eq!(ball.position, Vector { x: 1234, y: -77 });
    assert_eq!(ball.velocity, Some(Vector { x: -400, y: 400 }));
    ball.respond(Collision::Bottom, Some(WallLocation::Top));
    assert_eq!(ball.position, Vector { x: 1234, y: -77 });
    assert_eq!(ball.velocity, Some(Vector { x: -400, y: -400 }));
}

#[test]
fn the_ball_responds_to_a_goal_wall() {
    let mut ball = Entity::ball();
    ball.position = Vector { x: -26000, y: 321 };
    ball.velocity = Some(Vector { x: -400, y: 400 });
    ball.respond(Collision::Right, Some(WallLocation::Left));
    assert_eq!(ball.position, Vector { x: 0, y: 321 });
    assert_eq!(ball.velocity, Some(Vector { x: 400, y: 400 }));
    ball.position.x = 26000;
    ball.respond(Collision::Inside, Some(WallLocation::Right));
    assert_eq!(ball.position, Vector { x: 0, y: 321 });
    assert_eq!(ball.velocity, Some(Vector { x: 400, y: 400 }));
}
