use pong::entity::{Entity, WallLocation};
use pong::geometry::Vector;
use pong::input::{Intent, Intents};
use pong::score::ScoreBoard;
use pong::world::World;

fn idle() -> Intents {
    Intents { player0: Intent::Stay, player1: Intent::Stay }
}

fn units(x: i64, y: i64) -> Vector {
    Vector { x: x * 60, y: y * 60 }
}

fn ball_at(position: Vector, velocity: Vector) -> Entity {
    let mut ball = Entity::ball();
    ball.position = position;
    ball.velocity = Some(velocity);
    ball
}

fn block(position: Vector, size: Vector) -> Entity {
    Entity {
        position,
        size,
        velocity: None,
        paddle: None,
        wall: None,
        collider: true,
        ball: false,
    }
}

fn world_of(entities: Vec<Entity>) -> World {
    World { entities, scoreboard: ScoreBoard::new() }
}

#[test]
fn a_new_world_holds_the_arena() {
    let world = World::new();
    assert_eq!(world.scoreboard, ScoreBoard(0, 0));
    assert_eq!(
        world.entities,
        vec![
            Entity::paddle(0, -430 * 60),
            Entity::paddle(1, 430 * 60),
            Entity::ball(),
            Entity::wall(WallLocation::Left),
            Entity::wall(WallLocation::Right),
            Entity::wall(WallLocation::Bottom),
            Entity::wall(WallLocation::Top),
        ]
    );
    assert!(world.is_well_formed());
    assert_eq!(world.find_ball(), Some(2));
}

#[test]
fn a_world_needs_exactly_one_ball() {
    let none = world_of(vec![Entity::paddle(0, 0), Entity::wall(WallLocation::Top)]);
    assert_eq!(none.find_ball(), None);
    assert!(!none.is_well_formed());
    assert!(!none.can_check_for_collisions());
    let two = world_of(vec![Entity::ball(), Entity::paddle(0, 0), Entity::ball()]);
    assert_eq!(two.find_ball(), None);
    let empty = world_of(vec![]);
    assert_eq!(empty.find_ball(), None);
    let one = world_of(vec![Entity::paddle(0, 0), Entity::ball()]);
    assert_eq!(one.find_ball(), Some(1));
}

#[test]
fn a_ball_without_velocity_is_not_the_ball() {
    let mut still = Entity::ball();
    still.velocity = None;
    assert_eq!(world_of(vec![still]).find_ball(), None);
    assert_eq!(world_of(vec![still, Entity::ball()]).find_ball(), Some(1));
}

#[test]
fn the_ball_must_be_able_to_turn_round() {
    let stuck = ball_at(units(0, 0), Vector { x: i64::MIN, y: 0 });
    assert_eq!(world_of(vec![stuck]).find_ball(), None);
    let fast = ball_at(units(0, 0), Vector { x: -i64::MAX, y: i64::MAX });
    assert_eq!(world_of(vec![fast]).find_ball(), Some(0));
}

#[test]
fn paddles_follow_the_intents() {
    let mut world = World::new();
    world.move_paddles(Intents { player0: Intent::Up, player1: Intent::Down });
    assert_eq!(world.entities[0].position, Vector { x: -25800, y: 500 });
    assert_eq!(world.entities[1].position, Vector { x: 25800, y: -500 });
    for place in 2..7 {
        assert_eq!(world.entities[place], World::new().entities[place]);
    }
    assert_eq!(world.scoreboard, ScoreBoard(0, 0));
}

#[test]
fn paddles_never_leave_the_band() {
    let mut world = World::new();
    let moves = [Intent::Up, Intent::Up, Intent::Down, Intent::Stay, Intent::Up];
    for tick in 0..400 {
        let intents = Intents {
            player0: moves[tick % 5],
            player1: if tick % 3 == 0 { Intent::Stay } else { Intent::Down },
        };
        assert!(world.checked_tick(intents).is_some());
        for place in 0..2 {
            let y = world.entities[place].position.y;
            assert!(-235 * 60 <= y && y <= 235 * 60);
        }
    }
    assert_eq!(world.entities[0].position.y, 235 * 60);
    assert_eq!(world.entities[1].position.y, -235 * 60);
}

#[test]
fn after_one_tick_the_ball_has_advanced_by_its_velocity() {
    let mut world = World::new();
    assert!(world.can_apply_velocity());
    world.apply_velocity();
    assert_eq!(world.entities[2].position, Vector { x: 400, y: 400 });
    let x = world.entities[2].position.x as f64 / 60.0;
    let y = world.entities[2].position.y as f64 / 60.0;
    assert!((x - 400.0 / 60.0).abs() < 1e-12);
    assert!((y - 400.0 / 60.0).abs() < 1e-12);
    for place in [0, 1, 3, 4, 5, 6] {
        assert_eq!(world.entities[place], World::new().entities[place]);
    }
}

#[test]
fn motion_is_the_same_every_time() {
    let mut first = World::new();
    let mut second = World::new();
    for _ in 0..10 {
        first.apply_velocity();
        second.apply_velocity();
    }
    assert_eq!(first, second);
    assert_eq!(first.entities[2].position, Vector { x: 4000, y: 4000 });
}

#[test]
fn motion_stops_where_the_range_ends() {
    let mut world =
        world_of(vec![ball_at(Vector { x: i64::MAX - 1, y: 0 }, Vector { x: 2, y: 0 })]);
    assert!(!world.can_apply_velocity());
    let before = world.clone();
    assert_eq!(world.checked_tick(idle()), None);
    assert_eq!(world, before);
}

#[test]
fn no_contact_no_signal() {
    let mut world = World::new();
    assert!(world.can_check_for_collisions());
    assert_eq!(world.check_for_collisions(), 0);
    assert_eq!(world, World::new());
}

#[test]
fn a_contact_on_the_left_turns_the_ball() {
    let mut world = world_of(vec![
        ball_at(units(0, 0), Vector { x: 1, y: 0 }),
        block(units(20, 0), units(20, 100)),
    ]);
    assert_eq!(world.check_for_collisions(), 1);
    assert_eq!(world.entities[0].velocity, Some(Vector { x: -1, y: 0 }));
    assert_eq!(world.entities[0].position, units(0, 0));
    assert_eq!(world.scoreboard, ScoreBoard(0, 0));
}

#[test]
fn a_contact_on_the_right_leaves_a_ball_that_moves_right() {
    let mut world = world_of(vec![
        ball_at(units(0, 0), Vector { x: 1, y: 0 }),
        block(units(-20, 0), units(20, 100)),
    ]);
    assert_eq!(world.check_for_collisions(), 1);
    assert_eq!(world.entities[0].velocity, Some(Vector { x: 1, y: 0 }));
}

#[test]
fn the_left_wall_is_a_goal_for_player_1() {
    let mut world = World::new();
    world.scoreboard = ScoreBoard(4, 7);
    world.entities[2] = ball_at(units(-438, 150), Vector { x: -400, y: 400 });
    assert_eq!(world.check_for_collisions(), 1);
    assert_eq!(world.scoreboard, ScoreBoard(4, 8));
    assert_eq!(world.entities[2].position, units(0, 150));
    assert_eq!(world.entities[2].velocity, Some(Vector { x: 400, y: 400 }));
}

#[test]
fn the_right_wall_is_a_goal_for_player_0() {
    let mut world = World::new();
    world.scoreboard = ScoreBoard(4, 7);
    world.entities[2] = ball_at(units(438, -150), Vector { x: 400, y: 400 });
    assert_eq!(world.check_for_collisions(), 1);
    assert_eq!(world.scoreboard, ScoreBoard(5, 7));
    assert_eq!(world.entities[2].position, units(0, -150));
    assert_eq!(world.entities[2].velocity, Some(Vector { x: -400, y: 400 }));
}

#[test]
fn ball_flush_with_the_right_wall_scores_without_turning() {
    let mut right_wall = Entity::wall(WallLocation::Right);
    right_wall.position = units(450, 0);
    right_wall.size = units(10, 620);
    let mut world = world_of(vec![ball_at(units(440, 0), Vector { x: 1, y: 0 }), right_wall]);
    assert_eq!(world.check_for_collisions(), 1);
    assert_eq!(world.scoreboard, ScoreBoard(1, 0));
    assert_eq!(world.entities[0].position, units(0, 0));
    assert_eq!(world.entities[0].velocity, Some(Vector { x: 1, y: 0 }));
    assert_eq!(world.entities[1], right_wall);
}

#[test]
fn top_and_bottom_walls_turn_the_ball_without_a_goal() {
    let mut world = World::new();
    world.entities[2] = ball_at(units(100, 282), Vector { x: 400, y: 400 });
    assert_eq!(world.check_for_collisions(), 1);
    assert_eq!(world.entities[2].velocity, Some(Vector { x: 400, y: -400 }));
    assert_eq!(world.entities[2].position, units(100, 282));
    assert_eq!(world.scoreboard, ScoreBoard(0, 0));
    world.entities[2] = ball_at(units(100, -282), Vector { x: 400, y: -400 });
    assert_eq!(world.check_for_collisions(), 1);
    assert_eq!(world.entities[2].velocity, Some(Vector { x: 400, y: 400 }));
    assert_eq!(world.scoreboard, ScoreBoard(0, 0));
}

#[test]
fn a_paddle_turns_the_ball() {
    let mut world = World::new();
    world.entities[2] = ball_at(units(408, 30), Vector { x: 400, y: 400 });
    assert_eq!(world.check_for_collisions(), 1);
    assert_eq!(world.entities[2].velocity, Some(Vector { x: -400, y: 400 }));
    assert_eq!(world.entities[2].position, units(408, 30));
    assert_eq!(world.scoreboard, ScoreBoard(0, 0));
}

#[test]
fn the_ball_is_not_tested_against_itself() {
    let mut ball = ball_at(units(0, 0), Vector { x: 400, y: 400 });
    ball.collider = true;
    let mut world = world_of(vec![ball, block(units(200, 200), units(10, 10))]);
    assert_eq!(world.check_for_collisions(), 0);
    assert_eq!(world.entities[0], ball);
}

#[test]
fn entities_that_are_no_colliders_are_passed_by() {
    let mut ghost = block(units(10, 0), units(20, 100));
    ghost.collider = false;
    let mut world = world_of(vec![ball_at(units(0, 0), Vector { x: 1, y: 0 }), ghost]);
    assert_eq!(world.check_for_collisions(), 0);
    assert_eq!(world.entities[0].velocity, Some(Vector { x: 1, y: 0 }));
}

#[test]
fn contacts_in_one_tick_add_up() {
    // A block to the right and a block above: both axes turn in one scan.
    let mut world = world_of(vec![
        block(units(20, 0), units(20, 100)),
        ball_at(units(0, 0), Vector { x: 3, y: 4 }),
        block(units(0, 20), units(100, 20)),
    ]);
    assert_eq!(world.check_for_collisions(), 2);
    assert_eq!(world.entities[1].velocity, Some(Vector { x: -3, y: -4 }));
}

#[test]
fn a_goal_moves_the_ball_before_the_next_test() {
    // The second block overlaps the ball only where the goal has put it.
    let mut goal = Entity::wall(WallLocation::Left);
    goal.position = units(-100, 0);
    goal.size = units(30, 30);
    let mut world = world_of(vec![
        ball_at(units(-100, 0), Vector { x: -5, y: 0 }),
        goal,
        block(units(20, 0), units(20, 100)),
        block(units(-120, 0), units(20, 100)),
    ]);
    assert_eq!(world.check_for_collisions(), 2);
    assert_eq!(world.scoreboard, ScoreBoard(0, 1));
    assert_eq!(world.entities[0].position, units(0, 0));
    assert_eq!(world.entities[0].velocity, Some(Vector { x: -5, y: 0 }));
}

#[test]
fn scores_must_fit() {
    let mut world = World::new();
    world.scoreboard = ScoreBoard(u64::MAX, 0);
    world.entities[2] = ball_at(units(438, 150), Vector { x: 400, y: 400 });
    assert!(!world.can_check_for_collisions());
    world.entities[2] = ball_at(units(-438, 150), Vector { x: -400, y: 400 });
    assert!(world.can_check_for_collisions());
    assert_eq!(world.check_for_collisions(), 1);
    assert_eq!(world.scoreboard, ScoreBoard(u64::MAX, 1));
}

#[test]
fn a_tick_runs_the_three_stages_in_order() {
    let mut world = World::new();
    let intents = Intents { player0: Intent::Up, player1: Intent::Down };
    let mut staged = World::new();
    staged.move_paddles(intents);
    staged.apply_velocity();
    let contacts = staged.check_for_collisions();
    assert_eq!(world.tick(intents), contacts);
    assert_eq!(world, staged);
    assert_eq!(world.entities[0].position.y, 500);
    assert_eq!(world.entities[1].position.y, -500);
    assert_eq!(world.entities[2].position, Vector { x: 400, y: 400 });
}

#[test]
fn a_checked_tick_is_a_tick() {
    let mut checked = World::new();
    let mut plain = World::new();
    for _ in 0..200 {
        let contacts = plain.tick(idle());
        assert_eq!(checked.checked_tick(idle()), Some(contacts));
        assert_eq!(checked, plain);
    }
}

#[test]
fn a_paddle_with_a_velocity_is_steered_first_and_then_moved() {
    let mut drifting = Entity::paddle(0, 0);
    drifting.velocity = Some(Vector { x: 0, y: 1000 });
    drifting.position.y = 14000;
    let mut world = world_of(vec![drifting, ball_at(units(0, -200), Vector { x: 0, y: 0 })]);
    world.tick(Intents { player0: Intent::Up, player1: Intent::Stay });
    assert_eq!(world.entities[0].position.y, 15100);
}

#[test]
fn a_match_plays_on() {
    let mut world = World::new();
    let walls: Vec<Entity> = world.entities[3..].to_vec();
    let mut signals = 0;
    let mut last = world.scoreboard;
    for _ in 0..20000 {
        let contacts = world.checked_tick(idle());
        assert!(contacts.is_some());
        signals += contacts.unwrap();
        assert!(world.scoreboard.0 >= last.0 && world.scoreboard.1 >= last.1);
        assert!(world.scoreboard.0 + world.scoreboard.1 <= last.0 + last.1 + 1);
        last = world.scoreboard;
        assert_eq!(world.entities.len(), 7);
        assert_eq!(&world.entities[3..], &walls[..]);
        assert!(world.is_well_formed());
        let velocity = world.entities[2].velocity.unwrap();
        assert_eq!((velocity.x.abs(), velocity.y.abs()), (400, 400));
    }
    assert!(signals > 0);
    assert!(world.scoreboard.0 + world.scoreboard.1 > 0);
}

#[test]
fn a_ball_behind_a_paddle_meets_the_paddle_and_the_wall() {
    let mut world = World::new();
    world.entities[2] = ball_at(units(-438, 50), Vector { x: -400, y: 400 });
    assert_eq!(world.check_for_collisions(), 2);
    assert_eq!(world.scoreboard, ScoreBoard(0, 1));
    assert_eq!(world.entities[2].position, units(0, 50));
    assert_eq!(world.entities[2].velocity, Some(Vector { x: 400, y: 400 }));
}
