//! A match in the arena goes on for ever: the ball never leaves the arena,
//! so no tick ever runs out of numbers before a score does.

use crate::arena::{
    in_paddle_band, BALL_SIZE, BALL_START_SPEED, GAP_BETWEEN_PADDLE_AND_WALL,
    HALF_WALL_THICKNESS, LEFT_WALL, RIGHT_WALL, STEPS_PER_UNIT, TOP_WALL,
};
use crate::entity::{Entity, WallLocation};
use crate::geometry::Vector;
use crate::input::Intents;
use crate::laws::{lemma_stages_keep_parts, lemma_steered_height_in_band, magnitude};
use crate::world::{Scan, WorldView};
use vstd::prelude::*;

verus! {

/// How far from the centre line the centre of the ball can be without
/// touching a goal wall.
pub const GOAL_REACH: i64 = 430 * STEPS_PER_UNIT;

/// How far above or below the centre the centre of the ball can be without
/// touching the top or the bottom wall.
pub const WALL_REACH: i64 = 280 * STEPS_PER_UNIT;

/// At either reach the edge of the ball lies on the inner face of the wall.
pub proof fn lemma_reaches()
    ensures
        2 * GOAL_REACH + BALL_SIZE == 2 * (RIGHT_WALL - HALF_WALL_THICKNESS),
        2 * WALL_REACH + BALL_SIZE == 2 * (TOP_WALL - HALF_WALL_THICKNESS),
{
}

/// Whether `e` is the paddle of player `owner` on the vertical line `x`, at
/// a legal height.
pub open spec fn is_paddle_in_play(e: Entity, owner: u8, x: i64) -> bool {
    &&& e == (Entity { position: Vector { x, y: e.position.y }, ..Entity::spec_paddle(owner, x) })
    &&& in_paddle_band(e.position.y as int)
}

/// Whether `e` is the ball in play: it flies at its starting speed along
/// both axes, it touches no goal wall, it is at most one tick into the top
/// or the bottom wall, and where it touches one of these it is on its way
/// back.
pub open spec fn is_ball_in_play(e: Entity) -> bool {
    &&& e == (Entity { position: e.position, velocity: e.velocity, ..Entity::spec_ball() })
    &&& e.velocity matches Some(v)
    &&& magnitude(v.x as int) == BALL_START_SPEED
    &&& magnitude(v.y as int) == BALL_START_SPEED
    &&& -GOAL_REACH <= e.position.x <= GOAL_REACH
    &&& -WALL_REACH - BALL_START_SPEED <= e.position.y <= WALL_REACH + BALL_START_SPEED
    &&& e.position.y > WALL_REACH ==> v.y < 0
    &&& e.position.y < -WALL_REACH ==> v.y > 0
}

/// Whether `w` is a match in play: the entities that were set up, of which
/// only the paddles and the ball have moved, and only as far as the game
/// lets them.
pub open spec fn in_play(w: WorldView) -> bool {
    &&& w.entities.len() == 7
    &&& is_paddle_in_play(w.entities[0], 0, (LEFT_WALL + GAP_BETWEEN_PADDLE_AND_WALL) as i64)
    &&& is_paddle_in_play(w.entities[1], 1, (RIGHT_WALL - GAP_BETWEEN_PADDLE_AND_WALL) as i64)
    &&& is_ball_in_play(w.entities[2])
    &&& w.entities[3] == Entity::spec_wall(WallLocation::Left)
    &&& w.entities[4] == Entity::spec_wall(WallLocation::Right)
    &&& w.entities[5] == Entity::spec_wall(WallLocation::Bottom)
    &&& w.entities[6] == Entity::spec_wall(WallLocation::Top)
}

/// A match that starts is in play.
pub proof fn lemma_initial_world_in_play()
    ensures
        in_play(WorldView::initial()),
{
}

/// A match in play is well formed, with the ball at the third place.
pub proof fn lemma_in_play_is_well_formed(w: WorldView)
    requires
        in_play(w),
    ensures
        w.well_formed(),
        w.ball_index() == 2,
        w.paddles_in_band(),
{
    assert(w.ball_at(2));
    assert(w.ball_at(w.ball_index()));
}

/// Whether `e` is the ball of the arena flying at its starting speed,
/// wherever it is.
pub open spec fn is_ball_in_flight(e: Entity) -> bool {
    &&& e == (Entity { position: e.position, velocity: e.velocity, ..Entity::spec_ball() })
    &&& e.velocity matches Some(v)
    &&& magnitude(v.x as int) == BALL_START_SPEED
    &&& magnitude(v.y as int) == BALL_START_SPEED
}

/// Whatever the ball in flight meets that is no wall, it stays where it is
/// and flies on as fast, and no goal is counted.
pub proof fn lemma_meeting_a_paddle(scan: Scan, other: Entity)
    requires
        is_ball_in_flight(scan.ball),
        other.wall is None,
    ensures
        is_ball_in_flight(scan.meet(other).ball),
        scan.meet(other).ball.position == scan.ball.position,
        scan.meet(other).through_left == scan.through_left,
        scan.meet(other).through_right == scan.through_right,
{
}

/// At most one tick beyond its reach, the ball in flight meets the left
/// wall exactly when its centre is beyond the reach on the left; that is a
/// goal, which puts it on the centre line.
pub proof fn lemma_meeting_the_left_wall(scan: Scan)
    requires
        is_ball_in_flight(scan.ball),
        -GOAL_REACH - BALL_START_SPEED <= scan.ball.position.x <= GOAL_REACH + BALL_START_SPEED,
        -WALL_REACH - BALL_START_SPEED <= scan.ball.position.y <= WALL_REACH + BALL_START_SPEED,
    ensures
        is_ball_in_flight(scan.meet(Entity::spec_wall(WallLocation::Left)).ball),
        scan.meet(Entity::spec_wall(WallLocation::Left)).ball.position.y == scan.ball.position.y,
        scan.meet(Entity::spec_wall(WallLocation::Left)).through_right == scan.through_right,
        scan.ball.position.x < -GOAL_REACH ==> {
            &&& scan.meet(Entity::spec_wall(WallLocation::Left)).ball.position.x == 0
            &&& scan.meet(Entity::spec_wall(WallLocation::Left)).through_left == scan.through_left
                + 1
        },
        scan.ball.position.x >= -GOAL_REACH ==> scan.meet(Entity::spec_wall(WallLocation::Left))
            == scan,
{
}

/// The same on the right.
pub proof fn lemma_meeting_the_right_wall(scan: Scan)
    requires
        is_ball_in_flight(scan.ball),
        -GOAL_REACH - BALL_START_SPEED <= scan.ball.position.x <= GOAL_REACH + BALL_START_SPEED,
        -WALL_REACH - BALL_START_SPEED <= scan.ball.position.y <= WALL_REACH + BALL_START_SPEED,
    ensures
        is_ball_in_flight(scan.meet(Entity::spec_wall(WallLocation::Right)).ball),
        scan.meet(Entity::spec_wall(WallLocation::Right)).ball.position.y == scan.ball.position.y,
        scan.meet(Entity::spec_wall(WallLocation::Right)).through_left == scan.through_left,
        scan.ball.position.x > GOAL_REACH ==> {
            &&& scan.meet(Entity::spec_wall(WallLocation::Right)).ball.position.x == 0
            &&& scan.meet(Entity::spec_wall(WallLocation::Right)).through_right
                == scan.through_right + 1
        },
        scan.ball.position.x <= GOAL_REACH ==> scan.meet(Entity::spec_wall(WallLocation::Right))
            == scan,
{
}

/// Between the goal walls, the ball in flight meets the bottom wall exactly
/// when its centre is beyond the reach downwards, and leaves the contact on
/// its way up.
pub proof fn lemma_meeting_the_bottom_wall(scan: Scan)
    requires
        is_ball_in_flight(scan.ball),
        -GOAL_REACH <= scan.ball.position.x <= GOAL_REACH,
        -WALL_REACH - BALL_START_SPEED <= scan.ball.position.y <= WALL_REACH + BALL_START_SPEED,
    ensures
        is_ball_in_flight(scan.meet(Entity::spec_wall(WallLocation::Bottom)).ball),
        scan.meet(Entity::spec_wall(WallLocation::Bottom)).ball.position == scan.ball.position,
        scan.meet(Entity::spec_wall(WallLocation::Bottom)).through_left == scan.through_left,
        scan.meet(Entity::spec_wall(WallLocation::Bottom)).through_right == scan.through_right,
        scan.ball.position.y < -WALL_REACH ==> scan.meet(
            Entity::spec_wall(WallLocation::Bottom),
        ).ball.velocity->0.y > 0,
        scan.ball.position.y >= -WALL_REACH ==> scan.meet(Entity::spec_wall(WallLocation::Bottom))
            == scan,
{
}

/// The same at the top, where the ball leaves the contact on its way down.
pub proof fn lemma_meeting_the_top_wall(scan: Scan)
    requires
        is_ball_in_flight(scan.ball),
        -GOAL_REACH <= scan.ball.position.x <= GOAL_REACH,
        -WALL_REACH - BALL_START_SPEED <= scan.ball.position.y <= WALL_REACH + BALL_START_SPEED,
    ensures
        is_ball_in_flight(scan.meet(Entity::spec_wall(WallLocation::Top)).ball),
        scan.meet(Entity::spec_wall(WallLocation::Top)).ball.position == scan.ball.position,
        scan.meet(Entity::spec_wall(WallLocation::Top)).through_left == scan.through_left,
        scan.meet(Entity::spec_wall(WallLocation::Top)).through_right == scan.through_right,
        scan.ball.position.y > WALL_REACH ==> scan.meet(
            Entity::spec_wall(WallLocation::Top),
        ).ball.velocity->0.y < 0,
        scan.ball.position.y <= WALL_REACH ==> scan.meet(Entity::spec_wall(WallLocation::Top))
            == scan,
{
}

/// A match in play goes on. As long as both scores can still grow by one, a
/// tick can run whatever the players want; it leaves the match in play, and
/// it counts at most one goal.
pub proof fn lemma_match_goes_on(w: WorldView, intents: Intents)
    requires
        in_play(w),
        w.scoreboard.0 < u64::MAX,
        w.scoreboard.1 < u64::MAX,
    ensures
        w.can_tick(intents),
        in_play(w.tick(intents)),
        w.tick(intents).scoreboard.0 >= w.scoreboard.0,
        w.tick(intents).scoreboard.1 >= w.scoreboard.1,
        w.tick(intents).scoreboard.0 + w.tick(intents).scoreboard.1 <= w.scoreboard.0
            + w.scoreboard.1 + 1,
{
    lemma_in_play_is_well_formed(w);
    lemma_stages_keep_parts(w, intents);
    let steered = w.move_paddles(intents);
    lemma_stages_keep_parts(steered, intents);
    lemma_steered_height_in_band(w.entities[0].position.y as int, intents.player0);
    lemma_steered_height_in_band(w.entities[1].position.y as int, intents.player1);
    let moved = steered.apply_velocity();
    assert(moved.ball_index() == 2);
    assert(moved.entities[2] == w.entities[2].steered(intents).moved());
    lemma_scan_of_a_match(moved);
}

/// What the collision stage finds in a match whose ball has just moved:
/// the ball is in play again, and at most one goal is counted.
proof fn lemma_scan_of_a_match(moved: WorldView)
    requires
        moved.entities.len() == 7,
        moved.ball_index() == 2,
        moved.entities[0].is_candidate() && moved.entities[0].wall is None,
        moved.entities[1].is_candidate() && moved.entities[1].wall is None,
        is_ball_in_flight(moved.entities[2]),
        -GOAL_REACH - BALL_START_SPEED <= moved.entities[2].position.x <= GOAL_REACH
            + BALL_START_SPEED,
        -WALL_REACH - BALL_START_SPEED <= moved.entities[2].position.y <= WALL_REACH
            + BALL_START_SPEED,
        moved.entities[3] == Entity::spec_wall(WallLocation::Left),
        moved.entities[4] == Entity::spec_wall(WallLocation::Right),
        moved.entities[5] == Entity::spec_wall(WallLocation::Bottom),
        moved.entities[6] == Entity::spec_wall(WallLocation::Top),
    ensures
        is_ball_in_play(moved.scan_all().ball),
        moved.scan_all().through_left + moved.scan_all().through_right <= 1,
{
    let s0 = moved.scan(0);
    let s1 = moved.scan(1);
    let s2 = moved.scan(2);
    let s3 = moved.scan(3);
    let s4 = moved.scan(4);
    let s5 = moved.scan(5);
    let s6 = moved.scan(6);
    let s7 = moved.scan(7);
    assert(s0 == Scan::start(moved.entities[2]));
    assert(s1 == s0.meet(moved.entities[0]));
    lemma_meeting_a_paddle(s0, moved.entities[0]);
    assert(s2 == s1.meet(moved.entities[1]));
    lemma_meeting_a_paddle(s1, moved.entities[1]);
    assert(s3 == s2);
    assert(s4 == s3.meet(Entity::spec_wall(WallLocation::Left)));
    lemma_meeting_the_left_wall(s3);
    assert(s5 == s4.meet(Entity::spec_wall(WallLocation::Right)));
    lemma_meeting_the_right_wall(s4);
    assert(s6 == s5.meet(Entity::spec_wall(WallLocation::Bottom)));
    lemma_meeting_the_bottom_wall(s5);
    assert(s7 == s6.meet(Entity::spec_wall(WallLocation::Top)));
    lemma_meeting_the_top_wall(s6);
}

/// A match in play goes on for as many ticks as the scores have room for,
/// whatever the players want in each of them: every one of the ticks can
/// run, the match stays in play, no score ever falls, and there are no more
/// goals than ticks.
pub proof fn lemma_match_runs(w: WorldView, intents: Seq<Intents>)
    requires
        in_play(w),
        w.scoreboard.0 + intents.len() <= u64::MAX,
        w.scoreboard.1 + intents.len() <= u64::MAX,
    ensures
        in_play(w.run(intents)),
        w.run(intents).scoreboard.0 >= w.scoreboard.0,
        w.run(intents).scoreboard.1 >= w.scoreboard.1,
        w.run(intents).scoreboard.0 + w.run(intents).scoreboard.1 <= w.scoreboard.0
            + w.scoreboard.1 + intents.len(),
        forall|k: int|
            0 <= k < intents.len() ==> (#[trigger] w.run(intents.take(k))).can_tick(intents[k]),
    decreases intents.len(),
{
    if intents.len() > 0 {
        let earlier = intents.drop_last();
        lemma_match_runs(w, earlier);
        lemma_match_goes_on(w.run(earlier), intents.last());
        assert forall|k: int| 0 <= k < intents.len() implies (#[trigger] w.run(
            intents.take(k),
        )).can_tick(intents[k]) by {
            if k < intents.len() - 1 {
                assert(intents.take(k) =~= earlier.take(k));
                assert(w.run(earlier.take(k)).can_tick(earlier[k]));
            } else {
                assert(intents.take(k) =~= earlier);
            }
        }
    }
}

} // verus!
