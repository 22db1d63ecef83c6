//! What holds of the game whatever the players do.

use crate::arena::{
    in_paddle_band, HALF_WALL_THICKNESS, PADDLE_SPEED, RIGHT_WALL, STEPS_PER_UNIT, TICK_RATE,
};
use crate::entity::{steered_height, Entity, WallLocation};
use crate::geometry::{contact, Collision, Vector};
use crate::input::{Intent, Intents};
use crate::world::{Scan, WorldView};
use vstd::prelude::*;

verus! {

/// Whether `after` plays the part that `before` played: the same size and
/// the same marks, and a velocity where `before` had one.
pub open spec fn same_part(before: Entity, after: Entity) -> bool {
    &&& after.size == before.size
    &&& after.paddle == before.paddle
    &&& after.wall == before.wall
    &&& after.collider == before.collider
    &&& after.ball == before.ball
    &&& after.velocity is Some <==> before.velocity is Some
}

/// The absolute value of `v`.
pub open spec fn magnitude(v: int) -> int {
    if v < 0 {
        -v
    } else {
        v
    }
}

/// A steered paddle is within the legal band, wherever it was before and
/// whatever its player wants.
pub proof fn lemma_steered_height_in_band(y: int, intent: Intent)
    ensures
        in_paddle_band(steered_height(y, intent)),
        in_paddle_band(y + intent.value() * PADDLE_SPEED) ==> steered_height(y, intent) == y
            + intent.value() * PADDLE_SPEED,
        intent == Intent::Stay && in_paddle_band(y) ==> steered_height(y, intent) == y,
{
}

/// The motion stage moves an entity by exactly its velocity: the number of
/// steps on each axis is the speed in units per second, which is the speed
/// times the length of a tick. Nothing else about the entity changes.
pub proof fn lemma_motion_exact(e: Entity)
    requires
        e.can_move(),
    ensures
        same_part(e, e.moved()),
        e.moved().velocity == e.velocity,
        e.velocity matches Some(v) ==> {
            &&& e.moved().position.x - e.position.x == v.x
            &&& e.moved().position.y - e.position.y == v.y
            &&& (e.moved().position.x - e.position.x) * TICK_RATE == v.x * STEPS_PER_UNIT
            &&& (e.moved().position.y - e.position.y) * TICK_RATE == v.y * STEPS_PER_UNIT
        },
        e.velocity is None ==> e.moved() == e,
{
}

/// The table of reflections. A contact on the left turns a velocity that
/// points right, one on the right a velocity that points left, one on top a
/// velocity that points down, one at the bottom a velocity that points up;
/// a contact inside turns nothing. A turned component keeps its magnitude,
/// the other component stays, and a second contact on the same side changes
/// nothing any more.
pub proof fn lemma_reflection_table(v: Vector, side: Collision)
    requires
        v.negatable(),
    ensures
        side == Collision::Left ==> v.reflected(side) == (Vector {
            x: if v.x > 0 {
                (-v.x) as i64
            } else {
                v.x
            },
            y: v.y,
        }),
        side == Collision::Right ==> v.reflected(side) == (Vector {
            x: if v.x < 0 {
                (-v.x) as i64
            } else {
                v.x
            },
            y: v.y,
        }),
        side == Collision::Top ==> v.reflected(side) == (Vector {
            x: v.x,
            y: if v.y < 0 {
                (-v.y) as i64
            } else {
                v.y
            },
        }),
        side == Collision::Bottom ==> v.reflected(side) == (Vector {
            x: v.x,
            y: if v.y > 0 {
                (-v.y) as i64
            } else {
                v.y
            },
        }),
        side == Collision::Inside ==> v.reflected(side) == v,
        magnitude(v.reflected(side).x as int) == magnitude(v.x as int),
        magnitude(v.reflected(side).y as int) == magnitude(v.y as int),
        v.reflected(side).x == v.x || v.reflected(side).y == v.y,
        v.reflected(side).negatable(),
        v.reflected(side).reflected(side) == v.reflected(side),
{
}

/// A contact with a goal wall is a goal for the player on the other side,
/// and for nobody else, and puts the ball on the centre line at the height
/// it had. A contact with anything else is no goal and leaves the ball
/// where it is. Every contact is counted once.
pub proof fn lemma_goal_contact(scan: Scan, other: Entity)
    requires
        contact(scan.ball.position, scan.ball.size, other.position, other.size) is Some,
    ensures
        scan.meet(other).contacts == scan.contacts + 1,
        scan.meet(other).ball.position.y == scan.ball.position.y,
        other.wall == Some(WallLocation::Left) ==> {
            &&& scan.meet(other).through_left == scan.through_left + 1
            &&& scan.meet(other).through_right == scan.through_right
            &&& scan.meet(other).ball.position.x == 0
        },
        other.wall == Some(WallLocation::Right) ==> {
            &&& scan.meet(other).through_right == scan.through_right + 1
            &&& scan.meet(other).through_left == scan.through_left
            &&& scan.meet(other).ball.position.x == 0
        },
        other.wall != Some(WallLocation::Left) && other.wall != Some(WallLocation::Right) ==> {
            &&& scan.meet(other).through_left == scan.through_left
            &&& scan.meet(other).through_right == scan.through_right
            &&& scan.meet(other).ball.position.x == scan.ball.position.x
        },
{
}

/// Without a contact the scan stays as it is.
pub proof fn lemma_no_contact(scan: Scan, other: Entity)
    requires
        contact(scan.ball.position, scan.ball.size, other.position, other.size) is None,
    ensures
        scan.meet(other) == scan,
{
}

/// The ball is never tested against itself: its place is not among the
/// candidates, and no candidate is marked as a ball.
pub proof fn lemma_ball_is_no_candidate(w: WorldView)
    requires
        w.well_formed(),
    ensures
        w.ball_at(w.ball_index()),
        !w.candidates().contains(w.ball_index()),
        forall|i: int| w.candidates().contains(i) ==> !w.entities[i].ball,
{
}

/// What a scan can do to the ball: it keeps its height, its size and its
/// marks, and each component of its velocity keeps its magnitude. The scan
/// counts at most one contact for each entity, and each contact is at most
/// one goal.
pub proof fn lemma_scan_bounds(w: WorldView, n: nat)
    requires
        w.ball().velocity matches Some(v) ==> v.negatable(),
    ensures
        same_part(w.ball(), w.scan(n).ball),
        w.scan(n).ball.position.y == w.ball().position.y,
        w.scan(n).ball.position.x == w.ball().position.x || w.scan(n).ball.position.x == 0,
        w.ball().velocity matches Some(v) ==> {
            &&& w.scan(n).ball.velocity->0.negatable()
            &&& magnitude(w.scan(n).ball.velocity->0.x as int) == magnitude(v.x as int)
            &&& magnitude(w.scan(n).ball.velocity->0.y as int) == magnitude(v.y as int)
        },
        w.scan(n).contacts <= n,
        w.scan(n).through_left + w.scan(n).through_right <= w.scan(n).contacts,
    decreases n,
{
    if n > 0 {
        lemma_scan_bounds(w, (n - 1) as nat);
    }
}

/// Each stage keeps a well-formed world well formed, with the ball at its
/// place, every entity in its part, and as many entities as before.
pub proof fn lemma_stages_keep_parts(w: WorldView, intents: Intents)
    requires
        w.well_formed(),
    ensures
        w.move_paddles(intents).well_formed(),
        w.apply_velocity().well_formed(),
        w.check_for_collisions().well_formed(),
        w.move_paddles(intents).ball_index() == w.ball_index(),
        w.apply_velocity().ball_index() == w.ball_index(),
        w.check_for_collisions().ball_index() == w.ball_index(),
        w.move_paddles(intents).entities.len() == w.entities.len(),
        w.apply_velocity().entities.len() == w.entities.len(),
        w.check_for_collisions().entities.len() == w.entities.len(),
        forall|i: int|
            0 <= i < w.entities.len() ==> same_part(
                w.entities[i],
                #[trigger] w.move_paddles(intents).entities[i],
            ),
        forall|i: int|
            0 <= i < w.entities.len() ==> same_part(
                w.entities[i],
                #[trigger] w.apply_velocity().entities[i],
            ),
        forall|i: int|
            0 <= i < w.entities.len() ==> same_part(
                w.entities[i],
                #[trigger] w.check_for_collisions().entities[i],
            ),
{
    let b = w.ball_index();
    assert(w.ball_at(b));
    let steered = w.move_paddles(intents);
    assert(steered.ball_at(b));
    assert forall|j: int| #[trigger] steered.ball_at(j) implies j == b by {
        assert(w.ball_at(j));
    }
    assert(steered.ball_at(steered.ball_index()));
    let moved = w.apply_velocity();
    assert(moved.ball_at(b));
    assert forall|j: int| #[trigger] moved.ball_at(j) implies j == b by {
        assert(w.ball_at(j));
    }
    assert(moved.ball_at(moved.ball_index()));
    lemma_scan_bounds(w, w.entities.len());
    let checked = w.check_for_collisions();
    assert(checked.ball_at(b));
    assert forall|j: int| #[trigger] checked.ball_at(j) implies j == b by {
        if j != b {
            assert(w.ball_at(j));
        }
    }
    assert(checked.ball_at(checked.ball_index()));
}

/// The paddle stage and the motion stage neither make nor break a ball: a
/// world is well formed after either exactly when it was before. A world in
/// which a tick can run is therefore well formed.
pub proof fn lemma_well_formed_through_stages(w: WorldView, intents: Intents)
    ensures
        w.move_paddles(intents).well_formed() <==> w.well_formed(),
        w.apply_velocity().well_formed() <==> w.well_formed(),
        w.can_tick(intents) ==> w.well_formed(),
{
    let steered = w.move_paddles(intents);
    let moved = w.apply_velocity();
    if w.well_formed() {
        lemma_stages_keep_parts(w, intents);
    }
    if steered.well_formed() {
        let b = steered.ball_index();
        assert(steered.ball_at(b));
        assert(w.ball_at(b));
        assert forall|j: int| #[trigger] w.ball_at(j) implies j == b by {
            assert(steered.ball_at(j));
        }
    }
    if moved.well_formed() {
        let b = moved.ball_index();
        assert(moved.ball_at(b));
        assert(w.ball_at(b));
        assert forall|j: int| #[trigger] w.ball_at(j) implies j == b by {
            assert(moved.ball_at(j));
        }
    }
    if w.can_tick(intents) {
        let later = steered.apply_velocity();
        assert(later.well_formed());
        if !steered.well_formed() {
            let b = later.ball_index();
            assert(later.ball_at(b));
            assert(steered.ball_at(b));
            assert forall|j: int| #[trigger] steered.ball_at(j) implies j == b by {
                assert(later.ball_at(j));
            }
        }
    }
}

/// A match starts in a well-formed world: the ball is the third entity,
/// both paddles are within the legal band and the goal walls are in place.
pub proof fn lemma_initial_world()
    ensures
        WorldView::initial().well_formed(),
        WorldView::initial().ball_index() == 2,
        WorldView::initial().paddles_in_band(),
        goals_in_place(WorldView::initial()),
{
    let w = WorldView::initial();
    assert(w.ball_at(2));
    assert(w.ball_at(w.ball_index()));
}

/// The first tick of a match can run whatever the players want, and the
/// ball touches nothing in it: it ends 400 steps further up and to the
/// right.
pub proof fn lemma_first_tick(intents: Intents)
    ensures
        WorldView::initial().can_tick(intents),
        WorldView::initial().tick(intents).scoreboard == WorldView::initial().scoreboard,
        WorldView::initial().tick(intents).entities[2].position == (Vector { x: 400, y: 400 }),
        WorldView::initial().tick(intents).entities[2].velocity == Some(
            Vector { x: 400, y: 400 },
        ),
{
    lemma_initial_world();
    let w = WorldView::initial();
    lemma_stages_keep_parts(w, intents);
    let steered = w.move_paddles(intents);
    lemma_stages_keep_parts(steered, intents);
    let moved = steered.apply_velocity();
    assert(moved.ball_index() == 2);
    assert(moved.entities.len() == 7);
    assert(moved.entities[2].position == (Vector { x: 400, y: 400 }));
    lemma_steered_height_in_band(0, intents.player0);
    lemma_steered_height_in_band(0, intents.player1);
    reveal_with_fuel(WorldView::scan, 8);
    assert(moved.scan(7) == Scan::start(moved.entities[2]));
}

/// After a tick every paddle that only its player moves is within the
/// legal band, wherever it was before. The world stays well formed and
/// every entity keeps its part.
pub proof fn lemma_tick_puts_paddles_in_band(w: WorldView, intents: Intents)
    requires
        w.well_formed(),
    ensures
        w.tick(intents).well_formed(),
        w.tick(intents).ball_index() == w.ball_index(),
        w.tick(intents).entities.len() == w.entities.len(),
        forall|i: int|
            0 <= i < w.entities.len() ==> same_part(
                w.entities[i],
                #[trigger] w.tick(intents).entities[i],
            ),
        w.tick(intents).paddles_in_band(),
{
    let steered = w.move_paddles(intents);
    let moved = steered.apply_velocity();
    let checked = moved.check_for_collisions();
    lemma_stages_keep_parts(w, intents);
    lemma_stages_keep_parts(steered, intents);
    lemma_stages_keep_parts(moved, intents);
    assert(moved.ball_at(moved.ball_index()));
    assert forall|i: int| 0 <= i < w.entities.len() implies same_part(
        w.entities[i],
        #[trigger] checked.entities[i],
    ) by {
        assert(same_part(w.entities[i], steered.entities[i]));
        assert(same_part(steered.entities[i], moved.entities[i]));
        assert(same_part(moved.entities[i], checked.entities[i]));
    }
    assert forall|i: int|
        0 <= i < checked.entities.len() && (
        #[trigger] checked.entities[i]).is_plain_paddle() implies in_paddle_band(
        checked.entities[i].position.y as int,
    ) by {
        assert(same_part(w.entities[i], checked.entities[i]));
        let owner = w.entities[i].paddle->0;
        lemma_steered_height_in_band(w.entities[i].position.y as int, intents.of_owner(owner));
        assert(moved.entities[i] == steered.entities[i].moved());
        assert(i != moved.ball_index());
    }
}

/// However many ticks run and whatever the players want in each of them, a
/// paddle that only its player moves never leaves the legal band.
pub proof fn lemma_paddles_stay_in_band(w: WorldView, intents: Seq<Intents>)
    requires
        w.well_formed(),
        w.paddles_in_band(),
    ensures
        w.run(intents).well_formed(),
        w.run(intents).entities.len() == w.entities.len(),
        forall|i: int|
            0 <= i < w.entities.len() ==> same_part(
                w.entities[i],
                #[trigger] w.run(intents).entities[i],
            ),
        w.run(intents).paddles_in_band(),
    decreases intents.len(),
{
    if intents.len() > 0 {
        let earlier = w.run(intents.drop_last());
        lemma_paddles_stay_in_band(w, intents.drop_last());
        lemma_tick_puts_paddles_in_band(earlier, intents.last());
        assert forall|i: int|
            0 <= i < w.entities.len() implies same_part(
            w.entities[i],
            #[trigger] w.run(intents).entities[i],
        ) by {
            assert(same_part(w.entities[i], earlier.entities[i]));
            assert(same_part(earlier.entities[i], earlier.tick(intents.last()).entities[i]));
        }
    }
}

/// A tick leaves alone what is neither steered nor moving: a wall stays
/// where it was set up, with the size it was given.
pub proof fn lemma_tick_keeps_the_fixed(w: WorldView, intents: Intents)
    requires
        w.well_formed(),
    ensures
        forall|i: int|
            0 <= i < w.entities.len() && w.entities[i].paddle is None && w.entities[i].velocity
                is None ==> #[trigger] w.tick(intents).entities[i] == w.entities[i],
{
    let steered = w.move_paddles(intents);
    let moved = steered.apply_velocity();
    lemma_stages_keep_parts(w, intents);
    lemma_stages_keep_parts(steered, intents);
    assert(moved.ball_at(moved.ball_index()));
    assert forall|i: int|
        0 <= i < w.entities.len() && w.entities[i].paddle is None && w.entities[i].velocity
            is None implies #[trigger] w.tick(intents).entities[i] == w.entities[i] by {
        assert(steered.entities[i] == w.entities[i]);
        assert(moved.entities[i] == steered.entities[i].moved());
        assert(i != moved.ball_index());
    }
}

/// The collision stage never lowers a score: player 1 gains the contacts
/// with a left wall, player 0 those with a right wall, and the two together
/// gain no more than there are contacts. The stages before it leave the
/// scoreboard alone.
pub proof fn lemma_scores_never_fall(w: WorldView, intents: Intents)
    requires
        w.can_check_for_collisions(),
    ensures
        w.check_for_collisions().scoreboard.0 == w.scoreboard.0 + w.scan_all().through_right,
        w.check_for_collisions().scoreboard.1 == w.scoreboard.1 + w.scan_all().through_left,
        w.check_for_collisions().scoreboard.0 >= w.scoreboard.0,
        w.check_for_collisions().scoreboard.1 >= w.scoreboard.1,
        w.scan_all().through_left + w.scan_all().through_right <= w.scan_all().contacts,
        w.scan_all().contacts <= w.entities.len(),
        w.move_paddles(intents).scoreboard == w.scoreboard,
        w.apply_velocity().scoreboard == w.scoreboard,
{
    assert(w.ball_at(w.ball_index()));
    lemma_scan_bounds(w, w.entities.len());
}

/// Whether the goal walls of `w` stand where the arena has them, and the
/// ball is narrow enough to touch neither of them from the centre line.
pub open spec fn goals_in_place(w: WorldView) -> bool {
    &&& w.ball().size.x <= 2 * (RIGHT_WALL - HALF_WALL_THICKNESS)
    &&& forall|i: int|
        0 <= i < w.entities.len() && (#[trigger] w.entities[i]).wall is Some
            && w.entities[i].wall->0.is_goal() ==> {
            &&& w.entities[i].position == w.entities[i].wall->0.spec_position()
            &&& w.entities[i].size == w.entities[i].wall->0.spec_size()
        }
}

/// With the goal walls in place the collision stage counts at most one goal
/// in a tick: the first goal puts the ball on the centre line, out of reach
/// of both goal walls.
pub proof fn lemma_one_goal_per_scan(w: WorldView, n: nat)
    requires
        w.ball().velocity matches Some(v) ==> v.negatable(),
        goals_in_place(w),
        n <= w.entities.len(),
    ensures
        w.scan(n).through_left + w.scan(n).through_right <= 1,
        w.scan(n).through_left + w.scan(n).through_right == 1 ==> w.scan(n).ball.position.x == 0,
    decreases n,
{
    if n > 0 {
        lemma_one_goal_per_scan(w, (n - 1) as nat);
        lemma_scan_bounds(w, (n - 1) as nat);
        let other = w.entities[n - 1];
        assert(other.wall is Some && other.wall->0.is_goal() ==> other.position
            == other.wall->0.spec_position() && other.size == other.wall->0.spec_size());
    }
}

} // verus!
