//! The world: every entity and the scoreboard, and the stages of a tick.

use crate::arena::{in_paddle_band, GAP_BETWEEN_PADDLE_AND_WALL, LEFT_WALL, RIGHT_WALL};
use crate::entity::{Entity, WallLocation};
use crate::geometry::{collide, contact};
use crate::input::Intents;
use crate::laws::{
    lemma_initial_world, lemma_tick_puts_paddles_in_band, lemma_well_formed_through_stages,
};
use crate::play::{in_play, lemma_initial_world_in_play};
use crate::score::ScoreBoard;
use vstd::prelude::*;

verus! {

/// All state of a match. The place of an entity in `entities` is its
/// identity; no stage adds, removes or reorders entities.
#[derive(Clone, Debug, PartialEq, Eq)]
pub struct World {
    pub entities: Vec<Entity>,
    pub scoreboard: ScoreBoard,
}

/// A world as a mathematical value.
pub struct WorldView {
    pub entities: Seq<Entity>,
    pub scoreboard: ScoreBoard,
}

/// What the collision stage has found after looking at some of the
/// entities.
pub struct Scan {
    /// The ball as the contacts so far have left it.
    pub ball: Entity,
    /// Contacts with a left wall so far.
    pub through_left: nat,
    /// Contacts with a right wall so far.
    pub through_right: nat,
    /// Contacts so far; each of them raises one collision signal.
    pub contacts: nat,
}

impl View for World {
    type V = WorldView;

    open spec fn view(&self) -> WorldView {
        WorldView { entities: self.entities@, scoreboard: self.scoreboard }
    }
}

/// 1 where `wall` is the wall at `location`, else 0.
pub open spec fn counts_as(wall: Option<WallLocation>, location: WallLocation) -> nat {
    if wall == Some(location) {
        1
    } else {
        0
    }
}

impl Scan {
    /// The scan before it has looked at anything.
    pub open spec fn start(ball: Entity) -> Scan {
        Scan { ball, through_left: 0, through_right: 0, contacts: 0 }
    }

    /// The scan after the ball was tested against `other`. Without a
    /// contact nothing changes. A contact is counted, counts as a goal
    /// where `other` is a left or a right wall, and makes the ball respond;
    /// the next test sees the ball as this one left it.
    pub open spec fn meet(self, other: Entity) -> Scan {
        match contact(self.ball.position, self.ball.size, other.position, other.size) {
            None => self,
            Some(side) => Scan {
                ball: self.ball.after_contact(side, other.wall),
                through_left: self.through_left + counts_as(other.wall, WallLocation::Left),
                through_right: self.through_right + counts_as(other.wall, WallLocation::Right),
                contacts: self.contacts + 1,
            },
        }
    }
}

impl WorldView {
    /// Whether entity `b` is a ball with a velocity.
    pub open spec fn ball_at(self, b: int) -> bool {
        0 <= b < self.entities.len() && self.entities[b].is_live_ball()
    }

    /// Whether the collision stage can run: there is exactly one ball with
    /// a velocity, and that velocity can be turned round.
    pub open spec fn well_formed(self) -> bool {
        exists|b: int|
            {
                &&& #[trigger] self.ball_at(b)
                &&& self.entities[b].velocity->0.negatable()
                &&& forall|j: int| #[trigger] self.ball_at(j) ==> j == b
            }
    }

    /// The place of the ball.
    pub open spec fn ball_index(self) -> int {
        choose|b: int| self.ball_at(b)
    }

    /// The ball.
    pub open spec fn ball(self) -> Entity {
        self.entities[self.ball_index()]
    }

    /// The places of the entities that the ball is tested against.
    pub open spec fn candidates(self) -> Set<int> {
        Set::new(|i: int| 0 <= i < self.entities.len() && self.entities[i].is_candidate())
    }

    /// This world after the paddle stage.
    pub open spec fn move_paddles(self, intents: Intents) -> WorldView {
        WorldView {
            entities: Seq::new(self.entities.len(), |i: int| self.entities[i].steered(intents)),
            scoreboard: self.scoreboard,
        }
    }

    /// Whether every entity's next position can be stored.
    pub open spec fn can_apply_velocity(self) -> bool {
        forall|i: int| 0 <= i < self.entities.len() ==> (#[trigger] self.entities[i]).can_move()
    }

    /// This world after the motion stage.
    pub open spec fn apply_velocity(self) -> WorldView {
        WorldView {
            entities: Seq::new(self.entities.len(), |i: int| self.entities[i].moved()),
            scoreboard: self.scoreboard,
        }
    }

    /// The scan of the collision stage after the first `n` entities: the
    /// ball meets the candidates among them one after the other, in the
    /// order of their places.
    pub open spec fn scan(self, n: nat) -> Scan
        decreases n,
    {
        if n == 0 {
            Scan::start(self.ball())
        } else {
            let before = self.scan((n - 1) as nat);
            let other = self.entities[n - 1];
            if other.is_candidate() {
                before.meet(other)
            } else {
                before
            }
        }
    }

    /// The scan of the collision stage after all entities.
    pub open spec fn scan_all(self) -> Scan {
        self.scan(self.entities.len())
    }

    /// Whether the collision stage can run and count its goals.
    pub open spec fn can_check_for_collisions(self) -> bool {
        &&& self.well_formed()
        &&& self.scoreboard.can_add(self.scan_all().through_left, self.scan_all().through_right)
    }

    /// This world after the collision stage: the ball is as the scan left
    /// it, the goals are counted, and nothing else has changed.
    pub open spec fn check_for_collisions(self) -> WorldView {
        WorldView {
            entities: self.entities.update(self.ball_index(), self.scan_all().ball),
            scoreboard: self.scoreboard.added(
                self.scan_all().through_left,
                self.scan_all().through_right,
            ),
        }
    }

    /// Whether a whole tick can run.
    pub open spec fn can_tick(self, intents: Intents) -> bool {
        &&& self.move_paddles(intents).can_apply_velocity()
        &&& self.move_paddles(intents).apply_velocity().can_check_for_collisions()
    }

    /// This world one tick later: the paddles follow the intents, then
    /// everything with a velocity moves, then the ball answers its contacts.
    pub open spec fn tick(self, intents: Intents) -> WorldView {
        self.move_paddles(intents).apply_velocity().check_for_collisions()
    }

    /// Whether every paddle that only its player moves is within the legal
    /// band.
    pub open spec fn paddles_in_band(self) -> bool {
        forall|i: int|
            0 <= i < self.entities.len() && (#[trigger] self.entities[i]).is_plain_paddle()
                ==> in_paddle_band(self.entities[i].position.y as int)
    }

    /// This world after one tick for each element of `intents`, in order.
    pub open spec fn run(self, intents: Seq<Intents>) -> WorldView
        decreases intents.len(),
    {
        if intents.len() == 0 {
            self
        } else {
            self.run(intents.drop_last()).tick(intents.last())
        }
    }

    /// The world of a match that starts: the two paddles, the ball, and the
    /// walls on the left, on the right, at the bottom and at the top, with
    /// no goals yet.
    pub open spec fn initial() -> WorldView {
        WorldView {
            entities: seq![
                Entity::spec_paddle(0, (LEFT_WALL + GAP_BETWEEN_PADDLE_AND_WALL) as i64),
                Entity::spec_paddle(1, (RIGHT_WALL - GAP_BETWEEN_PADDLE_AND_WALL) as i64),
                Entity::spec_ball(),
                Entity::spec_wall(WallLocation::Left),
                Entity::spec_wall(WallLocation::Right),
                Entity::spec_wall(WallLocation::Bottom),
                Entity::spec_wall(WallLocation::Top),
            ],
            scoreboard: ScoreBoard(0, 0),
        }
    }
}

impl World {
    /// Sets a match up.
    pub fn new() -> (world: World)
        ensures
            world@ == WorldView::initial(),
            world@.well_formed(),
            world@.paddles_in_band(),
            in_play(world@),
    {
        proof {
            lemma_initial_world();
            lemma_initial_world_in_play();
        }
        let mut entities: Vec<Entity> = Vec::new();
        entities.push(Entity::paddle(0, LEFT_WALL + GAP_BETWEEN_PADDLE_AND_WALL));
        entities.push(Entity::paddle(1, RIGHT_WALL - GAP_BETWEEN_PADDLE_AND_WALL));
        entities.push(Entity::ball());
        entities.push(Entity::wall(WallLocation::Left));
        entities.push(Entity::wall(WallLocation::Right));
        entities.push(Entity::wall(WallLocation::Bottom));
        entities.push(Entity::wall(WallLocation::Top));
        let world = World { entities, scoreboard: ScoreBoard::new() };
        assert(world@.entities =~= WorldView::initial().entities);
        world
    }

    /// The paddle stage: every paddle follows the intent of its player,
    /// within the legal band.
    pub fn move_paddles(&mut self, intents: Intents)
        ensures
            final(self)@ == old(self)@.move_paddles(intents),
    {
        let ghost before = self@;
        let n = self.entities.len();
        let mut i: usize = 0;
        while i < n
            invariant
                i <= n,
                n == before.entities.len(),
                self.entities.len() == n,
                self.scoreboard == before.scoreboard,
                forall|j: int|
                    0 <= j < i ==> self.entities[j] == before.entities[j].steered(intents),
                forall|j: int| i <= j < n ==> self.entities[j] == before.entities[j],
            decreases n - i,
        {
            let mut entity = self.entities[i];
            entity.steer(intents);
            self.entities.set(i, entity);
            i += 1;
        }
        assert(self@.entities =~= before.move_paddles(intents).entities);
    }

    /// Whether the motion stage can run.
    pub fn can_apply_velocity(&self) -> (ok: bool)
        ensures
            ok == self@.can_apply_velocity(),
    {
        let n = self.entities.len();
        let mut i: usize = 0;
        while i < n
            invariant
                i <= n,
                self.entities.len() == n,
                forall|j: int| 0 <= j < i ==> (#[trigger] self.entities[j]).can_move(),
            decreases n - i,
        {
            if !self.entities[i].can_advance() {
                assert(!self@.entities[i as int].can_move());
                return false;
            }
            i += 1;
        }
        true
    }

    /// The motion stage: every entity with a velocity moves on by it.
    pub fn apply_velocity(&mut self)
        requires
            old(self)@.can_apply_velocity(),
        ensures
            final(self)@ == old(self)@.apply_velocity(),
    {
        let ghost before = self@;
        let n = self.entities.len();
        let mut i: usize = 0;
        while i < n
            invariant
                i <= n,
                n == before.entities.len(),
                before.can_apply_velocity(),
                self.entities.len() == n,
                self.scoreboard == before.scoreboard,
                forall|j: int| 0 <= j < i ==> self.entities[j] == before.entities[j].moved(),
                forall|j: int| i <= j < n ==> self.entities[j] == before.entities[j],
            decreases n - i,
        {
            let mut entity = self.entities[i];
            assert(before.entities[i as int].can_move());
            entity.advance();
            self.entities.set(i, entity);
            i += 1;
        }
        assert(self@.entities =~= before.apply_velocity().entities);
    }

    /// Looks for the ball. The answer is its place where the world is well
    /// formed, and `None` where it is not.
    pub fn find_ball(&self) -> (found: Option<usize>)
        ensures
            match found {
                Some(b) => self@.well_formed() && b == self@.ball_index(),
                None => !self@.well_formed(),
            },
    {
        let n = self.entities.len();
        let mut found: Option<usize> = None;
        let mut i: usize = 0;
        while i < n
            invariant
                i <= n,
                n == self.entities.len(),
                match found {
                    Some(b) => {
                        &&& b < i
                        &&& self@.ball_at(b as int)
                        &&& forall|j: int| 0 <= j < i && #[trigger] self@.ball_at(j) ==> j == b
                    },
                    None => forall|j: int| 0 <= j < i ==> !#[trigger] self@.ball_at(j),
                },
            decreases n - i,
        {
            let entity = self.entities[i];
            if entity.ball && entity.velocity.is_some() {
                if found.is_some() {
                    assert(self@.ball_at(i as int));
                    return None;
                }
                found = Some(i);
            }
            i += 1;
        }
        match found {
            Some(b) => {
                match self.entities[b].velocity {
                    Some(v) => {
                        if v.x > i64::MIN && v.y > i64::MIN {
                            assert(self@.ball_at(self@.ball_index()));
                            Some(b)
                        } else {
                            None
                        }
                    },
                    None => None,
                }
            },
            None => None,
        }
    }

    /// Whether the collision stage can run on this world.
    pub fn is_well_formed(&self) -> (ok: bool)
        ensures
            ok == self@.well_formed(),
    {
        self.find_ball().is_some()
    }

    /// Tests the ball against every candidate in turn, and reports the ball
    /// as the contacts leave it, the contacts with a left wall, those with a
    /// right wall, and all contacts.
    fn scan_contacts(&self, b: usize) -> (found: (Entity, u64, u64, usize))
        requires
            self@.well_formed(),
            b == self@.ball_index(),
        ensures
            found.0 == self@.scan_all().ball,
            found.1 == self@.scan_all().through_left,
            found.2 == self@.scan_all().through_right,
            found.3 == self@.scan_all().contacts,
    {
        let n = self.entities.len();
        assert(self@.ball_at(b as int));
        let mut ball = self.entities[b];
        let mut through_left: u64 = 0;
        let mut through_right: u64 = 0;
        let mut contacts: usize = 0;
        let mut i: usize = 0;
        while i < n
            invariant
                i <= n,
                n == self.entities.len(),
                ball == self@.scan(i as nat).ball,
                through_left == self@.scan(i as nat).through_left,
                through_right == self@.scan(i as nat).through_right,
                contacts == self@.scan(i as nat).contacts,
                through_left <= i,
                through_right <= i,
                contacts <= i,
                ball.velocity is Some,
                ball.velocity->0.negatable(),
            decreases n - i,
        {
            let other = self.entities[i];
            assert(other == self@.entities[i as int]);
            assert(self@.scan((i + 1) as nat) == (if other.is_candidate() {
                self@.scan(i as nat).meet(other)
            } else {
                self@.scan(i as nat)
            }));
            if other.collider && !other.ball {
                if let Some(side) = collide(ball.position, ball.size, other.position, other.size) {
                    contacts += 1;
                    match other.wall {
                        Some(WallLocation::Left) => {
                            through_left += 1;
                        },
                        Some(WallLocation::Right) => {
                            through_right += 1;
                        },
                        _ => {},
                    }
                    ball.respond(side, other.wall);
                }
            }
            i += 1;
        }
        (ball, through_left, through_right, contacts)
    }

    /// Whether the collision stage can run and count its goals.
    pub fn can_check_for_collisions(&self) -> (ok: bool)
        ensures
            ok == self@.can_check_for_collisions(),
    {
        match self.find_ball() {
            Some(b) => {
                let (_, through_left, through_right, _) = self.scan_contacts(b);
                self.scoreboard.0.checked_add(through_right).is_some()
                    && self.scoreboard.1.checked_add(through_left).is_some()
            },
            None => false,
        }
    }

    /// The collision stage. The ball is tested against every collider but
    /// itself, in the order of their places. Each contact turns the ball's
    /// velocity round as the touched side demands; a contact with the left
    /// wall is a goal for player 1, one with the right wall a goal for
    /// player 0, and either sends the ball back to the centre line. The
    /// result is the number of contacts, one collision signal each.
    pub fn check_for_collisions(&mut self) -> (contacts: usize)
        requires
            old(self)@.can_check_for_collisions(),
        ensures
            final(self)@ == old(self)@.check_for_collisions(),
            contacts == old(self)@.scan_all().contacts,
    {
        let ghost before = self@;
        let b = self.find_ball().unwrap();
        let (ball, through_left, through_right, contacts) = self.scan_contacts(b);
        self.entities.set(b, ball);
        self.scoreboard.add_goals(through_left, through_right);
        assert(self@.entities =~= before.check_for_collisions().entities);
        contacts
    }

    /// One tick: the paddle stage, the motion stage, then the collision
    /// stage. The result is the number of contacts.
    pub fn tick(&mut self, intents: Intents) -> (contacts: usize)
        requires
            old(self)@.can_tick(intents),
        ensures
            final(self)@ == old(self)@.tick(intents),
            contacts == old(self)@.move_paddles(intents).apply_velocity().scan_all().contacts,
            final(self)@.well_formed(),
            final(self)@.paddles_in_band(),
    {
        proof {
            lemma_well_formed_through_stages(self@, intents);
            lemma_tick_puts_paddles_in_band(self@, intents);
        }
        self.move_paddles(intents);
        self.apply_velocity();
        self.check_for_collisions()
    }

    /// One tick where it can run: then the result holds the number of
    /// contacts. Where it cannot, the world stays as it is and the result
    /// is `None`.
    pub fn checked_tick(&mut self, intents: Intents) -> (contacts: Option<usize>)
        ensures
            match contacts {
                Some(n) => {
                    &&& old(self)@.can_tick(intents)
                    &&& final(self)@ == old(self)@.tick(intents)
                    &&& n == old(self)@.move_paddles(intents).apply_velocity().scan_all().contacts
                    &&& final(self)@.well_formed()
                    &&& final(self)@.paddles_in_band()
                },
                None => !old(self)@.can_tick(intents) && final(self)@ == old(self)@,
            },
    {
        let n = self.entities.len();
        let mut entities: Vec<Entity> = Vec::new();
        let mut i: usize = 0;
        while i < n
            invariant
                i <= n,
                n == self.entities.len(),
                entities.len() == i,
                forall|j: int|
                    0 <= j < i ==> (#[trigger] self@.move_paddles(intents).entities[j]).can_move(),
                forall|j: int|
                    0 <= j < i ==> entities[j] == self@.move_paddles(
                        intents,
                    ).apply_velocity().entities[j],
            decreases n - i,
        {
            let mut entity = self.entities[i];
            entity.steer(intents);
            assert(entity == self@.move_paddles(intents).entities[i as int]);
            if !entity.can_advance() {
                return None;
            }
            entity.advance();
            entities.push(entity);
            i += 1;
        }
        let mut next = World { entities, scoreboard: self.scoreboard };
        assert(next@.entities =~= self@.move_paddles(intents).apply_velocity().entities);
        if !next.can_check_for_collisions() {
            return None;
        }
        let contacts = next.check_for_collisions();
        proof {
            lemma_well_formed_through_stages(self@, intents);
            lemma_tick_puts_paddles_in_band(self@, intents);
        }
        *self = next;
        Some(contacts)
    }
}

} // verus!
