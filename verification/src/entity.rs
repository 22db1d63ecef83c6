//! The entities of the game: what each one carries, and how a tick changes
//! one of them.

use crate::arena::{
    in_paddle_band, BALL_SIZE, BALL_START_SPEED, BOTTOM_WALL, LEFT_WALL, PADDLE_BOTTOM_BOUND,
    PADDLE_HEIGHT, PADDLE_SPEED, PADDLE_TOP_BOUND, PADDLE_WIDTH, RIGHT_WALL, STEPS_PER_UNIT,
    TOP_WALL, WALL_THICKNESS,
};
use crate::geometry::{Collision, Vector};
use crate::input::{Intent, Intents};
use vstd::prelude::*;

verus! {

/// Which side of the arena a wall closes.
#[derive(Clone, Copy, Debug, PartialEq, Eq, Structural)]
pub enum WallLocation {
    Left,
    Right,
    Bottom,
    Top,
}

/// One entity of the world. Every entity has a place and a size; what else
/// it carries decides which stages of a tick touch it.
#[derive(Clone, Copy, Debug, PartialEq, Eq)]
pub struct Entity {
    /// The centre of the entity.
    pub position: Vector,
    /// Its width and height.
    pub size: Vector,
    /// Its velocity in units per second, if it moves by itself.
    pub velocity: Option<Vector>,
    /// The player who steers it, if it is a paddle.
    pub paddle: Option<u8>,
    /// The side of the arena it closes, if it is a wall.
    pub wall: Option<WallLocation>,
    /// Whether the ball is tested against it.
    pub collider: bool,
    /// Whether it is the ball.
    pub ball: bool,
}

/// `v`, or the nearer end of `[low, high]` where `v` lies outside.
pub open spec fn clamp(v: int, low: int, high: int) -> int {
    if v < low {
        low
    } else if v > high {
        high
    } else {
        v
    }
}

/// The height of a paddle's centre one tick after it was at `y`, when its
/// player wants `intent`: a tick's worth of paddle speed further, but never
/// out of the legal band.
pub open spec fn steered_height(y: int, intent: Intent) -> int {
    clamp(y + intent.value() * PADDLE_SPEED, PADDLE_BOTTOM_BOUND as int, PADDLE_TOP_BOUND as int)
}

impl WallLocation {
    /// The centre of the wall on this side.
    pub open spec fn spec_position(&self) -> Vector {
        match self {
            WallLocation::Left => Vector { x: LEFT_WALL, y: 0 },
            WallLocation::Right => Vector { x: RIGHT_WALL, y: 0 },
            WallLocation::Bottom => Vector { x: 0, y: BOTTOM_WALL },
            WallLocation::Top => Vector { x: 0, y: TOP_WALL },
        }
    }

    /// The size of the wall on this side: as thick as every wall, and long
    /// enough to close the corners.
    pub open spec fn spec_size(&self) -> Vector {
        match self {
            WallLocation::Left | WallLocation::Right => Vector {
                x: WALL_THICKNESS,
                y: (TOP_WALL - BOTTOM_WALL + WALL_THICKNESS) as i64,
            },
            WallLocation::Bottom | WallLocation::Top => Vector {
                x: (RIGHT_WALL - LEFT_WALL + WALL_THICKNESS) as i64,
                y: WALL_THICKNESS,
            },
        }
    }

    /// Whether the ball scores by touching the wall on this side.
    pub open spec fn is_goal(self) -> bool {
        self == WallLocation::Left || self == WallLocation::Right
    }

    /// The centre of the wall on this side.
    #[verifier::when_used_as_spec(spec_position)]
    pub fn position(&self) -> (p: Vector)
        ensures
            p == self.spec_position(),
    {
        match self {
            WallLocation::Left => Vector { x: LEFT_WALL, y: 0 },
            WallLocation::Right => Vector { x: RIGHT_WALL, y: 0 },
            WallLocation::Bottom => Vector { x: 0, y: BOTTOM_WALL },
            WallLocation::Top => Vector { x: 0, y: TOP_WALL },
        }
    }

    /// The size of the wall on this side.
    #[verifier::when_used_as_spec(spec_size)]
    pub fn size(&self) -> (s: Vector)
        ensures
            s == self.spec_size(),
            s.x == (if self.is_goal() {
                10 * STEPS_PER_UNIT
            } else {
                910 * STEPS_PER_UNIT
            }),
            s.y == (if self.is_goal() {
                610 * STEPS_PER_UNIT
            } else {
                10 * STEPS_PER_UNIT
            }),
    {
        let arena_height = TOP_WALL - BOTTOM_WALL;
        let arena_width = RIGHT_WALL - LEFT_WALL;
        match self {
            WallLocation::Left | WallLocation::Right => Vector {
                x: WALL_THICKNESS,
                y: arena_height + WALL_THICKNESS,
            },
            WallLocation::Bottom | WallLocation::Top => Vector {
                x: arena_width + WALL_THICKNESS,
                y: WALL_THICKNESS,
            },
        }
    }
}

impl Entity {
    /// The paddle of player `owner`, centred at height 0 on the vertical
    /// line `x`.
    pub open spec fn spec_paddle(owner: u8, x: i64) -> Entity {
        Entity {
            position: Vector { x, y: 0 },
            size: Vector { x: PADDLE_WIDTH, y: PADDLE_HEIGHT },
            velocity: None,
            paddle: Some(owner),
            wall: None,
            collider: true,
            ball: false,
        }
    }

    /// The ball as a match starts: in the centre, on its way up and to the
    /// right.
    pub open spec fn spec_ball() -> Entity {
        Entity {
            position: Vector { x: 0, y: 0 },
            size: Vector { x: BALL_SIZE, y: BALL_SIZE },
            velocity: Some(Vector { x: BALL_START_SPEED, y: BALL_START_SPEED }),
            paddle: None,
            wall: None,
            collider: false,
            ball: true,
        }
    }

    /// The wall that closes the arena at `location`.
    pub open spec fn spec_wall(location: WallLocation) -> Entity {
        Entity {
            position: location.spec_position(),
            size: location.spec_size(),
            velocity: None,
            paddle: None,
            wall: Some(location),
            collider: true,
            ball: false,
        }
    }

    /// Whether the ball is tested against this entity: it must be a
    /// collider, and the ball is never tested against itself.
    pub open spec fn is_candidate(self) -> bool {
        self.collider && !self.ball
    }

    /// Whether this entity is what the collision stage moves about: it is
    /// the ball and has a velocity.
    pub open spec fn is_live_ball(self) -> bool {
        self.ball && self.velocity is Some
    }

    /// Whether this entity is a paddle that nothing but its player moves.
    pub open spec fn is_plain_paddle(self) -> bool {
        self.paddle is Some && self.velocity is None
    }

    /// This entity after the paddle stage: a paddle has followed its
    /// player's intent, anything else is as it was.
    pub open spec fn steered(self, intents: Intents) -> Entity {
        match self.paddle {
            Some(owner) => Entity {
                position: Vector {
                    x: self.position.x,
                    y: steered_height(self.position.y as int, intents.of_owner(owner)) as i64,
                },
                ..self
            },
            None => self,
        }
    }

    /// Where the centre of this entity is one tick from now, if nothing
    /// stops it: its velocity further on each axis.
    pub open spec fn next_position(self) -> (int, int) {
        match self.velocity {
            Some(v) => (self.position.x + v.x, self.position.y + v.y),
            None => (self.position.x as int, self.position.y as int),
        }
    }

    /// Whether the next position can be stored.
    pub open spec fn can_move(self) -> bool {
        &&& i64::MIN <= self.next_position().0 <= i64::MAX
        &&& i64::MIN <= self.next_position().1 <= i64::MAX
    }

    /// This entity after the motion stage.
    pub open spec fn moved(self) -> Entity {
        Entity {
            position: Vector {
                x: self.next_position().0 as i64,
                y: self.next_position().1 as i64,
            },
            ..self
        }
    }

    /// The ball after it touched `side` of a collider that closes the arena
    /// at `wall`, if it is a wall: a goal wall sends the ball back to the
    /// centre line, and the velocity is turned round as the side demands.
    /// Its height, and everything else, stays.
    pub open spec fn after_contact(self, side: Collision, wall: Option<WallLocation>) -> Entity {
        Entity {
            position: Vector {
                x: if wall is Some && wall->0.is_goal() {
                    0
                } else {
                    self.position.x
                },
                y: self.position.y,
            },
            velocity: match self.velocity {
                Some(v) => Some(v.reflected(side)),
                None => None,
            },
            ..self
        }
    }

    /// Makes the paddle of player `owner` on the vertical line `x`.
    pub fn paddle(owner: u8, x: i64) -> (e: Entity)
        ensures
            e == Entity::spec_paddle(owner, x),
            in_paddle_band(e.position.y as int),
    {
        Entity {
            position: Vector { x, y: 0 },
            size: Vector { x: PADDLE_WIDTH, y: PADDLE_HEIGHT },
            velocity: None,
            paddle: Some(owner),
            wall: None,
            collider: true,
            ball: false,
        }
    }

    /// Makes the ball as a match starts.
    pub fn ball() -> (e: Entity)
        ensures
            e == Entity::spec_ball(),
    {
        Entity {
            position: Vector { x: 0, y: 0 },
            size: Vector { x: BALL_SIZE, y: BALL_SIZE },
            velocity: Some(Vector { x: BALL_START_SPEED, y: BALL_START_SPEED }),
            paddle: None,
            wall: None,
            collider: false,
            ball: true,
        }
    }

    /// Makes the wall that closes the arena at `location`.
    pub fn wall(location: WallLocation) -> (e: Entity)
        ensures
            e == Entity::spec_wall(location),
    {
        Entity {
            position: location.position(),
            size: location.size(),
            velocity: None,
            paddle: None,
            wall: Some(location),
            collider: true,
            ball: false,
        }
    }

    /// The paddle stage for this entity: a paddle moves a tick's worth of
    /// paddle speed the way its player wants and stops at the end of the
    /// legal band; anything else stays as it is.
    pub fn steer(&mut self, intents: Intents)
        ensures
            *final(self) == old(self).steered(intents),
            old(self).paddle is Some ==> in_paddle_band(final(self).position.y as int),
            old(self).paddle matches Some(owner) ==> final(self).position.y == steered_height(
                old(self).position.y as int,
                intents.of_owner(owner),
            ),
    {
        if let Some(owner) = self.paddle {
            let intent = intents.for_owner(owner);
            let wanted: i128 = self.position.y as i128 + (intent.sign() * PADDLE_SPEED) as i128;
            let height: i128 = if wanted < PADDLE_BOTTOM_BOUND as i128 {
                PADDLE_BOTTOM_BOUND as i128
            } else if wanted > PADDLE_TOP_BOUND as i128 {
                PADDLE_TOP_BOUND as i128
            } else {
                wanted
            };
            self.position.y = height as i64;
        }
    }

    /// Whether the motion stage can run for this entity.
    pub fn can_advance(&self) -> (ok: bool)
        ensures
            ok == self.can_move(),
    {
        match self.velocity {
            Some(v) => self.position.x.checked_add(v.x).is_some() && self.position.y.checked_add(
                v.y,
            ).is_some(),
            None => true,
        }
    }

    /// The motion stage for this entity: its centre moves on by its
    /// velocity, exactly, and nothing holds it back.
    pub fn advance(&mut self)
        requires
            old(self).can_move(),
        ensures
            *final(self) == old(self).moved(),
            final(self).position.x == old(self).next_position().0,
            final(self).position.y == old(self).next_position().1,
    {
        if let Some(v) = self.velocity {
            self.position.x = self.position.x + v.x;
            self.position.y = self.position.y + v.y;
        }
    }

    /// The ball's answer to touching `side` of a collider, which closes the
    /// arena at `wall` if it is a wall.
    pub fn respond(&mut self, side: Collision, wall: Option<WallLocation>)
        requires
            old(self).velocity matches Some(v) ==> {
                &&& side == Collision::Right ==> v.x > i64::MIN
                &&& side == Collision::Top ==> v.y > i64::MIN
            },
        ensures
            *final(self) == old(self).after_contact(side, wall),
    {
        if let Some(location) = wall {
            match location {
                WallLocation::Left | WallLocation::Right => {
                    self.position.x = 0;
                },
                _ => {},
            }
        }
        if let Some(v) = self.velocity {
            let mut turned = v;
            turned.reflect(side);
            self.velocity = Some(turned);
        }
    }
}

} // verus!
