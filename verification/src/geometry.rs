//! Vectors, axis-aligned boxes and the contact between two boxes.

use vstd::prelude::*;

verus! {

/// A pair of coordinates: a position, a size (width and height) or a
/// velocity.
#[derive(Clone, Copy, Debug, PartialEq, Eq, Structural)]
pub struct Vector {
    pub x: i64,
    pub y: i64,
}

/// The side of the second box on which the first box touches it.
///
/// `Left` says that the first box overlaps the left edge of the second and
/// so sits to its left; `Bottom` that it overlaps the bottom edge, and so on.
/// `Inside` says that on neither axis one box sticks out of the other on
/// exactly one side.
#[derive(Clone, Copy, Debug, PartialEq, Eq, Structural)]
pub enum Collision {
    Left,
    Right,
    Top,
    Bottom,
    Inside,
}

/// How an interval lies against another one that it overlaps.
#[derive(Clone, Copy, Debug, PartialEq, Eq, Structural)]
pub enum Overhang {
    /// It starts before the other and ends inside it.
    Low,
    /// It starts inside the other and ends after it.
    High,
    /// One of the two contains the other.
    Neither,
}

/// Twice the lower end of the interval of length `size` centred at `centre`.
pub open spec fn low_end(centre: int, size: int) -> int {
    2 * centre - size
}

/// Twice the upper end of the interval of length `size` centred at `centre`.
pub open spec fn high_end(centre: int, size: int) -> int {
    2 * centre + size
}

/// Whether the open intervals `(a_low, a_high)` and `(b_low, b_high)` meet.
pub open spec fn intervals_meet(a_low: int, a_high: int, b_low: int, b_high: int) -> bool {
    a_low < b_high && a_high > b_low
}

/// How the interval `a` lies against the interval `b`.
pub open spec fn overhang(a_low: int, a_high: int, b_low: int, b_high: int) -> Overhang {
    if a_low < b_low && b_low < a_high && a_high < b_high {
        Overhang::Low
    } else if b_low < a_low && a_low < b_high && b_high < a_high {
        Overhang::High
    } else {
        Overhang::Neither
    }
}

/// How far the interval `a` reaches into the interval `b` on the side where
/// it hangs over; `None` where it hangs over on neither side.
pub open spec fn penetration(a_low: int, a_high: int, b_low: int, b_high: int) -> Option<int> {
    match overhang(a_low, a_high, b_low, b_high) {
        Overhang::Low => Some(a_high - b_low),
        Overhang::High => Some(b_high - a_low),
        Overhang::Neither => None,
    }
}

/// Whether the boxes `a` and `b`, each given by its centre and its size,
/// overlap in more than an edge.
pub open spec fn boxes_overlap(
    a_pos: Vector,
    a_size: Vector,
    b_pos: Vector,
    b_size: Vector,
) -> bool {
    &&& intervals_meet(
        low_end(a_pos.x as int, a_size.x as int),
        high_end(a_pos.x as int, a_size.x as int),
        low_end(b_pos.x as int, b_size.x as int),
        high_end(b_pos.x as int, b_size.x as int),
    )
    &&& intervals_meet(
        low_end(a_pos.y as int, a_size.y as int),
        high_end(a_pos.y as int, a_size.y as int),
        low_end(b_pos.y as int, b_size.y as int),
        high_end(b_pos.y as int, b_size.y as int),
    )
}

/// The contact of box `a` with box `b`.
///
/// There is none unless the boxes overlap. Where they do, each axis on which
/// `a` hangs over exactly one edge of `b` proposes that edge, and the axis
/// with the strictly smaller penetration wins; the horizontal axis wins a
/// tie. Where only one axis proposes an edge, that edge is the contact, and
/// where none does the contact is `Inside`.
pub open spec fn contact(a_pos: Vector, a_size: Vector, b_pos: Vector, b_size: Vector) -> Option<
    Collision,
> {
    let ax_low = low_end(a_pos.x as int, a_size.x as int);
    let ax_high = high_end(a_pos.x as int, a_size.x as int);
    let bx_low = low_end(b_pos.x as int, b_size.x as int);
    let bx_high = high_end(b_pos.x as int, b_size.x as int);
    let ay_low = low_end(a_pos.y as int, a_size.y as int);
    let ay_high = high_end(a_pos.y as int, a_size.y as int);
    let by_low = low_end(b_pos.y as int, b_size.y as int);
    let by_high = high_end(b_pos.y as int, b_size.y as int);
    if !boxes_overlap(a_pos, a_size, b_pos, b_size) {
        None
    } else {
        let x_depth = penetration(ax_low, ax_high, bx_low, bx_high);
        let y_depth = penetration(ay_low, ay_high, by_low, by_high);
        let vertical = match (x_depth, y_depth) {
            (_, None) => false,
            (None, Some(_)) => true,
            (Some(dx), Some(dy)) => dy < dx,
        };
        if vertical {
            match overhang(ay_low, ay_high, by_low, by_high) {
                Overhang::Low => Some(Collision::Bottom),
                _ => Some(Collision::Top),
            }
        } else {
            match overhang(ax_low, ax_high, bx_low, bx_high) {
                Overhang::Low => Some(Collision::Left),
                Overhang::High => Some(Collision::Right),
                Overhang::Neither => Some(Collision::Inside),
            }
        }
    }
}

impl Vector {
    /// Whether both components can change their sign within the machine's
    /// range.
    pub open spec fn negatable(self) -> bool {
        self.x > i64::MIN && self.y > i64::MIN
    }

    /// Whether a contact on `side` turns the horizontal component round:
    /// only when the body moves further into what it touched.
    pub open spec fn reflects_x(self, side: Collision) -> bool {
        ||| side == Collision::Left && self.x > 0
        ||| side == Collision::Right && self.x < 0
    }

    /// Whether a contact on `side` turns the vertical component round.
    pub open spec fn reflects_y(self, side: Collision) -> bool {
        ||| side == Collision::Top && self.y < 0
        ||| side == Collision::Bottom && self.y > 0
    }

    /// This velocity after a contact on `side`.
    pub open spec fn reflected(self, side: Collision) -> Vector {
        Vector {
            x: if self.reflects_x(side) {
                (-self.x) as i64
            } else {
                self.x
            },
            y: if self.reflects_y(side) {
                (-self.y) as i64
            } else {
                self.y
            },
        }
    }

    /// Turns this velocity round as a contact on `side` demands. At most one
    /// component changes, and it changes its sign only.
    pub fn reflect(&mut self, side: Collision)
        requires
            side == Collision::Right ==> old(self).x > i64::MIN,
            side == Collision::Top ==> old(self).y > i64::MIN,
        ensures
            *final(self) == old(self).reflected(side),
            final(self).x == (if old(self).reflects_x(side) {
                -old(self).x
            } else {
                old(self).x as int
            }),
            final(self).y == (if old(self).reflects_y(side) {
                -old(self).y
            } else {
                old(self).y as int
            }),
            final(self).x == old(self).x || final(self).y == old(self).y,
    {
        match side {
            Collision::Left => {
                if self.x > 0 {
                    self.x = -self.x;
                }
            },
            Collision::Right => {
                if self.x < 0 {
                    self.x = -self.x;
                }
            },
            Collision::Top => {
                if self.y < 0 {
                    self.y = -self.y;
                }
            },
            Collision::Bottom => {
                if self.y > 0 {
                    self.y = -self.y;
                }
            },
            Collision::Inside => {},
        }
    }
}

/// The widest range that twice an end of an interval can take when centre
/// and size are machine integers.
spec fn is_doubled_end(v: int) -> bool {
    -3 * 0x8000_0000_0000_0000 <= v <= 3 * 0x8000_0000_0000_0000
}

/// Executable form of [`overhang`].
fn overhang_of(a_low: i128, a_high: i128, b_low: i128, b_high: i128) -> (side: Overhang)
    ensures
        side == overhang(a_low as int, a_high as int, b_low as int, b_high as int),
{
    if a_low < b_low && b_low < a_high && a_high < b_high {
        Overhang::Low
    } else if b_low < a_low && a_low < b_high && b_high < a_high {
        Overhang::High
    } else {
        Overhang::Neither
    }
}

/// Executable form of [`penetration`].
fn penetration_of(a_low: i128, a_high: i128, b_low: i128, b_high: i128) -> (depth: Option<i128>)
    requires
        is_doubled_end(a_low as int),
        is_doubled_end(a_high as int),
        is_doubled_end(b_low as int),
        is_doubled_end(b_high as int),
    ensures
        match depth {
            Some(d) => penetration(a_low as int, a_high as int, b_low as int, b_high as int)
                == Some(d as int),
            None => penetration(a_low as int, a_high as int, b_low as int, b_high as int) is None,
        },
{
    match overhang_of(a_low, a_high, b_low, b_high) {
        Overhang::Low => Some(a_high - b_low),
        Overhang::High => Some(b_high - a_low),
        Overhang::Neither => None,
    }
}

/// Tests box `a` against box `b`, each given by its centre and its size, and
/// names the side of `b` that `a` touches. Every pair of boxes is accepted:
/// the halves of odd sizes are exact, and nothing overflows.
pub fn collide(a_pos: Vector, a_size: Vector, b_pos: Vector, b_size: Vector) -> (side: Option<
    Collision,
>)
    ensures
        side == contact(a_pos, a_size, b_pos, b_size),
        side is Some <==> boxes_overlap(a_pos, a_size, b_pos, b_size),
{
    let ax_low: i128 = 2 * (a_pos.x as i128) - (a_size.x as i128);
    let ax_high: i128 = 2 * (a_pos.x as i128) + (a_size.x as i128);
    let bx_low: i128 = 2 * (b_pos.x as i128) - (b_size.x as i128);
    let bx_high: i128 = 2 * (b_pos.x as i128) + (b_size.x as i128);
    let ay_low: i128 = 2 * (a_pos.y as i128) - (a_size.y as i128);
    let ay_high: i128 = 2 * (a_pos.y as i128) + (a_size.y as i128);
    let by_low: i128 = 2 * (b_pos.y as i128) - (b_size.y as i128);
    let by_high: i128 = 2 * (b_pos.y as i128) + (b_size.y as i128);
    if ax_low < bx_high && ax_high > bx_low && ay_low < by_high && ay_high > by_low {
        let x_depth = penetration_of(ax_low, ax_high, bx_low, bx_high);
        let y_depth = penetration_of(ay_low, ay_high, by_low, by_high);
        let vertical = match (x_depth, y_depth) {
            (_, None) => false,
            (None, Some(_)) => true,
            (Some(dx), Some(dy)) => dy < dx,
        };
        if vertical {
            match overhang_of(ay_low, ay_high, by_low, by_high) {
                Overhang::Low => Some(Collision::Bottom),
                _ => Some(Collision::Top),
            }
        } else {
            match overhang_of(ax_low, ax_high, bx_low, bx_high) {
                Overhang::Low => Some(Collision::Left),
                Overhang::High => Some(Collision::Right),
                Overhang::Neither => Some(Collision::Inside),
            }
        }
    } else {
        None
    }
}

/// Seen from the other box a contact is on the opposite side: where `a`
/// touches the left of `b`, `b` touches the right of `a`, and likewise for
/// top and bottom; a contact inside is one from both.
pub proof fn lemma_contact_mirrored(a_pos: Vector, a_size: Vector, b_pos: Vector, b_size: Vector)
    ensures
        contact(a_pos, a_size, b_pos, b_size) is Some <==> contact(b_pos, b_size, a_pos, a_size)
            is Some,
        contact(a_pos, a_size, b_pos, b_size) == Some(Collision::Left) <==> contact(
            b_pos,
            b_size,
            a_pos,
            a_size,
        ) == Some(Collision::Right),
        contact(a_pos, a_size, b_pos, b_size) == Some(Collision::Bottom) <==> contact(
            b_pos,
            b_size,
            a_pos,
            a_size,
        ) == Some(Collision::Top),
        contact(a_pos, a_size, b_pos, b_size) == Some(Collision::Inside) <==> contact(
            b_pos,
            b_size,
            a_pos,
            a_size,
        ) == Some(Collision::Inside),
{
}

/// What each contact says about the boxes. A contact on a side means that
/// `a` hangs over that edge of `b` and over no other edge on that axis. A
/// contact inside means that on each axis one box reaches at least as far
/// as the other on both sides.
pub proof fn lemma_contact_sides(a_pos: Vector, a_size: Vector, b_pos: Vector, b_size: Vector)
    ensures
        contact(a_pos, a_size, b_pos, b_size) == Some(Collision::Left) ==> {
            &&& low_end(a_pos.x as int, a_size.x as int) < low_end(b_pos.x as int, b_size.x as int)
            &&& low_end(b_pos.x as int, b_size.x as int) < high_end(
                a_pos.x as int,
                a_size.x as int,
            )
            &&& high_end(a_pos.x as int, a_size.x as int) < high_end(
                b_pos.x as int,
                b_size.x as int,
            )
        },
        contact(a_pos, a_size, b_pos, b_size) == Some(Collision::Right) ==> {
            &&& low_end(b_pos.x as int, b_size.x as int) < low_end(a_pos.x as int, a_size.x as int)
            &&& low_end(a_pos.x as int, a_size.x as int) < high_end(
                b_pos.x as int,
                b_size.x as int,
            )
            &&& high_end(b_pos.x as int, b_size.x as int) < high_end(
                a_pos.x as int,
                a_size.x as int,
            )
        },
        contact(a_pos, a_size, b_pos, b_size) == Some(Collision::Bottom) ==> {
            &&& low_end(a_pos.y as int, a_size.y as int) < low_end(b_pos.y as int, b_size.y as int)
            &&& low_end(b_pos.y as int, b_size.y as int) < high_end(
                a_pos.y as int,
                a_size.y as int,
            )
            &&& high_end(a_pos.y as int, a_size.y as int) < high_end(
                b_pos.y as int,
                b_size.y as int,
            )
        },
        contact(a_pos, a_size, b_pos, b_size) == Some(Collision::Top) ==> {
            &&& low_end(b_pos.y as int, b_size.y as int) < low_end(a_pos.y as int, a_size.y as int)
            &&& low_end(a_pos.y as int, a_size.y as int) < high_end(
                b_pos.y as int,
                b_size.y as int,
            )
            &&& high_end(b_pos.y as int, b_size.y as int) < high_end(
                a_pos.y as int,
                a_size.y as int,
            )
        },
        contact(a_pos, a_size, b_pos, b_size) == Some(Collision::Inside) <==> {
            &&& boxes_overlap(a_pos, a_size, b_pos, b_size)
            &&& overhang(
                low_end(a_pos.x as int, a_size.x as int),
                high_end(a_pos.x as int, a_size.x as int),
                low_end(b_pos.x as int, b_size.x as int),
                high_end(b_pos.x as int, b_size.x as int),
            ) == Overhang::Neither
            &&& overhang(
                low_end(a_pos.y as int, a_size.y as int),
                high_end(a_pos.y as int, a_size.y as int),
                low_end(b_pos.y as int, b_size.y as int),
                high_end(b_pos.y as int, b_size.y as int),
            ) == Overhang::Neither
        },
{
}

} // verus!
