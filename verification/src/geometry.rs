//! Positions, velocities, boxes, and the test that tells on which side two
//! boxes meet.

use vstd::prelude::*;

verus! {

/// The centre of an entity, in position steps.
#[derive(Clone, Copy, Debug, PartialEq, Eq, Structural)]
pub struct Position {
    pub x: i64,
    pub y: i64,
}

/// Rate of change of a position, in position steps per tick.
#[derive(Clone, Copy, Debug, PartialEq, Eq, Structural)]
pub struct Velocity {
    pub x: i64,
    pub y: i64,
}

/// The extent of an entity's box around its centre. The box is kept by its
/// half-extents, so that its edges fall on whole position steps.
#[derive(Clone, Copy, Debug, PartialEq, Eq, Structural)]
pub struct BoundingSize {
    pub half_width: u64,
    pub half_height: u64,
}

/// An axis-aligned box over the unbounded integers.
pub struct Aabb {
    pub x: int,
    pub y: int,
    pub half_width: int,
    pub half_height: int,
}

/// The side of the second box that the first one has entered through.
#[derive(Clone, Copy, Debug, PartialEq, Eq, Structural)]
pub enum Collision {
    Left,
    Right,
    Top,
    Bottom,
}

impl Aabb {
    pub open spec fn left(self) -> int {
        self.x - self.half_width
    }

    pub open spec fn right(self) -> int {
        self.x + self.half_width
    }

    pub open spec fn bottom(self) -> int {
        self.y - self.half_height
    }

    pub open spec fn top(self) -> int {
        self.y + self.half_height
    }

    /// The two boxes share interior points. Boxes that only touch do not
    /// overlap.
    pub open spec fn overlaps(self, other: Aabb) -> bool {
        &&& self.left() < other.right()
        &&& self.right() > other.left()
        &&& self.bottom() < other.top()
        &&& self.top() > other.bottom()
    }

    /// `self` straddles the left edge of `other` without reaching its right
    /// edge.
    pub open spec fn enters_left(self, other: Aabb) -> bool {
        self.left() < other.left() < self.right() < other.right()
    }

    /// `self` straddles the right edge of `other` without reaching its left
    /// edge.
    pub open spec fn enters_right(self, other: Aabb) -> bool {
        other.left() < self.left() < other.right() < self.right()
    }

    /// `self` straddles the bottom edge of `other` without reaching its top
    /// edge.
    pub open spec fn enters_bottom(self, other: Aabb) -> bool {
        self.bottom() < other.bottom() < self.top() < other.top()
    }

    /// `self` straddles the top edge of `other` without reaching its bottom
    /// edge.
    pub open spec fn enters_top(self, other: Aabb) -> bool {
        other.bottom() < self.bottom() < other.top() < self.top()
    }

    /// How far `self` reaches into `other` along x, where it straddles one
    /// of its vertical edges; zero where it does not.
    pub open spec fn depth_x(self, other: Aabb) -> int {
        if self.enters_left(other) {
            self.right() - other.left()
        } else if self.enters_right(other) {
            other.right() - self.left()
        } else {
            0
        }
    }

    /// How far `self` reaches into `other` along y, where it straddles one
    /// of its horizontal edges; zero where it does not.
    pub open spec fn depth_y(self, other: Aabb) -> int {
        if self.enters_bottom(other) {
            self.top() - other.bottom()
        } else if self.enters_top(other) {
            other.top() - self.bottom()
        } else {
            0
        }
    }

    /// `self` straddles a vertical edge of `other`.
    pub open spec fn enters_sideways(self, other: Aabb) -> bool {
        self.enters_left(other) || self.enters_right(other)
    }

    /// `self` straddles a horizontal edge of `other`.
    pub open spec fn enters_upright(self, other: Aabb) -> bool {
        self.enters_bottom(other) || self.enters_top(other)
    }

    /// The edge through which `self` has entered `other`, if the boxes
    /// overlap and `self` straddles an edge at all. Where it straddles both
    /// a vertical and a horizontal edge, the shallower entry decides, and
    /// the vertical edge on a tie.
    pub open spec fn collide(self, other: Aabb) -> Option<Collision> {
        if !self.overlaps(other) {
            None
        } else if self.enters_upright(other) && (!self.enters_sideways(other) || self.depth_y(
            other,
        ) < self.depth_x(other)) {
            if self.enters_bottom(other) {
                Some(Collision::Bottom)
            } else {
                Some(Collision::Top)
            }
        } else if self.enters_left(other) {
            Some(Collision::Left)
        } else if self.enters_right(other) {
            Some(Collision::Right)
        } else {
            None
        }
    }

    /// `self` has come down onto `other` through its top edge.
    pub open spec fn lands_on(self, other: Aabb) -> bool {
        self.collide(other) == Some(Collision::Top)
    }
}

/// The box of the given extent around a centre.
pub open spec fn aabb(center: Position, size: BoundingSize) -> Aabb {
    Aabb {
        x: center.x as int,
        y: center.y as int,
        half_width: size.half_width as int,
        half_height: size.half_height as int,
    }
}

/// Tells through which edge of box `b` box `a` has entered it, if at all.
pub fn collide(a_pos: Position, a_size: BoundingSize, b_pos: Position, b_size: BoundingSize) -> (hit:
    Option<Collision>)
    ensures
        hit == aabb(a_pos, a_size).collide(aabb(b_pos, b_size)),
{
    let a_left: i128 = a_pos.x as i128 - a_size.half_width as i128;
    let a_right: i128 = a_pos.x as i128 + a_size.half_width as i128;
    let a_bottom: i128 = a_pos.y as i128 - a_size.half_height as i128;
    let a_top: i128 = a_pos.y as i128 + a_size.half_height as i128;
    let b_left: i128 = b_pos.x as i128 - b_size.half_width as i128;
    let b_right: i128 = b_pos.x as i128 + b_size.half_width as i128;
    let b_bottom: i128 = b_pos.y as i128 - b_size.half_height as i128;
    let b_top: i128 = b_pos.y as i128 + b_size.half_height as i128;

    if !(a_left < b_right && a_right > b_left && a_bottom < b_top && a_top > b_bottom) {
        return None;
    }
    let (side, depth_x): (Option<Collision>, i128) = if a_left < b_left && a_right > b_left
        && a_right < b_right {
        (Some(Collision::Left), a_right - b_left)
    } else if a_left > b_left && a_left < b_right && a_right > b_right {
        (Some(Collision::Right), b_right - a_left)
    } else {
        (None, 0)
    };
    let (upright, depth_y): (Option<Collision>, i128) = if a_bottom < b_bottom && a_top > b_bottom
        && a_top < b_top {
        (Some(Collision::Bottom), a_top - b_bottom)
    } else if a_bottom > b_bottom && a_bottom < b_top && a_top > b_top {
        (Some(Collision::Top), b_top - a_bottom)
    } else {
        (None, 0)
    };
    match (side, upright) {
        (Some(side), Some(upright)) => if depth_y < depth_x {
            Some(upright)
        } else {
            Some(side)
        },
        (Some(side), None) => Some(side),
        (None, Some(upright)) => Some(upright),
        (None, None) => None,
    }
}

/// A landing, said outright: the boxes overlap, the first one's bottom edge
/// lies strictly inside the second one's height while its top edge lies
/// above, and it has not gone in sideways any less deep.
pub proof fn lemma_landing(a: Aabb, b: Aabb)
    ensures
        a.lands_on(b) <==> {
            &&& a.left() < b.right()
            &&& b.left() < a.right()
            &&& b.bottom() < a.bottom() < b.top() < a.top()
            &&& a.enters_sideways(b) ==> b.top() - a.bottom() < a.depth_x(b)
        },
{
}

/// A box that rests on another, its bottom edge on the other's top edge,
/// does not collide with it.
pub proof fn lemma_resting_is_no_collision(a: Aabb, b: Aabb)
    requires
        a.bottom() == b.top(),
    ensures
        a.collide(b).is_none(),
{
}

} // verus!
