//! Two-dimensional vectors: the mathematical one that contracts speak of,
//! and the machine one that the simulation stores.

use vstd::prelude::*;

verus! {

/// A point or a displacement of the plane, its coordinates counted in
/// lattice steps. This is the model of [`Vec2`]; it exists in
/// specifications only.
pub struct Vector {
    pub x: int,
    pub y: int,
}

impl Vector {
    /// The vector with both coordinates zero.
    pub open spec fn zero() -> Vector {
        Vector { x: 0, y: 0 }
    }

    /// Componentwise sum.
    pub open spec fn plus(self, other: Vector) -> Vector {
        Vector { x: self.x + other.x, y: self.y + other.y }
    }

    /// Both coordinates multiplied by `k`.
    pub open spec fn scaled(self, k: int) -> Vector {
        Vector { x: k * self.x, y: k * self.y }
    }

    /// The vector with its horizontal coordinate negated.
    pub open spec fn flipped_x(self) -> Vector {
        Vector { x: -self.x, y: self.y }
    }

    /// The vector with its vertical coordinate negated.
    pub open spec fn flipped_y(self) -> Vector {
        Vector { x: self.x, y: -self.y }
    }

    /// Both coordinates can be stored: the lattice spans the range of a
    /// 64-bit integer along each axis.
    pub open spec fn on_lattice(self) -> bool {
        &&& i64::MIN <= self.x <= i64::MAX
        &&& i64::MIN <= self.y <= i64::MAX
    }
}

/// A vector as the simulation stores it, its coordinates counted in lattice
/// steps.
#[derive(Clone, Copy, Debug, PartialEq, Eq, Structural)]
pub struct Vec2 {
    pub x: i64,
    pub y: i64,
}

impl View for Vec2 {
    type V = Vector;

    open spec fn view(&self) -> Vector {
        Vector { x: self.x as int, y: self.y as int }
    }
}

impl Vec2 {
    /// The vector `(x, y)`, both counted in lattice steps.
    pub fn new(x: i64, y: i64) -> (v: Vec2)
        ensures
            v.x == x,
            v.y == y,
    {
        Vec2 { x, y }
    }
}

} // verus!
