//! Fixed-point scalars and two-dimensional vectors.

use vstd::prelude::*;

verus! {

/// Number of fixed-point steps in one world unit.
///
/// Every scalar of the engine (coordinates, extents, velocities, masses,
/// angles, scale factors) is an `i64` that counts steps of `1 / UNIT`.
pub const UNIT: i64 = 65536;

/// Number of fixed-point steps in half a world unit.
pub const HALF_UNIT: i64 = 32768;

/// The scalar that stands for `n` whole world units.
pub open spec fn units(n: int) -> i64 {
    (n * UNIT) as i64
}

/// The scalar that stands for `n` halves of a world unit.
pub open spec fn half_units(n: int) -> i64 {
    (n * HALF_UNIT) as i64
}

/// Computes `units(n)`.
pub fn from_units(n: i32) -> (r: i64)
    ensures
        r == n * UNIT,
        r == units(n as int),
{
    (n as i64) * UNIT
}

/// Computes `half_units(n)`.
pub fn from_half_units(n: i32) -> (r: i64)
    ensures
        r == n * HALF_UNIT,
        r == half_units(n as int),
{
    (n as i64) * HALF_UNIT
}

/// A point or displacement in the plane, in fixed-point steps.
#[derive(Clone, Copy, Debug, PartialEq, Eq, Structural)]
pub struct Vec2 {
    pub x: i64,
    pub y: i64,
}

impl Vec2 {
    /// The vector with the given components, in fixed-point steps.
    pub fn new(x: i64, y: i64) -> (v: Vec2)
        ensures
            v == (Vec2 { x, y }),
    {
        Vec2 { x, y }
    }

    /// The vector whose components are whole world units.
    pub fn from_units(x: i32, y: i32) -> (v: Vec2)
        ensures
            v.x == x * UNIT,
            v.y == y * UNIT,
            v == (Vec2 { x: units(x as int), y: units(y as int) }),
    {
        Vec2 { x: (x as i64) * UNIT, y: (y as i64) * UNIT }
    }

    /// The zero vector.
    pub fn zero() -> (v: Vec2)
        ensures
            v == (Vec2 { x: 0, y: 0 }),
    {
        Vec2 { x: 0, y: 0 }
    }

    /// Whether the component-wise sum with `other` can be held in a `Vec2`.
    pub open spec fn can_add(self, other: Vec2) -> bool {
        &&& i64::MIN <= self.x + other.x <= i64::MAX
        &&& i64::MIN <= self.y + other.y <= i64::MAX
    }

    /// Decides `can_add`.
    pub fn fits_sum(self, other: Vec2) -> (b: bool)
        ensures
            b == self.can_add(other),
    {
        self.x.checked_add(other.x).is_some() && self.y.checked_add(other.y).is_some()
    }

    /// Component-wise sum.
    pub fn plus(self, other: Vec2) -> (v: Vec2)
        requires
            self.can_add(other),
        ensures
            v.x == self.x + other.x,
            v.y == self.y + other.y,
    {
        Vec2 { x: self.x + other.x, y: self.y + other.y }
    }
}

} // verus!
