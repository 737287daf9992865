//! Geometry: window coordinates

use vstd::prelude::*;

verus! {

/// A position in window coordinates, in pixels.
#[derive(Clone, Copy, Debug, PartialEq, Eq, Hash, Structural)]
pub struct Coord(pub i32, pub i32);

impl Coord {
    /// The origin
    pub open spec fn spec_zero() -> Coord {
        Coord(0, 0)
    }

    /// The origin
    #[verifier::when_used_as_spec(spec_zero)]
    pub fn zero() -> (c: Coord)
        ensures
            c == Coord::spec_zero(),
    {
        Coord(0, 0)
    }

    /// The difference `self - other` on each axis, saturating at the bounds
    /// of `i32`.
    pub open spec fn spec_delta(self, other: Coord) -> Coord {
        Coord(saturate(self.0 - other.0), saturate(self.1 - other.1))
    }

    /// The movement from `other` to `self`.
    ///
    /// Coordinates near opposite ends of the `i32` range cannot occur on a
    /// screen; for them the result saturates.
    pub fn delta(self, other: Coord) -> (d: Coord)
        ensures
            d == self.spec_delta(other),
    {
        Coord(saturating_diff(self.0, other.0), saturating_diff(self.1, other.1))
    }
}

/// `a - b`, clamped to the range of `i32`
fn saturating_diff(a: i32, b: i32) -> (d: i32)
    ensures
        d == saturate(a - b),
{
    let wide: i64 = a as i64 - b as i64;
    if wide > i32::MAX as i64 {
        i32::MAX
    } else if wide < i32::MIN as i64 {
        i32::MIN
    } else {
        wide as i32
    }
}

/// A size in pixels: width and height
#[derive(Clone, Copy, Debug, PartialEq, Eq, Hash, Structural)]
pub struct Size(pub u32, pub u32);

/// A rectangle of the window: the region of a widget
#[derive(Clone, Copy, Debug, PartialEq, Eq, Hash, Structural)]
pub struct Rect {
    /// The corner with the least coordinates
    pub pos: Coord,
    /// The extent from there
    pub size: Size,
}

impl Rect {
    /// Does the rectangle hold the position `c`? It holds its least corner
    /// and not the far edges.
    pub open spec fn spec_contains(self, c: Coord) -> bool {
        self.pos.0 <= c.0 < self.pos.0 + self.size.0 && self.pos.1 <= c.1 < self.pos.1
            + self.size.1
    }

    /// Does the rectangle hold the position `c`?
    #[verifier::when_used_as_spec(spec_contains)]
    pub fn contains(self, c: Coord) -> (r: bool)
        ensures
            r == self.spec_contains(c),
    {
        let x: i64 = c.0 as i64;
        let y: i64 = c.1 as i64;
        let left: i64 = self.pos.0 as i64;
        let top: i64 = self.pos.1 as i64;
        left <= x && x < left + self.size.0 as i64 && top <= y && y < top + self.size.1 as i64
    }
}

/// `v` clamped to the range of `i32`
pub open spec fn saturate(v: int) -> i32 {
    if v > i32::MAX {
        i32::MAX
    } else if v < i32::MIN {
        i32::MIN
    } else {
        v as i32
    }
}

} // verus!
