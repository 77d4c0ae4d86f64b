//! Fixed-point logical coordinates.
//!
//! Positions, offsets and other real-valued quantities are signed 64-bit
//! counts of `1 / UNIT`: one logical pixel, and the dimensionless value one,
//! is `UNIT`.

use vstd::prelude::*;

verus! {

/// The fixed-point representation of one logical pixel.
pub const UNIT: i64 = 65536;

/// Half of [`UNIT`]: what one whole pixel contributes to a centre coordinate.
pub const HALF_UNIT: i64 = 32768;

/// The largest magnitude a cursor coordinate may have. The difference of two
/// coordinates within this bound always fits in an `i64`.
pub const COORD_MAX: i64 = 0x3fff_ffff_ffff_ffff;

/// An absolute position in logical coordinates.
#[derive(Clone, Copy, PartialEq, Eq, Structural, Debug)]
pub struct Point {
    pub x: i64,
    pub y: i64,
}

/// A displacement in logical units: a relative cursor motion or a scroll.
#[derive(Clone, Copy, PartialEq, Eq, Structural, Debug)]
pub struct Offset {
    pub dx: i64,
    pub dy: i64,
}

/// A size in whole pixels.
#[derive(Clone, Copy, PartialEq, Eq, Structural, Debug)]
pub struct Size {
    pub width: u32,
    pub height: u32,
}

/// A size in fixed-point logical units.
#[derive(Clone, Copy, PartialEq, Eq, Structural, Debug)]
pub struct Extent {
    pub width: i64,
    pub height: i64,
}

impl Point {
    /// Both coordinates lie within `COORD_MAX` of the origin.
    pub open spec fn in_range(self) -> bool {
        &&& -COORD_MAX <= self.x <= COORD_MAX
        &&& -COORD_MAX <= self.y <= COORD_MAX
    }

    /// The displacement that leads from `from` to `self`.
    pub open spec fn offset_from(self, from: Point) -> Offset {
        Offset { dx: (self.x - from.x) as i64, dy: (self.y - from.y) as i64 }
    }

    /// Between two points within the coordinate bound, the displacement is
    /// the exact difference of the coordinates.
    pub proof fn lemma_offset_is_difference(self, from: Point)
        requires
            self.in_range(),
            from.in_range(),
        ensures
            self.offset_from(from).dx == self.x - from.x,
            self.offset_from(from).dy == self.y - from.y,
    {
    }

    /// Tests whether the point is within the coordinate bound.
    pub fn is_in_range(&self) -> (ok: bool)
        ensures
            ok == self.in_range(),
    {
        -COORD_MAX <= self.x && self.x <= COORD_MAX && -COORD_MAX <= self.y && self.y <= COORD_MAX
    }

    /// Computes the displacement from `from` to `self`.
    pub fn delta_from(&self, from: &Point) -> (d: Offset)
        requires
            self.in_range(),
            from.in_range(),
        ensures
            d == self.offset_from(*from),
            d.dx == self.x - from.x,
            d.dy == self.y - from.y,
    {
        Offset { dx: self.x - from.x, dy: self.y - from.y }
    }
}

impl Size {
    /// The centre of a window of this size, in fixed-point coordinates.
    pub open spec fn centre(self) -> Point {
        Point { x: (self.width * HALF_UNIT) as i64, y: (self.height * HALF_UNIT) as i64 }
    }

    /// Computes the centre of a window of this size.
    pub fn center(&self) -> (c: Point)
        ensures
            c == self.centre(),
            c.x == self.width * HALF_UNIT,
            c.y == self.height * HALF_UNIT,
            c.in_range(),
    {
        let w: i64 = self.width as i64;
        let h: i64 = self.height as i64;
        assert(w * HALF_UNIT <= 0xffff_ffff * 32768) by (nonlinear_arith)
            requires 0 <= w <= 0xffff_ffff, HALF_UNIT == 32768;
        assert(h * HALF_UNIT <= 0xffff_ffff * 32768) by (nonlinear_arith)
            requires 0 <= h <= 0xffff_ffff, HALF_UNIT == 32768;
        assert(w * HALF_UNIT >= 0) by (nonlinear_arith)
            requires 0 <= w, HALF_UNIT == 32768;
        assert(h * HALF_UNIT >= 0) by (nonlinear_arith)
            requires 0 <= h, HALF_UNIT == 32768;
        Point { x: w * HALF_UNIT, y: h * HALF_UNIT }
    }
}

} // verus!
