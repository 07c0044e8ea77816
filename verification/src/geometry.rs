//! Points, sizes and rectangles in logical pixels, and how an output maps them to its screen.

use vstd::prelude::*;

use crate::binary64::Binary64;

verus! {

#[derive(Clone, Copy, Debug)]
pub struct Point {
    pub x: Binary64,
    pub y: Binary64,
}

#[derive(Clone, Copy, Debug)]
pub struct Size {
    pub w: Binary64,
    pub h: Binary64,
}

/// A size in whole logical pixels, as clients are told it.
#[derive(Clone, Copy, Debug, PartialEq, Eq, Structural)]
pub struct SizeI32 {
    pub w: i32,
    pub h: i32,
}

#[derive(Clone, Copy, Debug)]
pub struct Rectangle {
    pub loc: Point,
    pub size: Size,
}

/// Resolved width or height in logical pixels.
#[derive(Clone, Copy, Debug, PartialEq)]
pub enum ResolvedSize {
    /// Size of the tile including borders.
    Tile(Binary64),
    /// Size of the window excluding borders.
    Window(Binary64),
}

/// How an output's contents are turned before they reach its screen.
#[derive(Clone, Copy, Debug, PartialEq, Eq, Structural)]
pub enum Transform {
    Normal,
    Rotated90,
    Rotated180,
    Rotated270,
    Flipped,
    Flipped90,
    Flipped180,
    Flipped270,
}

/// The way in which an output's scale was given.
#[derive(Clone, Copy, Debug, PartialEq, Eq, Structural)]
pub enum ScaleKind {
    Integer,
    Fractional,
    Custom,
}

/// The scale of an output: the integer that is advertised to clients that know no other, and the
/// factor that is used everywhere else.
#[derive(Clone, Copy, Debug, PartialEq)]
pub struct Scale {
    pub kind: ScaleKind,
    pub integer: i32,
    pub fractional: Binary64,
}

impl Point {
    /// Numeric equality of both coordinates.
    pub open spec fn equals(self, other: Self) -> bool {
        self.x.equals(other.x) && self.y.equals(other.y)
    }

    pub open spec fn is_origin(self) -> bool {
        !self.x.nan() && self.x.rank() == 0 && !self.y.nan() && self.y.rank() == 0
    }

    /// The point on the opposite side of the origin.
    pub open spec fn mirrored(self) -> Self {
        Point { x: self.x.negated(), y: self.y.negated() }
    }

    pub fn origin() -> (r: Self)
        ensures
            r.x.bits == 0,
            r.y.bits == 0,
            r.is_origin(),
    {
        Point { x: Binary64 { bits: 0 }, y: Binary64 { bits: 0 } }
    }

    pub fn mirror(self) -> (r: Self)
        ensures
            r == self.mirrored(),
    {
        Point { x: self.x.negate(), y: self.y.negate() }
    }
}

impl Size {
    /// Numeric equality of both lengths.
    pub open spec fn equals(self, other: Self) -> bool {
        self.w.equals(other.w) && self.h.equals(other.h)
    }

    pub open spec fn positive(self) -> bool {
        self.w.positive() && self.h.positive()
    }

    /// The size in the nearest whole pixels.
    pub open spec fn rounded(self) -> SizeI32 {
        SizeI32 { w: self.w.rounded_to_i32(), h: self.h.rounded_to_i32() }
    }

    pub fn to_i32_round(self) -> (r: SizeI32)
        ensures
            r == self.rounded(),
    {
        SizeI32 { w: self.w.round_to_i32(), h: self.h.round_to_i32() }
    }
}

impl Rectangle {
    /// Numeric equality of the corner and the size.
    pub open spec fn equals(self, other: Self) -> bool {
        self.loc.equals(other.loc) && self.size.equals(other.size)
    }
}

impl Scale {
    /// Whether both numbers are equal. How the scale was given makes no difference.
    pub open spec fn equals(self, other: Self) -> bool {
        self.integer == other.integer && self.fractional.equals(other.fractional)
    }

    /// Whether a client that was told one scale would learn nothing from being told the other:
    /// the numbers are equal, or they are the same bits.
    pub open spec fn agrees_with(self, other: Self) -> bool {
        self.integer == other.integer && (self.fractional.equals(other.fractional)
            || self.fractional == other.fractional)
    }

    pub fn equal_to(self, other: Self) -> (r: bool)
        ensures
            r == self.equals(other),
    {
        self.integer == other.integer && self.fractional == other.fractional
    }
}

impl PartialEq for Point {
    fn eq(&self, other: &Self) -> (r: bool)
        ensures
            r <==> self.x.has_same_value_as(other.x) && self.y.has_same_value_as(other.y),
    {
        self.x == other.x && self.y == other.y
    }
}

impl vstd::std_specs::cmp::PartialEqSpecImpl for Point {
    open spec fn obeys_eq_spec() -> bool {
        true
    }

    open spec fn eq_spec(&self, other: &Self) -> bool {
        self.equals(*other)
    }
}

impl PartialEq for Size {
    fn eq(&self, other: &Self) -> (r: bool)
        ensures
            r <==> self.w.has_same_value_as(other.w) && self.h.has_same_value_as(other.h),
    {
        self.w == other.w && self.h == other.h
    }
}

impl vstd::std_specs::cmp::PartialEqSpecImpl for Size {
    open spec fn obeys_eq_spec() -> bool {
        true
    }

    open spec fn eq_spec(&self, other: &Self) -> bool {
        self.equals(*other)
    }
}

impl PartialEq for Rectangle {
    fn eq(&self, other: &Self) -> (r: bool)
        ensures
            r <==> self.loc.x.has_same_value_as(other.loc.x) && self.loc.y.has_same_value_as(
                other.loc.y,
            ) && self.size.w.has_same_value_as(other.size.w) && self.size.h.has_same_value_as(
                other.size.h,
            ),
    {
        self.loc == other.loc && self.size == other.size
    }
}

impl vstd::std_specs::cmp::PartialEqSpecImpl for Rectangle {
    open spec fn obeys_eq_spec() -> bool {
        true
    }

    open spec fn eq_spec(&self, other: &Self) -> bool {
        self.equals(*other)
    }
}

} // verus!
