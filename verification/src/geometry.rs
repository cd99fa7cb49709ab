use vstd::prelude::*;

verus! {

/// A 2D position with integer coordinates.
#[derive(Clone, Copy, PartialEq, Eq, Structural, Debug)]
pub struct SvgPoint {
    pub x: i64,
    pub y: i64,
}

/// A 2D extent. Well-formed extents are component-wise non-negative.
#[derive(Clone, Copy, PartialEq, Eq, Structural, Debug)]
pub struct SvgSize {
    pub width: i64,
    pub height: i64,
}

/// An axis-aligned rectangle: an origin and an extent.
#[derive(Clone, Copy, PartialEq, Eq, Structural, Debug)]
pub struct SvgRect {
    pub origin: SvgPoint,
    pub size: SvgSize,
}

impl SvgPoint {
    pub fn zero() -> (p: Self)
        ensures
            p == (SvgPoint { x: 0i64, y: 0i64 }),
    {
        SvgPoint { x: 0, y: 0 }
    }
}

impl SvgSize {
    /// A size is a non-negative extent in both dimensions.
    pub open spec fn wf(&self) -> bool {
        self.width >= 0 && self.height >= 0
    }

    pub fn zero() -> (s: Self)
        ensures
            s == (SvgSize { width: 0i64, height: 0i64 }),
            s.wf(),
    {
        SvgSize { width: 0, height: 0 }
    }
}

/// Builds a point from its two coordinates.
pub fn point2(x: i64, y: i64) -> (p: SvgPoint)
    ensures
        p == (SvgPoint { x, y }),
{
    SvgPoint { x, y }
}

/// Builds a size from its two extents.
pub fn size2(width: i64, height: i64) -> (s: SvgSize)
    ensures
        s == (SvgSize { width, height }),
{
    SvgSize { width, height }
}

} // verus!
