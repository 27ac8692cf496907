use vstd::prelude::*;

verus! {

/// A two-dimensional extent or position, in cells.
#[derive(Clone, Copy, Debug, PartialEq, Eq, Structural)]
pub struct Vec2 {
    pub x: usize,
    pub y: usize,
}

impl Vec2 {
    pub open spec fn spec_zero() -> Vec2 {
        Vec2 { x: 0, y: 0 }
    }

    /// Builds the vector `(x, y)`.
    pub fn new(x: usize, y: usize) -> (r: Vec2)
        ensures
            r.x == x,
            r.y == y,
    {
        Vec2 { x, y }
    }

    /// The empty extent, or the origin.
    #[verifier::when_used_as_spec(spec_zero)]
    pub fn zero() -> (r: Vec2)
        ensures
            r == Vec2::spec_zero(),
    {
        Vec2 { x: 0, y: 0 }
    }
}

/// An axis-aligned rectangle: a corner and an extent.
#[derive(Clone, Copy, Debug, PartialEq, Eq, Structural)]
pub struct Rect {
    pub top_left: Vec2,
    pub size: Vec2,
}

impl Rect {
    pub open spec fn spec_from_point(p: Vec2) -> Rect {
        Rect { top_left: p, size: Vec2::spec_zero() }
    }

    /// The empty rectangle that sits at `p`.
    #[verifier::when_used_as_spec(spec_from_point)]
    pub fn from_point(p: Vec2) -> (r: Rect)
        ensures
            r == Rect::spec_from_point(p),
    {
        Rect { top_left: p, size: Vec2::zero() }
    }
}

} // verus!
