//! Screen-space geometry of a window.

use vstd::prelude::*;

verus! {

/// The distance from `low` to `high` as 32-bit arithmetic gives it: the
/// difference, wrapped into the unsigned range.
pub open spec fn extent(low: i32, high: i32) -> u32 {
    ((high - low) % 0x1_0000_0000) as u32
}

/// The edges of a window as the windowing system reports them.
#[derive(Clone, Copy, Debug, PartialEq, Eq)]
pub struct Edges {
    pub left: i32,
    pub top: i32,
    pub right: i32,
    pub bottom: i32,
}

/// A bounding box on the screen. A rectangle that the locator resolves has
/// neither zero width nor zero height.
#[derive(Clone, Copy, Debug, PartialEq, Eq)]
pub struct Rectangle {
    pub left: i32,
    pub top: i32,
    pub width: u32,
    pub height: u32,
}

impl Edges {
    /// The width between the edges.
    pub open spec fn spec_width(&self) -> u32 {
        extent(self.left, self.right)
    }

    /// The height between the edges.
    pub open spec fn spec_height(&self) -> u32 {
        extent(self.top, self.bottom)
    }

    /// Whether the edges enclose nothing: no width, or no height.
    pub open spec fn spec_is_degenerate(&self) -> bool {
        self.spec_width() == 0 || self.spec_height() == 0
    }

    /// The box that the edges bound.
    pub open spec fn spec_bounds(&self) -> Rectangle {
        Rectangle {
            left: self.left,
            top: self.top,
            width: self.spec_width(),
            height: self.spec_height(),
        }
    }

    /// The width between the edges.
    #[verifier::when_used_as_spec(spec_width)]
    pub fn width(&self) -> (width: u32)
        ensures
            width == self.spec_width(),
    {
        distance(self.left, self.right)
    }

    /// The height between the edges.
    #[verifier::when_used_as_spec(spec_height)]
    pub fn height(&self) -> (height: u32)
        ensures
            height == self.spec_height(),
    {
        distance(self.top, self.bottom)
    }

    /// Whether the edges enclose nothing: no width, or no height.
    #[verifier::when_used_as_spec(spec_is_degenerate)]
    pub fn is_degenerate(&self) -> (degenerate: bool)
        ensures
            degenerate == self.spec_is_degenerate(),
    {
        self.width() == 0 || self.height() == 0
    }

    /// The box that the edges bound.
    #[verifier::when_used_as_spec(spec_bounds)]
    pub fn bounds(&self) -> (bounds: Rectangle)
        ensures
            bounds == self.spec_bounds(),
    {
        Rectangle { left: self.left, top: self.top, width: self.width(), height: self.height() }
    }
}

/// The distance from `low` to `high`, wrapped into the unsigned range.
fn distance(low: i32, high: i32) -> (d: u32)
    ensures
        d == extent(low, high),
{
    let span: i64 = high as i64 - low as i64;
    if span < 0 {
        (span + 0x1_0000_0000) as u32
    } else {
        span as u32
    }
}

/// An extent is zero exactly where the two edges coincide.
pub proof fn extent_is_zero_only_between_equal_edges(low: i32, high: i32)
    ensures
        extent(low, high) == 0 <==> low == high,
{
}

} // verus!
