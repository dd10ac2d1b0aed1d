//! Axis-aligned rectangles in document pixels.
//!
//! A [`Rect`] is a plain value. Its derived geometry (edges, area, overlap) is
//! defined over mathematical integers by the `spec_*` functions; the executable
//! methods return the same numbers as `i32` whenever they fit.

use vstd::prelude::*;
use vstd::math::{max, min};

verus! {

/// An axis-aligned rectangle: top-left corner and extent.
#[derive(Debug, PartialEq, Eq, Clone, Copy, Structural)]
pub struct Rect {
    /// X coordinate of the top-left corner.
    pub x: i32,
    /// Y coordinate of the top-left corner.
    pub y: i32,
    /// Horizontal extent.
    pub width: i32,
    /// Vertical extent.
    pub height: i32,
}

/// Length of the intersection of the intervals `[lo_a, hi_a]` and
/// `[lo_b, hi_b]`, zero when they do not meet.
pub open spec fn span_overlap(lo_a: int, hi_a: int, lo_b: int, hi_b: int) -> int {
    max(0, min(hi_a, hi_b) - max(lo_a, lo_b))
}

impl Rect {
    /// A rectangle is well formed when neither extent is negative. A rectangle
    /// of zero area is well formed.
    pub open spec fn wf(&self) -> bool {
        self.width >= 0 && self.height >= 0
    }

    /// The left edge, `x`.
    pub open spec fn spec_left(&self) -> int {
        self.x as int
    }

    /// The right edge, `x + width`.
    pub open spec fn spec_right(&self) -> int {
        self.x + self.width
    }

    /// The top edge, `y`.
    pub open spec fn spec_top(&self) -> int {
        self.y as int
    }

    /// The bottom edge, `y + height`.
    pub open spec fn spec_bottom(&self) -> int {
        self.y + self.height
    }

    /// The area, `width * height`.
    pub open spec fn spec_area(&self) -> int {
        self.width * self.height
    }

    /// The area that `self` and `other` have in common: the product of the
    /// overlaps of their horizontal and vertical spans.
    pub open spec fn spec_overlap(&self, other: &Rect) -> int {
        span_overlap(self.spec_left(), self.spec_right(), other.spec_left(), other.spec_right())
            * span_overlap(
            self.spec_top(),
            self.spec_bottom(),
            other.spec_top(),
            other.spec_bottom(),
        )
    }

    /// The fallback rectangle: zero-sized, at the origin.
    pub open spec fn spec_default() -> Rect {
        Rect { x: 0, y: 0, width: 0, height: 0 }
    }

    /// `self` contains `other` when no edge of `other` lies outside `self`.
    pub open spec fn contains(&self, other: &Rect) -> bool {
        &&& self.spec_left() <= other.spec_left()
        &&& other.spec_right() <= self.spec_right()
        &&& self.spec_top() <= other.spec_top()
        &&& other.spec_bottom() <= self.spec_bottom()
    }

    /// Calculates the area of the rectangle.
    pub fn area(&self) -> (r: i32)
        requires
            i32::MIN <= self.spec_area() <= i32::MAX,
        ensures
            r == self.spec_area(),
    {
        self.width * self.height
    }

    /// Returns the leftmost X coordinate of the rectangle.
    pub fn left(&self) -> (r: i32)
        ensures
            r == self.spec_left(),
    {
        self.x
    }

    /// Returns the rightmost X coordinate of the rectangle.
    pub fn right(&self) -> (r: i32)
        requires
            i32::MIN <= self.spec_right() <= i32::MAX,
        ensures
            r == self.spec_right(),
    {
        self.x + self.width
    }

    /// Returns the topmost Y coordinate of the rectangle.
    pub fn top(&self) -> (r: i32)
        ensures
            r == self.spec_top(),
    {
        self.y
    }

    /// Returns the bottommost Y coordinate of the rectangle.
    pub fn bottom(&self) -> (r: i32)
        requires
            i32::MIN <= self.spec_bottom() <= i32::MAX,
        ensures
            r == self.spec_bottom(),
    {
        self.y + self.height
    }

    /// Calculates the overlap area between this rectangle and another
    /// rectangle. The edges are formed in 64 bits, so only the result has to
    /// fit.
    pub fn overlap(&self, other: &Rect) -> (r: i32)
        requires
            self.spec_overlap(other) <= i32::MAX,
        ensures
            r == self.spec_overlap(other),
    {
        let x_overlap: i64 = overlap_of_spans(self.x, self.width, other.x, other.width);
        let y_overlap: i64 = overlap_of_spans(self.y, self.height, other.y, other.height);
        if x_overlap == 0 || y_overlap == 0 {
            assert(self.spec_overlap(other) == 0) by (nonlinear_arith)
                requires
                    self.spec_overlap(other) == x_overlap * y_overlap,
                    x_overlap == 0 || y_overlap == 0,
            ;
            return 0;
        }
        assert(x_overlap <= i32::MAX && y_overlap <= i32::MAX) by (nonlinear_arith)
            requires
                x_overlap >= 1,
                y_overlap >= 1,
                x_overlap * y_overlap <= i32::MAX,
        ;
        assert(0 <= x_overlap * y_overlap) by (nonlinear_arith)
            requires
                x_overlap >= 1,
                y_overlap >= 1,
        ;
        (x_overlap * y_overlap) as i32
    }
}

/// Overlap of the spans `[lo_a, lo_a + len_a]` and `[lo_b, lo_b + len_b]`.
fn overlap_of_spans(lo_a: i32, len_a: i32, lo_b: i32, len_b: i32) -> (r: i64)
    ensures
        r == span_overlap(lo_a as int, lo_a + len_a, lo_b as int, lo_b + len_b),
        0 <= r <= 0x1_8000_0000,
{
    let hi_a: i64 = lo_a as i64 + len_a as i64;
    let hi_b: i64 = lo_b as i64 + len_b as i64;
    let hi: i64 = if hi_a < hi_b { hi_a } else { hi_b };
    let lo: i64 = if lo_a > lo_b { lo_a as i64 } else { lo_b as i64 };
    if hi > lo {
        hi - lo
    } else {
        0
    }
}

impl From<(i32, i32, i32, i32)> for Rect {
    /// Builds a rectangle from `(x, y, width, height)`.
    fn from(tuple: (i32, i32, i32, i32)) -> (r: Rect) {
        Rect { x: tuple.0, y: tuple.1, width: tuple.2, height: tuple.3 }
    }
}

impl vstd::std_specs::convert::FromSpecImpl<(i32, i32, i32, i32)> for Rect {
    open spec fn obeys_from_spec() -> bool {
        true
    }

    open spec fn from_spec(tuple: (i32, i32, i32, i32)) -> Rect {
        Rect { x: tuple.0, y: tuple.1, width: tuple.2, height: tuple.3 }
    }
}

impl Default for Rect {
    /// The fallback rectangle: zero-sized, at the origin.
    fn default() -> (r: Rect)
        ensures
            r == Rect::spec_default(),
    {
        Rect { x: 0, y: 0, width: 0, height: 0 }
    }
}

/// Overlap is symmetric: `a.overlap(b) == b.overlap(a)` for all rectangles.
pub proof fn lemma_overlap_symmetric(a: Rect, b: Rect)
    ensures
        a.spec_overlap(&b) == b.spec_overlap(&a),
{
}

/// A rectangle that contains a well-formed rectangle overlaps it in the whole
/// area of the contained one.
pub proof fn lemma_overlap_of_contained(a: Rect, b: Rect)
    requires
        b.wf(),
        a.contains(&b),
    ensures
        a.spec_overlap(&b) == b.spec_area(),
{
}

/// The overlap with a well-formed rectangle is never negative and never more
/// than that rectangle's area; so it fits wherever the area fits.
pub proof fn lemma_overlap_bounded(a: Rect, b: Rect)
    requires
        a.wf(),
    ensures
        0 <= a.spec_overlap(&b) <= a.spec_area(),
        0 <= b.spec_overlap(&a) <= a.spec_area(),
{
    let w = span_overlap(a.spec_left(), a.spec_right(), b.spec_left(), b.spec_right());
    let h = span_overlap(a.spec_top(), a.spec_bottom(), b.spec_top(), b.spec_bottom());
    assert(0 <= w <= a.width && 0 <= h <= a.height);
    assert(0 <= w * h <= a.width * a.height) by (nonlinear_arith)
        requires
            0 <= w <= a.width,
            0 <= h <= a.height,
    ;
    lemma_overlap_symmetric(a, b);
}

/// Rectangles that are apart on either axis have no overlap; touching edges
/// count as apart. In particular `a.right <= b.left` gives overlap zero.
pub proof fn lemma_overlap_of_disjoint(a: Rect, b: Rect)
    requires
        a.spec_right() <= b.spec_left() || b.spec_right() <= a.spec_left() || a.spec_bottom()
            <= b.spec_top() || b.spec_bottom() <= a.spec_top(),
    ensures
        a.spec_overlap(&b) == 0,
{
    let w = span_overlap(a.spec_left(), a.spec_right(), b.spec_left(), b.spec_right());
    let h = span_overlap(a.spec_top(), a.spec_bottom(), b.spec_top(), b.spec_bottom());
    assert(w == 0 || h == 0);
    assert(w * h == 0) by (nonlinear_arith)
        requires
            w == 0 || h == 0,
    ;
}

} // verus!
