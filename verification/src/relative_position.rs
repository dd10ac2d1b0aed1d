//! Strict relative position of one rectangle with respect to another.

use vstd::prelude::*;
use crate::rect::Rect;

verus! {

/// Methods that tell where a shape lies relative to another shape of the same
/// kind. Each relation is strict: shapes that touch or overlap are in none of
/// them.
pub trait RelativePosition {
    /// `self` lies wholly to the left of `other`.
    spec fn spec_left_of(&self, other: &Self) -> bool;

    /// `self` lies wholly to the right of `other`.
    spec fn spec_right_of(&self, other: &Self) -> bool;

    /// `self` lies wholly above `other`.
    spec fn spec_above(&self, other: &Self) -> bool;

    /// `self` lies wholly below `other`.
    spec fn spec_below(&self, other: &Self) -> bool;

    /// Checks if the calling shape is to the left of the other shape.
    fn left_of(&self, other: &Self) -> (r: bool)
        ensures
            r == self.spec_left_of(other),
    ;

    /// Checks if the calling shape is to the right of the other shape.
    fn right_of(&self, other: &Self) -> (r: bool)
        ensures
            r == self.spec_right_of(other),
    ;

    /// Checks if the calling shape is above the other shape.
    fn above(&self, other: &Self) -> (r: bool)
        ensures
            r == self.spec_above(other),
    ;

    /// Checks if the calling shape is below the other shape.
    fn below(&self, other: &Self) -> (r: bool)
        ensures
            r == self.spec_below(other),
    ;
}

impl RelativePosition for Rect {
    /// The right edge of `self` is left of the left edge of `other`.
    open spec fn spec_left_of(&self, other: &Self) -> bool {
        self.spec_right() < other.spec_left()
    }

    /// The left edge of `self` is right of the right edge of `other`.
    open spec fn spec_right_of(&self, other: &Self) -> bool {
        self.spec_left() > other.spec_right()
    }

    /// The bottom edge of `self` is above the top edge of `other`.
    open spec fn spec_above(&self, other: &Self) -> bool {
        self.spec_bottom() < other.spec_top()
    }

    /// The top edge of `self` is below the bottom edge of `other`.
    open spec fn spec_below(&self, other: &Self) -> bool {
        self.spec_top() > other.spec_bottom()
    }

    fn left_of(&self, other: &Self) -> (r: bool) {
        self.x as i64 + (self.width as i64) < other.x as i64
    }

    fn right_of(&self, other: &Self) -> (r: bool) {
        self.x as i64 > other.x as i64 + other.width as i64
    }

    fn above(&self, other: &Self) -> (r: bool) {
        self.y as i64 + (self.height as i64) < other.y as i64
    }

    fn below(&self, other: &Self) -> (r: bool) {
        self.y as i64 > other.y as i64 + other.height as i64
    }
}

/// `a` is left of `b` exactly when `b` is right of `a`, and above exactly when
/// `b` is below.
pub proof fn lemma_relations_mirror(a: Rect, b: Rect)
    ensures
        a.spec_left_of(&b) == b.spec_right_of(&a),
        a.spec_above(&b) == b.spec_below(&a),
{
}

/// Rectangles in any of the four relations have no overlap.
pub proof fn lemma_related_do_not_overlap(a: Rect, b: Rect)
    requires
        a.spec_left_of(&b) || a.spec_right_of(&b) || a.spec_above(&b) || a.spec_below(&b),
    ensures
        a.spec_overlap(&b) == 0,
{
    crate::rect::lemma_overlap_of_disjoint(a, b);
}

} // verus!
