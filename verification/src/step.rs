//! A single step of a tour.

use vstd::prelude::*;

verus! {

/// One step of a tour: the element to highlight and the text shown for it.
#[derive(Clone, Debug, PartialEq, Eq)]
pub struct TourStep {
    /// A CSS selector that identifies the element to highlight.
    pub selector: String,
    /// The content shown for this step, plain text or markdown.
    pub content: String,
}

} // verus!
