//! The configuration of a tour: an optional identifier and the ordered steps.

use vstd::prelude::*;
use crate::step::TourStep;

verus! {

/// Configuration of a tour. A tour needs at least one step to run.
#[derive(Clone, Debug, PartialEq, Eq)]
pub struct TourConfig {
    /// Identifier of the tour; tells apart the stored state of several tours
    /// on one page.
    pub id: Option<String>,
    /// The steps, in the order in which they are shown.
    pub steps: Vec<TourStep>,
}

impl TourConfig {
    /// A configuration is well formed when it has at least one step.
    pub open spec fn wf(&self) -> bool {
        self.steps@.len() > 0
    }

    /// The identifier of the tour: `id`, or `tour` when none is given.
    pub open spec fn spec_tour_id(&self) -> Seq<char> {
        match self.id {
            Some(id) => id@,
            None => "tour"@,
        }
    }

    /// The key of the tour's dismissal flag in a key-value store: the
    /// identifier followed by `-show`.
    pub open spec fn spec_dismissal_key(&self) -> Seq<char> {
        self.spec_tour_id() + "-show"@
    }

    /// The identifier of the tour: `id`, or `tour` when none is given.
    pub fn tour_id(&self) -> (r: String)
        ensures
            r@ == self.spec_tour_id(),
    {
        match &self.id {
            Some(id) => id.clone(),
            None => "tour".to_owned(),
        }
    }

    /// The key under which the dismissal flag of this tour is stored.
    pub fn dismissal_key(&self) -> (r: String)
        ensures
            r@ == self.spec_dismissal_key(),
    {
        let mut key: String = self.tour_id();
        key.append("-show");
        key
    }

    /// The step at `index`, if there is one.
    pub fn step(&self, index: usize) -> (r: Option<&TourStep>)
        ensures
            index < self.steps@.len() ==> r == Some(&self.steps@[index as int]),
            index >= self.steps@.len() ==> r is None,
    {
        if index < self.steps.len() {
            Some(&self.steps[index])
        } else {
            None
        }
    }
}

} // verus!
