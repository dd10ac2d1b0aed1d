//! The progression of a tour: which step is shown, whether the tour is still
//! visible, and what the host has to do after each user action.
//!
//! [`TourRunState`] is a state machine. The host hands it the events of its
//! user interface and carries out the effect that comes back; the machine
//! itself never touches a store or the page.

use vstd::prelude::*;
use crate::config::TourConfig;
use crate::position::{is_placement, place, PlacementResult};
use crate::rect::Rect;

verus! {

/// Width of the tooltip, in pixels.
pub const TOOLTIP_WIDTH: i32 = 300;

/// Height of the tooltip, in pixels.
pub const TOOLTIP_HEIGHT: i32 = 230;

/// Why a tour cannot be started.
#[derive(Debug, PartialEq, Eq, Clone, Copy, Structural)]
pub enum TourError {
    /// The configuration has no steps.
    NoSteps,
}

/// Whether dismissal of the tour is remembered in a store.
#[derive(Debug, PartialEq, Eq, Clone, Copy)]
pub enum Persistence {
    /// No store: the tour always starts visible and a skip is not recorded.
    Disabled,
    /// A store is in use. The field is the dismissal flag that it returned for
    /// the tour's key, `None` when there is none or it could not be read.
    Enabled(Option<bool>),
}

/// An action of the user on the tour.
#[derive(Debug, PartialEq, Eq, Clone, Copy, Structural)]
pub enum TourEvent {
    /// Go to the following step.
    Next,
    /// Go back to the preceding step.
    Previous,
    /// Go to the step with the given index.
    Goto(usize),
    /// Dismiss the tour.
    Skip,
}

/// What the host has to do after a transition.
#[derive(Debug, PartialEq, Eq, Clone, Copy, Structural)]
pub enum TourEffect {
    /// Nothing beyond rendering the new state.
    Nothing,
    /// Store `true` under the tour's dismissal key.
    PersistDismissal,
}

/// The state of a tour as a mathematical value.
pub struct TourModel {
    /// Number of steps; fixed for the lifetime of the tour.
    pub total: nat,
    /// Index of the current step.
    pub step: nat,
    /// False once the tour is dismissed.
    pub visible: bool,
    /// Whether a dismissal is to be stored.
    pub persistent: bool,
}

impl TourModel {
    /// A tour has at least one step and its current step is one of them.
    pub open spec fn wf(self) -> bool {
        self.total >= 1 && self.step < self.total
    }

    /// The state in which a tour of `total` steps starts: at the first step,
    /// and visible unless the store holds a dismissal.
    pub open spec fn initial(total: nat, persistence: Persistence) -> TourModel {
        TourModel {
            total,
            step: 0,
            visible: persistence != Persistence::Enabled(Some(true)),
            persistent: persistence is Enabled,
        }
    }

    /// One step forward; nothing at the last step or once dismissed.
    pub open spec fn next(self) -> TourModel {
        if self.visible && self.step + 1 < self.total {
            TourModel { step: self.step + 1, ..self }
        } else {
            self
        }
    }

    /// One step back; nothing at the first step or once dismissed.
    pub open spec fn previous(self) -> TourModel {
        if self.visible && self.step > 0 {
            TourModel { step: (self.step - 1) as nat, ..self }
        } else {
            self
        }
    }

    /// To the step `index`; nothing when there is no such step or once
    /// dismissed.
    pub open spec fn goto(self, index: nat) -> TourModel {
        if self.visible && index < self.total {
            TourModel { step: index, ..self }
        } else {
            self
        }
    }

    /// Dismisses the tour.
    pub open spec fn skip(self) -> TourModel {
        TourModel { visible: false, ..self }
    }

    /// The state after `event`.
    pub open spec fn apply(self, event: TourEvent) -> TourModel {
        match event {
            TourEvent::Next => self.next(),
            TourEvent::Previous => self.previous(),
            TourEvent::Goto(index) => self.goto(index as nat),
            TourEvent::Skip => self.skip(),
        }
    }

    /// What the host has to do after `event`: store the dismissal when a
    /// visible tour with a store is skipped, nothing otherwise.
    pub open spec fn effect(self, event: TourEvent) -> TourEffect {
        if event == TourEvent::Skip && self.visible && self.persistent {
            TourEffect::PersistDismissal
        } else {
            TourEffect::Nothing
        }
    }

    /// The state after all of `events`, in order.
    pub open spec fn run(self, events: Seq<TourEvent>) -> TourModel
        decreases events.len(),
    {
        if events.len() == 0 {
            self
        } else {
            self.apply(events.first()).run(events.drop_first())
        }
    }
}

/// What the host renders for the current step.
#[derive(Debug, PartialEq, Eq, Clone, Copy)]
pub struct TourFrame {
    /// Index of the current step.
    pub step_index: usize,
    /// Number of steps.
    pub step_count: usize,
    /// The rectangle of the highlighted element, or the fallback rectangle.
    pub target: Rect,
    /// Where the tooltip goes, in document coordinates.
    pub placement: PlacementResult,
    /// X coordinate of the tooltip relative to the target's left edge.
    pub tooltip_left: i64,
    /// Y coordinate of the tooltip relative to the target's top edge.
    pub tooltip_top: i64,
}

/// The rectangle that is highlighted: the located one, or the fallback
/// rectangle when the element was not found.
pub open spec fn target_of(located: Option<Rect>) -> Rect {
    match located {
        Some(rect) => rect,
        None => Rect::spec_default(),
    }
}

/// `frame` is what is rendered for `model` when the current step's element was
/// located as `located` and the viewport has the given size.
pub open spec fn is_frame(
    frame: TourFrame,
    model: TourModel,
    located: Option<Rect>,
    viewport_width: int,
    viewport_height: int,
) -> bool {
    &&& frame.step_index == model.step
    &&& frame.step_count == model.total
    &&& frame.target == target_of(located)
    &&& is_placement(
        frame.placement,
        frame.target,
        TOOLTIP_WIDTH as int,
        TOOLTIP_HEIGHT as int,
        viewport_width,
        viewport_height,
    )
    &&& frame.tooltip_left == frame.placement.x - frame.target.spec_left()
    &&& frame.tooltip_top == frame.placement.y - frame.target.spec_top()
}

/// The running state of a tour.
#[derive(Debug, PartialEq, Eq, Clone, Copy)]
pub struct TourRunState {
    current_step: usize,
    step_count: usize,
    visible: bool,
    persistent: bool,
}

impl View for TourRunState {
    type V = TourModel;

    closed spec fn view(&self) -> TourModel {
        TourModel {
            total: self.step_count as nat,
            step: self.current_step as nat,
            visible: self.visible,
            persistent: self.persistent,
        }
    }
}

impl TourRunState {
    #[verifier::type_invariant]
    spec fn inv(&self) -> bool {
        self.step_count >= 1 && self.current_step < self.step_count
    }

    /// Starts the tour that `config` describes. A configuration without steps
    /// is refused; otherwise the tour starts at its first step, visible unless
    /// the store holds a dismissal.
    pub fn new(config: &TourConfig, persistence: Persistence) -> (r: Result<
        TourRunState,
        TourError,
    >)
        ensures
            !config.wf() ==> r == Err::<TourRunState, TourError>(TourError::NoSteps),
            config.wf() ==> r is Ok && r->Ok_0@ == TourModel::initial(
                config.steps@.len(),
                persistence,
            ) && r->Ok_0@.wf(),
    {
        let step_count: usize = config.steps.len();
        if step_count == 0 {
            return Err(TourError::NoSteps);
        }
        let (visible, persistent): (bool, bool) = match persistence {
            Persistence::Disabled => (true, false),
            Persistence::Enabled(Some(dismissed)) => (!dismissed, true),
            Persistence::Enabled(None) => (true, true),
        };
        Ok(TourRunState { current_step: 0, step_count, visible, persistent })
    }

    /// Index of the current step; always less than the number of steps.
    pub fn current_step(&self) -> (r: usize)
        ensures
            r == self@.step,
            self@.wf(),
    {
        proof {
            use_type_invariant(self);
        }
        self.current_step
    }

    /// Number of steps; at least one.
    pub fn step_count(&self) -> (r: usize)
        ensures
            r == self@.total,
            self@.wf(),
    {
        proof {
            use_type_invariant(self);
        }
        self.step_count
    }

    /// Whether the tour is still shown.
    pub fn is_visible(&self) -> (r: bool)
        ensures
            r == self@.visible,
    {
        self.visible
    }

    /// The number of the current step as shown to the user, counted from one.
    pub fn step_number(&self) -> (r: usize)
        ensures
            r == self@.step + 1,
            1 <= r <= self@.total,
    {
        proof {
            use_type_invariant(self);
        }
        self.current_step + 1
    }

    /// One mark for each step, in order: `true` for the current step.
    pub fn progress_marks(&self) -> (marks: Vec<bool>)
        ensures
            marks@.len() == self@.total,
            forall|i: int| 0 <= i < marks@.len() ==> marks@[i] == (i == self@.step),
    {
        let mut marks: Vec<bool> = Vec::new();
        let mut index: usize = 0;
        while index < self.step_count
            invariant
                index <= self.step_count,
                marks@.len() == index,
                forall|i: int| 0 <= i < index ==> marks@[i] == (i == self.current_step),
            decreases self.step_count - index,
        {
            marks.push(index == self.current_step);
            index += 1;
        }
        marks
    }

    /// Goes to the following step. Nothing happens at the last step, or once
    /// the tour is dismissed.
    pub fn next(&mut self)
        ensures
            final(self)@ == old(self)@.next(),
            final(self)@.wf(),
    {
        proof {
            use_type_invariant(&*self);
        }
        if self.visible && self.current_step < self.step_count - 1 {
            self.current_step += 1;
        }
    }

    /// Goes back to the preceding step. Nothing happens at the first step, or
    /// once the tour is dismissed.
    pub fn previous(&mut self)
        ensures
            final(self)@ == old(self)@.previous(),
            final(self)@.wf(),
    {
        proof {
            use_type_invariant(&*self);
        }
        if self.visible && self.current_step > 0 {
            self.current_step -= 1;
        }
    }

    /// Goes to the step `index`. Nothing happens when there is no such step,
    /// or once the tour is dismissed.
    pub fn goto(&mut self, index: usize)
        ensures
            final(self)@ == old(self)@.goto(index as nat),
            final(self)@.wf(),
    {
        proof {
            use_type_invariant(&*self);
        }
        if self.visible && index < self.step_count {
            self.current_step = index;
        }
    }

    /// Dismisses the tour for good, and says whether the dismissal has to be
    /// stored: it has when the tour was visible and a store is in use.
    pub fn skip(&mut self) -> (effect: TourEffect)
        ensures
            final(self)@ == old(self)@.skip(),
            final(self)@.wf(),
            !final(self)@.visible,
            effect == old(self)@.effect(TourEvent::Skip),
    {
        proof {
            use_type_invariant(&*self);
        }
        let effect: TourEffect = if self.visible && self.persistent {
            TourEffect::PersistDismissal
        } else {
            TourEffect::Nothing
        };
        self.visible = false;
        effect
    }

    /// Carries out the transition for `event` and returns what the host has to
    /// do after it.
    pub fn apply(&mut self, event: TourEvent) -> (effect: TourEffect)
        ensures
            final(self)@ == old(self)@.apply(event),
            final(self)@.wf(),
            effect == old(self)@.effect(event),
    {
        match event {
            TourEvent::Next => {
                self.next();
                TourEffect::Nothing
            },
            TourEvent::Previous => {
                self.previous();
                TourEffect::Nothing
            },
            TourEvent::Goto(index) => {
                self.goto(index);
                TourEffect::Nothing
            },
            TourEvent::Skip => self.skip(),
        }
    }

    /// What to render for the current step: nothing once the tour is
    /// dismissed; otherwise the target, which is the fallback rectangle when
    /// the step's element was not found, and the tooltip placed against it.
    ///
    /// The two conditions ask only that the tooltip's coordinates fit in
    /// `i32`; they hold for every viewport size that is not negative.
    pub fn frame(&self, located: Option<Rect>, viewport_width: i32, viewport_height: i32) -> (r:
        Option<TourFrame>)
        requires
            i32::MIN <= viewport_width - TOOLTIP_WIDTH,
            i32::MIN <= viewport_height - TOOLTIP_HEIGHT,
        ensures
            r is Some <==> self@.visible,
            r matches Some(frame) ==> is_frame(
                frame,
                self@,
                located,
                viewport_width as int,
                viewport_height as int,
            ),
    {
        if !self.visible {
            return None;
        }
        let target: Rect = match located {
            Some(rect) => rect,
            None => Rect::default(),
        };
        let placement: PlacementResult = place(
            &target,
            TOOLTIP_WIDTH,
            TOOLTIP_HEIGHT,
            viewport_width,
            viewport_height,
        );
        Some(
            TourFrame {
                step_index: self.current_step,
                step_count: self.step_count,
                target,
                placement,
                tooltip_left: placement.x as i64 - target.x as i64,
                tooltip_top: placement.y as i64 - target.y as i64,
            },
        )
    }
}

/// Whatever the user does, the current step stays one of the tour's steps and
/// the number of steps stays the same.
pub proof fn lemma_step_stays_in_bounds(model: TourModel, events: Seq<TourEvent>)
    requires
        model.wf(),
    ensures
        model.run(events).wf(),
        model.run(events).total == model.total,
    decreases events.len(),
{
    if events.len() > 0 {
        lemma_step_stays_in_bounds(model.apply(events.first()), events.drop_first());
    }
}

/// A dismissed tour has no way back: no sequence of events changes its state.
pub proof fn lemma_dismissed_is_final(model: TourModel, events: Seq<TourEvent>)
    requires
        !model.visible,
    ensures
        model.run(events) == model,
    decreases events.len(),
{
    if events.len() > 0 {
        assert(model.apply(events.first()) == model);
        lemma_dismissed_is_final(model, events.drop_first());
    }
}

/// After a skip the tour stays invisible, whatever events follow.
pub proof fn lemma_skip_is_terminal(model: TourModel, events: Seq<TourEvent>)
    ensures
        !model.skip().run(events).visible,
{
    lemma_dismissed_is_final(model.skip(), events);
}

} // verus!
