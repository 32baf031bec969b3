use vstd::prelude::*;
use crate::error::ToolkitError;
use crate::widget::FrameAction;

verus! {

/// A frame in progress: the plan of steps, how many of them were carried
/// out, the failure that stopped it if one did, and the run flag that the
/// frame reports once it is complete.
pub struct Frame {
    actions: Vec<FrameAction>,
    done: usize,
    failure: Option<ToolkitError>,
    running: bool,
}

pub struct FrameView {
    pub actions: Seq<FrameAction>,
    pub done: nat,
    pub failure: Option<ToolkitError>,
    pub running: bool,
}

impl FrameView {
    /// A frame that has not started.
    pub open spec fn start(actions: Seq<FrameAction>, running: bool) -> FrameView {
        FrameView { actions, done: 0, failure: None, running }
    }

    /// The step to carry out next: none once a step has failed or every
    /// step has been carried out.
    pub open spec fn pending(self) -> Option<FrameAction> {
        if self.failure is None && self.done < self.actions.len() {
            Some(self.actions[self.done as int])
        } else {
            None
        }
    }

    pub open spec fn is_settled(self) -> bool {
        self.pending() is None
    }

    /// The frame after the pending step reported `outcome`: a success moves
    /// on to the next step, a failure stops the frame with its error. A
    /// settled frame ignores any report.
    pub open spec fn after(self, outcome: Result<(), ToolkitError>) -> FrameView {
        if self.pending() is Some {
            match outcome {
                Ok(_) => FrameView { done: self.done + 1, ..self },
                Err(e) => FrameView { failure: Some(e), ..self },
            }
        } else {
            self
        }
    }

    /// The frame after the pending steps reported `outcomes`, in order.
    pub open spec fn after_all(self, outcomes: Seq<Result<(), ToolkitError>>) -> FrameView
        decreases outcomes.len(),
    {
        if outcomes.len() == 0 {
            self
        } else {
            self.after_all(outcomes.drop_last()).after(outcomes.last())
        }
    }

    /// What a settled frame reports: the error that stopped it, or else the
    /// run flag.
    pub open spec fn result(self) -> Result<bool, ToolkitError> {
        match self.failure {
            Some(e) => Err(e),
            None => Ok(self.running),
        }
    }
}

impl View for Frame {
    type V = FrameView;

    closed spec fn view(&self) -> FrameView {
        FrameView {
            actions: self.actions@,
            done: self.done as nat,
            failure: self.failure,
            running: self.running,
        }
    }
}

impl Frame {
    /// A frame that will carry out `actions` in order and then report
    /// `running`.
    pub fn new(actions: Vec<FrameAction>, running: bool) -> (f: Frame)
        ensures
            f@ == FrameView::start(actions@, running),
    {
        Frame { actions, done: 0, failure: None, running }
    }

    /// The steps of the frame, in order.
    pub fn actions(&self) -> (r: &Vec<FrameAction>)
        ensures
            r@ == self@.actions,
    {
        &self.actions
    }

    /// The step to carry out next, if any.
    pub fn next_action(&self) -> (r: Option<FrameAction>)
        ensures
            r == self@.pending(),
    {
        if self.failure.is_none() && self.done < self.actions.len() {
            Some(self.actions[self.done])
        } else {
            None
        }
    }

    /// Records the outcome of the pending step.
    pub fn report(&mut self, outcome: Result<(), ToolkitError>)
        ensures
            final(self)@ == old(self)@.after(outcome),
    {
        if self.failure.is_none() && self.done < self.actions.len() {
            match outcome {
                Ok(()) => {
                    self.done = self.done + 1;
                },
                Err(e) => {
                    self.failure = Some(e);
                },
            }
        }
    }

    /// Whether the frame has no step left to carry out.
    pub fn is_settled(&self) -> (r: bool)
        ensures
            r == self@.is_settled(),
    {
        !(self.failure.is_none() && self.done < self.actions.len())
    }

    /// What the settled frame reports.
    pub fn finish(self) -> (r: Result<bool, ToolkitError>)
        requires
            self@.is_settled(),
        ensures
            r == self@.result(),
    {
        match self.failure {
            Some(e) => Err(e),
            None => Ok(self.running),
        }
    }
}

} // verus!
