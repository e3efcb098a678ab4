//! Waiting.

use crate::action::{Action, Progress, ProgressView};
use crate::client::{Request, RequestView};
use crate::stage::{IntoStage, ScrapeStage};
use vstd::prelude::*;

verus! {

/// Waits for a while, in milliseconds, and then succeeds.
#[derive(Debug, Clone, Copy, PartialEq, Eq)]
pub struct Pause {
    pub duration: u64,
}

impl Pause {
    pub fn new(duration: u64) -> (action: Pause)
        ensures
            action.duration == duration,
    {
        Pause { duration }
    }

    /// The wait is asked for.
    pub open spec fn spec_execute(self) -> ProgressView {
        ProgressView::Ask(RequestView::Sleep { millis: self.duration })
    }

    /// Asks for the wait.
    pub fn execute(&self) -> (progress: Progress)
        ensures
            progress@ == self.spec_execute(),
    {
        Progress::Ask(Request::Sleep { millis: self.duration })
    }
}

impl IntoStage for Pause {
    open spec fn spec_into_stage(self) -> ScrapeStage {
        Action::Pause(self).spec_into_stage()
    }

    fn into_stage(self) -> (stage: ScrapeStage) {
        Action::Pause(self).into_stage()
    }
}

} // verus!
