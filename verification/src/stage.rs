//! A stage: one action, and what to do once it is over.

use crate::action::Action;
use vstd::prelude::*;

verus! {

/// What a pipeline does once the action of a stage is over.
#[derive(Debug, Clone, PartialEq, Eq)]
pub enum FlowControl {
    /// Go on with the stage that follows.
    Continue,
    /// End the pipeline, which is no failure.
    Quit,
    /// Go on with the stage of this name.
    Goto(String),
    /// Run the same stage again, after a wait in milliseconds if one is set.
    Repeat { delay: Option<u64> },
}

impl FlowControl {
    pub fn goto(stage: &str) -> (flow: FlowControl)
        ensures
            flow matches FlowControl::Goto(name) && name@ == stage@,
    {
        FlowControl::Goto(stage.to_owned())
    }

    pub fn repeat() -> (flow: FlowControl)
        ensures
            flow == (FlowControl::Repeat { delay: None }),
    {
        FlowControl::Repeat { delay: None }
    }

    pub fn repeat_with_delay(delay: u64) -> (flow: FlowControl)
        ensures
            flow == (FlowControl::Repeat { delay: Some(delay) }),
    {
        FlowControl::Repeat { delay: Some(delay) }
    }
}

/// One step of a pipeline. Its name, if it has one, is what a `Goto` finds
/// it by.
#[derive(Debug, PartialEq, Eq)]
pub struct ScrapeStage {
    pub name: Option<String>,
    pub action: Action,
    /// What follows where the action succeeds.
    pub on_complete: FlowControl,
    /// What follows where the action fails and the session lives on.
    pub on_error: FlowControl,
}

/// What a stage can be made from: a stage itself, or an action, which makes
/// a stage without a name that goes on with the next stage whatever the
/// action comes to.
pub trait IntoStage: Sized {
    spec fn spec_into_stage(self) -> ScrapeStage;

    fn into_stage(self) -> (stage: ScrapeStage)
        ensures
            stage == self.spec_into_stage(),
    ;
}

impl IntoStage for ScrapeStage {
    open spec fn spec_into_stage(self) -> ScrapeStage {
        self
    }

    fn into_stage(self) -> (stage: ScrapeStage) {
        self
    }
}

impl IntoStage for Action {
    open spec fn spec_into_stage(self) -> ScrapeStage {
        ScrapeStage {
            name: None,
            action: self,
            on_complete: FlowControl::Continue,
            on_error: FlowControl::Continue,
        }
    }

    fn into_stage(self) -> (stage: ScrapeStage) {
        ScrapeStage::new(self)
    }
}

impl ScrapeStage {
    /// The stage that an action or a stage makes.
    pub fn from<T: IntoStage>(item: T) -> (stage: ScrapeStage)
        ensures
            stage == item.spec_into_stage(),
    {
        item.into_stage()
    }

    /// The stage that an action or a stage makes, under a name.
    pub fn named<T: IntoStage>(name: &str, item: T) -> (stage: ScrapeStage)
        ensures
            stage.name matches Some(given) && given@ == name@,
            stage.action == item.spec_into_stage().action,
            stage.on_complete == item.spec_into_stage().on_complete,
            stage.on_error == item.spec_into_stage().on_error,
    {
        item.into_stage().with_name(name)
    }

    /// A stage without a name that goes on with the next stage whatever its
    /// action comes to.
    pub fn new(action: Action) -> (stage: ScrapeStage)
        ensures
            stage == (ScrapeStage {
                name: None,
                action,
                on_complete: FlowControl::Continue,
                on_error: FlowControl::Continue,
            }),
    {
        ScrapeStage {
            name: None,
            action,
            on_complete: FlowControl::Continue,
            on_error: FlowControl::Continue,
        }
    }

    pub fn with_name(self, name: &str) -> (stage: ScrapeStage)
        ensures
            stage.name matches Some(given) && given@ == name@,
            stage.action == self.action,
            stage.on_complete == self.on_complete,
            stage.on_error == self.on_error,
    {
        ScrapeStage { name: Some(name.to_owned()), ..self }
    }

    pub fn on_complete(self, on_complete: FlowControl) -> (stage: ScrapeStage)
        ensures
            stage == (ScrapeStage { on_complete, ..self }),
    {
        ScrapeStage { on_complete, ..self }
    }

    pub fn on_any_error(self, on_error: FlowControl) -> (stage: ScrapeStage)
        ensures
            stage == (ScrapeStage { on_error, ..self }),
    {
        ScrapeStage { on_error, ..self }
    }
}

} // verus!
