//! A pipeline: stages in order, and the rule that picks the next one.

use crate::error::{outcome_view, ScrapeError, ScrapeErrorView};
use crate::stage::{FlowControl, IntoStage, ScrapeStage};
use vstd::prelude::*;

verus! {

/// Stages in the order in which they run unless a directive says otherwise.
#[derive(Debug, PartialEq, Eq)]
pub struct ScrapePipeline {
    pub stages: Vec<ScrapeStage>,
}

impl Default for ScrapePipeline {
    /// A pipeline without stages.
    fn default() -> (pipeline: ScrapePipeline)
        ensures
            pipeline.stages@.len() == 0,
    {
        ScrapePipeline { stages: Vec::new() }
    }
}

/// Where a pipeline goes once the action of a stage is over.
#[derive(Debug, PartialEq, Eq)]
pub enum Move {
    /// The stage at this position runs next. A position behind the last
    /// stage ends the pipeline.
    Run(usize),
    /// The same stage runs again after a wait of so many milliseconds.
    Wait(u64),
    /// The pipeline ends, which is no failure.
    Stop,
    /// The pipeline ends with this error.
    Fail(ScrapeError),
}

/// A `Move` with its texts as sequences of characters.
pub enum MoveView {
    Run(usize),
    Wait(u64),
    Stop,
    Fail(ScrapeErrorView),
}

impl View for Move {
    type V = MoveView;

    open spec fn view(&self) -> MoveView {
        match *self {
            Move::Run(cursor) => MoveView::Run(cursor),
            Move::Wait(millis) => MoveView::Wait(millis),
            Move::Stop => MoveView::Stop,
            Move::Fail(error) => MoveView::Fail(error@),
        }
    }
}

impl ScrapePipeline {
    /// The stage at this position has this name.
    pub open spec fn is_named(self, index: int, name: Seq<char>) -> bool {
        &&& 0 <= index < self.stages@.len()
        &&& self.stages@[index].name matches Some(given)
        &&& given@ == name
    }

    /// No two stages have the same name.
    pub open spec fn names_are_unique(self) -> bool {
        forall|first: int, second: int, name: Seq<char>|
            self.is_named(first, name) && self.is_named(second, name) ==> first == second
    }

    /// The first position at or behind `from` whose stage has this name.
    pub open spec fn spec_position_from(self, name: Seq<char>, from: int) -> Option<usize>
        decreases self.stages@.len() - from,
    {
        if from < 0 || from >= self.stages@.len() {
            None
        } else if self.is_named(from, name) {
            Some(from as usize)
        } else {
            self.spec_position_from(name, from + 1)
        }
    }

    /// The first position whose stage has this name.
    pub open spec fn spec_position(self, name: Seq<char>) -> Option<usize> {
        self.spec_position_from(name, 0)
    }

    /// Finds the first stage of a name, looking at each stage in turn.
    pub fn position(&self, name: &str) -> (found: Option<usize>)
        ensures
            found == self.spec_position(name@),
            match found {
                Some(index) => self.is_named(index as int, name@) && forall|before: int|
                    0 <= before < index ==> !self.is_named(before, name@),
                None => forall|index: int| !self.is_named(index, name@),
            },
    {
        let wanted = name.to_owned();
        let mut index: usize = 0;
        while index < self.stages.len()
            invariant
                index <= self.stages@.len(),
                wanted@ == name@,
                self.spec_position(name@) == self.spec_position_from(name@, index as int),
                forall|before: int| 0 <= before < index ==> !self.is_named(before, name@),
            decreases self.stages@.len() - index,
        {
            let named = match &self.stages[index].name {
                Some(given) => *given == wanted,
                None => false,
            };
            if named {
                return Some(index);
            }
            index = index + 1;
        }
        None
    }

    /// The directive that an outcome is handed to: `on_complete` for a
    /// success, `on_error` for a failure.
    pub open spec fn spec_directive(self, cursor: usize, outcome: Result<(), ScrapeErrorView>) -> FlowControl {
        let stage = self.stages@[cursor as int];
        match outcome {
            Ok(_) => stage.on_complete,
            Err(_) => stage.on_error,
        }
    }

    /// Where the pipeline goes once the stage at `cursor` is over with this
    /// outcome.
    ///
    /// A failure of the browser session ends the pipeline with that error,
    /// whatever the stage says. Anything else is handed to a directive of the
    /// stage. `Continue` goes on behind the stage, `Quit` ends the pipeline
    /// without failure, `Goto` goes on at the first stage of the name and
    /// ends the pipeline with `MissingPipelineStage` where there is none,
    /// `Repeat` stays, after the wait if one is set.
    pub open spec fn spec_advance(self, cursor: usize, outcome: Result<(), ScrapeErrorView>) -> MoveView {
        if outcome matches Err(error) && error.is_fatal() {
            MoveView::Fail(outcome->Err_0)
        } else {
            match self.spec_directive(cursor, outcome) {
                FlowControl::Continue => MoveView::Run((cursor + 1) as usize),
                FlowControl::Quit => MoveView::Stop,
                FlowControl::Goto(name) => match self.spec_position(name@) {
                    Some(index) => MoveView::Run(index),
                    None => MoveView::Fail(ScrapeErrorView::MissingPipelineStage(name@)),
                },
                FlowControl::Repeat { delay: None } => MoveView::Run(cursor),
                FlowControl::Repeat { delay: Some(millis) } => MoveView::Wait(millis),
            }
        }
    }

    /// Picks what follows the stage at `cursor`, given what its action came
    /// to.
    pub fn advance(&self, cursor: usize, outcome: Result<(), ScrapeError>) -> (next: Move)
        requires
            cursor < self.stages@.len(),
        ensures
            next@ == self.spec_advance(cursor, outcome_view(outcome)),
            next matches Move::Run(index) ==> index <= self.stages@.len(),
    {
        let len = self.stages.len();
        let stage = &self.stages[cursor];
        let flow = match outcome {
            Ok(_) => &stage.on_complete,
            Err(error) => {
                if error.is_fatal() {
                    return Move::Fail(error);
                }
                &stage.on_error
            },
        };
        match flow {
            FlowControl::Continue => Move::Run(cursor + 1),
            FlowControl::Quit => Move::Stop,
            FlowControl::Goto(name) => match self.position(name.as_str()) {
                Some(index) => Move::Run(index),
                None => Move::Fail(ScrapeError::MissingPipelineStage(name.clone())),
            },
            FlowControl::Repeat { delay: None } => Move::Run(cursor),
            FlowControl::Repeat { delay: Some(millis) } => Move::Wait(*millis),
        }
    }

    /// Appends a stage, or the stage that an action makes.
    pub fn push<T: IntoStage>(self, stage: T) -> (pipeline: ScrapePipeline)
        ensures
            pipeline.stages@ == self.stages@.push(stage.spec_into_stage()),
    {
        let mut stages = self.stages;
        stages.push(stage.into_stage());
        ScrapePipeline { stages }
    }
}

} // verus!
