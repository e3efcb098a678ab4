//! The run of a pipeline, one step at a time.
//!
//! An `Execution` holds where a run stands. `step` takes what came of the
//! last request and gives the next one. Whoever drives the run carries the
//! requests out on the browser; the engine decides everything else: which
//! stage runs, what an action does to the context, where a pipeline goes
//! after a stage, and how a pipeline is run once for each element found.

use crate::action::{Action, Progress, ProgressView};
use crate::client::{ElementHandle, Request, RequestView, Response};
use crate::context::{is_empty_object, ContextView, ScrapeContext};
use crate::error::{outcome_view, ScrapeError, ScrapeErrorView};
use crate::json::JsonValue;
use crate::pipeline::{Move, MoveView, ScrapePipeline};
use crate::stage::ScrapeStage;
use crate::value::{Resolution, ResolutionView};
use vstd::pervasive::unreached;
use vstd::prelude::*;

verus! {

/// One pipeline under way. The first frame of a run is that of the pipeline
/// itself. Every further frame is that of a pipeline run for each element
/// that a lookup found: it holds those elements, which of them is being
/// worked on, and the scoped element that the lookup found in the context.
#[derive(Debug)]
pub struct Frame {
    pub cursor: usize,
    pub elements: Vec<ElementHandle>,
    pub index: usize,
    pub saved_scope: Option<ElementHandle>,
}

/// A `Frame` with its elements as a sequence.
pub struct FrameView {
    pub cursor: usize,
    pub elements: Seq<ElementHandle>,
    pub index: usize,
    pub saved_scope: Option<ElementHandle>,
}

impl View for Frame {
    type V = FrameView;

    open spec fn view(&self) -> FrameView {
        FrameView {
            cursor: self.cursor,
            elements: self.elements@,
            index: self.index,
            saved_scope: self.saved_scope,
        }
    }
}

/// What a run is about to do or waits for.
#[derive(Debug, Clone, Copy, PartialEq, Eq)]
pub enum Phase {
    /// The stage under the cursor is about to run.
    Running,
    /// The page was asked for the value of the stage's action.
    Resolving,
    /// The page was asked for the elements of a lookup.
    Querying,
    /// The page was asked to scroll this element into view, to click it.
    Scrolling(ElementHandle),
    /// The page was asked to carry out the command of the stage's action.
    Completing,
    /// The wait before a stage runs again was asked for.
    Delaying,
    /// A pipeline that ran for each element of a lookup has ended.
    Returning,
    /// The end of the session was asked for.
    Disconnecting,
    /// The run is over.
    Finished,
}

/// The pipeline that a lookup at `cursor` runs for each element, if the stage
/// there is such a lookup.
pub open spec fn nested(pipeline: ScrapePipeline, cursor: usize) -> Option<ScrapePipeline> {
    if cursor < pipeline.stages@.len() {
        match pipeline.stages@[cursor as int].action {
            Action::QueryElement(query) => query.for_each,
            _ => None,
        }
    } else {
        None
    }
}

/// The pipeline that the frame at `depth` runs: the pipeline of the run for
/// the first frame, and for every other the one nested under the cursor of
/// the frame before it.
pub open spec fn pipeline_at(root: ScrapePipeline, frames: Seq<FrameView>, depth: int) -> Option<
    ScrapePipeline,
>
    decreases depth,
{
    if depth <= 0 {
        Some(root)
    } else {
        match pipeline_at(root, frames, depth - 1) {
            Some(pipeline) => nested(pipeline, frames[depth - 1].cursor),
            None => None,
        }
    }
}

/// Where a run stands.
pub struct ExecutionView {
    pub pipeline: ScrapePipeline,
    pub context: ContextView,
    pub frames: Seq<FrameView>,
    pub phase: Phase,
    /// What the run came to, once its pipeline has ended.
    pub outcome: Result<(), ScrapeErrorView>,
}

impl ExecutionView {
    /// The frame of the pipeline that is running.
    pub open spec fn top(self) -> FrameView {
        self.frames.last()
    }

    /// The pipeline that is running.
    pub open spec fn current(self) -> ScrapePipeline {
        pipeline_at(self.pipeline, self.frames, self.frames.len() - 1)->0
    }

    /// The stage under the cursor.
    pub open spec fn stage(self) -> ScrapeStage {
        self.current().stages@[self.top().cursor as int]
    }

    /// There is a stage under the cursor.
    pub open spec fn at_stage(self) -> bool {
        self.top().cursor < self.current().stages@.len()
    }

    /// What holds of every run: there is a frame; every frame but the first
    /// runs a pipeline nested under the cursor of the frame before it, and
    /// works on one of its elements; and a run that waits for the page waits
    /// on behalf of a stage that asked.
    pub open spec fn wf(self) -> bool {
        &&& self.frames.len() >= 1
        &&& pipeline_at(self.pipeline, self.frames, self.frames.len() - 1) is Some
        &&& forall|depth: int|
            1 <= depth < self.frames.len() ==> (#[trigger] self.frames[depth]).index
                < self.frames[depth].elements.len()
        &&& match self.phase {
            Phase::Resolving => self.at_stage() && self.stage().action.spec_value() is Some,
            Phase::Querying => self.at_stage() && self.stage().action is QueryElement,
            Phase::Scrolling(_) | Phase::Completing | Phase::Returning => self.at_stage(),
            _ => true,
        }
    }

    /// The same run with the cursor of the running pipeline moved.
    pub open spec fn with_cursor(self, cursor: usize) -> ExecutionView {
        ExecutionView {
            frames: self.frames.update(
                self.frames.len() - 1,
                FrameView { cursor, ..self.top() },
            ),
            ..self
        }
    }

    /// The running pipeline ends, with a result.
    ///
    /// The end of the run's own pipeline is the result of the run, and the
    /// end of the session is asked for. A pipeline that runs for each element
    /// of a lookup goes on with the next element, which becomes both the
    /// scoped element and the one in focus, whatever the result was. After
    /// the last element its frame is gone, the scoped element is the one
    /// that the lookup found in the context, and the last element found is
    /// in focus.
    pub open spec fn leave(self, result: Result<(), ScrapeErrorView>) -> (ExecutionView, RequestView) {
        let top = self.top();
        if self.frames.len() <= 1 {
            (
                ExecutionView { outcome: result, phase: Phase::Disconnecting, ..self },
                RequestView::Disconnect,
            )
        } else if top.index + 1 < top.elements.len() {
            let element = top.elements[top.index + 1];
            (
                ExecutionView {
                    frames: self.frames.update(
                        self.frames.len() - 1,
                        FrameView { cursor: 0, index: (top.index + 1) as usize, ..top },
                    ),
                    context: ContextView {
                        scoped_element: Some(element),
                        current_element: Some(element),
                        ..self.context
                    },
                    phase: Phase::Running,
                    ..self
                },
                RequestView::Proceed,
            )
        } else {
            (
                ExecutionView {
                    frames: self.frames.drop_last(),
                    context: ContextView {
                        scoped_element: top.saved_scope,
                        current_element: Some(top.elements[top.index as int]),
                        ..self.context
                    },
                    phase: Phase::Returning,
                    ..self
                },
                RequestView::Proceed,
            )
        }
    }

    /// The action of the stage under the cursor is over, with an outcome, and
    /// the pipeline goes where `ScrapePipeline::spec_advance` says.
    pub open spec fn settle(self, outcome: Result<(), ScrapeErrorView>) -> (
        ExecutionView,
        RequestView,
    ) {
        match self.current().spec_advance(self.top().cursor, outcome) {
            MoveView::Run(cursor) => (
                ExecutionView { phase: Phase::Running, ..self.with_cursor(cursor) },
                RequestView::Proceed,
            ),
            MoveView::Wait(millis) => (
                ExecutionView { phase: Phase::Delaying, ..self },
                RequestView::Sleep { millis },
            ),
            MoveView::Stop => self.leave(Ok(())),
            MoveView::Fail(error) => self.leave(Err(error)),
        }
    }

    /// What the run waits for once the action of the stage has asked the
    /// page for something.
    pub open spec fn awaiting(self, request: RequestView) -> Phase {
        match (self.stage().action, request) {
            (Action::QueryElement(_), _) => Phase::Querying,
            (Action::ClickElement(_), RequestView::SendKeys { element, .. }) => Phase::Scrolling(
                element,
            ),
            _ => Phase::Completing,
        }
    }

    /// The action of the stage has acted: it left this context and came this
    /// far.
    pub open spec fn acted(self, context: ContextView, progress: ProgressView) -> (
        ExecutionView,
        RequestView,
    ) {
        let after = ExecutionView { context, ..self };
        match progress {
            ProgressView::Done(outcome) => after.settle(outcome),
            ProgressView::Ask(request) => (
                ExecutionView { phase: after.awaiting(request), ..after },
                request,
            ),
        }
    }

    /// The stage under the cursor starts: its action resolves its value, if
    /// it has one, and acts. `blank` is the record that a commit leaves.
    pub open spec fn start(self, blank: JsonValue) -> (ExecutionView, RequestView) {
        let action = self.stage().action;
        match action.spec_value() {
            Some(value) => match value.spec_resolve(self.context) {
                ResolutionView::Ready(resolved) => {
                    let (context, progress) = action.spec_execute(self.context, resolved);
                    self.acted(context, progress)
                },
                ResolutionView::Ask(request) => (
                    ExecutionView { phase: Phase::Resolving, ..self },
                    request,
                ),
            },
            None => {
                let (context, progress) = action.spec_perform(self.context, blank);
                self.acted(context, progress)
            },
        }
    }

    /// The page has answered for the value of the stage's action, which acts
    /// on it.
    pub open spec fn resume(self, response: Response) -> (ExecutionView, RequestView) {
        let action = self.stage().action;
        let resolved = action.spec_value()->0.spec_resolved(response);
        let (context, progress) = action.spec_execute(self.context, resolved);
        self.acted(context, progress)
    }

    /// The page has answered a lookup with the elements found.
    ///
    /// No element fails the action with `ElementQueryEmptyResult`. Without a
    /// pipeline to run, the last element found is in focus and the action has
    /// succeeded. With one, a frame for it is entered on the first element,
    /// which becomes both the scoped element and the one in focus; the frame
    /// keeps the scoped element that the context held.
    pub open spec fn matched(self, found: Seq<ElementHandle>) -> (ExecutionView, RequestView) {
        if found.len() == 0 {
            self.settle(Err(ScrapeErrorView::ElementQueryEmptyResult))
        } else if nested(self.current(), self.top().cursor) is Some {
            (
                ExecutionView {
                    frames: self.frames.push(
                        FrameView {
                            cursor: 0,
                            elements: found,
                            index: 0,
                            saved_scope: self.context.scoped_element,
                        },
                    ),
                    context: ContextView {
                        scoped_element: Some(found[0]),
                        current_element: Some(found[0]),
                        ..self.context
                    },
                    phase: Phase::Running,
                    ..self
                },
                RequestView::Proceed,
            )
        } else {
            ExecutionView {
                context: ContextView { current_element: Some(found.last()), ..self.context },
                ..self
            }.settle(Ok(()))
        }
    }

    /// One step of the run: where it stands after a response, and what it
    /// asks for next. `blank` is the record that a commit leaves.
    ///
    /// A response is read only where the run waits for one.
    pub open spec fn step(self, response: Response, blank: JsonValue) -> (ExecutionView, RequestView) {
        match self.phase {
            Phase::Running => if self.at_stage() {
                self.start(blank)
            } else {
                self.leave(Ok(()))
            },
            Phase::Resolving => self.resume(response),
            Phase::Querying => match response {
                Response::Elements(found) => self.matched(found@),
                _ => self.settle(Err(response.spec_failure())),
            },
            Phase::Scrolling(element) => match response.spec_completed() {
                Ok(_) => (
                    ExecutionView { phase: Phase::Completing, ..self },
                    RequestView::Click { element },
                ),
                Err(error) => self.settle(Err(error)),
            },
            Phase::Completing => self.settle(response.spec_completed()),
            Phase::Delaying => (ExecutionView { phase: Phase::Running, ..self }, RequestView::Proceed),
            Phase::Returning => self.settle(Ok(())),
            Phase::Disconnecting => (
                ExecutionView {
                    phase: Phase::Finished,
                    outcome: if self.outcome is Err {
                        self.outcome
                    } else {
                        response.spec_completed()
                    },
                    ..self
                },
                RequestView::Finished,
            ),
            Phase::Finished => (self, RequestView::Finished),
        }
    }

    /// The step commits the record.
    pub open spec fn commits(self) -> bool {
        self.phase is Running && self.at_stage() && self.stage().action is StoreModel
    }
}

/// The pipeline of a frame depends on the cursors of the frames before it,
/// and on nothing else.
pub proof fn lemma_pipeline_at_below(
    root: ScrapePipeline,
    first: Seq<FrameView>,
    second: Seq<FrameView>,
    depth: int,
)
    requires
        depth <= first.len(),
        depth <= second.len(),
        forall|below: int| 0 <= below < depth ==> first[below].cursor == second[below].cursor,
    ensures
        pipeline_at(root, first, depth) == pipeline_at(root, second, depth),
    decreases depth,
{
    if depth > 0 {
        lemma_pipeline_at_below(root, first, second, depth - 1);
    }
}

/// Where a frame has a pipeline, so has every frame before it.
pub proof fn lemma_pipeline_at_above(root: ScrapePipeline, frames: Seq<FrameView>, depth: int, above: int)
    requires
        above <= depth,
        pipeline_at(root, frames, depth) is Some,
    ensures
        pipeline_at(root, frames, above) is Some,
    decreases depth - above,
{
    if above < depth {
        lemma_pipeline_at_above(root, frames, depth - 1, above);
    }
}

/// The views of frames.
pub open spec fn frames_view(frames: Seq<Frame>) -> Seq<FrameView> {
    frames.map_values(|frame: Frame| frame@)
}

/// The frame that a run starts in.
pub open spec fn first_frame() -> FrameView {
    FrameView { cursor: 0, elements: Seq::empty(), index: 0, saved_scope: None }
}

/// A run of a pipeline on a context.
#[derive(Debug)]
pub struct Execution {
    pipeline: ScrapePipeline,
    context: ScrapeContext,
    frames: Vec<Frame>,
    phase: Phase,
    outcome: Result<(), ScrapeError>,
}

impl View for Execution {
    type V = ExecutionView;

    closed spec fn view(&self) -> ExecutionView {
        ExecutionView {
            pipeline: self.pipeline,
            context: self.context@,
            frames: frames_view(self.frames@),
            phase: self.phase,
            outcome: outcome_view(self.outcome),
        }
    }
}

/// What a run holds besides its phase.
struct Parts {
    pipeline: ScrapePipeline,
    context: ScrapeContext,
    frames: Vec<Frame>,
    outcome: Result<(), ScrapeError>,
}

/// Finds the pipeline that is running, from the pipeline of the run down
/// along the cursors of the frames.
fn current_pipeline<'a>(pipeline: &'a ScrapePipeline, frames: &Vec<Frame>) -> (current:
    &'a ScrapePipeline)
    requires
        frames@.len() >= 1,
        pipeline_at(*pipeline, frames_view(frames@), frames@.len() - 1) is Some,
    ensures
        Some(*current) == pipeline_at(*pipeline, frames_view(frames@), frames@.len() - 1),
{
    let ghost views = frames_view(frames@);
    let mut current = pipeline;
    let mut depth: usize = 0;
    while depth < frames.len() - 1
        invariant
            depth < frames@.len(),
            views == frames_view(frames@),
            pipeline_at(*pipeline, views, frames@.len() - 1) is Some,
            pipeline_at(*pipeline, views, depth as int) == Some(*current),
        decreases frames@.len() - depth,
    {
        proof {
            lemma_pipeline_at_above(*pipeline, views, frames@.len() - 1, depth + 1);
        }
        let cursor = frames[depth].cursor;
        assert(views[depth as int].cursor == cursor);
        match &current.stages[cursor].action {
            Action::QueryElement(query) => match &query.for_each {
                Some(inner) => {
                    current = inner;
                },
                None => unreached(),
            },
            _ => unreached(),
        }
        depth = depth + 1;
    }
    current
}

impl Parts {
    /// The run that these parts make in a phase.
    spec fn at(self, phase: Phase) -> ExecutionView {
        ExecutionView {
            pipeline: self.pipeline,
            context: self.context@,
            frames: frames_view(self.frames@),
            phase,
            outcome: outcome_view(self.outcome),
        }
    }

    /// Makes the run of these parts in a phase.
    fn seal(self, phase: Phase) -> (execution: Execution)
        requires
            self.at(phase).wf(),
        ensures
            execution@ == self.at(phase),
    {
        Execution {
            pipeline: self.pipeline,
            context: self.context,
            frames: self.frames,
            phase,
            outcome: self.outcome,
        }
    }

    /// The cursor of the running pipeline.
    fn cursor(&self) -> (cursor: usize)
        requires
            self.frames@.len() >= 1,
        ensures
            cursor == self.at(Phase::Running).top().cursor,
    {
        self.frames[self.frames.len() - 1].cursor
    }

    /// Ends the running pipeline with a result.
    fn leave(self, result: Result<(), ScrapeError>) -> (next: (Execution, Request))
        requires
            self.at(Phase::Running).wf(),
        ensures
            (next.0@, next.1@) == self.at(Phase::Running).leave(outcome_view(result)),
    {
        let ghost before = self.at(Phase::Running);
        let Parts { pipeline, mut context, mut frames, outcome } = self;
        if frames.len() <= 1 {
            let parts = Parts { pipeline, context, frames, outcome: result };
            (parts.seal(Phase::Disconnecting), Request::Disconnect)
        } else {
            let mut top = frames.pop().unwrap();
            assert(top@ == before.frames[before.frames.len() - 1]);
            if top.index < top.elements.len() - 1 {
                let element = top.elements[top.index + 1];
                top.index = top.index + 1;
                top.cursor = 0;
                frames.push(top);
                context.scoped_element = Some(element);
                context.current_element = Some(element);
                let parts = Parts { pipeline, context, frames, outcome };
                proof {
                    let after = parts.at(Phase::Running);
                    assert(after.frames =~= before.frames.update(
                        before.frames.len() - 1,
                        FrameView {
                            cursor: 0,
                            index: (before.top().index + 1) as usize,
                            ..before.top()
                        },
                    ));
                    lemma_pipeline_at_below(
                        before.pipeline,
                        before.frames,
                        after.frames,
                        before.frames.len() - 1,
                    );
                }
                (parts.seal(Phase::Running), Request::Proceed)
            } else {
                let last = top.elements[top.index];
                context.scoped_element = top.saved_scope;
                context.current_element = Some(last);
                let parts = Parts { pipeline, context, frames, outcome };
                proof {
                    let after = parts.at(Phase::Returning);
                    assert(after.frames =~= before.frames.drop_last());
                    lemma_pipeline_at_above(
                        before.pipeline,
                        before.frames,
                        before.frames.len() - 1,
                        before.frames.len() - 2,
                    );
                    lemma_pipeline_at_below(
                        before.pipeline,
                        before.frames,
                        after.frames,
                        before.frames.len() - 2,
                    );
                }
                (parts.seal(Phase::Returning), Request::Proceed)
            }
        }
    }

    /// Goes on after the stage under the cursor, whose action came to this
    /// outcome.
    fn settle(self, outcome: Result<(), ScrapeError>) -> (next: (Execution, Request))
        requires
            self.at(Phase::Completing).wf(),
        ensures
            (next.0@, next.1@) == self.at(Phase::Completing).settle(outcome_view(outcome)),
    {
        let ghost before = self.at(Phase::Completing);
        let cursor = self.cursor();
        let Parts { pipeline, context, mut frames, outcome: result } = self;
        let next = current_pipeline(&pipeline, &frames).advance(cursor, outcome);
        match next {
            Move::Run(cursor) => {
                let mut top = frames.pop().unwrap();
                top.cursor = cursor;
                frames.push(top);
                let parts = Parts { pipeline, context, frames, outcome: result };
                proof {
                    let after = parts.at(Phase::Running);
                    assert(after.frames =~= before.with_cursor(cursor).frames);
                    lemma_pipeline_at_below(
                        before.pipeline,
                        before.frames,
                        after.frames,
                        before.frames.len() - 1,
                    );
                }
                (parts.seal(Phase::Running), Request::Proceed)
            },
            Move::Wait(millis) => {
                let parts = Parts { pipeline, context, frames, outcome: result };
                (parts.seal(Phase::Delaying), Request::Sleep { millis })
            },
            Move::Stop => {
                let parts = Parts { pipeline, context, frames, outcome: result };
                parts.leave(Ok(()))
            },
            Move::Fail(error) => {
                let parts = Parts { pipeline, context, frames, outcome: result };
                parts.leave(Err(error))
            },
        }
    }

    /// Takes up how far the action of the stage has come.
    fn acted(self, progress: Progress) -> (next: (Execution, Request))
        requires
            self.at(Phase::Completing).wf(),
        ensures
            (next.0@, next.1@) == self.at(Phase::Completing).acted(self.context@, progress@),
    {
        match progress {
            Progress::Done(outcome) => self.settle(outcome),
            Progress::Ask(request) => {
                let cursor = self.cursor();
                let phase = match (
                    &current_pipeline(&self.pipeline, &self.frames).stages[cursor].action,
                    &request,
                ) {
                    (Action::QueryElement(_), _) => Phase::Querying,
                    (Action::ClickElement(_), Request::SendKeys { element, .. }) => Phase::Scrolling(
                        *element,
                    ),
                    _ => Phase::Completing,
                };
                (self.seal(phase), request)
            },
        }
    }

    /// Starts the stage under the cursor.
    fn start(self) -> (next: (Execution, Request))
        requires
            self.at(Phase::Completing).wf(),
        ensures
            (next.0@, next.1@) == self.at(Phase::Running).start(next.0@.context.model),
            self.at(Phase::Running).stage().action is StoreModel ==> is_empty_object(
                next.0@.context.model,
            ),
    {
        let cursor = self.cursor();
        let Parts { pipeline, mut context, frames, outcome } = self;
        let action = &current_pipeline(&pipeline, &frames).stages[cursor].action;
        match action.value() {
            Some(value) => match value.resolve(&context) {
                Resolution::Ready(resolved) => {
                    let progress = action.execute(&mut context, resolved);
                    let parts = Parts { pipeline, context, frames, outcome };
                    parts.acted(progress)
                },
                Resolution::Ask(request) => {
                    let parts = Parts { pipeline, context, frames, outcome };
                    (parts.seal(Phase::Resolving), request)
                },
            },
            None => {
                let progress = action.perform(&mut context);
                let parts = Parts { pipeline, context, frames, outcome };
                parts.acted(progress)
            },
        }
    }

    /// Lets the action of the stage act on the value that the page answered
    /// with.
    fn resume(self, response: Response) -> (next: (Execution, Request))
        requires
            self.at(Phase::Resolving).wf(),
        ensures
            (next.0@, next.1@) == self.at(Phase::Resolving).resume(response),
    {
        let cursor = self.cursor();
        let Parts { pipeline, mut context, frames, outcome } = self;
        let action = &current_pipeline(&pipeline, &frames).stages[cursor].action;
        let resolved = match action.value() {
            Some(value) => value.resolved(response),
            None => unreached(),
        };
        let progress = action.execute(&mut context, resolved);
        let parts = Parts { pipeline, context, frames, outcome };
        parts.acted(progress)
    }

    /// Takes up the elements that a lookup found.
    fn matched(self, found: Vec<ElementHandle>) -> (next: (Execution, Request))
        requires
            self.at(Phase::Querying).wf(),
        ensures
            (next.0@, next.1@) == self.at(Phase::Querying).matched(found@),
    {
        if found.len() == 0 {
            return self.settle(Err(ScrapeError::ElementQueryEmptyResult));
        }
        let ghost before = self.at(Phase::Querying);
        let cursor = self.cursor();
        let Parts { pipeline, mut context, mut frames, outcome } = self;
        let each = match &current_pipeline(&pipeline, &frames).stages[cursor].action {
            Action::QueryElement(query) => query.for_each.is_some(),
            _ => false,
        };
        if each {
            let first = found[0];
            let saved_scope = context.scoped_element;
            frames.push(Frame { cursor: 0, elements: found, index: 0, saved_scope });
            context.scoped_element = Some(first);
            context.current_element = Some(first);
            let parts = Parts { pipeline, context, frames, outcome };
            proof {
                let after = parts.at(Phase::Running);
                assert(after.frames =~= before.frames.push(
                    FrameView {
                        cursor: 0,
                        elements: found@,
                        index: 0,
                        saved_scope: before.context.scoped_element,
                    },
                ));
                lemma_pipeline_at_below(
                    before.pipeline,
                    before.frames,
                    after.frames,
                    before.frames.len() as int,
                );
            }
            (parts.seal(Phase::Running), Request::Proceed)
        } else {
            context.current_element = Some(found[found.len() - 1]);
            let parts = Parts { pipeline, context, frames, outcome };
            parts.settle(Ok(()))
        }
    }
}

impl Execution {
    #[verifier::type_invariant]
    spec fn well_formed(self) -> bool {
        self@.wf()
    }

    /// A run of a pipeline on a context, about to start with the first stage.
    pub fn new(pipeline: ScrapePipeline, context: ScrapeContext) -> (execution: Execution)
        ensures
            execution@ == (ExecutionView {
                pipeline,
                context: context@,
                frames: seq![first_frame()],
                phase: Phase::Running,
                outcome: Ok(()),
            }),
            execution@.wf(),
    {
        let mut frames = Vec::new();
        frames.push(Frame { cursor: 0, elements: Vec::new(), index: 0, saved_scope: None });
        let execution = Execution {
            pipeline,
            context,
            frames,
            phase: Phase::Running,
            outcome: Ok(()),
        };
        assert(execution@.frames =~= seq![first_frame()]);
        execution
    }

    /// Takes one step: reads what came of the last request, where the run
    /// waited for it, and says what to do next.
    ///
    /// The run is over once `Request::Finished` is returned; further steps
    /// change nothing. What a step does is `ExecutionView::step`. The one
    /// thing that it leaves open is which empty object a commit puts in the
    /// place of the record: it is the record of the run after the step.
    pub fn step(self, response: Response) -> (next: (Execution, Request))
        ensures
            self@.wf(),
            next.0@.wf(),
            (next.0@, next.1@) == self@.step(response, next.0@.context.model),
            self@.commits() ==> is_empty_object(next.0@.context.model),
    {
        proof {
            use_type_invariant(&self);
        }
        let Execution { pipeline, context, frames, phase, outcome } = self;
        let parts = Parts { pipeline, context, frames, outcome };
        let next = match phase {
            Phase::Running => {
                let cursor = parts.cursor();
                let stages = current_pipeline(&parts.pipeline, &parts.frames).stages.len();
                if cursor < stages {
                    parts.start()
                } else {
                    parts.leave(Ok(()))
                }
            },
            Phase::Resolving => parts.resume(response),
            Phase::Querying => match response {
                Response::Elements(found) => parts.matched(found),
                other => parts.settle(Err(other.failure())),
            },
            Phase::Scrolling(element) => match response.completed() {
                Ok(_) => (parts.seal(Phase::Completing), Request::Click { element }),
                Err(error) => parts.settle(Err(error)),
            },
            Phase::Completing => parts.settle(response.completed()),
            Phase::Delaying => (parts.seal(Phase::Running), Request::Proceed),
            Phase::Returning => parts.settle(Ok(())),
            Phase::Disconnecting => {
                let Parts { pipeline, context, frames, outcome } = parts;
                let outcome = match outcome {
                    Ok(_) => response.completed(),
                    Err(error) => Err(error),
                };
                let parts = Parts { pipeline, context, frames, outcome };
                (parts.seal(Phase::Finished), Request::Finished)
            },
            Phase::Finished => (parts.seal(Phase::Finished), Request::Finished),
        };
        proof {
            use_type_invariant(&next.0);
        }
        next
    }

    /// The stage under the cursor of the running pipeline, if there is one:
    /// the stage that runs next, or the one on whose behalf the run waits.
    pub fn stage(&self) -> (stage: Option<&ScrapeStage>)
        ensures
            match stage {
                Some(found) => self@.at_stage() && *found == self@.stage(),
                None => !self@.at_stage(),
            },
    {
        proof {
            use_type_invariant(self);
        }
        let cursor = self.frames[self.frames.len() - 1].cursor;
        let current = current_pipeline(&self.pipeline, &self.frames);
        if cursor < current.stages.len() {
            Some(&current.stages[cursor])
        } else {
            None
        }
    }

    /// What the run is about to do or waits for.
    pub fn phase(&self) -> (phase: Phase)
        ensures
            phase == self@.phase,
    {
        self.phase
    }

    /// The context of the run as it stands.
    pub fn context(&self) -> (context: &ScrapeContext)
        ensures
            context@ == self@.context,
    {
        &self.context
    }

    /// Tells whether the run is over.
    pub fn is_finished(&self) -> (finished: bool)
        ensures
            finished == (self@.phase is Finished),
    {
        match self.phase {
            Phase::Finished => true,
            _ => false,
        }
    }

    /// Ends the run: the context with all it gathered, or the error that the
    /// run came to.
    pub fn into_result(self) -> (result: Result<ScrapeContext, ScrapeError>)
        ensures
            match self@.outcome {
                Ok(_) => result matches Ok(context) && context@ == self@.context,
                Err(error) => result matches Err(found) && found@ == error,
            },
    {
        match self.outcome {
            Ok(_) => Ok(self.context),
            Err(error) => Err(error),
        }
    }
}

} // verus!
