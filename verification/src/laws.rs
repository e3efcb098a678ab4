//! What holds of every pipeline and every run.

use crate::client::{ElementHandle, RequestView, Response};
use crate::context::ContextView;
use crate::error::ScrapeErrorView;
use crate::execution::{
    lemma_pipeline_at_above, lemma_pipeline_at_below, nested, ExecutionView, Phase,
};
use crate::json::{dot_get_outcome, JsonValue};
use crate::pipeline::{MoveView, ScrapePipeline};
use crate::stage::FlowControl;
use crate::value::{scalar_text, ResolutionView, Value};
use vstd::prelude::*;

verus! {

/// A path into the input resolves to the text of what the input holds there,
/// and fails with `ValueResolveError` where the input holds nothing there or
/// the path cannot be followed. The element in focus plays no part.
pub proof fn lemma_input_path_resolution(key: String, context: ContextView)
    ensures
        Value::Context(key).spec_resolve(context) == (match dot_get_outcome(context.values, key@) {
            Some(Some(found)) => ResolutionView::Ready(Ok(Some(scalar_text(found)))),
            _ => ResolutionView::Ready(Err(ScrapeErrorView::ValueResolveError)),
        }),
{
}

/// The first stage of a name is a stage of that name with none of that name
/// before it, and there is none only where no stage has the name.
pub proof fn lemma_position_is_first(pipeline: ScrapePipeline, name: Seq<char>, from: int)
    requires
        0 <= from,
    ensures
        match pipeline.spec_position_from(name, from) {
            Some(index) => {
                &&& from <= index
                &&& pipeline.is_named(index as int, name)
                &&& forall|before: int| from <= before < index ==> !pipeline.is_named(before, name)
            },
            None => forall|index: int| from <= index ==> !pipeline.is_named(index, name),
        },
    decreases pipeline.stages@.len() - from,
{
    assert(pipeline.stages.len() == pipeline.stages@.len());
    if from < pipeline.stages@.len() && !pipeline.is_named(from, name) {
        lemma_position_is_first(pipeline, name, from + 1);
        assert(pipeline.spec_position_from(name, from) == pipeline.spec_position_from(
            name,
            from + 1,
        ));
        match pipeline.spec_position_from(name, from) {
            Some(index) => {
                assert forall|before: int| from <= before < index implies !pipeline.is_named(
                    before,
                    name,
                ) by {
                    if before > from {
                        assert(from + 1 <= before);
                    }
                }
            },
            None => {
                assert forall|index: int| from <= index implies !pipeline.is_named(index, name) by {
                    if index > from {
                        assert(from + 1 <= index);
                    }
                }
            },
        }
    }
}

/// A failure of the browser session ends the pipeline with that failure,
/// whatever the stage says.
pub proof fn lemma_session_failure_ends_pipeline(
    pipeline: ScrapePipeline,
    cursor: usize,
    reason: Seq<char>,
)
    ensures
        pipeline.spec_advance(cursor, Err(ScrapeErrorView::WebdriverCommandError(reason)))
            == MoveView::Fail(ScrapeErrorView::WebdriverCommandError(reason)),
{
}

/// A `Goto` to a name that no stage has ends the pipeline with
/// `MissingPipelineStage`, and one to a name that a stage has goes on at the
/// first such stage.
pub proof fn lemma_goto(
    pipeline: ScrapePipeline,
    cursor: usize,
    outcome: Result<(), ScrapeErrorView>,
    name: String,
)
    requires
        !(outcome matches Err(error) && error.is_fatal()),
        pipeline.spec_directive(cursor, outcome) == FlowControl::Goto(name),
    ensures
        (forall|index: int| !pipeline.is_named(index, name@)) ==> pipeline.spec_advance(
            cursor,
            outcome,
        ) == MoveView::Fail(ScrapeErrorView::MissingPipelineStage(name@)),
        forall|index: int|
            pipeline.is_named(index, name@) && (forall|before: int|
                0 <= before < index ==> !pipeline.is_named(before, name@))
                ==> pipeline.spec_advance(cursor, outcome) == MoveView::Run(index as usize),
{
    lemma_position_is_first(pipeline, name@, 0);
    assert forall|index: int|
        pipeline.is_named(index, name@) && (forall|before: int|
            0 <= before < index ==> !pipeline.is_named(before, name@)) implies pipeline.spec_advance(
        cursor,
        outcome,
    ) == MoveView::Run(index as usize) by {
        let found = pipeline.spec_position(name@);
        assert(found is Some);
        assert(!pipeline.is_named(found->0 as int, name@) || found->0 >= index);
    }
}

/// Where no two stages of a pipeline have the same name, a `Goto` goes on at
/// the one stage of its name.
pub proof fn lemma_goto_unique_name(
    pipeline: ScrapePipeline,
    cursor: usize,
    outcome: Result<(), ScrapeErrorView>,
    name: String,
    index: int,
)
    requires
        pipeline.names_are_unique(),
        !(outcome matches Err(error) && error.is_fatal()),
        pipeline.spec_directive(cursor, outcome) == FlowControl::Goto(name),
        pipeline.is_named(index, name@),
    ensures
        pipeline.spec_advance(cursor, outcome) == MoveView::Run(index as usize),
{
    lemma_goto(pipeline, cursor, outcome, name);
    assert forall|before: int| 0 <= before < index implies !pipeline.is_named(before, name@) by {
        if pipeline.is_named(before, name@) {
            assert(before == index);
        }
    }
}

/// In the pipeline of the run itself, a `Goto` to a name that no stage has
/// fails the run with `MissingPipelineStage`: that is its outcome, the end
/// of the session is asked for, and the context stays as it is.
pub proof fn lemma_goto_missing_stage_fails_run(
    run: ExecutionView,
    outcome: Result<(), ScrapeErrorView>,
    name: String,
)
    requires
        run.frames.len() == 1,
        !(outcome matches Err(error) && error.is_fatal()),
        run.current().spec_directive(run.top().cursor, outcome) == FlowControl::Goto(name),
        forall|index: int| !run.current().is_named(index, name@),
    ensures
        run.settle(outcome) == ((
            ExecutionView {
                outcome: Err(ScrapeErrorView::MissingPipelineStage(name@)),
                phase: Phase::Disconnecting,
                ..run
            },
            RequestView::Disconnect,
        )),
{
    lemma_goto(run.current(), run.top().cursor, outcome, name);
}

/// In the pipeline of the run itself, a stage whose action fails, the
/// session living on, and whose `on_error` is `Quit` ends the run without
/// failure: the outcome is a success, the end of the session is asked for,
/// and the context, its committed records among it, stays as it is.
pub proof fn lemma_quit_on_error_ends_run(run: ExecutionView, error: ScrapeErrorView)
    requires
        run.frames.len() == 1,
        !error.is_fatal(),
        run.stage().on_error == FlowControl::Quit,
    ensures
        run.settle(Err(error)) == ((
            ExecutionView { outcome: Ok(()), phase: Phase::Disconnecting, ..run },
            RequestView::Disconnect,
        )),
{
}

/// A lookup without a pipeline to run puts the last element found in focus
/// and leaves the scoped element alone. (Where the lookup ends a pipeline
/// that runs for each element of another lookup, that pipeline goes on with
/// its next element, which changes both.)
pub proof fn lemma_lookup_focuses_last(run: ExecutionView, found: Seq<ElementHandle>)
    requires
        found.len() > 0,
        nested(run.current(), run.top().cursor) is None,
        run.frames.len() == 1 || run.current().spec_advance(run.top().cursor, Ok(())) is Run
            || run.current().spec_advance(run.top().cursor, Ok(())) is Wait,
    ensures
        run.matched(found).0.context == (ContextView {
            current_element: Some(found.last()),
            ..run.context
        }),
{
}

/// Where a pipeline goes after a stage changes neither the record nor the
/// committed records nor the input, and no frame but the running one.
pub proof fn lemma_settle_keeps_record(run: ExecutionView, outcome: Result<(), ScrapeErrorView>)
    ensures
        run.settle(outcome).0.pipeline == run.pipeline,
        run.settle(outcome).0.context.model == run.context.model,
        run.settle(outcome).0.context.models == run.context.models,
        run.settle(outcome).0.context.values == run.context.values,
        run.frames.len() <= 1 ==> run.settle(outcome).0.context == run.context,
{
}

/// A run ends only by way of ending the session: a step that finishes a run
/// is the step that read what came of the request to disconnect, and that
/// request is made when, and only when, the pipeline of the run has ended.
pub proof fn lemma_finish_follows_disconnect(run: ExecutionView, response: Response, blank: JsonValue)
    requires
        run.wf(),
        !(run.phase is Finished),
    ensures
        run.step(response, blank).0.phase is Finished <==> run.phase is Disconnecting,
        run.step(response, blank).1 is Disconnect <==> run.step(response, blank).0.phase
            is Disconnecting,
        run.step(response, blank).0.phase is Disconnecting ==> run.step(
            response,
            blank,
        ).0.frames.len() == 1,
{
}

/// A run that is over stays as it is, whatever it is told.
pub proof fn lemma_finished_run_stays(run: ExecutionView, response: Response, blank: JsonValue)
    requires
        run.phase is Finished,
    ensures
        run.step(response, blank) == (run, RequestView::Finished),
{
}

/// The run after a number of steps, each given with the response it reads
/// and the record that a commit leaves.
pub open spec fn run_steps(run: ExecutionView, inputs: Seq<(Response, JsonValue)>) -> ExecutionView
    decreases inputs.len(),
{
    if inputs.len() == 0 {
        run
    } else {
        run_steps(run, inputs.drop_last()).step(inputs.last().0, inputs.last().1).0
    }
}

/// The end of a pipeline leaves a run well formed.
pub proof fn lemma_leave_keeps_well_formed(run: ExecutionView, result: Result<(), ScrapeErrorView>)
    requires
        run.wf(),
    ensures
        run.leave(result).0.wf(),
{
    let len = run.frames.len() as int;
    let next = run.leave(result).0;
    if len > 1 {
        if run.top().index + 1 < run.top().elements.len() {
            lemma_pipeline_at_below(run.pipeline, run.frames, next.frames, len - 1);
        } else {
            lemma_pipeline_at_above(run.pipeline, run.frames, len - 1, len - 2);
            lemma_pipeline_at_below(run.pipeline, run.frames, next.frames, len - 2);
        }
    }
}

/// Going on after a stage leaves a run well formed.
pub proof fn lemma_settle_keeps_well_formed(run: ExecutionView, outcome: Result<(), ScrapeErrorView>)
    requires
        run.wf(),
    ensures
        run.settle(outcome).0.wf(),
{
    let len = run.frames.len() as int;
    match run.current().spec_advance(run.top().cursor, outcome) {
        MoveView::Run(cursor) => {
            lemma_pipeline_at_below(
                run.pipeline,
                run.frames,
                run.with_cursor(cursor).frames,
                len - 1,
            );
        },
        MoveView::Wait(_) => {},
        MoveView::Stop => {
            lemma_leave_keeps_well_formed(run, Ok(()));
        },
        MoveView::Fail(error) => {
            lemma_leave_keeps_well_formed(run, Err(error));
        },
    }
}

/// The elements found by a lookup leave a run well formed.
pub proof fn lemma_matched_keeps_well_formed(run: ExecutionView, found: Seq<ElementHandle>)
    requires
        run.wf(),
        run.at_stage(),
    ensures
        run.matched(found).0.wf(),
{
    if found.len() == 0 {
        lemma_settle_keeps_well_formed(run, Err(ScrapeErrorView::ElementQueryEmptyResult));
    } else if nested(run.current(), run.top().cursor) is Some {
        lemma_pipeline_at_below(
            run.pipeline,
            run.frames,
            run.matched(found).0.frames,
            run.frames.len() as int,
        );
    } else {
        lemma_settle_keeps_well_formed(
            ExecutionView {
                context: ContextView { current_element: Some(found.last()), ..run.context },
                ..run
            },
            Ok(()),
        );
    }
}

/// Every step leaves a run well formed.
pub proof fn lemma_step_keeps_well_formed(run: ExecutionView, response: Response, blank: JsonValue)
    requires
        run.wf(),
    ensures
        run.step(response, blank).0.wf(),
{
    match run.phase {
        Phase::Running => {
            if run.at_stage() {
                let action = run.stage().action;
                match action.spec_value() {
                    Some(value) => match value.spec_resolve(run.context) {
                        ResolutionView::Ready(resolved) => {
                            let (context, progress) = action.spec_execute(run.context, resolved);
                            lemma_acted_keeps_well_formed(run, context, progress);
                        },
                        ResolutionView::Ask(_) => {},
                    },
                    None => {
                        let (context, progress) = action.spec_perform(run.context, blank);
                        lemma_acted_keeps_well_formed(run, context, progress);
                    },
                }
            } else {
                lemma_leave_keeps_well_formed(run, Ok(()));
            }
        },
        Phase::Resolving => {
            let action = run.stage().action;
            let resolved = action.spec_value()->0.spec_resolved(response);
            let (context, progress) = action.spec_execute(run.context, resolved);
            lemma_acted_keeps_well_formed(run, context, progress);
        },
        Phase::Querying => match response {
            Response::Elements(found) => {
                lemma_matched_keeps_well_formed(run, found@);
            },
            _ => {
                lemma_settle_keeps_well_formed(run, Err(response.spec_failure()));
            },
        },
        Phase::Scrolling(_) => match response.spec_completed() {
            Ok(_) => {},
            Err(error) => {
                lemma_settle_keeps_well_formed(run, Err(error));
            },
        },
        Phase::Completing => {
            lemma_settle_keeps_well_formed(run, response.spec_completed());
        },
        Phase::Returning => {
            lemma_settle_keeps_well_formed(run, Ok(()));
        },
        _ => {},
    }
}

/// An action that has acted leaves a run well formed.
pub proof fn lemma_acted_keeps_well_formed(
    run: ExecutionView,
    context: ContextView,
    progress: crate::action::ProgressView,
)
    requires
        run.wf(),
        run.at_stage(),
    ensures
        run.acted(context, progress).0.wf(),
{
    let after = ExecutionView { context, ..run };
    match progress {
        crate::action::ProgressView::Done(outcome) => {
            lemma_settle_keeps_well_formed(after, outcome);
        },
        crate::action::ProgressView::Ask(_) => {},
    }
}

/// No step changes the pipeline or the input of a run, and none takes a
/// committed record away or changes one: the records before a step are the
/// first of the records after it.
pub proof fn lemma_step_appends_records(run: ExecutionView, response: Response, blank: JsonValue)
    ensures
        run.step(response, blank).0.pipeline == run.pipeline,
        run.step(response, blank).0.context.values == run.context.values,
        run.context.models.is_prefix_of(run.step(response, blank).0.context.models),
{
    let next = run.step(response, blank).0;
    assert(next.context.models == run.context.models || next.context.models
        == run.context.models.push(run.context.model));
}

/// What holds of one step holds of every number of steps: a run stays well
/// formed, keeps its pipeline and its input, and only ever adds to its
/// committed records.
pub proof fn lemma_run_appends_records(run: ExecutionView, inputs: Seq<(Response, JsonValue)>)
    requires
        run.wf(),
    ensures
        run_steps(run, inputs).wf(),
        run_steps(run, inputs).pipeline == run.pipeline,
        run_steps(run, inputs).context.values == run.context.values,
        run.context.models.is_prefix_of(run_steps(run, inputs).context.models),
    decreases inputs.len(),
{
    if inputs.len() > 0 {
        let before = run_steps(run, inputs.drop_last());
        lemma_run_appends_records(run, inputs.drop_last());
        lemma_step_keeps_well_formed(before, inputs.last().0, inputs.last().1);
        lemma_step_appends_records(before, inputs.last().0, inputs.last().1);
    }
}

/// What one step does to the frame at `depth`, which is not the first, and
/// to the frames below it.
///
/// While the frame is there, the frames below it stay as they are, and it
/// keeps its elements and the scoped element it saved. The step that takes
/// it away is taken with that frame on top and its last element at work: it
/// leaves the frames below, puts the saved element back as the scoped one
/// and the last element in focus, and has the run return to the lookup.
pub proof fn lemma_step_keeps_frame(
    run: ExecutionView,
    response: Response,
    blank: JsonValue,
    depth: int,
)
    requires
        run.wf(),
        1 <= depth < run.frames.len(),
    ensures
        ({
            let next = run.step(response, blank).0;
            if next.frames.len() > depth {
                &&& next.frames.take(depth) == run.frames.take(depth)
                &&& next.frames[depth].saved_scope == run.frames[depth].saved_scope
                &&& next.frames[depth].elements == run.frames[depth].elements
            } else {
                &&& run.frames.len() == depth + 1
                &&& next.frames == run.frames.take(depth)
                &&& next.phase is Returning
                &&& next.context.scoped_element == run.frames[depth].saved_scope
                &&& next.context.current_element == Some(run.frames[depth].elements.last())
            }
        }),
{
    let next = run.step(response, blank).0;
    let len = run.frames.len() as int;
    assert(run.frames[len - 1].index < run.frames[len - 1].elements.len());
    if next.frames.len() > depth {
        assert(next.frames.take(depth) =~= run.frames.take(depth));
    } else {
        assert(next.frames =~= run.frames.take(depth));
    }
}

/// While the frame at `depth` is there, step after step, the frames below
/// it stay as they are, and it keeps its elements and the scoped element it
/// saved.
pub proof fn lemma_run_keeps_frame(
    run: ExecutionView,
    inputs: Seq<(Response, JsonValue)>,
    depth: int,
)
    requires
        run.wf(),
        1 <= depth < run.frames.len(),
        forall|steps: int|
            0 <= steps <= inputs.len() ==> (#[trigger] run_steps(run, inputs.take(steps))).frames.len()
                > depth,
    ensures
        run_steps(run, inputs).wf(),
        run_steps(run, inputs).frames.take(depth) == run.frames.take(depth),
        run_steps(run, inputs).frames[depth].saved_scope == run.frames[depth].saved_scope,
        run_steps(run, inputs).frames[depth].elements == run.frames[depth].elements,
    decreases inputs.len(),
{
    if inputs.len() > 0 {
        let shorter = inputs.drop_last();
        assert forall|steps: int| 0 <= steps <= shorter.len() implies (#[trigger] run_steps(
            run,
            shorter.take(steps),
        )).frames.len() > depth by {
            assert(shorter.take(steps) =~= inputs.take(steps));
        }
        lemma_run_keeps_frame(run, shorter, depth);
        let before = run_steps(run, shorter);
        assert(inputs.take(inputs.len() as int) =~= inputs);
        lemma_step_keeps_well_formed(before, inputs.last().0, inputs.last().1);
        lemma_step_keeps_frame(before, inputs.last().0, inputs.last().1, depth);
    }
}

/// A lookup that runs a pipeline for each element it found gives back the
/// scoped element it found in the context.
///
/// Take a run that waits for the elements of such a lookup, and let the
/// lookup find some. Whatever happens while the pipeline runs for each of
/// them, other lookups of the kind among it, at the first step after which its
/// frame is gone the frames are those of before, the scoped element is the
/// one of before, the last element found is in focus, and the run returns
/// to the lookup.
pub proof fn lemma_for_each_restores_scope(
    run: ExecutionView,
    found: Seq<ElementHandle>,
    inputs: Seq<(Response, JsonValue)>,
)
    requires
        run.wf(),
        run.phase is Querying,
        found.len() > 0,
        nested(run.current(), run.top().cursor) is Some,
        forall|steps: int|
            0 <= steps < inputs.len() ==> (#[trigger] run_steps(
                run.matched(found).0,
                inputs.take(steps),
            )).frames.len() > run.frames.len(),
        run_steps(run.matched(found).0, inputs).frames.len() <= run.frames.len(),
    ensures
        run_steps(run.matched(found).0, inputs).frames == run.frames,
        run_steps(run.matched(found).0, inputs).phase is Returning,
        run_steps(run.matched(found).0, inputs).context.scoped_element
            == run.context.scoped_element,
        run_steps(run.matched(found).0, inputs).context.current_element == Some(found.last()),
{
    let entered = run.matched(found).0;
    let depth = run.frames.len() as int;
    lemma_matched_keeps_well_formed(run, found);
    assert(entered.frames.take(depth) =~= run.frames);
    assert(inputs.len() > 0);
    let shorter = inputs.drop_last();
    assert forall|steps: int| 0 <= steps <= shorter.len() implies (#[trigger] run_steps(
        entered,
        shorter.take(steps),
    )).frames.len() > depth by {
        assert(shorter.take(steps) =~= inputs.take(steps));
    }
    lemma_run_keeps_frame(entered, shorter, depth);
    lemma_step_keeps_frame(run_steps(entered, shorter), inputs.last().0, inputs.last().1, depth);
}

} // verus!
