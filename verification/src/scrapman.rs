//! The launcher of runs.

use crate::context::{is_empty_object, ScrapeContext};
use crate::execution::{first_frame, Execution, Phase};
use crate::json::JsonValue;
use crate::pipeline::ScrapePipeline;
use vstd::prelude::*;

verus! {

/// Launches runs against the browser that a WebDriver serves at a URL.
#[derive(Debug, Clone, PartialEq, Eq)]
pub struct Scrapman {
    pub webdriver_url: String,
}

impl Scrapman {
    pub fn new(webdriver_url: &str) -> (scrapman: Scrapman)
        ensures
            scrapman.webdriver_url@ == webdriver_url@,
    {
        Scrapman { webdriver_url: webdriver_url.to_owned() }
    }

    /// Launches a run of a pipeline on an input, or on an empty object where
    /// there is none. The run starts on a fresh context, in the frame of the
    /// pipeline, at its first stage. Its last request but one ends the
    /// session with the browser, however the pipeline ended.
    pub fn launch(&self, pipeline: ScrapePipeline, values: Option<JsonValue>) -> (execution: Execution)
        ensures
            execution@.wf(),
            execution@.pipeline == pipeline,
            execution@.context.is_fresh(),
            match values {
                Some(input) => execution@.context.values == input,
                None => is_empty_object(execution@.context.values),
            },
            execution@.frames == seq![first_frame()],
            execution@.phase == Phase::Running,
            execution@.outcome == Ok::<(), crate::error::ScrapeErrorView>(()),
    {
        Execution::new(pipeline, ScrapeContext::new(values))
    }
}

} // verus!
