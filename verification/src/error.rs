//! What can go wrong in a run.

use vstd::prelude::*;

verus! {

/// An error of the engine.
///
/// `WebdriverCommandError` is a failure of the browser session: it ends the
/// run whatever the stage says. Every other error of an action is handed to
/// the stage's `on_error` directive.
#[derive(Debug, Clone, PartialEq, Eq)]
pub enum ScrapeError {
    /// A value could not be resolved.
    ValueResolveError,
    /// A query matched no element.
    ElementQueryEmptyResult,
    /// The action needs an element that the context does not hold.
    MissingElement,
    /// The URL to open resolved to nothing.
    MissingUrl,
    /// The query of a selector resolved to nothing.
    MissingQuery,
    /// A `Goto` names a stage that the pipeline does not have.
    MissingPipelineStage(String),
    /// The record could not be written at this path.
    SetModelAttributeError(String),
    /// A failure for use in test harnesses.
    TestError,
    /// The session with the browser could not be opened.
    WebdriverConnectionError(String),
    /// A command to the browser failed.
    WebdriverCommandError(String),
}

/// A `ScrapeError` with its texts as sequences of characters.
pub enum ScrapeErrorView {
    ValueResolveError,
    ElementQueryEmptyResult,
    MissingElement,
    MissingUrl,
    MissingQuery,
    MissingPipelineStage(Seq<char>),
    SetModelAttributeError(Seq<char>),
    TestError,
    WebdriverConnectionError(Seq<char>),
    WebdriverCommandError(Seq<char>),
}

impl View for ScrapeError {
    type V = ScrapeErrorView;

    open spec fn view(&self) -> ScrapeErrorView {
        match *self {
            ScrapeError::ValueResolveError => ScrapeErrorView::ValueResolveError,
            ScrapeError::ElementQueryEmptyResult => ScrapeErrorView::ElementQueryEmptyResult,
            ScrapeError::MissingElement => ScrapeErrorView::MissingElement,
            ScrapeError::MissingUrl => ScrapeErrorView::MissingUrl,
            ScrapeError::MissingQuery => ScrapeErrorView::MissingQuery,
            ScrapeError::MissingPipelineStage(name) => ScrapeErrorView::MissingPipelineStage(name@),
            ScrapeError::SetModelAttributeError(key) => ScrapeErrorView::SetModelAttributeError(
                key@,
            ),
            ScrapeError::TestError => ScrapeErrorView::TestError,
            ScrapeError::WebdriverConnectionError(reason) => {
                ScrapeErrorView::WebdriverConnectionError(reason@)
            },
            ScrapeError::WebdriverCommandError(reason) => ScrapeErrorView::WebdriverCommandError(
                reason@,
            ),
        }
    }
}

impl ScrapeErrorView {
    /// A failure of the browser session, which no stage can recover from.
    pub open spec fn is_fatal(self) -> bool {
        self is WebdriverCommandError
    }

    /// The text that describes the error.
    pub open spec fn message(self) -> Seq<char> {
        match self {
            ScrapeErrorView::ValueResolveError => "failed to resolve value"@,
            ScrapeErrorView::ElementQueryEmptyResult => "element query empty result"@,
            ScrapeErrorView::MissingElement => {
                "required element is missing in the pipeline execution context"@
            },
            ScrapeErrorView::MissingUrl => "missing URL to open"@,
            ScrapeErrorView::MissingQuery => "missing element query"@,
            ScrapeErrorView::MissingPipelineStage(_) => "missing specified pipeline stage"@,
            ScrapeErrorView::SetModelAttributeError(_) => "failed to populate model attribute"@,
            ScrapeErrorView::TestError => "test error"@,
            ScrapeErrorView::WebdriverConnectionError(reason) => "webdriver connection error: "@
                + reason,
            ScrapeErrorView::WebdriverCommandError(reason) => "webdriver command error: "@ + reason,
        }
    }
}

impl ScrapeError {
    /// Tells whether the error ends the run whatever the stage says.
    pub fn is_fatal(&self) -> (fatal: bool)
        ensures
            fatal == self@.is_fatal(),
    {
        match self {
            ScrapeError::WebdriverCommandError(_) => true,
            _ => false,
        }
    }

    /// Describes the error in words.
    pub fn to_string(&self) -> (text: String)
        ensures
            text@ == self@.message(),
    {
        match self {
            ScrapeError::ValueResolveError => "failed to resolve value".to_owned(),
            ScrapeError::ElementQueryEmptyResult => "element query empty result".to_owned(),
            ScrapeError::MissingElement => {
                "required element is missing in the pipeline execution context".to_owned()
            },
            ScrapeError::MissingUrl => "missing URL to open".to_owned(),
            ScrapeError::MissingQuery => "missing element query".to_owned(),
            ScrapeError::MissingPipelineStage(_) => "missing specified pipeline stage".to_owned(),
            ScrapeError::SetModelAttributeError(_) => {
                "failed to populate model attribute".to_owned()
            },
            ScrapeError::TestError => "test error".to_owned(),
            ScrapeError::WebdriverConnectionError(reason) => {
                "webdriver connection error: ".to_owned().concat(reason.as_str())
            },
            ScrapeError::WebdriverCommandError(reason) => {
                "webdriver command error: ".to_owned().concat(reason.as_str())
            },
        }
    }
}

/// The view of what an action came to.
pub open spec fn outcome_view(outcome: Result<(), ScrapeError>) -> Result<(), ScrapeErrorView> {
    match outcome {
        Ok(_) => Ok(()),
        Err(error) => Err(error@),
    }
}

/// The view of what a value resolved to.
pub open spec fn resolved_view(resolved: Result<Option<String>, ScrapeError>) -> Result<
    Option<Seq<char>>,
    ScrapeErrorView,
> {
    match resolved {
        Ok(Some(text)) => Ok(Some(text@)),
        Ok(None) => Ok(None),
        Err(error) => Err(error@),
    }
}

} // verus!
