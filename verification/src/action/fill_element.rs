//! Typing into the element in focus.

use crate::action::{Action, Progress, ProgressView};
use crate::client::{Request, RequestView};
use crate::context::{ContextView, ScrapeContext};
use crate::error::{resolved_view, ScrapeError, ScrapeErrorView};
use crate::value::Value;
use crate::stage::{IntoStage, ScrapeStage};
use crate::text::enclose;
use vstd::prelude::*;

verus! {

/// Types the text that a value resolves to into the element in focus.
#[derive(Debug, Clone, PartialEq, Eq)]
pub struct FillElement {
    pub value: Value,
}

impl FillElement {
    pub fn new(value: Value) -> (action: FillElement)
        ensures
            action.value == value,
    {
        FillElement { value }
    }

    /// The text that describes the action.
    pub open spec fn spec_describe(self) -> Seq<char> {
        "FillElement("@ + self.value.spec_describe() + ")"@
    }

    /// Describes the action in words.
    pub fn describe(&self) -> (text: String)
        ensures
            text@ == self.spec_describe(),
    {
        enclose("FillElement(", self.value.describe().as_str(), ")")
    }

    /// The page is asked to type the text into the element in focus. A value
    /// that failed fails the action. Without an element in focus the action
    /// fails with `MissingElement`, and with an element but no text to type
    /// with `ValueResolveError`.
    pub open spec fn spec_execute(
        context: ContextView,
        value: Result<Option<Seq<char>>, ScrapeErrorView>,
    ) -> ProgressView {
        match value {
            Err(error) => ProgressView::Done(Err(error)),
            Ok(text) => match context.current_element {
                None => ProgressView::Done(Err(ScrapeErrorView::MissingElement)),
                Some(element) => match text {
                    Some(text) => ProgressView::Ask(RequestView::SendKeys { element, text }),
                    None => ProgressView::Done(Err(ScrapeErrorView::ValueResolveError)),
                },
            },
        }
    }

    /// Acts on what the value resolved to.
    pub fn execute(&self, context: &ScrapeContext, value: Result<Option<String>, ScrapeError>) -> (progress:
        Progress)
        ensures
            progress@ == Self::spec_execute(context@, resolved_view(value)),
    {
        match value {
            Err(error) => Progress::Done(Err(error)),
            Ok(text) => match context.current_element {
                None => Progress::Done(Err(ScrapeError::MissingElement)),
                Some(element) => match text {
                    Some(text) => Progress::Ask(Request::SendKeys { element, text }),
                    None => Progress::Done(Err(ScrapeError::ValueResolveError)),
                },
            },
        }
    }
}

impl IntoStage for FillElement {
    open spec fn spec_into_stage(self) -> ScrapeStage {
        Action::FillElement(self).spec_into_stage()
    }

    fn into_stage(self) -> (stage: ScrapeStage) {
        Action::FillElement(self).into_stage()
    }
}

} // verus!
