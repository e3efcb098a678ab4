//! Clicking the element in focus.

use crate::action::{Action, Progress, ProgressView};
use crate::client::{Request, RequestView};
use crate::context::{ContextView, ScrapeContext};
use crate::error::{ScrapeError, ScrapeErrorView};
use crate::stage::{IntoStage, ScrapeStage};
use vstd::prelude::*;

verus! {

/// Clicks the element in focus, which is then in focus no longer.
#[derive(Debug, Clone, Copy, PartialEq, Eq)]
pub struct ClickElement;

impl ClickElement {
    /// The element in focus leaves the context. The page is first asked to
    /// type nothing into it, which scrolls it into view; the click follows
    /// once that is done. Without an element in focus the action fails with
    /// `MissingElement`.
    pub open spec fn spec_execute(context: ContextView) -> (ContextView, ProgressView) {
        match context.current_element {
            Some(element) => (
                ContextView { current_element: None, ..context },
                ProgressView::Ask(RequestView::SendKeys { element, text: Seq::empty() }),
            ),
            None => (context, ProgressView::Done(Err(ScrapeErrorView::MissingElement))),
        }
    }

    /// Takes the element in focus and asks for it to be scrolled into view.
    pub fn execute(&self, context: &mut ScrapeContext) -> (progress: Progress)
        ensures
            (final(context)@, progress@) == Self::spec_execute(old(context)@),
    {
        match context.current_element.take() {
            Some(element) => Progress::Ask(Request::SendKeys { element, text: String::new() }),
            None => Progress::Done(Err(ScrapeError::MissingElement)),
        }
    }
}

impl IntoStage for ClickElement {
    open spec fn spec_into_stage(self) -> ScrapeStage {
        Action::ClickElement(self).spec_into_stage()
    }

    fn into_stage(self) -> (stage: ScrapeStage) {
        Action::ClickElement(self).into_stage()
    }
}

} // verus!
