//! Opening a page.

use crate::action::{Action, Progress, ProgressView};
use crate::client::{Request, RequestView};
use crate::error::{resolved_view, ScrapeError, ScrapeErrorView};
use crate::value::Value;
use crate::stage::{IntoStage, ScrapeStage};
use vstd::prelude::*;

verus! {

/// Opens the URL that a value resolves to.
#[derive(Debug, Clone, PartialEq, Eq)]
pub struct OpenUrl {
    pub url: Value,
}

impl OpenUrl {
    pub fn new(url: Value) -> (action: OpenUrl)
        ensures
            action.url == url,
    {
        OpenUrl { url }
    }

    /// The text that describes the action.
    pub open spec fn spec_describe(self) -> Seq<char> {
        "open URL with the value from "@ + self.url.spec_describe()
    }

    /// Describes the action in words.
    pub fn describe(&self) -> (text: String)
        ensures
            text@ == self.spec_describe(),
    {
        "open URL with the value from ".to_owned().concat(self.url.describe().as_str())
    }

    /// The page is asked to open the URL. A value that failed fails the
    /// action; one that resolved to nothing fails it with `MissingUrl`.
    pub open spec fn spec_execute(url: Result<Option<Seq<char>>, ScrapeErrorView>) -> ProgressView {
        match url {
            Ok(Some(url)) => ProgressView::Ask(RequestView::Navigate { url }),
            Ok(None) => ProgressView::Done(Err(ScrapeErrorView::MissingUrl)),
            Err(error) => ProgressView::Done(Err(error)),
        }
    }

    /// Acts on what the URL resolved to.
    pub fn execute(&self, url: Result<Option<String>, ScrapeError>) -> (progress: Progress)
        ensures
            progress@ == Self::spec_execute(resolved_view(url)),
    {
        match url {
            Ok(Some(url)) => Progress::Ask(Request::Navigate { url }),
            Ok(None) => Progress::Done(Err(ScrapeError::MissingUrl)),
            Err(error) => Progress::Done(Err(error)),
        }
    }
}

impl IntoStage for OpenUrl {
    open spec fn spec_into_stage(self) -> ScrapeStage {
        Action::OpenUrl(self).spec_into_stage()
    }

    fn into_stage(self) -> (stage: ScrapeStage) {
        Action::OpenUrl(self).into_stage()
    }
}

} // verus!
