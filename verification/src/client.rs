//! The words that the engine and the browser client exchange.
//!
//! The engine asks with a `Request`; whoever drives it does the work on the
//! browser and answers with a `Response`.

use crate::action::query_element::Selector;
use crate::error::{ScrapeError, ScrapeErrorView};
use vstd::prelude::*;

verus! {

/// An element of the page, by the number under which the client keeps it.
#[derive(Debug, Clone, Copy, PartialEq, Eq, Hash, Structural)]
pub struct ElementHandle {
    pub id: u64,
}

/// What the engine asks for next.
#[derive(Debug, Clone, PartialEq, Eq)]
pub enum Request {
    /// Nothing is to be done on the browser: step again.
    Proceed,
    /// Open a URL.
    Navigate { url: String },
    /// Find all elements that a locator matches, in the whole document or
    /// below `root`.
    FindAll { root: Option<ElementHandle>, selector: Selector, query: String },
    /// Read the text of an element.
    ElementText { element: ElementHandle },
    /// Read an attribute of an element.
    ElementAttribute { element: ElementHandle, name: String },
    /// Type a text into an element.
    SendKeys { element: ElementHandle, text: String },
    /// Click an element.
    Click { element: ElementHandle },
    /// Wait for so many milliseconds.
    Sleep { millis: u64 },
    /// End the session with the browser.
    Disconnect,
    /// The run is over.
    Finished,
}

/// A `Request` with its texts as sequences of characters.
pub enum RequestView {
    Proceed,
    Navigate { url: Seq<char> },
    FindAll { root: Option<ElementHandle>, selector: Selector, query: Seq<char> },
    ElementText { element: ElementHandle },
    ElementAttribute { element: ElementHandle, name: Seq<char> },
    SendKeys { element: ElementHandle, text: Seq<char> },
    Click { element: ElementHandle },
    Sleep { millis: u64 },
    Disconnect,
    Finished,
}

impl View for Request {
    type V = RequestView;

    open spec fn view(&self) -> RequestView {
        match *self {
            Request::Proceed => RequestView::Proceed,
            Request::Navigate { url } => RequestView::Navigate { url: url@ },
            Request::FindAll { root, selector, query } => RequestView::FindAll {
                root,
                selector,
                query: query@,
            },
            Request::ElementText { element } => RequestView::ElementText { element },
            Request::ElementAttribute { element, name } => RequestView::ElementAttribute {
                element,
                name: name@,
            },
            Request::SendKeys { element, text } => RequestView::SendKeys { element, text: text@ },
            Request::Click { element } => RequestView::Click { element },
            Request::Sleep { millis } => RequestView::Sleep { millis },
            Request::Disconnect => RequestView::Disconnect,
            Request::Finished => RequestView::Finished,
        }
    }
}

/// What came of the last request.
#[derive(Debug, Clone, PartialEq, Eq)]
pub enum Response {
    /// The command was carried out and has nothing to report.
    Done,
    /// The elements found, in the client's order.
    Elements(Vec<ElementHandle>),
    /// The text read.
    Text(String),
    /// The attribute read, if the element has it.
    Attribute(Option<String>),
    /// The browser session failed, with the client's account of it.
    Failed(String),
}

/// The account given of a response of another kind than the request asks for.
pub open spec fn unexpected_response() -> Seq<char> {
    "unexpected response of the browser client"@
}

impl Response {
    /// The error that a response stands for where it is not the one asked
    /// for: a failure of the session with the client's account, or with a
    /// fixed account for a response of another kind.
    pub open spec fn spec_failure(self) -> ScrapeErrorView {
        match self {
            Response::Failed(reason) => ScrapeErrorView::WebdriverCommandError(reason@),
            _ => ScrapeErrorView::WebdriverCommandError(unexpected_response()),
        }
    }

    /// Reads a response that is not the one asked for as an error.
    pub fn failure(self) -> (error: ScrapeError)
        ensures
            error@ == self.spec_failure(),
    {
        match self {
            Response::Failed(reason) => ScrapeError::WebdriverCommandError(reason),
            _ => ScrapeError::WebdriverCommandError(
                "unexpected response of the browser client".to_owned(),
            ),
        }
    }

    /// What a command without a result came to: `Done` is its success, any
    /// other response its failure.
    pub open spec fn spec_completed(self) -> Result<(), ScrapeErrorView> {
        match self {
            Response::Done => Ok(()),
            _ => Err(self.spec_failure()),
        }
    }

    /// Reads the response to a command without a result.
    pub fn completed(self) -> (outcome: Result<(), ScrapeError>)
        ensures
            crate::error::outcome_view(outcome) == self.spec_completed(),
    {
        match self {
            Response::Done => Ok(()),
            other => Err(other.failure()),
        }
    }
}

} // verus!
