//! Values that a stage takes from a constant, from the input of the run or
//! from the page.

use crate::client::{Request, RequestView, Response};
use crate::context::{ContextView, ScrapeContext};
use crate::error::{resolved_view, ScrapeError, ScrapeErrorView};
use crate::json::{as_string, dot_get, dot_get_outcome, json_string, json_text, to_text, JsonValue};
use crate::text::{debug_text, enclose, quote};
use vstd::prelude::*;

verus! {

/// Where a stage takes a text from. It is resolved anew each time the stage
/// runs.
#[derive(Debug, Clone, PartialEq, Eq)]
pub enum Value {
    /// The text itself.
    Constant(String),
    /// A dotted path into the input of the run.
    Context(String),
    /// The text of the element in focus.
    ElementText,
    /// An attribute of the element in focus.
    ElementAttribute(String),
}

/// What resolving a value comes to.
#[derive(Debug, PartialEq, Eq)]
pub enum Resolution {
    /// The value is known, or known to fail.
    Ready(Result<Option<String>, ScrapeError>),
    /// The page has to be asked.
    Ask(Request),
}

/// A `Resolution` with its texts as sequences of characters.
pub enum ResolutionView {
    Ready(Result<Option<Seq<char>>, ScrapeErrorView>),
    Ask(RequestView),
}

impl View for Resolution {
    type V = ResolutionView;

    open spec fn view(&self) -> ResolutionView {
        match *self {
            Resolution::Ready(resolved) => ResolutionView::Ready(resolved_view(resolved)),
            Resolution::Ask(request) => ResolutionView::Ask(request@),
        }
    }
}

/// The text that stands for a JSON value: a string as it is, anything else
/// as compact JSON.
pub open spec fn scalar_text(value: JsonValue) -> Seq<char> {
    match json_string(value) {
        Some(text) => text,
        None => json_text(value),
    }
}

/// What a path into the input resolves to, given what the lookup found: the
/// text of the value found, and `ValueResolveError` where the lookup failed
/// or found nothing.
pub open spec fn found_text(found: Option<Option<JsonValue>>) -> Result<
    Option<Seq<char>>,
    ScrapeErrorView,
> {
    match found {
        Some(Some(value)) => Ok(Some(scalar_text(value))),
        _ => Err(ScrapeErrorView::ValueResolveError),
    }
}

/// Renders a JSON value, if there is one, as the text that stands for it.
pub fn to_string(value: Option<JsonValue>) -> (text: Option<String>)
    ensures
        match value {
            Some(v) => text matches Some(t) && t@ == scalar_text(v),
            None => text is None,
        },
{
    match value {
        Some(v) => {
            match as_string(&v) {
                Some(text) => Some(text),
                None => Some(to_text(&v)),
            }
        },
        None => None,
    }
}

/// Turns what a lookup in the input returned into what the value resolves
/// to.
pub fn lookup_result(found: Result<Option<JsonValue>, json_dotpath::Error>) -> (resolved: Result<
    Option<String>,
    ScrapeError,
>)
    ensures
        resolved_view(resolved) == found_text(
            match found {
                Ok(value) => Some(value),
                Err(_) => None,
            },
        ),
{
    match found {
        Ok(Some(value)) => Ok(to_string(Some(value))),
        _ => Err(ScrapeError::ValueResolveError),
    }
}

impl Value {
    /// The text that describes the value: the name of its kind, and behind
    /// it in brackets, where it holds a text, that text in quotes.
    pub open spec fn spec_describe(self) -> Seq<char> {
        match self {
            Value::Constant(text) => "Constant("@ + debug_text(text@) + ")"@,
            Value::Context(key) => "Context("@ + debug_text(key@) + ")"@,
            Value::ElementText => "ElementText"@,
            Value::ElementAttribute(name) => "ElementAttribute("@ + debug_text(name@) + ")"@,
        }
    }

    /// Describes the value in words.
    pub fn describe(&self) -> (text: String)
        ensures
            text@ == self.spec_describe(),
    {
        match self {
            Value::Constant(text) => enclose("Constant(", quote(text.as_str()).as_str(), ")"),
            Value::Context(key) => enclose("Context(", quote(key.as_str()).as_str(), ")"),
            Value::ElementText => "ElementText".to_owned(),
            Value::ElementAttribute(name) => enclose(
                "ElementAttribute(",
                quote(name.as_str()).as_str(),
                ")",
            ),
        }
    }

    /// A path into the input of the run.
    pub fn context(key: &str) -> (value: Value)
        ensures
            value matches Value::Context(path) && path@ == key@,
    {
        Value::Context(key.to_owned())
    }

    /// What resolving the value comes to in a context.
    ///
    /// A constant resolves to itself. A path resolves to the text of what the
    /// input holds there, and fails with `ValueResolveError` where the input
    /// holds nothing there or the path cannot be followed. For the text or an
    /// attribute of the element in focus the page is asked; without such an
    /// element the value fails with `MissingElement`.
    pub open spec fn spec_resolve(self, context: ContextView) -> ResolutionView {
        match self {
            Value::Constant(text) => ResolutionView::Ready(Ok(Some(text@))),
            Value::Context(key) => ResolutionView::Ready(
                found_text(dot_get_outcome(context.values, key@)),
            ),
            Value::ElementText => match context.current_element {
                Some(element) => ResolutionView::Ask(RequestView::ElementText { element }),
                None => ResolutionView::Ready(Err(ScrapeErrorView::MissingElement)),
            },
            Value::ElementAttribute(name) => match context.current_element {
                Some(element) => ResolutionView::Ask(
                    RequestView::ElementAttribute { element, name: name@ },
                ),
                None => ResolutionView::Ready(Err(ScrapeErrorView::MissingElement)),
            },
        }
    }

    /// Resolves the value as far as the context allows, and says what to ask
    /// the page where it does not.
    pub fn resolve(&self, context: &ScrapeContext) -> (resolution: Resolution)
        ensures
            resolution@ == self.spec_resolve(context@),
    {
        match self {
            Value::Constant(text) => Resolution::Ready(Ok(Some(text.clone()))),
            Value::Context(key) => Resolution::Ready(
                lookup_result(dot_get(&context.values, key.as_str())),
            ),
            Value::ElementText => match context.current_element {
                Some(element) => Resolution::Ask(Request::ElementText { element }),
                None => Resolution::Ready(Err(ScrapeError::MissingElement)),
            },
            Value::ElementAttribute(name) => match context.current_element {
                Some(element) => Resolution::Ask(
                    Request::ElementAttribute { element, name: name.clone() },
                ),
                None => Resolution::Ready(Err(ScrapeError::MissingElement)),
            },
        }
    }

    /// What the value resolves to once the page has answered: the text read,
    /// or the attribute read, which may be absent. A failure of the session
    /// is reported as such, and so is an answer of another kind than the
    /// value asks for.
    pub open spec fn spec_resolved(self, response: Response) -> Result<
        Option<Seq<char>>,
        ScrapeErrorView,
    > {
        match (self, response) {
            (Value::ElementText, Response::Text(text)) => Ok(Some(text@)),
            (Value::ElementAttribute(_), Response::Attribute(Some(text))) => Ok(Some(text@)),
            (Value::ElementAttribute(_), Response::Attribute(None)) => Ok(None),
            _ => Err(response.spec_failure()),
        }
    }

    /// Reads the answer of the page to what `resolve` asked.
    pub fn resolved(&self, response: Response) -> (resolved: Result<Option<String>, ScrapeError>)
        ensures
            resolved_view(resolved) == self.spec_resolved(response),
    {
        match (self, response) {
            (Value::ElementText, Response::Text(text)) => Ok(Some(text)),
            (Value::ElementAttribute(_), Response::Attribute(attribute)) => Ok(attribute),
            (_, other) => Err(other.failure()),
        }
    }
}

} // verus!
