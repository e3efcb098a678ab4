//! Looking elements up on the page.

use crate::action::{Action, Progress, ProgressView};
use crate::client::{ElementHandle, Request, RequestView};
use crate::context::{ContextView, ScrapeContext};
use crate::error::{resolved_view, ScrapeError, ScrapeErrorView};
use crate::pipeline::ScrapePipeline;
use crate::value::Value;
use crate::stage::{IntoStage, ScrapeStage};
use crate::text::enclose;
use vstd::prelude::*;

verus! {

/// How the query of a lookup is to be read.
#[derive(Debug, Clone, Copy, PartialEq, Eq, Structural)]
pub enum Selector {
    Css,
    Id,
    LinkText,
}

/// Where a lookup searches.
#[derive(Debug, Clone, Copy, PartialEq, Eq, Structural)]
pub enum ElementScope {
    /// The whole document.
    Global,
    /// Below the scoped element of the context.
    Scoped,
    /// Below the element in focus.
    Current,
}

impl Selector {
    /// The name of the selector.
    pub open spec fn spec_describe(self) -> Seq<char> {
        match self {
            Selector::Css => "Css"@,
            Selector::Id => "Id"@,
            Selector::LinkText => "LinkText"@,
        }
    }

    /// Names the selector.
    pub fn describe(&self) -> (text: &'static str)
        ensures
            text@ == self.spec_describe(),
    {
        match self {
            Selector::Css => "Css",
            Selector::Id => "Id",
            Selector::LinkText => "LinkText",
        }
    }
}

impl ElementScope {
    /// The name of the scope.
    pub open spec fn spec_describe(self) -> Seq<char> {
        match self {
            ElementScope::Global => "Global"@,
            ElementScope::Scoped => "Scoped"@,
            ElementScope::Current => "Current"@,
        }
    }

    /// Names the scope.
    pub fn describe(&self) -> (text: &'static str)
        ensures
            text@ == self.spec_describe(),
    {
        match self {
            ElementScope::Global => "Global",
            ElementScope::Scoped => "Scoped",
            ElementScope::Current => "Current",
        }
    }
}

/// Looks elements up and puts the last one found in focus, or runs a
/// pipeline once for each element found.
#[derive(Debug, PartialEq, Eq)]
pub struct QueryElement {
    pub selector: Selector,
    pub query: Value,
    pub scope: ElementScope,
    pub for_each: Option<ScrapePipeline>,
}

/// The lookup below an element: asked of the page where the element is there,
/// failed with `MissingElement` where it is not.
pub open spec fn spec_find_child_elements(
    element: Option<ElementHandle>,
    selector: Selector,
    query: Seq<char>,
) -> ProgressView {
    match element {
        Some(root) => ProgressView::Ask(RequestView::FindAll { root: Some(root), selector, query }),
        None => ProgressView::Done(Err(ScrapeErrorView::MissingElement)),
    }
}

/// Asks for the lookup below an element, if there is one.
pub fn find_child_elements(element: Option<ElementHandle>, selector: Selector, query: String) -> (progress:
    Progress)
    ensures
        progress@ == spec_find_child_elements(element, selector, query@),
{
    match element {
        Some(root) => Progress::Ask(Request::FindAll { root: Some(root), selector, query }),
        None => Progress::Done(Err(ScrapeError::MissingElement)),
    }
}

impl QueryElement {
    /// The text that describes the lookup: its selector, its query and its
    /// scope.
    pub open spec fn spec_describe(self) -> Seq<char> {
        "QueryElement("@ + self.selector.spec_describe() + ", "@ + self.query.spec_describe() + ", "@
            + self.scope.spec_describe() + ")"@
    }

    /// Describes the lookup in words.
    pub fn describe(&self) -> (text: String)
        ensures
            text@ == self.spec_describe(),
    {
        let query = self.query.describe();
        let front = enclose("QueryElement(", self.selector.describe(), ", ");
        let middle = enclose(front.as_str(), query.as_str(), ", ");
        enclose(middle.as_str(), self.scope.describe(), ")")
    }

    pub fn new(selector: Selector, query: Value, scope: ElementScope) -> (action: QueryElement)
        ensures
            action == (QueryElement { selector, query, scope, for_each: None }),
    {
        QueryElement { selector, query, scope, for_each: None }
    }

    /// A lookup in the whole document.
    pub fn global(selector: Selector, query: Value) -> (action: QueryElement)
        ensures
            action == (QueryElement { selector, query, scope: ElementScope::Global, for_each: None }),
    {
        QueryElement::new(selector, query, ElementScope::Global)
    }

    /// A lookup below the scoped element.
    pub fn scoped(selector: Selector, query: Value) -> (action: QueryElement)
        ensures
            action == (QueryElement { selector, query, scope: ElementScope::Scoped, for_each: None }),
    {
        QueryElement::new(selector, query, ElementScope::Scoped)
    }

    /// A lookup below the element in focus.
    pub fn current(selector: Selector, query: Value) -> (action: QueryElement)
        ensures
            action == (QueryElement {
                selector,
                query,
                scope: ElementScope::Current,
                for_each: None,
            }),
    {
        QueryElement::new(selector, query, ElementScope::Current)
    }

    /// The same lookup, with a pipeline to run for each element found.
    pub fn for_each(self, pipeline: ScrapePipeline) -> (action: QueryElement)
        ensures
            action == (QueryElement { for_each: Some(pipeline), ..self }),
    {
        QueryElement { for_each: Some(pipeline), ..self }
    }

    /// The page is asked for the elements that the query matches: in the
    /// whole document, below the scoped element or below the element in
    /// focus. A query that failed fails the action; one that resolved to
    /// nothing fails it with `MissingQuery`; a scope whose element is not
    /// there fails it with `MissingElement`.
    pub open spec fn spec_execute(
        self,
        context: ContextView,
        query: Result<Option<Seq<char>>, ScrapeErrorView>,
    ) -> ProgressView {
        match query {
            Err(error) => ProgressView::Done(Err(error)),
            Ok(None) => ProgressView::Done(Err(ScrapeErrorView::MissingQuery)),
            Ok(Some(query)) => match self.scope {
                ElementScope::Global => ProgressView::Ask(
                    RequestView::FindAll { root: None, selector: self.selector, query },
                ),
                ElementScope::Scoped => spec_find_child_elements(
                    context.scoped_element,
                    self.selector,
                    query,
                ),
                ElementScope::Current => spec_find_child_elements(
                    context.current_element,
                    self.selector,
                    query,
                ),
            },
        }
    }

    /// Acts on what the query resolved to.
    pub fn execute(&self, context: &ScrapeContext, query: Result<Option<String>, ScrapeError>) -> (progress:
        Progress)
        ensures
            progress@ == self.spec_execute(context@, resolved_view(query)),
    {
        match query {
            Err(error) => Progress::Done(Err(error)),
            Ok(None) => Progress::Done(Err(ScrapeError::MissingQuery)),
            Ok(Some(query)) => match self.scope {
                ElementScope::Global => Progress::Ask(
                    Request::FindAll { root: None, selector: self.selector, query },
                ),
                ElementScope::Scoped => find_child_elements(
                    context.scoped_element,
                    self.selector,
                    query,
                ),
                ElementScope::Current => find_child_elements(
                    context.current_element,
                    self.selector,
                    query,
                ),
            },
        }
    }
}

impl IntoStage for QueryElement {
    open spec fn spec_into_stage(self) -> ScrapeStage {
        Action::QueryElement(self).spec_into_stage()
    }

    fn into_stage(self) -> (stage: ScrapeStage) {
        Action::QueryElement(self).into_stage()
    }
}

} // verus!
