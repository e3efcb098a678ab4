//! The catalog of actions that a stage can carry.
//!
//! An action runs in up to two parts. It first resolves the value it works
//! on, if it has one, and then acts on the context. Where either part needs
//! the page, the action says what to ask.

pub mod click_element;
pub mod fill_element;
pub mod open_url;
pub mod pause;
pub mod query_element;
pub mod set_model_attribute;
pub mod store_model;

use crate::action::click_element::ClickElement;
use crate::action::fill_element::FillElement;
use crate::action::open_url::OpenUrl;
use crate::action::pause::Pause;
use crate::action::query_element::QueryElement;
use crate::action::set_model_attribute::SetModelAttribute;
use crate::action::store_model::StoreModel;
use crate::client::{Request, RequestView};
use crate::context::{ContextView, ScrapeContext};
use crate::error::{outcome_view, ScrapeError, ScrapeErrorView};
use crate::json::JsonValue;
use crate::value::Value;
use vstd::prelude::*;

verus! {

/// How far an action has come.
#[derive(Debug, PartialEq, Eq)]
pub enum Progress {
    /// The action is over, with this outcome.
    Done(Result<(), ScrapeError>),
    /// The page has to be asked.
    Ask(Request),
}

/// A `Progress` with its texts as sequences of characters.
pub enum ProgressView {
    Done(Result<(), ScrapeErrorView>),
    Ask(RequestView),
}

impl View for Progress {
    type V = ProgressView;

    open spec fn view(&self) -> ProgressView {
        match *self {
            Progress::Done(outcome) => ProgressView::Done(outcome_view(outcome)),
            Progress::Ask(request) => ProgressView::Ask(request@),
        }
    }
}

/// One of the actions that a stage can carry.
#[derive(Debug, PartialEq, Eq)]
pub enum Action {
    OpenUrl(OpenUrl),
    QueryElement(QueryElement),
    FillElement(FillElement),
    ClickElement(ClickElement),
    SetModelAttribute(SetModelAttribute),
    StoreModel(StoreModel),
    Pause(Pause),
}

impl Action {
    /// The text that describes the action.
    pub open spec fn spec_describe(self) -> Seq<char> {
        match self {
            Action::OpenUrl(action) => action.spec_describe(),
            Action::QueryElement(action) => action.spec_describe(),
            Action::FillElement(action) => action.spec_describe(),
            Action::ClickElement(_) => "click the current element"@,
            Action::SetModelAttribute(action) => action.spec_describe(),
            Action::StoreModel(_) => "store model"@,
            Action::Pause(_) => "Pause"@,
        }
    }

    /// Describes the action in words, for a log or a report.
    pub fn describe(&self) -> (text: String)
        ensures
            text@ == self.spec_describe(),
    {
        match self {
            Action::OpenUrl(action) => action.describe(),
            Action::QueryElement(action) => action.describe(),
            Action::FillElement(action) => action.describe(),
            Action::ClickElement(_) => "click the current element".to_owned(),
            Action::SetModelAttribute(action) => action.describe(),
            Action::StoreModel(_) => "store model".to_owned(),
            Action::Pause(_) => "Pause".to_owned(),
        }
    }

    /// The value that the action resolves before it acts, if it has one.
    pub open spec fn spec_value(self) -> Option<Value> {
        match self {
            Action::OpenUrl(action) => Some(action.url),
            Action::QueryElement(action) => Some(action.query),
            Action::FillElement(action) => Some(action.value),
            Action::SetModelAttribute(action) => Some(action.value),
            _ => None,
        }
    }

    /// The value that the action resolves before it acts, if it has one.
    pub fn value(&self) -> (value: Option<&Value>)
        ensures
            match value {
                Some(v) => self.spec_value() == Some(*v),
                None => self.spec_value() is None,
            },
    {
        match self {
            Action::OpenUrl(action) => Some(&action.url),
            Action::QueryElement(action) => Some(&action.query),
            Action::FillElement(action) => Some(&action.value),
            Action::SetModelAttribute(action) => Some(&action.value),
            _ => None,
        }
    }

    /// What an action with a value does once the value is resolved: the
    /// context it leaves and how far it has come. An action without a value
    /// has nothing to do with one: it is done, and the context is as it was.
    pub open spec fn spec_execute(
        self,
        context: ContextView,
        resolved: Result<Option<Seq<char>>, ScrapeErrorView>,
    ) -> (ContextView, ProgressView) {
        match self {
            Action::OpenUrl(action) => (context, OpenUrl::spec_execute(resolved)),
            Action::QueryElement(action) => (context, action.spec_execute(context, resolved)),
            Action::FillElement(action) => (context, FillElement::spec_execute(context, resolved)),
            Action::SetModelAttribute(action) => {
                let (after, outcome) = action.spec_execute(context, resolved);
                (after, ProgressView::Done(outcome))
            },
            _ => (context, ProgressView::Done(Ok(()))),
        }
    }

    /// Lets an action with a value act on what the value resolved to.
    pub fn execute(
        &self,
        context: &mut ScrapeContext,
        resolved: Result<Option<String>, ScrapeError>,
    ) -> (progress: Progress)
        ensures
            (final(context)@, progress@) == self.spec_execute(
                old(context)@,
                crate::error::resolved_view(resolved),
            ),
    {
        match self {
            Action::OpenUrl(action) => action.execute(resolved),
            Action::QueryElement(action) => action.execute(context, resolved),
            Action::FillElement(action) => action.execute(context, resolved),
            Action::SetModelAttribute(action) => Progress::Done(action.execute(context, resolved)),
            _ => Progress::Done(Ok(())),
        }
    }

    /// What an action without a value does: the context it leaves and how far
    /// it has come. `blank` is the record that a commit leaves behind. An
    /// action with a value does nothing before the value is resolved: it is
    /// done, and the context is as it was.
    pub open spec fn spec_perform(self, context: ContextView, blank: JsonValue) -> (
        ContextView,
        ProgressView,
    ) {
        match self {
            Action::ClickElement(_) => ClickElement::spec_execute(context),
            Action::StoreModel(_) => (
                StoreModel::spec_execute(context, blank),
                ProgressView::Done(Ok(())),
            ),
            Action::Pause(action) => (context, action.spec_execute()),
            _ => (context, ProgressView::Done(Ok(()))),
        }
    }

    /// Lets an action without a value act.
    pub fn perform(&self, context: &mut ScrapeContext) -> (progress: Progress)
        ensures
            (final(context)@, progress@) == self.spec_perform(old(context)@, final(context)@.model),
            self is StoreModel ==> crate::context::is_empty_object(final(context)@.model),
    {
        match self {
            Action::ClickElement(action) => action.execute(context),
            Action::StoreModel(action) => Progress::Done(action.execute(context)),
            Action::Pause(action) => action.execute(),
            _ => Progress::Done(Ok(())),
        }
    }
}

} // verus!
