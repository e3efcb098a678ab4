//! Writing into the record.

use crate::context::{ContextView, ScrapeContext};
use crate::error::{outcome_view, resolved_view, ScrapeError, ScrapeErrorView};
use crate::json::{dot_set, dot_set_outcome, positions_are_in_reach, positions_in_reach};
use crate::value::Value;
use crate::action::Action;
use crate::stage::{IntoStage, ScrapeStage};
use crate::text::enclose;
use vstd::prelude::*;

verus! {

/// Writes what a value resolves to into the record, at a dotted path.
#[derive(Debug, Clone, PartialEq, Eq)]
pub struct SetModelAttribute {
    pub attribute: String,
    pub value: Value,
}

impl SetModelAttribute {
    pub fn new(attribute: &str, value: Value) -> (action: SetModelAttribute)
        ensures
            action.attribute@ == attribute@,
            action.value == value,
    {
        SetModelAttribute { attribute: attribute.to_owned(), value }
    }

    /// The text that describes the action: its path and its value.
    pub open spec fn spec_describe(self) -> Seq<char> {
        "SetModelAttribute("@ + self.attribute@ + ", "@ + self.value.spec_describe() + ")"@
    }

    /// Describes the action in words.
    pub fn describe(&self) -> (text: String)
        ensures
            text@ == self.spec_describe(),
    {
        let front = enclose("SetModelAttribute(", self.attribute.as_str(), ", ");
        enclose(front.as_str(), self.value.describe().as_str(), ")")
    }

    /// The record and the outcome of the write. A value that failed fails the
    /// action. What the value resolved to, a text or nothing, is written at
    /// the path, parents made as needed. Where the path cannot be written,
    /// or holds an array position out of reach, the action fails with
    /// `SetModelAttributeError` and the record stays as it was.
    pub open spec fn spec_execute(
        self,
        context: ContextView,
        value: Result<Option<Seq<char>>, ScrapeErrorView>,
    ) -> (ContextView, Result<(), ScrapeErrorView>) {
        match value {
            Err(error) => (context, Err(error)),
            Ok(text) => {
                let written = if positions_in_reach(self.attribute@) {
                    dot_set_outcome(context.model, self.attribute@, text)
                } else {
                    None
                };
                match written {
                    Some(model) => (ContextView { model, ..context }, Ok(())),
                    None => (
                        context,
                        Err(ScrapeErrorView::SetModelAttributeError(self.attribute@)),
                    ),
                }
            },
        }
    }

    /// Acts on what the value resolved to.
    pub fn execute(
        &self,
        context: &mut ScrapeContext,
        value: Result<Option<String>, ScrapeError>,
    ) -> (outcome: Result<(), ScrapeError>)
        ensures
            (final(context)@, outcome_view(outcome)) == self.spec_execute(
                old(context)@,
                resolved_view(value),
            ),
    {
        match value {
            Err(error) => Err(error),
            Ok(text) => {
                if !positions_are_in_reach(self.attribute.as_str()) {
                    return Err(ScrapeError::SetModelAttributeError(self.attribute.clone()));
                }
                match dot_set(&mut context.model, self.attribute.as_str(), text) {
                    Ok(_) => Ok(()),
                    Err(_) => Err(ScrapeError::SetModelAttributeError(self.attribute.clone())),
                }
            },
        }
    }
}

impl IntoStage for SetModelAttribute {
    open spec fn spec_into_stage(self) -> ScrapeStage {
        Action::SetModelAttribute(self).spec_into_stage()
    }

    fn into_stage(self) -> (stage: ScrapeStage) {
        Action::SetModelAttribute(self).into_stage()
    }
}

} // verus!
