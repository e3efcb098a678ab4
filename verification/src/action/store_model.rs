//! Committing the record.

use crate::context::{is_empty_object, ContextView, ScrapeContext};
use crate::error::ScrapeError;
use crate::json::{empty_object, JsonValue};
use crate::action::Action;
use crate::stage::{IntoStage, ScrapeStage};
use vstd::prelude::*;

verus! {

/// Appends the record to the committed records and starts an empty one.
#[derive(Debug, Clone, Copy, PartialEq, Eq)]
pub struct StoreModel;

impl StoreModel {
    /// The context after a commit that leaves `blank` as the new record.
    pub open spec fn spec_execute(context: ContextView, blank: JsonValue) -> ContextView {
        ContextView { model: blank, models: context.models.push(context.model), ..context }
    }

    /// Commits the record: it becomes the last of the committed records, and
    /// an empty object takes its place. This never fails.
    pub fn execute(&self, context: &mut ScrapeContext) -> (outcome: Result<(), ScrapeError>)
        ensures
            outcome is Ok,
            is_empty_object(final(context)@.model),
            final(context)@ == Self::spec_execute(old(context)@, final(context)@.model),
    {
        let mut model = empty_object();
        std::mem::swap(&mut model, &mut context.model);
        context.models.push(model);
        Ok(())
    }
}

impl IntoStage for StoreModel {
    open spec fn spec_into_stage(self) -> ScrapeStage {
        Action::StoreModel(self).spec_into_stage()
    }

    fn into_stage(self) -> (stage: ScrapeStage) {
        Action::StoreModel(self).into_stage()
    }
}

} // verus!
