//! The state that every stage of a run reads and writes.

use crate::client::ElementHandle;
use crate::json::{empty_object, json_string, json_text, JsonValue};
use vstd::prelude::*;

verus! {

/// A JSON object without entries.
pub open spec fn is_empty_object(value: JsonValue) -> bool {
    json_string(value) is None && json_text(value) == "{}"@
}

/// The state of a run.
///
/// `scoped_element` and `current_element` are independent: a lookup below the
/// scoped element reads the first and writes the second.
#[derive(Debug)]
pub struct ScrapeContext {
    /// The record under construction.
    pub model: JsonValue,
    /// The input of the run, which no stage changes.
    pub values: JsonValue,
    /// The records committed so far, oldest first.
    pub models: Vec<JsonValue>,
    /// The element below which scoped lookups search.
    pub scoped_element: Option<ElementHandle>,
    /// The element in focus: the one last found.
    pub current_element: Option<ElementHandle>,
}

/// A `ScrapeContext` with its records as a sequence.
pub struct ContextView {
    pub model: JsonValue,
    pub values: JsonValue,
    pub models: Seq<JsonValue>,
    pub scoped_element: Option<ElementHandle>,
    pub current_element: Option<ElementHandle>,
}

impl View for ScrapeContext {
    type V = ContextView;

    open spec fn view(&self) -> ContextView {
        ContextView {
            model: self.model,
            values: self.values,
            models: self.models@,
            scoped_element: self.scoped_element,
            current_element: self.current_element,
        }
    }
}

impl ContextView {
    /// A context at the start of a run: an empty record, no record committed,
    /// no element known.
    pub open spec fn is_fresh(self) -> bool {
        &&& is_empty_object(self.model)
        &&& self.models.len() == 0
        &&& self.scoped_element is None
        &&& self.current_element is None
    }
}

impl ScrapeContext {
    /// A context for a run on the given input, or on an empty object where
    /// there is none.
    pub fn new(values: Option<JsonValue>) -> (context: ScrapeContext)
        ensures
            context@.is_fresh(),
            match values {
                Some(input) => context@.values == input,
                None => is_empty_object(context@.values),
            },
    {
        let values = match values {
            Some(input) => input,
            None => empty_object(),
        };
        ScrapeContext::with_values(values)
    }

    /// A context for a run on the given input.
    pub fn with_values(values: JsonValue) -> (context: ScrapeContext)
        ensures
            context@.is_fresh(),
            context@.values == values,
    {
        ScrapeContext {
            model: empty_object(),
            values,
            models: Vec::new(),
            scoped_element: None,
            current_element: None,
        }
    }
}

impl Default for ScrapeContext {
    /// A context for a run on an empty object.
    fn default() -> (context: ScrapeContext)
        ensures
            context@.is_fresh(),
            is_empty_object(context@.values),
    {
        ScrapeContext::with_values(empty_object())
    }
}

} // verus!
