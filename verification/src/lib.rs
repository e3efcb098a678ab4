//! A declarative scraping engine: a pipeline of named stages, each with one
//! browser action and two flow-control directives, is run step by step. The
//! engine never talks to a browser itself. It says what is to be done next
//! and is told what came of it.

pub mod action;
pub mod client;
pub mod context;
pub mod error;
pub mod execution;
pub mod json;
pub mod laws;
pub mod pipeline;
pub mod scrapman;
pub mod stage;
pub mod text;
pub mod value;

pub use crate::action::click_element::ClickElement;
pub use crate::action::fill_element::FillElement;
pub use crate::action::open_url::OpenUrl;
pub use crate::action::pause::Pause;
pub use crate::action::query_element::{ElementScope, QueryElement, Selector};
pub use crate::action::set_model_attribute::SetModelAttribute;
pub use crate::action::store_model::StoreModel;
pub use crate::action::{Action, Progress};
pub use crate::client::{ElementHandle, Request, Response};
pub use crate::context::ScrapeContext;
pub use crate::error::ScrapeError;
pub use crate::execution::{Execution, Frame, Phase};
pub use crate::json::JsonValue;
pub use crate::pipeline::{Move, ScrapePipeline};
pub use crate::scrapman::Scrapman;
pub use crate::stage::{FlowControl, IntoStage, ScrapeStage};
pub use crate::value::{Resolution, Value};
