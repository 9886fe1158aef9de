//! Verified core of a resident AI task manager: prompt and message
//! assembly for the local language model, handling of its replies, model
//! selection, the model start-up state machine, and the due-date and
//! periodic reminder rules.

pub mod text;
pub mod model;
pub mod notifier;
pub mod client;
pub mod prompt;
pub mod status;
pub mod window;
