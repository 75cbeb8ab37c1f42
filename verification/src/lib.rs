//! Turns the captured output of a local model-management tool into the
//! typed events and results that a desktop front end consumes.

pub mod chat;
pub mod clock;
pub mod events;
pub mod listing;
pub mod models;
pub mod process;
pub mod pull;
pub mod stream;
pub mod terminal;
pub mod text;
