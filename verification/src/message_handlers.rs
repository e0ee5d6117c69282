//! The handlers that turn a request into commands on the store: one for the
//! store itself, one for projects, one for patterns and notes.

pub mod pattern_message_handler;
pub mod project_message_handler;
pub mod store_message_handler;
