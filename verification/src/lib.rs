//! The in-memory document engine of a music-composition application: the
//! project documents, the reversible commands that edit them, and the undo
//! history kept for each open project.

pub mod api;
pub mod commands;
pub mod dispatcher;
pub mod engine_bridge;
pub mod engine_model;
pub mod message_handlers;
pub mod model;
pub mod util;
