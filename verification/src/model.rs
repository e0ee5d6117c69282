//! The document model: a project, its song, its patterns and their notes, and
//! the store that holds the open projects with their undo histories.

pub mod command_queue;
pub mod generator;
pub mod journal_page_accumulator;
pub mod note;
pub mod note_json;
pub mod pattern;
pub mod project;
pub mod reply;
pub mod song;
pub mod store;
pub mod time_signature;
