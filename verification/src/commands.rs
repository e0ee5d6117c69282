//! The reversible commands through which a project is edited, and the
//! lifecycle commands of the store.

pub mod command;
pub mod pattern_commands;
pub mod project_commands;
pub mod reversal;
pub mod store_commands;
