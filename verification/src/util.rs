//! Helpers shared by the model, the commands and the message handlers.

pub mod decimal;
pub mod execute_and_push;
pub mod id;
pub mod id_list;
