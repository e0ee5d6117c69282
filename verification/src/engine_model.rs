//! The messages exchanged with the audio engine, which runs as a process of
//! its own.

pub mod message;
