//! Chat sessions: the log of messages of a conversation about a project.

pub mod commands;
pub mod types;
