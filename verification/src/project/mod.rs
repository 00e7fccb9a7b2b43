//! Projects: what is known of the open project, and how its kind, its
//! framework and its dependencies are told from its files.

pub mod types;
pub mod commands;
