//! The workspace filesystem engine: discovery, guarded reads, search and the
//! rules of the change watcher.

pub mod dir_ops;
pub mod file_ops;
pub mod git_commands;
pub mod scanning;
pub mod search;
pub mod service;
pub mod tree;
pub mod watcher;
