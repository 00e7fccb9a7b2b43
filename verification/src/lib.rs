use vstd::prelude::*;

pub mod terminal;
pub mod text;
pub mod ai;
pub mod chat;
pub mod commands;
pub mod error;
pub mod errors;
pub mod file_utils;
pub mod filesystem;
pub mod ordering;
pub mod project;
pub mod state;
pub mod state_collections;
pub mod types;

verus! {

} // verus!
