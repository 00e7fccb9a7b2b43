//! The boundary to the model providers: the records exchanged with them and
//! the stand-in that answers where no provider is wired in.

pub mod commands;
pub mod context7;
pub mod providers;
pub mod types;
