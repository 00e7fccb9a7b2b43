//! The terminal multiplexer: the table of shell sessions, and the rules by
//! which the output of a shell is gathered and handed on.

pub mod commands;
