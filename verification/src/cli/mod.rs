//! The command line as the monitor understands it, once it is parsed.

pub mod args;
pub mod commands;
