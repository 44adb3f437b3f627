//! The commands of the tool: what each one runs and what it shows.

pub mod args;
pub mod content;
pub mod formatter;
pub mod handler;
pub mod paths;
