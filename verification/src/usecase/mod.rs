//! The operations that the engine offers, over any stores that keep the contracts.

pub mod message;
pub mod thread;
pub mod cleanup;
pub mod hook;
pub mod setup;
