//! The embedded store, and the other services that the engine draws on.

pub mod driver;
pub mod statements;
pub mod codec;
pub mod confirm;
pub mod request;
pub mod batch;
pub mod schema;
pub mod sqlite;
pub mod markdown;
pub mod http;
pub mod backup;
