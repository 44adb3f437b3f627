//! The records of the engine and the rules that hold of them whatever stores them.

pub mod text;
pub mod select;
pub mod ordering;
pub mod pattern;
pub mod mention;
pub mod resolver;
pub mod instant;
pub mod ident;
pub mod json;
pub mod entity;
pub mod error;
pub mod repository;
