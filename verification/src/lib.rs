//! A store of short messages grouped into threads, kept in an embedded relational
//! store: schema upkeep, resolution of short identifiers, search that falls back
//! from the full-text index to a literal match, mentions that end at a word
//! boundary, and batches that are written whole or not at all.

pub mod domain;
pub mod infra;
pub mod usecase;
pub mod cli;
