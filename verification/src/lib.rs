//! An identity manager for git: a small store of named identities (a name
//! and an email each), one of which can be selected and brought into git's
//! global configuration.
//!
//! The store keeps its two tables, the identities and the selection, in memory
//! and in an SQLite database. Every operation is decided on the tables in
//! memory, written to the database, and only then made to the tables; its
//! contract says what it answers and what the store holds afterwards.

pub mod changes;
pub mod commands;
pub mod error;
pub mod identity;
pub mod laws;
pub mod location;
pub mod model;
pub mod rules;
pub mod sql;
pub mod store;
pub mod sync;
pub mod tables;
