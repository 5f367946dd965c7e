//! Schema synchronization engine for a declarative event-type description.
//!
//! The library parses and validates a description of event types (each one
//! backed by a database table), derives the idempotent DDL needed to bring a
//! live schema to parity with the description, and derives type-correct
//! randomized read/write statements against that schema. Executing the
//! statements, watching the description for changes and all other I/O is the
//! calling program's business; everything that decides or computes lives here.

pub mod catalog;
pub mod ddl;
pub mod loader;
pub mod manager;
pub mod numfmt;
pub mod schema_model;
pub mod sqlfmt;
pub mod traffic;
