//! Cache-aside access to per-entity settings rows.
//!
//! The engine decides; the caller talks to the database. Each operation
//! returns the statement to run (or the answer, when the cache has it), and
//! the caller feeds the database's reply back in.

pub mod key;
pub mod template;
pub mod handler;
pub mod laws;
