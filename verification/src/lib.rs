//! Small utilities for loading structured data: JSON and YAML documents,
//! CSV tables, a pattern search helper and an integer sum.
//!
//! Reading a file is left to the caller. Every loader takes the outcome of
//! that read (the contents, or the reason it failed) and turns it into a
//! parsed value or into one of the errors of [`error`].

pub mod arith;
pub mod document;
pub mod error;
pub mod pattern;
pub mod table;
