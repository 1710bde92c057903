//! A line-oriented find-and-replace library.
//!
//! The substitution engine reads text one line at a time, preserving each
//! line's terminator (`\n`, `\r\n`, or none at end of input) verbatim,
//! optionally gates each line through a secondary line-filter pattern, and
//! replaces every non-overlapping occurrence of a compiled search pattern
//! within the line's content.

pub mod engine;
pub mod errors;
pub mod job;
pub mod lines;
pub mod pattern;
