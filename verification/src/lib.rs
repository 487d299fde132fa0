//! Row-wise regular-expression capture extraction.
//!
//! A request binder assembles three loosely-typed call arguments (a batch of
//! optional text rows, a pattern string, a capture-group index) into a
//! well-formed extraction request, and the extractor compiles the pattern once
//! and maps capture-group extraction over every row, producing one present
//! text value per input row. Every data-level failure (absent row, pattern
//! that does not match, group that does not exist or did not participate)
//! degrades uniformly to the empty string; only mis-shaped call arguments
//! surface as errors.

pub mod extract;
pub mod matcher;
pub mod request;
