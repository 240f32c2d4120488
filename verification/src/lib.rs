//! Row-wise regular-expression capture extraction over text columns.
//!
//! The crate implements one column transformation: given a text column, a
//! pattern column (each either materialized or a broadcast scalar) and a
//! single capture-group index, produce the column whose row `i` holds the
//! requested capture group of the leftmost match of pattern `i` in text `i`.
//! Null text rows propagate null; a row whose pattern does not match, or
//! whose match has no group at the requested index, yields the empty string.
//! A negative or absent group index, and a pattern that fails to compile,
//! abort the whole invocation with an error.

pub mod column;
pub mod error;
pub mod extract;
pub mod laws;
pub mod regex_bridge;

pub use column::ColumnArg;
pub use error::ExtractError;
pub use extract::regexp_extract;
