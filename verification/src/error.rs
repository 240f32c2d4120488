//! The errors that abort a whole invocation.

use vstd::prelude::*;

verus! {

/// Why an invocation was aborted. No-match and out-of-range group indices are
/// not errors: they yield the empty string row by row.
#[derive(Debug)]
pub enum ExtractError {
    /// The group-index argument is not a present single integer, or is
    /// negative. Raised before any row is processed.
    InvalidArgument(String),
    /// A row's pattern failed to compile as a regular expression (or was
    /// null on a row whose text is non-null). Aborts the invocation with
    /// the compiler's message; no partial results are returned.
    PatternCompile(String),
}

/// The mathematical image of an [`ExtractError`]: the same two variants over
/// character sequences.
pub enum ErrorModel {
    InvalidArgument(Seq<char>),
    PatternCompile(Seq<char>),
}

impl View for ExtractError {
    type V = ErrorModel;

    open spec fn view(&self) -> ErrorModel {
        match self {
            ExtractError::InvalidArgument(m) => ErrorModel::InvalidArgument(m@),
            ExtractError::PatternCompile(m) => ErrorModel::PatternCompile(m@),
        }
    }
}

impl ExtractError {
    /// The message carried by the error.
    pub fn message(&self) -> (r: &str)
        ensures
            r@ == (match self@ {
                ErrorModel::InvalidArgument(m) => m,
                ErrorModel::PatternCompile(m) => m,
            }),
    {
        match self {
            ExtractError::InvalidArgument(m) => m.as_str(),
            ExtractError::PatternCompile(m) => m.as_str(),
        }
    }
}

/// The message of the error raised when the group-index argument is absent.
pub open spec fn missing_index_message() -> Seq<char> {
    "Expected a single non-null Int64 for the group index."@
}

/// The message of the error raised on a negative group index.
pub open spec fn negative_index_message() -> Seq<char> {
    "Group index must be a non-negative integer."@
}

/// The message of the error raised when a row's pattern is null while its
/// text is not.
pub open spec fn null_pattern_message() -> Seq<char> {
    "Error compiling regex: pattern value is null"@
}

/// The prefix put before the regex compiler's own message.
pub open spec fn compile_message_prefix() -> Seq<char> {
    "Error compiling regex: "@
}

} // verus!
