//! The bridge to the `regex` crate: the only trusted items of the library.
//!
//! Regular-expression compilation and matching are done by the `regex`
//! crate. Their results are deterministic functions of the pattern and the
//! text alone, far too large to write out, so they are given names here
//! (`pattern_ok`, `compile_error_of`, `re_matched`, `full_match_of`,
//! `groups_of`), and the two wrappers state the calls' results over those
//! names. Everything the rest of the library proves about extraction is
//! relative to them.

use vstd::prelude::*;

verus! {

#[verifier::external_type_specification]
#[verifier::external_body]
pub struct ExRegex(regex::Regex);

/// Whether pattern `p` compiles as a regular expression.
pub uninterp spec fn pattern_ok(p: Seq<char>) -> bool;

/// The regex compiler's rendered message for a pattern that does not
/// compile.
pub uninterp spec fn compile_error_of(p: Seq<char>) -> Seq<char>;

/// Whether compiled pattern `p` matches anywhere in text `t`.
pub uninterp spec fn re_matched(p: Seq<char>, t: Seq<char>) -> bool;

/// The substring of `t` taken by the leftmost match of `p` in `t`
/// (meaningful only when `re_matched(p, t)`).
pub uninterp spec fn full_match_of(p: Seq<char>, t: Seq<char>) -> Seq<char>;

/// The capture groups of the leftmost match of `p` in `t`, in order of
/// opening parenthesis: entry `g - 1` is `Some` with the text of group `g`
/// where that group participated in the match, `None` where it did not
/// (meaningful only when `re_matched(p, t)`).
pub uninterp spec fn groups_of(p: Seq<char>, t: Seq<char>) -> Seq<Option<Seq<char>>>;

/// A compiled regular expression, kept beside the pattern string it was
/// compiled from so that contracts can speak of the pattern.
pub struct CompiledPattern {
    regex: regex::Regex,
    source: String,
}

impl CompiledPattern {
    /// The pattern string this value was compiled from.
    pub closed spec fn src(&self) -> Seq<char> {
        self.source@
    }
}

/// Relies on `regex::Regex::new`: whether a pattern compiles, and the
/// rendering of the compiler's error, are functions of the pattern string
/// alone.
#[verifier::external_body]
pub fn compile(pattern: &str) -> (r: Result<CompiledPattern, String>)
    ensures
        r matches Ok(cp) ==> pattern_ok(pattern@) && cp.src() == pattern@,
        r matches Err(m) ==> !pattern_ok(pattern@) && m@ == compile_error_of(pattern@),
{
    match regex::Regex::new(pattern) {
        Ok(regex) => Ok(CompiledPattern { regex, source: pattern.to_string() }),
        Err(e) => Err(e.to_string()),
    }
}

/// Relies on `regex::Regex::captures` and `regex::Captures::iter`: the
/// leftmost match and its capture groups are functions of the pattern and
/// the text alone; the group at index 0 is the whole match and always
/// participates when the regex matches.
#[verifier::external_body]
pub fn leftmost_captures(cp: &CompiledPattern, text: &str) -> (r: Option<Vec<Option<String>>>)
    ensures
        r is Some <==> re_matched(cp.src(), text@),
        r matches Some(v) ==> {
            &&& v.deep_view().len() >= 1
            &&& v.deep_view()[0] == Some(full_match_of(cp.src(), text@))
            &&& v.deep_view().skip(1) == groups_of(cp.src(), text@)
        },
{
    cp.regex.captures(text).map(|caps: regex::Captures<'_>| {
        caps.iter().map(|m| m.map(|g| g.as_str().to_string())).collect()
    })
}

} // verus!
