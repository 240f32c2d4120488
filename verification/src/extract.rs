//! The extractor: row-wise capture extraction over a whole batch.

use vstd::prelude::*;
use vstd::string::StringExecFns;

use crate::column::ColumnArg;
use crate::error::{
    compile_message_prefix, missing_index_message, negative_index_message, null_pattern_message,
    ErrorModel, ExtractError,
};
use crate::regex_bridge::{
    compile, compile_error_of, full_match_of, groups_of, leftmost_captures, pattern_ok,
    re_matched, CompiledPattern,
};

verus! {

/// What one non-null text row yields: the requested capture group of the
/// leftmost match of `p` in `t`, the whole match for group 0, and the empty
/// string when `p` does not match, the match has fewer groups than `g`, or
/// group `g` did not participate in the match.
pub open spec fn extract_spec(p: Seq<char>, t: Seq<char>, g: int) -> Seq<char> {
    if !re_matched(p, t) {
        Seq::empty()
    } else if g == 0 {
        full_match_of(p, t)
    } else if g > groups_of(p, t).len() {
        Seq::empty()
    } else {
        match groups_of(p, t)[g - 1] {
            Some(s) => s,
            None => Seq::empty(),
        }
    }
}

/// Row `i` needs its pattern (its text is non-null) and the pattern is
/// unusable: null, or not a compilable regular expression.
pub open spec fn row_pattern_bad(text: ColumnArg, pattern: ColumnArg, i: int) -> bool {
    text.row(i) is Some && match pattern.row(i) {
        None => true,
        Some(p) => !pattern_ok(p),
    }
}

/// The error raised at a row whose pattern is needed and unusable.
pub open spec fn row_pattern_error(pattern: ColumnArg, i: int) -> ErrorModel {
    match pattern.row(i) {
        None => ErrorModel::PatternCompile(null_pattern_message()),
        Some(p) => ErrorModel::PatternCompile(compile_message_prefix() + compile_error_of(p)),
    }
}

/// The output value of row `i`: null for null text, else the extraction from
/// its text and pattern. (Only rows whose pattern is usable reach the
/// output; the `None` pattern arm is never taken on such a row.)
pub open spec fn row_value(text: ColumnArg, pattern: ColumnArg, g: int, i: int) -> Option<
    Seq<char>,
> {
    match text.row(i) {
        None => None,
        Some(t) => match pattern.row(i) {
            Some(p) => Some(extract_spec(p, t, g)),
            None => None,
        },
    }
}

/// The outcome of processing rows `i..n` in order: their output values, or
/// the error of the first row whose pattern is needed and unusable.
pub open spec fn rows_spec(text: ColumnArg, pattern: ColumnArg, g: int, i: nat, n: nat) -> Result<
    Seq<Option<Seq<char>>>,
    ErrorModel,
>
    decreases n - i,
{
    if i >= n {
        Ok(Seq::empty())
    } else if row_pattern_bad(text, pattern, i as int) {
        Err(row_pattern_error(pattern, i as int))
    } else {
        match rows_spec(text, pattern, g, i + 1, n) {
            Ok(rest) => Ok(seq![row_value(text, pattern, g, i as int)] + rest),
            Err(e) => Err(e),
        }
    }
}

/// The outcome of a whole invocation over `n` rows: the group index must be
/// a present, non-negative integer, and every needed pattern must compile;
/// then the output column holds each row's value.
pub open spec fn invoke_spec(
    text: ColumnArg,
    pattern: ColumnArg,
    group_index: Option<i64>,
    n: nat,
) -> Result<Seq<Option<Seq<char>>>, ErrorModel> {
    match group_index {
        None => Err(ErrorModel::InvalidArgument(missing_index_message())),
        Some(g) => if g < 0 {
            Err(ErrorModel::InvalidArgument(negative_index_message()))
        } else {
            rows_spec(text, pattern, g as int, 0, n)
        },
    }
}

/// Extract the requested capture group from one non-null text row.
fn extract_row(cp: &CompiledPattern, text: &str, g: i64) -> (r: String)
    requires
        0 <= g,
    ensures
        r@ == extract_spec(cp.src(), text@, g as int),
{
    match leftmost_captures(cp, text) {
        None => String::new(),
        Some(groups) => {
            if (g as u64) < (groups.len() as u64) {
                match &groups[g as usize] {
                    Some(s) => s.clone(),
                    None => String::new(),
                }
            } else {
                String::new()
            }
        },
    }
}

/// If rows `i..k` have usable patterns and row `k` has not, processing rows
/// `i..n` stops with row `k`'s compile error.
proof fn lemma_rows_spec_err(text: ColumnArg, pattern: ColumnArg, g: int, i: nat, k: nat, n: nat)
    requires
        i <= k < n,
        forall|j: int| i <= j < k ==> !row_pattern_bad(text, pattern, j),
        row_pattern_bad(text, pattern, k as int),
    ensures
        rows_spec(text, pattern, g, i, n) == Err::<Seq<Option<Seq<char>>>, ErrorModel>(
            row_pattern_error(pattern, k as int),
        ),
    decreases k - i,
{
    if i < k {
        lemma_rows_spec_err(text, pattern, g, i + 1, k, n);
    }
}

/// If every row of `i..n` has a usable pattern and `s` holds their values,
/// processing rows `i..n` yields `s`.
proof fn lemma_rows_spec_ok(
    text: ColumnArg,
    pattern: ColumnArg,
    g: int,
    i: nat,
    n: nat,
    s: Seq<Option<Seq<char>>>,
)
    requires
        i <= n,
        s.len() == n - i,
        forall|j: int| i <= j < n ==> !row_pattern_bad(text, pattern, j),
        forall|j: int| i <= j < n ==> s[j - i] == row_value(text, pattern, g, j),
    ensures
        rows_spec(text, pattern, g, i, n) == Ok::<Seq<Option<Seq<char>>>, ErrorModel>(s),
    decreases n - i,
{
    if i >= n {
        assert(s =~= Seq::empty());
    } else {
        lemma_rows_spec_ok(text, pattern, g, i + 1, n, s.skip(1));
        assert(seq![row_value(text, pattern, g, i as int)] + s.skip(1) =~= s);
    }
}

/// Whenever processing rows `i..n` succeeds, the output holds exactly one
/// value per row: row `j`'s value at position `j - i`, and every processed
/// row's pattern was usable.
pub proof fn lemma_rows_spec_shape(text: ColumnArg, pattern: ColumnArg, g: int, i: nat, n: nat)
    requires
        i <= n,
    ensures
        rows_spec(text, pattern, g, i, n) matches Ok(s) ==> {
            &&& s.len() == n - i
            &&& forall|j: int| i <= j < n ==> !row_pattern_bad(text, pattern, j)
            &&& forall|j: int| i <= j < n ==> s[j - i] == row_value(text, pattern, g, j)
        },
    decreases n - i,
{
    if i < n && !row_pattern_bad(text, pattern, i as int) {
        lemma_rows_spec_shape(text, pattern, g, i + 1, n);
        if rows_spec(text, pattern, g, i + 1, n) is Ok {
            let rest = rows_spec(text, pattern, g, i + 1, n)->Ok_0;
            let s = seq![row_value(text, pattern, g, i as int)] + rest;
            assert forall|j: int| i <= j < n implies s[j - i] == row_value(text, pattern, g, j) by {
                if j > i {
                    assert(s[j - i] == rest[j - i - 1]);
                }
            }
        }
    }
}

/// Whenever a whole invocation succeeds, the group index was present and
/// non-negative and the output column holds exactly each row's value.
pub proof fn lemma_invoke_spec_ok_shape(
    text: ColumnArg,
    pattern: ColumnArg,
    group_index: Option<i64>,
    n: nat,
)
    ensures
        invoke_spec(text, pattern, group_index, n) matches Ok(s) ==> {
            &&& group_index matches Some(g) && g >= 0
            &&& s.len() == n
            &&& forall|i: int|
                0 <= i < n ==> s[i] == row_value(text, pattern, group_index.unwrap() as int, i)
        },
{
    match group_index {
        Some(g) => if g >= 0 {
            lemma_rows_spec_shape(text, pattern, g as int, 0, n);
        },
        None => {},
    }
}

/// Apply the extraction to a whole batch of `num_rows` rows. Returns the
/// output column, or the error that aborted the invocation, exactly as
/// [`invoke_spec`] says.
pub fn regexp_extract(
    text: &ColumnArg,
    pattern: &ColumnArg,
    group_index: Option<i64>,
    num_rows: usize,
) -> (r: Result<Vec<Option<String>>, ExtractError>)
    requires
        text.spans(num_rows as int),
        pattern.spans(num_rows as int),
    ensures
        match r {
            Ok(out) => invoke_spec(*text, *pattern, group_index, num_rows as nat) == Ok::<
                Seq<Option<Seq<char>>>,
                ErrorModel,
            >(out.deep_view()),
            Err(e) => invoke_spec(*text, *pattern, group_index, num_rows as nat) == Err::<
                Seq<Option<Seq<char>>>,
                ErrorModel,
            >(e@),
        },
{
    let g: i64 = match group_index {
        None => {
            return Err(
                ExtractError::InvalidArgument(
                    "Expected a single non-null Int64 for the group index.".to_owned(),
                ),
            );
        },
        Some(g) => g,
    };
    if g < 0 {
        return Err(
            ExtractError::InvalidArgument("Group index must be a non-negative integer.".to_owned()),
        );
    }
    let mut out: Vec<Option<String>> = Vec::new();
    let mut i: usize = 0;
    while i < num_rows
        invariant
            group_index == Some(g),
            0 <= g,
            i <= num_rows,
            text.spans(num_rows as int),
            pattern.spans(num_rows as int),
            out@.len() == i,
            forall|j: int| 0 <= j < i ==> !row_pattern_bad(*text, *pattern, j),
            forall|j: int|
                0 <= j < i ==> out@[j].deep_view() == row_value(*text, *pattern, g as int, j),
        decreases num_rows - i,
    {
        match text.row_at(i) {
            None => {
                out.push(None);
            },
            Some(t) => {
                match pattern.row_at(i) {
                    None => {
                        proof {
                            lemma_rows_spec_err(
                                *text,
                                *pattern,
                                g as int,
                                0,
                                i as nat,
                                num_rows as nat,
                            );
                        }
                        return Err(
                            ExtractError::PatternCompile(
                                "Error compiling regex: pattern value is null".to_owned(),
                            ),
                        );
                    },
                    Some(p) => {
                        match compile(p.as_str()) {
                            Err(msg) => {
                                let mut full: String = "Error compiling regex: ".to_owned();
                                full.append(msg.as_str());
                                proof {
                                    lemma_rows_spec_err(
                                        *text,
                                        *pattern,
                                        g as int,
                                        0,
                                        i as nat,
                                        num_rows as nat,
                                    );
                                }
                                return Err(ExtractError::PatternCompile(full));
                            },
                            Ok(cp) => {
                                let v = extract_row(&cp, t.as_str(), g);
                                out.push(Some(v));
                            },
                        }
                    },
                }
            },
        }
        i = i + 1;
    }
    proof {
        lemma_rows_spec_ok(
            *text,
            *pattern,
            g as int,
            0,
            num_rows as nat,
            out.deep_view(),
        );
    }
    Ok(out)
}

} // verus!
