//! The library's general laws, stated once for all inputs and proved.

use vstd::prelude::*;

use crate::column::ColumnArg;
use crate::error::{negative_index_message, ErrorModel};
use crate::extract::{
    extract_spec, invoke_spec, lemma_invoke_spec_ok_shape, lemma_rows_spec_shape,
    row_pattern_bad, row_value, rows_spec,
};
use crate::regex_bridge::{full_match_of, groups_of, pattern_ok, re_matched};

verus! {

/// For non-null text and group index 0: whenever the pattern matches the
/// text, the extracted value is the full leftmost match substring.
pub proof fn lemma_group_zero_full_match(p: Seq<char>, t: Seq<char>)
    requires
        re_matched(p, t),
    ensures
        extract_spec(p, t, 0) == full_match_of(p, t),
{
}

/// For a group index `g` with `1 <= g <= k`, `k` being the pattern's
/// capture-group count: whenever the pattern matches, the extracted value is
/// the `g`-th captured substring, or the empty string where that group did
/// not participate in the match.
pub proof fn lemma_capture_group(p: Seq<char>, t: Seq<char>, g: int)
    requires
        re_matched(p, t),
        1 <= g <= groups_of(p, t).len(),
    ensures
        extract_spec(p, t, g) == (match groups_of(p, t)[g - 1] {
            Some(s) => s,
            None => Seq::<char>::empty(),
        }),
{
}

/// For a group index beyond the pattern's capture-group count, or a pattern
/// that does not match the text: the extracted value is the empty string.
pub proof fn lemma_no_match_or_out_of_range(p: Seq<char>, t: Seq<char>, g: int)
    requires
        0 <= g,
        !re_matched(p, t) || g > groups_of(p, t).len(),
    ensures
        extract_spec(p, t, g) == Seq::<char>::empty(),
{
}

/// Null propagation: whenever an invocation succeeds, a row whose text is
/// null yields a null output row, regardless of the pattern and the group
/// index.
pub proof fn lemma_null_propagation(
    text: ColumnArg,
    pattern: ColumnArg,
    group_index: Option<i64>,
    n: nat,
    i: int,
)
    requires
        0 <= i < n,
        text.row(i) is None,
        invoke_spec(text, pattern, group_index, n) is Ok,
    ensures
        invoke_spec(text, pattern, group_index, n)->Ok_0[i] is None,
{
    lemma_invoke_spec_ok_shape(text, pattern, group_index, n);
}

/// A negative group index fails the whole invocation with
/// `InvalidArgument`, for any inputs.
pub proof fn lemma_negative_index(text: ColumnArg, pattern: ColumnArg, g: i64, n: nat)
    requires
        g < 0,
    ensures
        invoke_spec(text, pattern, Some(g), n) == Err::<Seq<Option<Seq<char>>>, ErrorModel>(
            ErrorModel::InvalidArgument(negative_index_message()),
        ),
{
}

/// Every error that row processing raises is a compile error.
proof fn lemma_rows_spec_err_kind(text: ColumnArg, pattern: ColumnArg, g: int, i: nat, n: nat)
    ensures
        rows_spec(text, pattern, g, i, n) matches Err(e) ==> e is PatternCompile,
    decreases n - i,
{
    if i < n && !row_pattern_bad(text, pattern, i as int) {
        lemma_rows_spec_err_kind(text, pattern, g, i + 1, n);
    }
}

/// A pattern that does not compile, on any row whose text is non-null,
/// fails the whole invocation with `PatternCompileError`, for any group
/// index the invocation accepts.
pub proof fn lemma_malformed_pattern(text: ColumnArg, pattern: ColumnArg, g: i64, n: nat)
    requires
        0 <= g,
        exists|i: int|
            0 <= i < n && text.row(i) is Some && (pattern.row(i) matches Some(p)
                && !pattern_ok(p)),
    ensures
        invoke_spec(text, pattern, Some(g), n) matches Err(e) && e is PatternCompile,
{
    let i = choose|i: int|
        0 <= i < n && text.row(i) is Some && (pattern.row(i) matches Some(p) && !pattern_ok(p));
    assert(row_pattern_bad(text, pattern, i));
    lemma_rows_spec_shape(text, pattern, g as int, 0, n);
    lemma_rows_spec_err_kind(text, pattern, g as int, 0, n);
}

/// The invocation reads its two string arguments only row by row: arguments
/// equal at every row give equal outcomes.
proof fn lemma_rows_spec_pointwise(
    t1: ColumnArg,
    p1: ColumnArg,
    t2: ColumnArg,
    p2: ColumnArg,
    g: int,
    i: nat,
    n: nat,
)
    requires
        forall|j: int| 0 <= j < n ==> t1.row(j) == t2.row(j),
        forall|j: int| 0 <= j < n ==> p1.row(j) == p2.row(j),
    ensures
        rows_spec(t1, p1, g, i, n) == rows_spec(t2, p2, g, i, n),
    decreases n - i,
{
    if i < n {
        lemma_rows_spec_pointwise(t1, p1, t2, p2, g, i + 1, n);
    }
}

/// Broadcast equivalence for the text argument: a materialized column of
/// `n` identical values and the single-scalar form of that value give
/// identical invocation outcomes.
pub proof fn lemma_broadcast_equivalence_text(
    values: Vec<Option<String>>,
    scalar: Option<String>,
    pattern: ColumnArg,
    group_index: Option<i64>,
    n: nat,
)
    requires
        values@.len() == n,
        forall|i: int| 0 <= i < n ==> values@[i].deep_view() == scalar.deep_view(),
    ensures
        invoke_spec(ColumnArg::Array(values), pattern, group_index, n) == invoke_spec(
            ColumnArg::Scalar(scalar),
            pattern,
            group_index,
            n,
        ),
{
    assert forall|j: int|
        0 <= j < n implies ColumnArg::Array(values).row(j) == ColumnArg::Scalar(scalar).row(
        j,
    ) by {
        assert(values.deep_view()[j] == values@[j].deep_view());
    }
    match group_index {
        Some(g) => if g >= 0 {
            lemma_rows_spec_pointwise(
                ColumnArg::Array(values),
                pattern,
                ColumnArg::Scalar(scalar),
                pattern,
                g as int,
                0,
                n,
            );
        },
        None => {},
    }
}

/// Broadcast equivalence for the pattern argument: a materialized column of
/// `n` identical patterns and the single-scalar form of that pattern give
/// identical invocation outcomes.
pub proof fn lemma_broadcast_equivalence_pattern(
    text: ColumnArg,
    values: Vec<Option<String>>,
    scalar: Option<String>,
    group_index: Option<i64>,
    n: nat,
)
    requires
        values@.len() == n,
        forall|i: int| 0 <= i < n ==> values@[i].deep_view() == scalar.deep_view(),
    ensures
        invoke_spec(text, ColumnArg::Array(values), group_index, n) == invoke_spec(
            text,
            ColumnArg::Scalar(scalar),
            group_index,
            n,
        ),
{
    assert forall|j: int|
        0 <= j < n implies ColumnArg::Array(values).row(j) == ColumnArg::Scalar(scalar).row(
        j,
    ) by {
        assert(values.deep_view()[j] == values@[j].deep_view());
    }
    match group_index {
        Some(g) => if g >= 0 {
            lemma_rows_spec_pointwise(
                text,
                ColumnArg::Array(values),
                text,
                ColumnArg::Scalar(scalar),
                g as int,
                0,
                n,
            );
        },
        None => {},
    }
}

} // verus!
