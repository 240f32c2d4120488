//! The column model: a string argument of one invocation, before broadcasting.

use vstd::prelude::*;

verus! {

/// One string argument of an invocation: either a column materialized row by
/// row, or a single scalar standing for the same value on every row.
pub enum ColumnArg {
    /// A materialized column; row `i` holds `values[i]`, `None` being null.
    Array(Vec<Option<String>>),
    /// A broadcast scalar: every row holds the same value.
    Scalar(Option<String>),
}

impl ColumnArg {
    /// The logical value at row `i`, after broadcasting.
    pub open spec fn row(&self, i: int) -> Option<Seq<char>> {
        match self {
            ColumnArg::Array(values) => values.deep_view()[i],
            ColumnArg::Scalar(value) => value.deep_view(),
        }
    }

    /// The argument covers `n` rows: a materialized column must hold exactly
    /// `n` values, while a scalar covers any row count.
    pub open spec fn spans(&self, n: int) -> bool {
        match self {
            ColumnArg::Array(values) => values@.len() == n,
            ColumnArg::Scalar(_) => true,
        }
    }

    /// Read the logical value at row `i`.
    pub fn row_at(&self, i: usize) -> (r: Option<&String>)
        requires
            self matches ColumnArg::Array(values) ==> i < values@.len(),
        ensures
            match r {
                Some(s) => self.row(i as int) == Some(s@),
                None => self.row(i as int) is None,
            },
    {
        match self {
            ColumnArg::Array(values) => match &values[i] {
                Some(s) => Some(s),
                None => None,
            },
            ColumnArg::Scalar(value) => match value {
                Some(s) => Some(s),
                None => None,
            },
        }
    }

    /// Expand the argument to `n` materialized rows, copying a broadcast
    /// scalar onto every row.
    pub fn materialize(&self, n: usize) -> (r: Vec<Option<String>>)
        requires
            self.spans(n as int),
        ensures
            r@.len() == n,
            forall|i: int| 0 <= i < n ==> r.deep_view()[i] == self.row(i),
    {
        let mut out: Vec<Option<String>> = Vec::new();
        let mut i: usize = 0;
        while i < n
            invariant
                i <= n,
                self.spans(n as int),
                out@.len() == i,
                forall|j: int| 0 <= j < i ==> out.deep_view()[j] == self.row(j),
            decreases n - i,
        {
            let v: Option<String> = match self.row_at(i) {
                Some(s) => Some(s.clone()),
                None => None,
            };
            out.push(v);
            i = i + 1;
        }
        out
    }
}

} // verus!
