//! Edge cases and the library's stated properties, on concrete values.

use regexp_extract::regexp_extract;
use regexp_extract::{ColumnArg, ExtractError};

fn some_strings(values: Vec<&str>) -> Vec<Option<String>> {
    values.into_iter().map(|s| Some(s.to_string())).collect()
}

#[test]
fn broadcast_equivalence_text_argument() {
    let materialized = ColumnArg::Array(some_strings(vec!["a-b", "a-b", "a-b"]));
    let scalar = ColumnArg::Scalar(Some("a-b".to_string()));
    let pattern = ColumnArg::Scalar(Some(r"(\w)-(\w)".to_string()));

    let from_column = regexp_extract(&materialized, &pattern, Some(2), 3).unwrap();
    let from_scalar = regexp_extract(&scalar, &pattern, Some(2), 3).unwrap();

    assert_eq!(from_column, from_scalar);
    assert_eq!(from_scalar, some_strings(vec!["b", "b", "b"]));
}

#[test]
fn broadcast_equivalence_pattern_argument() {
    let text = ColumnArg::Array(some_strings(vec!["x1", "y2"]));
    let materialized = ColumnArg::Array(some_strings(vec![r"(\d)", r"(\d)"]));
    let scalar = ColumnArg::Scalar(Some(r"(\d)".to_string()));

    let from_column = regexp_extract(&text, &materialized, Some(1), 2).unwrap();
    let from_scalar = regexp_extract(&text, &scalar, Some(1), 2).unwrap();

    assert_eq!(from_column, from_scalar);
    assert_eq!(from_scalar, some_strings(vec!["1", "2"]));
}

#[test]
fn empty_batch_yields_empty_column() {
    let text = ColumnArg::Array(Vec::new());
    let pattern = ColumnArg::Scalar(Some(r"(\d+)".to_string()));
    let result = regexp_extract(&text, &pattern, Some(1), 0).unwrap();
    assert_eq!(result, Vec::<Option<String>>::new());
}

#[test]
fn null_pattern_on_non_null_text_is_compile_error() {
    let text = ColumnArg::Array(some_strings(vec!["abc"]));
    let pattern = ColumnArg::Scalar(None);
    let result = regexp_extract(&text, &pattern, Some(0), 1);
    match result {
        Err(ExtractError::PatternCompile(m)) => {
            assert_eq!(m, "Error compiling regex: pattern value is null");
        }
        _ => panic!("Expected a PatternCompile error"),
    }
}

#[test]
fn null_pattern_on_null_text_is_never_inspected() {
    let text = ColumnArg::Array(vec![None, None]);
    let pattern = ColumnArg::Scalar(None);
    let result = regexp_extract(&text, &pattern, Some(0), 2).unwrap();
    assert_eq!(result, vec![None, None]);
}

#[test]
fn invalid_pattern_on_null_text_is_never_compiled() {
    let text = ColumnArg::Array(vec![None]);
    let pattern = ColumnArg::Scalar(Some("[invalid-regex".to_string()));
    let result = regexp_extract(&text, &pattern, Some(1), 1).unwrap();
    assert_eq!(result, vec![None]);
}

#[test]
fn missing_group_index_is_invalid_argument() {
    let text = ColumnArg::Array(some_strings(vec!["abc"]));
    let pattern = ColumnArg::Scalar(Some("a".to_string()));
    let result = regexp_extract(&text, &pattern, None, 1);
    match result {
        Err(ExtractError::InvalidArgument(m)) => {
            assert_eq!(m, "Expected a single non-null Int64 for the group index.");
        }
        _ => panic!("Expected an InvalidArgument error"),
    }
}

#[test]
fn negative_group_index_message_is_exact() {
    let text = ColumnArg::Array(some_strings(vec!["abc"]));
    let pattern = ColumnArg::Scalar(Some("a".to_string()));
    let result = regexp_extract(&text, &pattern, Some(-5), 1);
    match result {
        Err(ExtractError::InvalidArgument(m)) => {
            assert_eq!(m, "Group index must be a non-negative integer.");
        }
        _ => panic!("Expected an InvalidArgument error"),
    }
}

#[test]
fn group_that_did_not_participate_is_empty_string() {
    let text = ColumnArg::Array(some_strings(vec!["b"]));
    let pattern = ColumnArg::Scalar(Some("(a)|(b)".to_string()));
    // group 1 exists in the pattern but only the `(b)` branch fired
    let first = regexp_extract(&text, &pattern, Some(1), 1).unwrap();
    assert_eq!(first, some_strings(vec![""]));
    let second = regexp_extract(&text, &pattern, Some(2), 1).unwrap();
    assert_eq!(second, some_strings(vec!["b"]));
}

#[test]
fn first_bad_pattern_row_aborts_the_invocation() {
    let text = ColumnArg::Array(some_strings(vec!["a", "b"]));
    let pattern = ColumnArg::Array(some_strings(vec!["a", "[invalid-regex"]));
    let result = regexp_extract(&text, &pattern, Some(0), 2);
    match result {
        Err(ExtractError::PatternCompile(m)) => {
            assert!(m.starts_with("Error compiling regex: "));
        }
        _ => panic!("Expected a PatternCompile error"),
    }
}

#[test]
fn leftmost_match_is_taken() {
    let text = ColumnArg::Scalar(Some("one 1 two 2".to_string()));
    let pattern = ColumnArg::Scalar(Some(r"(\d)".to_string()));
    let result = regexp_extract(&text, &pattern, Some(1), 1).unwrap();
    assert_eq!(result, some_strings(vec!["1"]));
}

#[test]
fn materialize_expands_a_scalar() {
    let scalar = ColumnArg::Scalar(Some("x".to_string()));
    let expanded = scalar.materialize(3);
    assert_eq!(expanded, some_strings(vec!["x", "x", "x"]));

    let null_scalar = ColumnArg::Scalar(None);
    assert_eq!(null_scalar.materialize(2), vec![None, None]);
}

#[test]
fn materialize_keeps_a_column() {
    let column = ColumnArg::Array(vec![Some("a".to_string()), None]);
    assert_eq!(column.materialize(2), vec![Some("a".to_string()), None]);
}

#[test]
fn error_message_accessor_returns_the_message() {
    let text = ColumnArg::Array(some_strings(vec!["a"]));
    let pattern = ColumnArg::Scalar(Some("a".to_string()));
    let err = regexp_extract(&text, &pattern, Some(-1), 1).unwrap_err();
    assert_eq!(err.message(), "Group index must be a non-negative integer.");
}
