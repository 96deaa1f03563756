use zkp_pipeline::error::PipelineError;
use zkp_pipeline::input::{
    check_arity, select_input_source, stdin_raw_tokens, tokenize_raw, InputSource,
};

#[test]
fn inline_raw_arguments_are_accepted() {
    assert!(matches!(select_input_source(false, false), Ok(InputSource::Inline)));
}

#[test]
fn stdin_raw_arguments_are_accepted() {
    assert!(matches!(select_input_source(true, false), Ok(InputSource::StdinRaw)));
}

#[test]
fn stdin_abi_arguments_are_accepted() {
    assert!(matches!(select_input_source(true, true), Ok(InputSource::StdinAbi)));
}

#[test]
fn abi_input_given_inline_is_refused() {
    assert!(matches!(
        select_input_source(false, true),
        Err(PipelineError::UnsupportedCombination)
    ));
}

#[test]
fn arity_matches() {
    assert!(check_arity(2, 2).is_ok());
    assert!(check_arity(0, 0).is_ok());
}

#[test]
fn arity_mismatch_with_no_inputs() {
    assert!(matches!(
        check_arity(2, 0),
        Err(PipelineError::Arity { expected: 2, found: 0 })
    ));
}

#[test]
fn arity_mismatch_with_too_many_inputs() {
    assert!(matches!(
        check_arity(2, 3),
        Err(PipelineError::Arity { expected: 2, found: 3 })
    ));
    assert!(matches!(
        check_arity(0, 1),
        Err(PipelineError::Arity { expected: 0, found: 1 })
    ));
}

#[test]
fn tokens_split_at_spaces() {
    assert_eq!(tokenize_raw("3 4"), vec!["3".to_string(), "4".to_string()]);
}

#[test]
fn tokens_drop_newlines() {
    assert_eq!(tokenize_raw("3 4\n"), vec!["3".to_string(), "4".to_string()]);
    assert_eq!(tokenize_raw("1\n2 3"), vec!["12".to_string(), "3".to_string()]);
}

#[test]
fn tokens_keep_empty_pieces() {
    assert_eq!(
        tokenize_raw("3  4"),
        vec!["3".to_string(), "".to_string(), "4".to_string()]
    );
    assert_eq!(tokenize_raw(""), vec!["".to_string()]);
    assert_eq!(tokenize_raw(" "), vec!["".to_string(), "".to_string()]);
}

#[test]
fn tokens_keep_other_characters() {
    assert_eq!(tokenize_raw("é1 x"), vec!["é1".to_string(), "x".to_string()]);
}

#[test]
fn stdin_is_ignored_without_arguments() {
    assert!(stdin_raw_tokens("3 4\n", 0).is_empty());
    assert!(stdin_raw_tokens("", 0).is_empty());
}

#[test]
fn stdin_tokens_with_arguments() {
    assert_eq!(
        stdin_raw_tokens("3 4\n", 2),
        vec!["3".to_string(), "4".to_string()]
    );
}
