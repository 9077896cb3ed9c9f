use ansi_senor::capture::exit_code_or_default;
use ansi_senor::capture::summary_text;
use ansi_senor::capture::OutputAccumulator;

#[test]
fn fresh_accumulator_is_empty() {
    let acc = OutputAccumulator::new();
    assert_eq!(acc.into_text(), "");
}

#[test]
fn one_line_gets_one_newline() {
    let mut acc = OutputAccumulator::new();
    acc.push_line(b"hello");
    assert_eq!(acc.into_text(), "hello\n");
}

#[test]
fn lines_accumulate_in_order() {
    let mut acc = OutputAccumulator::new();
    acc.push_lines(&vec![b"first".to_vec(), b"second".to_vec(), b"".to_vec()]);
    assert_eq!(acc.into_text(), "first\nsecond\n\n");
}

#[test]
fn push_lines_matches_individual_pushes() {
    let mut one = OutputAccumulator::new();
    one.push_line(b"a");
    one.push_line(b"b");
    let mut all = OutputAccumulator::new();
    all.push_lines(&vec![b"a".to_vec(), b"b".to_vec()]);
    assert_eq!(one.into_text(), all.into_text());
}

#[test]
fn invalid_bytes_are_replaced_not_fatal() {
    let mut acc = OutputAccumulator::new();
    acc.push_line(&[0xff, 0xfe]);
    assert_eq!(acc.into_text(), "\u{fffd}\u{fffd}\n");
}

#[test]
fn exit_code_is_propagated() {
    assert_eq!(exit_code_or_default(Some(0)), 0);
    assert_eq!(exit_code_or_default(Some(7)), 7);
}

#[test]
fn missing_exit_code_defaults_to_one() {
    assert_eq!(exit_code_or_default(None), 1);
}

#[test]
fn summary_keeps_existing_trailing_newline() {
    assert_eq!(
        summary_text("echo hi", " took < 1s", "hello\n"),
        "\n---\n\u{276f} echo hi took < 1s\nhello\n---\n\n"
    );
}

#[test]
fn summary_adds_missing_trailing_newline() {
    assert_eq!(
        summary_text("echo hi", " took 1m5s", "partial"),
        "\n---\n\u{276f} echo hi took 1m5s\npartial\n---\n\n"
    );
}

#[test]
fn summary_of_empty_output_still_ends_lines() {
    assert_eq!(
        summary_text("true", " took < 1s", ""),
        "\n---\n\u{276f} true took < 1s\n\n---\n\n"
    );
}
