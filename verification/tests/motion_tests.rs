use logana::commands::{quote_command_arg, quote_for_command};
use logana::motion::{
    apply_char_motion, char_left, char_right, find_char_backward, find_char_forward, first_nonblank, is_word_char,
    reverse_motion, till_char_backward, till_char_forward, word_backward, word_backward_big, word_end, word_end_big,
    word_forward, word_forward_big, PendingMotion,
};

#[test]
fn test_quote_for_command_no_spaces() {
    assert_eq!(quote_for_command("hello"), "hello");
    assert_eq!(quote_for_command(r"192\.168\.1\.1"), r"192\.168\.1\.1");
}

#[test]
fn test_quote_for_command_with_spaces() {
    assert_eq!(quote_for_command("hello world"), r#""hello world""#);
}

#[test]
fn test_quote_for_command_embedded_quote() {
    assert_eq!(quote_for_command(r#"say "hi" now"#), r#""say \"hi\" now""#);
}

#[test]
fn test_quote_for_command_empty() {
    assert_eq!(quote_for_command(""), "");
}

#[test]
fn test_word_forward_from_start() {
    assert_eq!(word_forward("foo bar", 0), 4);
}

#[test]
fn test_word_forward_at_end() {
    assert_eq!(word_forward("foo", 2), 2);
}

#[test]
fn test_word_backward_from_second_word() {
    assert_eq!(word_backward("foo bar", 4), 0);
}

#[test]
fn test_word_backward_at_start() {
    assert_eq!(word_backward("foo", 0), 0);
}

#[test]
fn test_word_end_from_start() {
    assert_eq!(word_end("foo bar", 0), 2);
}

#[test]
fn test_first_nonblank_with_leading_spaces() {
    assert_eq!(first_nonblank("  hello"), 2);
}

#[test]
fn test_first_nonblank_no_leading_spaces() {
    assert_eq!(first_nonblank("hello"), 0);
}

#[test]
fn test_first_nonblank_all_spaces() {
    assert_eq!(first_nonblank("   "), 0);
}

#[test]
fn test_find_char_forward_finds_first() {
    assert_eq!(find_char_forward("hello", 0, 'l'), 2);
}

#[test]
fn test_find_char_forward_finds_second() {
    assert_eq!(find_char_forward("hello", 2, 'l'), 3);
}

#[test]
fn test_find_char_forward_not_found() {
    assert_eq!(find_char_forward("hello", 4, 'z'), 4);
}

#[test]
fn test_find_char_backward_finds_last() {
    assert_eq!(find_char_backward("hello", 4, 'l'), 3);
}

#[test]
fn test_find_char_backward_finds_prev() {
    assert_eq!(find_char_backward("hello", 3, 'l'), 2);
}

#[test]
fn test_find_char_backward_not_found() {
    assert_eq!(find_char_backward("hello", 1, 'z'), 1);
}

#[test]
fn test_till_char_forward_stops_before() {
    assert_eq!(till_char_forward("hello", 0, 'l'), 1);
}

#[test]
fn test_till_char_forward_not_found() {
    assert_eq!(till_char_forward("hello", 0, 'z'), 0);
}

#[test]
fn test_till_char_backward_stops_after() {
    assert_eq!(till_char_backward("hello", 4, 'e'), 2);
}

#[test]
fn test_char_right_empty_string() {
    assert_eq!(char_right("", 0), 0);
}

#[test]
fn test_word_forward_big() {
    assert_eq!(word_forward_big("foo.bar baz", 0), 8);
}

#[test]
fn test_word_backward_big() {
    assert_eq!(word_backward_big("foo bar.baz", 10), 4);
}

#[test]
fn char_left_stops_at_zero() {
    assert_eq!(char_left(0), 0);
    assert_eq!(char_left(3), 2);
}

#[test]
fn char_right_stops_at_last_char() {
    assert_eq!(char_right("abc", 1), 2);
    assert_eq!(char_right("abc", 2), 2);
}

#[test]
fn word_forward_skips_punctuation_class() {
    assert_eq!(word_forward("foo.bar", 0), 3);
    assert_eq!(word_forward("foo.bar", 3), 4);
}

#[test]
fn word_end_big_crosses_punctuation() {
    assert_eq!(word_end_big("foo.bar baz", 0), 6);
    assert_eq!(word_end("foo.bar baz", 0), 2);
}

#[test]
fn word_char_classes() {
    assert!(is_word_char('a'));
    assert!(is_word_char('_'));
    assert!(is_word_char('7'));
    assert!(!is_word_char('.'));
    assert!(!is_word_char(' '));
}

#[test]
fn repeated_motion_and_its_reverse() {
    let m = PendingMotion::FindForward;
    assert_eq!(apply_char_motion("a-b-c", 0, &m, '-'), 1);
    let back = reverse_motion(&m);
    assert_eq!(apply_char_motion("a-b-c", 4, &back, '-'), 3);
    assert_eq!(reverse_motion(&back), m);
}

#[test]
fn quote_command_arg_quotes_whitespace_and_escapes() {
    assert_eq!(quote_command_arg("net"), "net");
    assert_eq!(quote_command_arg("my group"), r#""my group""#);
    assert_eq!(quote_command_arg(r#"a "b"\c"#), r#""a \"b\"\\c""#);
}
