use logana::highlight::{apply_char_selection, MarkedSpan};
use logana::visual_char::display_line_text;
use logana::visual_line::lo_line_index;

fn joined(spans: &[MarkedSpan<u8>]) -> String {
    spans.iter().map(|s| s.text.as_str()).collect()
}

#[test]
fn test_apply_char_selection_single_span() {
    let line = vec![("hello world".to_string(), 0u8)];
    let result = apply_char_selection(&line, 0, 4);
    assert_eq!(joined(&result), "hello world");
    assert!(result[0].reversed);
    assert!(!result[1].reversed);
}

#[test]
fn test_apply_char_selection_full_span() {
    let line = vec![("hi".to_string(), 0u8)];
    let result = apply_char_selection(&line, 0, 1);
    assert_eq!(result.len(), 1);
    assert!(result[0].reversed);
}

#[test]
fn test_apply_char_selection_out_of_range_noop() {
    let line = vec![("hello".to_string(), 0u8)];
    let result = apply_char_selection(&line, 10, 20);
    assert_eq!(result.len(), 1);
    assert!(!result[0].reversed);
}

#[test]
fn selection_in_the_middle_splits_one_span_in_three() {
    let line = vec![("abcdef".to_string(), 7u8)];
    let result = apply_char_selection(&line, 2, 3);
    let texts: Vec<&str> = result.iter().map(|s| s.text.as_str()).collect();
    assert_eq!(texts, vec!["ab", "cd", "ef"]);
    let flags: Vec<bool> = result.iter().map(|s| s.reversed).collect();
    assert_eq!(flags, vec![false, true, false]);
    assert!(result.iter().all(|s| s.style == 7));
}

#[test]
fn selection_across_spans_keeps_each_style_and_the_text() {
    let line = vec![("ab".to_string(), 1u8), ("cd".to_string(), 2u8), ("é!".to_string(), 3u8)];
    let result = apply_char_selection(&line, 1, 4);
    assert_eq!(joined(&result), "abcdé!");
    let texts: Vec<(&str, bool, u8)> = result.iter().map(|s| (s.text.as_str(), s.reversed, s.style)).collect();
    assert_eq!(
        texts,
        vec![("a", false, 1), ("b", true, 1), ("cd", true, 2), ("é", true, 3), ("!", false, 3)]
    );
}

#[test]
fn empty_line_gives_no_pieces() {
    let line: Vec<(String, u8)> = Vec::new();
    assert!(apply_char_selection(&line, 0, 3).is_empty());
}

#[test]
fn displayed_line_text_prefers_laid_out_fields() {
    let fields = vec!["INFO".to_string(), "started".to_string()];
    assert_eq!(display_line_text(Some((b"raw".as_slice(), Some(&fields)))), "INFO started");
    assert_eq!(display_line_text(Some((b"abc\xff".as_slice(), None))), "abc\u{FFFD}");
    assert_eq!(display_line_text(Some(("héllo".as_bytes(), None))), "héllo");
    assert_eq!(display_line_text(None), "");
}

#[test]
fn first_selected_row_is_clamped() {
    assert_eq!(lo_line_index(5, 2, 10), Some(2));
    assert_eq!(lo_line_index(1, 7, 10), Some(1));
    assert_eq!(lo_line_index(5, 8, 3), Some(2));
    assert_eq!(lo_line_index(0, 0, 0), None);
}
