use logana::comment::{split_newlines, CommentBinding, CommentEffect, CommentMode, CommentNext};
use logana::default_filters::DefaultFiltersMode;
use logana::export_footer::{ExportFooterMode, FooterNext};
use logana::fuzzy::fuzzy_match;
use logana::key::{Key, KeyInput, KeyResult};
use logana::nav::push_count_key;
use logana::picker::{FileSwitcherMode, NavBinding, PickerNext, ThemePickerMode};
use logana::text::{contains_whitespace, join_with, trim, trim_start};
use logana::value_colors::{ValueColorEntry, ValueColorGroup, ValueColorRow, ValueColorsMode, ValueColorsStep};
use logana::visual_char::{ScrollState, VisualAction, VisualMode, VisualNext};

fn key(k: Key) -> KeyInput {
    KeyInput { key: k, ctrl: false, alt: false, shift: false, meta: false }
}

fn ctrl(c: char) -> KeyInput {
    KeyInput { key: Key::Char(c), ctrl: true, alt: false, shift: false, meta: false }
}

fn footer() -> ExportFooterMode {
    ExportFooterMode::new(
        "/tmp/out.md".to_string(),
        "markdown".to_string(),
        vec!["conclusion".to_string(), "next_steps".to_string()],
    )
}

#[test]
fn footer_tab_cycles_fields() {
    let mut m = footer();
    let (next, res) = m.handle_key(key(Key::Tab));
    assert_eq!(next, FooterNext::Stay);
    assert!(matches!(res, KeyResult::Handled));
    assert_eq!(m.active_idx, 1);
    m.handle_key(key(Key::Tab));
    assert_eq!(m.active_idx, 0);
}

#[test]
fn footer_typing_and_ctrl_s_exports() {
    let mut m = footer();
    for c in "ok".chars() {
        m.handle_key(key(Key::Char(c)));
    }
    m.handle_key(key(Key::Tab));
    for c in "a".chars() {
        m.handle_key(key(Key::Char(c)));
    }
    m.handle_key(key(Key::Enter));
    m.handle_key(key(Key::Char('b')));
    let (next, res) = m.handle_key(ctrl('s'));
    assert_eq!(next, FooterNext::Normal);
    match res {
        KeyResult::ExportWithFooter { path, template_name, footer_fields } => {
            assert_eq!(path, "/tmp/out.md");
            assert_eq!(template_name, "markdown");
            assert_eq!(
                footer_fields,
                vec![("conclusion".to_string(), "ok".to_string()), ("next_steps".to_string(), "a\nb".to_string())]
            );
        }
        other => panic!("expected export, got {other:?}"),
    }
}

#[test]
fn footer_delete_merges_next_line() {
    let mut m = footer();
    m.handle_key(key(Key::Char('a')));
    m.handle_key(key(Key::Enter));
    m.handle_key(key(Key::Char('b')));
    m.handle_key(key(Key::Up));
    m.handle_key(key(Key::Delete));
    assert_eq!(m.active_lines(), &vec!["ab".to_string()]);
    let (next, _) = m.handle_key(key(Key::Esc));
    assert_eq!(next, FooterNext::Normal);
}

#[test]
fn comment_editing_and_save() {
    let mut m = CommentMode::new(vec![4, 5]);
    m.handle_key(None, key(Key::Char('h')));
    m.handle_key(None, key(Key::Char('i')));
    m.handle_key(Some(CommentBinding::Newline), key(Key::Enter));
    m.handle_key(None, key(Key::Char('x')));
    m.handle_key(None, key(Key::Backspace));
    m.handle_key(None, key(Key::Backspace));
    assert_eq!(m.lines, vec!["hi"]);
    let (next, fx) = m.handle_key(Some(CommentBinding::Save), ctrl('s'));
    assert!(matches!(next, CommentNext::Normal));
    match fx {
        CommentEffect::Save { text, line_indices, editing_index } => {
            assert_eq!(text, "hi");
            assert_eq!(line_indices, vec![4, 5]);
            assert_eq!(editing_index, None);
        }
        _ => panic!("expected save"),
    }
    assert_eq!(split_newlines("a\nb\n"), vec!["a", "b", ""]);
}

#[test]
fn comment_delete_in_edit_mode() {
    let mut m = CommentMode::edit(2, "x".to_string(), vec![1]);
    let (_, fx) = m.handle_key(Some(CommentBinding::Delete), ctrl('d'));
    assert!(matches!(fx, CommentEffect::Delete(Some(2))));
}

fn vmode(text: &str) -> VisualMode {
    VisualMode::new(text.to_string())
}

fn scroll() -> ScrollState {
    ScrollState { scroll_offset: 0, visible_height: 10, line_count: 5, g_key_pressed: false }
}

#[test]
fn visual_char_motions_and_filter() {
    let mut m = vmode("192.168.1.1 GET /api");
    let mut s = scroll();
    m.handle_key(VisualAction::StartSelection, false, Some('v'), &mut s);
    for _ in 0..10 {
        m.handle_key(VisualAction::MoveRight, false, Some('l'), &mut s);
    }
    assert_eq!(m.selection_range(), (0, 10));
    assert_eq!(m.selected_text(), "192.168.1.1");
    let (next, _) = m.handle_key(VisualAction::FilterInclude, false, Some('i'), &mut s);
    assert!(matches!(next, VisualNext::Command { ref input, .. } if input == r"filter 192\.168\.1\.1"));
}

#[test]
fn visual_char_find_repeat_and_reverse() {
    let mut m = vmode("a-b-c-d");
    let mut s = scroll();
    m.handle_key(VisualAction::FindForward, false, Some('f'), &mut s);
    m.handle_key(VisualAction::Unbound, false, Some('-'), &mut s);
    assert_eq!(m.cursor_col, 1);
    m.handle_key(VisualAction::RepeatMotion, false, Some(';'), &mut s);
    assert_eq!(m.cursor_col, 3);
    m.handle_key(VisualAction::RepeatMotionRev, false, Some(','), &mut s);
    assert_eq!(m.cursor_col, 1);
    m.handle_key(VisualAction::EndOfLine, false, Some('$'), &mut s);
    assert_eq!(m.cursor_col, 6);
    let (next, _) = m.handle_key(VisualAction::ScrollDown, false, Some('j'), &mut s);
    assert!(matches!(next, VisualNext::LineChanged));
    assert_eq!(s.scroll_offset, 1);
}

#[test]
fn file_switcher_narrows_and_switches() {
    let entries = vec![(0, "app.log".to_string()), (1, "db.log".to_string()), (2, "auth.log".to_string())];
    let mut m = FileSwitcherMode::new(entries, 0);
    m.handle_key(None, false, key(Key::Char('d')));
    m.handle_key(None, false, key(Key::Char('b')));
    assert_eq!(m.visible_entries(), vec![1]);
    let (next, res) = m.handle_key(None, false, key(Key::Enter));
    assert_eq!(next, PickerNext::Normal);
    assert!(matches!(res, KeyResult::SwitchToTab(1)));
}

#[test]
fn theme_picker_previews_and_reverts() {
    let mut m = ThemePickerMode::new(vec!["dracula".to_string(), "nord".to_string()], "old");
    let (_, res) = m.handle_key(Some(NavBinding::Down), key(Key::Char('j')));
    assert!(matches!(res, KeyResult::PreviewTheme(ref t) if t == "nord"));
    let (_, res) = m.handle_key(None, key(Key::Enter));
    assert!(matches!(res, KeyResult::ConfirmTheme(ref t) if t == "nord"));
    let mut m = ThemePickerMode::new(vec!["dracula".to_string()], "old");
    let (next, res) = m.handle_key(None, key(Key::Esc));
    assert_eq!(next, PickerNext::Normal);
    assert!(matches!(res, KeyResult::RevertTheme));
}

#[test]
fn default_filters_edit_path() {
    let names = vec![("acme".to_string(), true)];
    let mut m = DefaultFiltersMode::new(names, &vec![]);
    m.handle_list_key(None, key(Key::Enter));
    assert!(m.editing.is_some());
    for c in "/x.json".chars() {
        m.handle_edit_key(key(Key::Char(c)), &vec![]);
    }
    let (_, res) = m.handle_edit_key(key(Key::Enter), &vec![]);
    assert!(matches!(res, KeyResult::SetDefaultFilterFile { ref format, path: Some(ref p) } if format == "acme" && p == "/x.json"));
}

#[test]
fn text_helpers() {
    assert_eq!(trim("  a b \t"), "a b");
    assert_eq!(trim_start("  a b "), "a b ");
    assert!(contains_whitespace("a b"));
    assert!(!contains_whitespace("ab"));
    assert_eq!(join_with(&vec!["a".to_string(), "b".to_string()], '\n'), "a\nb");
    assert!(fuzzy_match("NRD", "nord"));
    assert!(!fuzzy_match("dn", "nord"));
    assert!(fuzzy_match("", "x"));
}

#[test]
fn count_keys() {
    assert_eq!(push_count_key(None, &key(Key::Char('0'))), None);
    assert_eq!(push_count_key(Some(4), &key(Key::Char('0'))), Some(Some(40)));
    assert_eq!(push_count_key(Some(4), &ctrl('2')), None);
}

fn color_groups() -> Vec<ValueColorGroup> {
    let e = |k: &str, l: &str, on: bool| ValueColorEntry {
        key: k.to_string(),
        label: l.to_string(),
        color: ratatui::style::Color::Green,
        enabled: on,
    };
    vec![
        ValueColorGroup { label: "HTTP methods".to_string(), children: vec![e("http_get", "GET", true), e("http_post", "POST", false)] },
        ValueColorGroup { label: "Status codes".to_string(), children: vec![e("status_2xx", "2xx", true)] },
    ]
}

#[test]
fn value_colors_rows_toggle_and_apply() {
    let m = ValueColorsMode::new(color_groups(), vec!["orig".to_string()]);
    assert_eq!(m.visible_rows().len(), 5);
    assert_eq!(m.group_enabled(0), None);
    assert_eq!(m.group_enabled(1), Some(true));
    let m = match m.handle_key(key(Key::Char(' '))).0 {
        ValueColorsStep::Stay(m) => m,
        _ => panic!("expected stay"),
    };
    assert_eq!(m.group_enabled(0), Some(true));
    let m = match m.handle_key(key(Key::Char('2'))).0 {
        ValueColorsStep::Stay(m) => m,
        _ => panic!("expected stay"),
    };
    assert_eq!(m.visible_rows(), vec![ValueColorRow::Group(1), ValueColorRow::Entry(1, 0)]);
    let m = match m.handle_key(key(Key::Char('n'))).0 {
        ValueColorsStep::Stay(m) => m,
        _ => panic!("expected stay"),
    };
    assert_eq!(m.search, "2n");
    assert!(m.visible_rows().is_empty());
    match m.handle_key(key(Key::Enter)).0 {
        ValueColorsStep::Apply(keys) => assert!(keys.is_empty()),
        _ => panic!("expected apply"),
    }
    let m = ValueColorsMode::new(color_groups(), vec!["orig".to_string()]);
    let m = match m.handle_key(key(Key::Char('n'))).0 {
        ValueColorsStep::Stay(m) => m,
        _ => panic!("expected stay"),
    };
    match m.handle_key(key(Key::Enter)).0 {
        ValueColorsStep::Apply(keys) => assert_eq!(keys, vec!["http_get", "http_post", "status_2xx"]),
        _ => panic!("expected apply"),
    }
    let m = ValueColorsMode::new(color_groups(), vec!["orig".to_string()]);
    match m.handle_key(key(Key::Esc)).0 {
        ValueColorsStep::Restore(h) => assert_eq!(h, vec!["orig"]),
        _ => panic!("expected restore"),
    }
}

#[test]
fn semicolon_repeats_last_find() {
    let mut m = vmode("aXbXcX");
    let mut s = scroll();
    let (next, result) = m.handle_key(VisualAction::FindForward, false, Some('f'), &mut s);
    assert!(matches!(next, VisualNext::Stay) && matches!(result, KeyResult::Handled));
    assert_eq!(m.cursor_col, 0);
    m.handle_key(VisualAction::Unbound, false, Some('X'), &mut s);
    assert_eq!(m.cursor_col, 1);
    m.handle_key(VisualAction::RepeatMotion, false, Some(';'), &mut s);
    assert_eq!(m.cursor_col, 3);
    m.handle_key(VisualAction::RepeatMotion, false, Some(';'), &mut s);
    assert_eq!(m.cursor_col, 5);
}

#[test]
fn start_selection_stays_and_keeps_cursor() {
    let mut m = vmode("hello");
    let mut s = scroll();
    m.handle_key(VisualAction::MoveRight, false, Some('l'), &mut s);
    let (next, result) = m.handle_key(VisualAction::StartSelection, false, Some('v'), &mut s);
    assert!(matches!(next, VisualNext::Stay) && matches!(result, KeyResult::Handled));
    assert_eq!(m.cursor_col, 1);
    assert_eq!(m.anchor_col, Some(1));
}

#[test]
fn seeded_cursor_keeps_the_match_column() {
    assert_eq!(VisualMode::seeded("abc".to_string(), 1).cursor_col, 1);
    let mut m = VisualMode::seeded("abc".to_string(), 3);
    assert_eq!(m.cursor_col, 3);
    assert_eq!(m.selected_text(), "");
    let mut s = scroll();
    m.handle_key(VisualAction::MoveLeft, false, Some('h'), &mut s);
    assert_eq!(m.cursor_col, 2);
    assert_eq!(VisualMode::seeded(String::new(), 0).cursor_col, 0);
}
