use logana::archive::{ArchiveNodeKind, ArchiveRow, CheckState};
use logana::archive_picker::{
    ArchiveBinding, ArchiveEntry, ArchivePickerMode, ArchiveRequest, ArchiveSearchBinding,
};
use logana::key::{Key, KeyInput, KeyResult};
use logana::picker::PickerNext;
use logana::render::ModeRenderState;

fn entry(name: &str, depth: usize, parent: Option<usize>, kind: ArchiveNodeKind) -> ArchiveEntry {
    ArchiveEntry { name: name.to_string(), depth, parent, kind }
}

/// 0: File "a.log" (root); 1: Container "bundle.zip" (root) holding
/// 2: File "inner1.log" and 3: File "inner2.log".
fn entries() -> Vec<ArchiveEntry> {
    vec![
        entry("a.log", 0, None, ArchiveNodeKind::File),
        entry("bundle.zip", 0, None, ArchiveNodeKind::Container),
        entry("inner1.log", 1, Some(1), ArchiveNodeKind::File),
        entry("inner2.log", 1, Some(1), ArchiveNodeKind::File),
    ]
}

fn mode() -> ArchivePickerMode {
    ArchivePickerMode::new(entries(), vec![0, 1, 2, 3], "archive.zip".to_string())
}

fn key(k: Key) -> KeyInput {
    KeyInput { key: k, ctrl: false, alt: false, shift: false, meta: false }
}

/// The default key map: Enter applies (confirms a search), Esc cancels,
/// `/` searches, j/k move, space toggles, `a` and `n` check all and none.
fn press_with(m: &mut ArchivePickerMode, k: Key, checked: bool) -> (PickerNext, KeyResult, ArchiveRequest) {
    let bound = match k {
        Key::Enter => Some(ArchiveBinding::Apply),
        Key::Esc => Some(ArchiveBinding::Cancel),
        Key::Char('/') => Some(ArchiveBinding::Search),
        Key::Char('j') | Key::Down => Some(ArchiveBinding::Down),
        Key::Char('k') | Key::Up => Some(ArchiveBinding::Up),
        Key::Char(' ') => Some(ArchiveBinding::Toggle),
        Key::Char('a') => Some(ArchiveBinding::All),
        Key::Char('n') => Some(ArchiveBinding::Clear),
        _ => None,
    };
    let search_bound = match k {
        Key::Enter => Some(ArchiveSearchBinding::Confirm),
        Key::Esc => Some(ArchiveSearchBinding::Cancel),
        Key::Char('j') | Key::Down => Some(ArchiveSearchBinding::Down),
        Key::Char('k') | Key::Up => Some(ArchiveSearchBinding::Up),
        _ => None,
    };
    m.handle_key(key(k), bound, search_bound, checked)
}

fn press(m: &mut ArchivePickerMode, k: Key) -> (PickerNext, KeyResult, ArchiveRequest) {
    press_with(m, k, false)
}

/// Keys typed while searching: letters bound elsewhere (j, k) are typed
/// only where the key map leaves them unbound in search; the tests type
/// names without them.
fn enter_search_and_type(m: &mut ArchivePickerMode, text: &str) {
    press(m, Key::Char('/'));
    for c in text.chars() {
        press(m, Key::Char(c));
    }
}

fn state(m: &ArchivePickerMode, states: &Vec<CheckState>) -> (Vec<ArchiveRow>, usize, String, String, bool) {
    match m.render_state(states) {
        ModeRenderState::ArchivePicker { rows, selected, source_path, search, searching } => {
            (rows, selected, source_path, search, searching)
        },
        other => panic!("expected ArchivePicker, got {:?}", other),
    }
}

fn unchecked() -> Vec<CheckState> {
    vec![CheckState::Unchecked; 4]
}

fn names(m: &ArchivePickerMode) -> Vec<String> {
    state(m, &unchecked()).0.into_iter().map(|r| r.name).collect()
}

#[test]
fn test_new_flattens_visible_rows_in_preorder() {
    let m = mode();
    assert_eq!(m.visible_rows(), vec![0, 1, 2, 3]);
    assert_eq!(m.selected, 0);
}

#[test]
fn test_render_state_returns_archive_picker() {
    let m = mode();
    let (rows, selected, source_path, _, _) = state(&m, &unchecked());
    assert_eq!(rows.len(), 4);
    assert_eq!(selected, 0);
    assert_eq!(source_path, "archive.zip");
    assert_eq!(rows[0].name, "a.log");
    assert!(!rows[0].is_container);
    assert_eq!(rows[1].name, "bundle.zip");
    assert!(rows[1].is_container);
    assert_eq!(rows[2].depth, 1);
}

#[test]
fn archive_picker_mode_test_scroll_down_moves_cursor() {
    let mut m = mode();
    let (_, result, _) = press(&mut m, Key::Char('j'));
    assert!(matches!(result, KeyResult::Ignored));
    assert_eq!(state(&m, &unchecked()).1, 1);
}

#[test]
fn archive_picker_mode_test_scroll_down_clamped_at_last() {
    let mut m = mode();
    m.selected = 3;
    press(&mut m, Key::Char('j'));
    assert_eq!(state(&m, &unchecked()).1, 3);
}

#[test]
fn archive_picker_mode_test_scroll_up_clamped_at_zero() {
    let mut m = mode();
    press(&mut m, Key::Char('k'));
    assert_eq!(state(&m, &unchecked()).1, 0);
}

#[test]
fn toggle_asks_for_the_selected_row() {
    let mut m = mode();
    m.selected = 1;
    let (next, result, req) = press(&mut m, Key::Char(' '));
    assert_eq!(next, PickerNext::Stay);
    assert!(matches!(result, KeyResult::Ignored));
    assert_eq!(req, ArchiveRequest::ToggleSubtree(1));
}

#[test]
fn all_and_none_ask_for_every_file() {
    let mut m = mode();
    assert_eq!(press(&mut m, Key::Char('a')).2, ArchiveRequest::SelectAllFiles(true));
    assert_eq!(press(&mut m, Key::Char('n')).2, ArchiveRequest::SelectAllFiles(false));
}

#[test]
fn checking_all_files_leaves_containers() {
    let m = mode();
    let mut checked = vec![false, false, false, false];
    m.set_all_files_checked(&mut checked, true);
    assert_eq!(checked, vec![true, false, true, true]);
    assert!(m.any_file_checked(&checked));
    m.set_all_files_checked(&mut checked, false);
    assert_eq!(checked, vec![false, false, false, false]);
    assert!(!m.any_file_checked(&checked));
    assert!(!m.any_file_checked(&vec![false, true, false, false]));
}

#[test]
fn test_apply_with_zero_selected_shows_error_and_stays_in_mode() {
    let mut m = mode();
    let (next, result, req) = press_with(&mut m, Key::Enter, false);
    assert!(matches!(result, KeyResult::Handled));
    assert_eq!(next, PickerNext::Stay);
    assert_eq!(req, ArchiveRequest::NothingChecked);
    assert_eq!(ArchivePickerMode::nothing_checked_message(), "Select at least 1 file to extract");
}

#[test]
fn test_apply_with_selection_returns_extract_key_result() {
    let mut m = mode();
    let (next, result, req) = press_with(&mut m, Key::Enter, true);
    assert!(matches!(result, KeyResult::Handled));
    assert_eq!(next, PickerNext::Normal);
    assert_eq!(req, ArchiveRequest::Extract);
    assert_eq!(m.source_path, "archive.zip");
}

#[test]
fn archive_picker_mode_test_cancel_returns_to_normal_mode() {
    let mut m = mode();
    let (next, result, _) = press(&mut m, Key::Esc);
    assert!(matches!(result, KeyResult::Handled));
    assert_eq!(next, PickerNext::Normal);
}

#[test]
fn archive_picker_mode_test_unknown_key_returns_ignored() {
    let mut m = mode();
    let (_, result, req) = press(&mut m, Key::Other);
    assert!(matches!(result, KeyResult::Ignored));
    assert_eq!(req, ArchiveRequest::Nothing);
}

#[test]
fn test_row_for_unreadable_container_marks_is_error() {
    let mut es = entries();
    es[1].kind = ArchiveNodeKind::UnreadableContainer("bad zip".to_string());
    let m = ArchivePickerMode::new(es, vec![0, 1, 2, 3], "archive.zip".to_string());
    let rows = state(&m, &unchecked()).0;
    assert!(rows[1].is_error);
    assert!(rows[1].name.contains("bad zip"));
}

#[test]
fn render_state_shows_the_given_checkboxes() {
    let m = mode();
    let states = vec![CheckState::Checked, CheckState::Partial, CheckState::Checked, CheckState::Unchecked];
    let rows = state(&m, &states).0;
    let shown: Vec<CheckState> = rows.iter().map(|r| r.check_state).collect();
    assert_eq!(shown, states);
}

#[test]
fn test_search_starts_empty_and_not_searching() {
    let m = mode();
    let (_, _, _, search, searching) = state(&m, &unchecked());
    assert_eq!(search, "");
    assert!(!searching);
}

#[test]
fn archive_picker_mode_test_slash_enters_search_mode_with_empty_query() {
    let mut m = mode();
    let (_, result, _) = press(&mut m, Key::Char('/'));
    assert!(matches!(result, KeyResult::Handled));
    let (_, _, _, search, searching) = state(&m, &unchecked());
    assert!(searching);
    assert_eq!(search, "");
}

#[test]
fn archive_picker_mode_test_typing_while_searching_appends_to_query() {
    let mut m = mode();
    enter_search_and_type(&mut m, "in");
    let (_, _, _, search, searching) = state(&m, &unchecked());
    assert_eq!(search, "in");
    assert!(searching);
}

#[test]
fn test_search_narrows_to_matching_files_and_keeps_ancestor_container() {
    let mut m = mode();
    enter_search_and_type(&mut m, "inner1");
    assert_eq!(names(&m), vec!["bundle.zip", "inner1.log"]);
}

#[test]
fn test_search_supports_regex_alternation() {
    let mut m = mode();
    enter_search_and_type(&mut m, "a.log|inner2");
    assert_eq!(names(&m), vec!["a.log", "bundle.zip", "inner2.log"]);
}

#[test]
fn search_ignores_case() {
    let mut m = mode();
    enter_search_and_type(&mut m, "INNER2");
    assert_eq!(names(&m), vec!["bundle.zip", "inner2.log"]);
}

#[test]
fn test_search_invalid_regex_does_not_panic_and_falls_back_to_literal() {
    let mut m = mode();
    enter_search_and_type(&mut m, "(inner");
    assert!(state(&m, &unchecked()).0.is_empty());
}

#[test]
fn invalid_regex_matches_as_plain_text() {
    let es = vec![
        entry("(inner).log", 0, None, ArchiveNodeKind::File),
        entry("other.log", 0, None, ArchiveNodeKind::File),
    ];
    let mut m = ArchivePickerMode::new(es, vec![0, 1], "archive.zip".to_string());
    enter_search_and_type(&mut m, "(INNER");
    let rows = state(&m, &vec![CheckState::Unchecked; 2]).0;
    let names: Vec<String> = rows.into_iter().map(|r| r.name).collect();
    assert_eq!(names, vec!["(inner).log"]);
}

#[test]
fn archive_picker_mode_test_backspace_removes_last_search_char() {
    let mut m = mode();
    enter_search_and_type(&mut m, "in");
    press(&mut m, Key::Backspace);
    assert_eq!(state(&m, &unchecked()).3, "i");
}

#[test]
fn archive_picker_mode_test_action_letter_goes_to_query_while_searching_not_triggered() {
    let mut m = mode();
    press(&mut m, Key::Char('/'));
    let (_, result, req) = press(&mut m, Key::Char('a'));
    assert!(matches!(result, KeyResult::Handled));
    assert_eq!(req, ArchiveRequest::Nothing);
    assert_eq!(state(&m, &unchecked()).3, "a");
}

#[test]
fn test_none_letter_goes_to_query_while_searching_not_triggered() {
    let mut m = mode();
    press(&mut m, Key::Char('/'));
    let (_, _, req) = press_with(&mut m, Key::Char('n'), true);
    assert_eq!(req, ArchiveRequest::Nothing);
    assert_eq!(state(&m, &unchecked()).3, "n");
}

#[test]
fn test_space_goes_to_query_while_searching_not_toggled() {
    let mut m = mode();
    enter_search_and_type(&mut m, "a b");
    assert_eq!(state(&m, &unchecked()).3, "a b");
}

#[test]
fn archive_picker_mode_test_j_navigates_within_narrowed_list_while_searching() {
    let mut m = mode();
    enter_search_and_type(&mut m, "inner");
    let (rows, selected, _, _, _) = state(&m, &unchecked());
    assert_eq!(rows.len(), 3);
    assert_eq!(selected, 0);
    press(&mut m, Key::Char('j'));
    let (rows, selected, _, _, _) = state(&m, &unchecked());
    assert_eq!(selected, 1);
    assert_eq!(rows[1].name, "inner1.log");
}

#[test]
fn test_typing_a_character_resets_selection_to_top_of_narrowed_list() {
    let mut m = mode();
    m.selected = 3;
    enter_search_and_type(&mut m, "inner1");
    let (rows, selected, _, _, _) = state(&m, &unchecked());
    assert_eq!(rows.len(), 2);
    assert_eq!(selected, 0);
}

#[test]
fn archive_picker_mode_test_enter_confirms_search_and_translates_to_full_list_index() {
    let mut m = mode();
    enter_search_and_type(&mut m, "inner1");
    let (next, result, _) = press(&mut m, Key::Enter);
    assert!(matches!(result, KeyResult::Handled));
    assert_eq!(next, PickerNext::Stay);
    let (rows, selected, _, search, searching) = state(&m, &unchecked());
    assert!(!searching);
    assert_eq!(search, "");
    assert_eq!(rows.len(), 4);
    assert_eq!(rows[selected].name, "bundle.zip");
}

#[test]
fn archive_picker_mode_test_esc_cancels_search_and_restores_original_selection() {
    let mut m = mode();
    m.selected = 2;
    enter_search_and_type(&mut m, "bundle");
    let (next, result, _) = press(&mut m, Key::Esc);
    assert!(matches!(result, KeyResult::Handled));
    assert_eq!(next, PickerNext::Stay);
    let (rows, selected, _, search, searching) = state(&m, &unchecked());
    assert!(!searching);
    assert_eq!(search, "");
    assert_eq!(rows.len(), 4);
    assert_eq!(selected, 2);
    assert_eq!(rows[selected].name, "inner1.log");
}

#[test]
fn test_esc_exits_mode_when_not_searching() {
    let mut m = mode();
    let (next, result, _) = press(&mut m, Key::Esc);
    assert!(matches!(result, KeyResult::Handled));
    assert_eq!(next, PickerNext::Normal);
}

#[test]
fn ctrl_letters_are_not_typed_into_the_search() {
    let mut m = mode();
    press(&mut m, Key::Char('/'));
    let k = KeyInput { key: Key::Char('x'), ctrl: true, alt: false, shift: false, meta: false };
    let (_, result, _) = m.handle_key(k, None, None, false);
    assert!(matches!(result, KeyResult::Ignored));
    assert_eq!(m.search, "");
}
