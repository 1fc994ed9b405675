use logana::archive::ArchiveNodeKind;
use logana::archive_picker::{ArchiveEntry, ArchivePickerMode};
use logana::command::CommandMode;
use logana::comment::CommentMode;
use logana::confirm::{ConfirmRestoreMode, ConfirmRestoreSessionMode};
use logana::default_filters::{DefaultFiltersMode, PathEditState};
use logana::dlt::{AddDeviceState, DltSelectMode};
use logana::export_footer::ExportFooterMode;
use logana::filter_manage::{FilterEditMode, FilterManagementMode};
use logana::group::GroupManagementMode;
use logana::help::KeybindingsHelpMode;
use logana::modebar::{push_decimal, status_entry, status_entry_dyn, BarSpan, BarStyle};
use logana::normal::NormalMode;
use logana::picker::{FileSwitcherMode, ThemePickerMode};
use logana::render::ModeRenderState;
use logana::select::{DockerSelectMode, MergeSelectMode, SelectFieldsMode};
use logana::ui::{SearchMode, UiMode};
use logana::motion::PendingMotion;
use logana::visual_char::VisualMode;
use logana::visual_line::VisualLineMode;

fn text(spans: &[BarSpan]) -> String {
    spans.iter().map(|s| s.text.as_str()).collect()
}

fn keys(ks: &[&str]) -> Vec<String> {
    ks.iter().map(|k| k.to_string()).collect()
}

#[test]
fn status_entry_pieces_and_styles() {
    let mut spans = Vec::new();
    status_entry(&mut spans, "q".to_string(), "quit");
    status_entry_dyn(&mut spans, "s".to_string(), "sidebar[ON]".to_string());
    let pieces: Vec<(&str, BarStyle)> = spans.iter().map(|s| (s.text.as_str(), s.style)).collect();
    assert_eq!(
        pieces,
        vec![
            ("<", BarStyle::Plain),
            ("q", BarStyle::Strong),
            (">", BarStyle::Plain),
            (" quit  ", BarStyle::Plain),
            ("<", BarStyle::Plain),
            ("s", BarStyle::Strong),
            (">", BarStyle::Plain),
            (" sidebar[ON]  ", BarStyle::Plain),
        ]
    );
}

#[test]
fn decimal_counts() {
    let mut s = String::new();
    push_decimal(&mut s, 0);
    s.push(',');
    push_decimal(&mut s, 7);
    s.push(',');
    push_decimal(&mut s, 1200);
    s.push(',');
    push_decimal(&mut s, usize::MAX);
    assert_eq!(s, format!("0,7,1200,{}", usize::MAX));
}

#[test]
fn test_mode_bar_content_contains_archive_label() {
    let es = vec![ArchiveEntry { name: "a.log".to_string(), depth: 0, parent: None, kind: ArchiveNodeKind::File }];
    let m = ArchivePickerMode::new(es, vec![0], "archive.zip".to_string());
    let t = text(&m.mode_bar_content(&keys(&["Space", "Enter", "Esc", "a", "n"])));
    assert!(t.contains("ARCHIVE"));
    assert_eq!(t, "[ARCHIVE]  <Space> toggle  <Enter> extract  <Esc> cancel  <a> all  <n> none  ");
}

#[test]
fn test_mode_bar_content_contains_command() {
    let m = CommandMode::with_history(String::new(), 0, vec![]);
    assert!(matches!(m.render_state(), ModeRenderState::Command { .. }));
    let t = text(&m.mode_bar_content(&keys(&["Esc", "Enter"])));
    assert_eq!(t, "[COMMAND]  <Esc> cancel  <Enter> execute  <Tab> complete  ");
}

#[test]
fn test_mode_bar_content_contains_comment() {
    let mode = CommentMode::new(vec![0]);
    assert!(matches!(mode.render_state(), ModeRenderState::Comment { .. }));
}

#[test]
fn test_mode_bar_content_edit_mode_contains_delete() {
    let mode = CommentMode::edit(0, "text".to_string(), vec![0]);
    let t = text(&mode.mode_bar_content(&keys(&["Enter", "Ctrl-S", "Ctrl-D", "Esc"])));
    assert!(t.contains("delete"));
    assert!(t.starts_with("[COMMENT EDIT]  type text  "));
}

#[test]
fn test_mode_bar_content_new_mode_no_delete() {
    let mode = CommentMode::new(vec![0]);
    let t = text(&mode.mode_bar_content(&keys(&["Enter", "Ctrl-S", "Ctrl-D", "Esc"])));
    assert!(!t.contains("delete"));
    assert_eq!(t, "[COMMENT]  type text  <Enter> newline  <Ctrl-S> save  <Esc> cancel  ");
}

#[test]
fn test_mode_bar_content_contains_switch_label() {
    let mode = FileSwitcherMode::new(vec![(0, "a.log".to_string()), (1, "b.log".to_string())], 0);
    let t = text(&mode.mode_bar_content());
    assert!(t.contains("SWITCH FILE"));
    assert_eq!(t, "[SWITCH FILE]  <Enter> switch  <Esc> cancel  ");
}

#[test]
fn test_mode_bar_content_shows_configured_search_shortcut() {
    let m = FilterManagementMode::new(0);
    let mut ks = keys(&[
        "i", "I", "o", "t", "h", "Space", "d", "e", "c", "K", "J", "f", "A", "C", "<", ">", "/", "Esc",
    ]);
    ks[16] = "?".to_string();
    let t = text(&m.mode_bar_content(&ks));
    assert!(t.contains("search"));
    assert!(t.contains('?'));
    assert!(t.contains("<K/J> move  "));
    assert!(t.contains("<</>> resize  "));
    assert!(t.starts_with("[FILTER]  <i> filter in  <I> filter in (auto)  "));
    assert!(t.ends_with("<?> search  <Esc> exit  "));
}

#[test]
fn test_mode_bar_content_lists_actions() {
    let mode = GroupManagementMode::new("net".to_string());
    let t = text(&mode.mode_bar_content(&keys(&["k", "j", "Space", "t", "d", "e", "x", "a", "/", "Esc"])));
    for word in ["GROUP", "toggle", "delete", "edit", "clear style", "add", "search", "exit"] {
        assert!(t.contains(word), "missing {word} in {t}");
    }
    assert!(t.starts_with("[GROUP]  <k/j> nav  <Space/t> toggle  "));
}

#[test]
fn test_mode_bar_content_contains_merge_select_label() {
    let mode = MergeSelectMode::new(vec![("a".to_string(), true), ("b".to_string(), true)], vec![0, 1]);
    let t = text(&mode.mode_bar_content(&keys(&["Space", "Enter", "Esc", "a", "n"])));
    assert!(t.contains("MERGE SELECT"));
    assert!(t.contains("<Enter> merge  "));
}

#[test]
fn test_mode_bar_content_contains_normal() {
    assert!(matches!(NormalMode::new().render_state(), ModeRenderState::Normal));
}

fn normal_keys() -> Vec<String> {
    keys(&["q", "i", "I", "o", "f", "g", "F", "H", "m", "M", "u", "V", "c", "?"])
}

#[test]
fn test_mode_bar_content_contains_marks_only_hint() {
    let t = text(&NormalMode::new().mode_bar_content(&normal_keys()));
    assert!(t.contains("marks only"));
    assert!(t.starts_with("[NORMAL]  <q> quit  "));
}

#[test]
fn normal_mode_bar_shows_the_count() {
    let mut m = NormalMode::new();
    m.count = Some(42);
    let t = text(&m.mode_bar_content(&normal_keys()));
    assert!(t.starts_with("[NORMAL] 42  <q> quit  "));
}

#[test]
fn test_needs_input_bar() {
    let m = SearchMode { input: String::new(), forward: true };
    assert!(matches!(m.render_state(), ModeRenderState::Command { .. } | ModeRenderState::Search { .. }));
}

#[test]
fn test_mode_bar_content_contains_search() {
    let m = SearchMode { input: "é1".to_string(), forward: true };
    match m.render_state() {
        ModeRenderState::Search { query, cursor, forward } => {
            assert_eq!(query, "é1");
            assert_eq!(cursor, 3);
            assert!(forward);
        },
        other => panic!("expected Search, got {:?}", other),
    }
    let t = text(&m.mode_bar_content(&keys(&["Esc", "Enter"])));
    assert_eq!(t, "[SEARCH]  <Esc> cancel  <Enter> search  ");
}

#[test]
fn test_mode_bar_content_contains_theme_label() {
    let mode = ThemePickerMode::new(vec!["dracula".to_string()], 0u8);
    let t = text(&mode.mode_bar_content());
    assert!(t.contains("THEME"));
}

fn visual_keys() -> Vec<String> {
    keys(&["j", "k", "h", "l", "w", "e", "b", "0", "$", "f", "v", "i", "o", "/", "y", "Esc"])
}

#[test]
fn test_mode_bar_content_contains_filter_search_yank() {
    let mode = VisualMode::new("hello".to_string());
    let t = text(&mode.mode_bar_content(&visual_keys()));
    assert!(t.contains("filter"), "missing filter in: {t}");
    assert!(t.contains("search"), "missing search in: {t}");
    assert!(t.contains("yank"), "missing yank in: {t}");
    assert!(t.starts_with("[VISUAL-CHAR]  <j> line↓  "));
}

#[test]
fn test_mode_bar_pending_shows_pending_message() {
    let mut mode = VisualMode::new("hello".to_string());
    mode.pending_motion = Some(PendingMotion::FindForward);
    let t = text(&mode.mode_bar_content(&visual_keys()));
    assert!(t.contains("pending"), "missing pending in: {t}");
    assert_eq!(t, "[VISUAL-CHAR]  pending — type a character");
}

#[test]
fn anchored_visual_bar_says_select() {
    let mut mode = VisualMode::new("hello".to_string());
    mode.anchor_col = Some(0);
    let t = text(&mode.mode_bar_content(&visual_keys()));
    assert!(t.starts_with("[VISUAL-CHAR SELECT]  "));
}

#[test]
fn test_mode_bar_content_contains_visual() {
    let mode = VisualLineMode { anchor: 0, count: None };
    assert!(matches!(mode.render_state(), ModeRenderState::VisualLine { .. }));
}

#[test]
fn test_mode_bar_content_contains_yank() {
    let mode = VisualLineMode { anchor: 0, count: None };
    let t = text(&mode.mode_bar_content(&keys(&["k", "j", "c", "y", "m", "i", "o", "/", "Esc"])));
    assert!(t.contains("yank"));
    assert!(t.starts_with("[VISUAL]  <k/j> extend  <c> comment  "));
}

#[test]
fn counted_visual_line_bar() {
    let mode = VisualLineMode { anchor: 0, count: Some(3) };
    let t = text(&mode.mode_bar_content(&keys(&["k", "j", "c", "y", "m", "i", "o", "/", "Esc"])));
    assert!(t.starts_with("[VISUAL] 3  "));
}

#[test]
fn confirm_bars_ask_their_question() {
    let ks = keys(&["y", "n", "a", "N"]);
    let m = ConfirmRestoreMode { context: 0u8 };
    assert_eq!(
        text(&m.mode_bar_content(&ks)),
        "[RESTORE]  Restore previous session?  <y> yes  <n> no  <a> always  <N> never  "
    );
    assert!(matches!(m.render_state(), ModeRenderState::ConfirmRestore));
    let s = ConfirmRestoreSessionMode { files: vec!["file.log".to_string()] };
    assert!(text(&s.mode_bar_content(&ks)).starts_with("[RESTORE SESSION]  Restore last session?  "));
    match s.render_state() {
        ModeRenderState::ConfirmRestoreSession { files } => assert_eq!(*files, vec!["file.log".to_string()]),
        other => panic!("expected ConfirmRestoreSession, got {:?}", other),
    }
}

#[test]
fn ui_bar_shows_each_toggle_state() {
    let m = UiMode { sidebar: true, mode_bar: false, borders: true, wrap: false };
    let t = text(&m.mode_bar_content(&keys(&["s", "b", "B", "w", "Esc"])));
    assert_eq!(
        t,
        "[UI]  <s> sidebar[ON]  <b> mode bar[OFF]  <B> borders[ON]  <w> wrap[OFF]  <Esc> back  "
    );
}

#[test]
fn default_filters_bar_follows_editing() {
    let mut m = DefaultFiltersMode::new(vec![("json".to_string(), true)], &vec![]);
    assert!(text(&m.mode_bar_content()).starts_with("[DEFAULT FILTERS]  <Enter> edit  <d> clear  <Esc> close  "));
    m.editing = Some(PathEditState { input: String::new(), cursor: 0, query: None, completion_index: None });
    assert!(text(&m.mode_bar_content()).starts_with("[DEFAULT FILTERS: EDIT]  <Tab> complete  "));
}

#[test]
fn dlt_bar_follows_adding() {
    let mut m = DltSelectMode::new(vec![]);
    let ks = keys(&["Tab", "Enter", "Esc", "k", "j", "d"]);
    assert_eq!(
        text(&m.mode_bar_content(&ks)),
        "[DLT]  <k/j> navigate  <Enter> connect  <d> delete  <Esc> cancel  "
    );
    m.adding = Some(AddDeviceState::new());
    assert_eq!(text(&m.mode_bar_content(&ks)), "[DLT ADD]  <Tab> next field  <Enter> save  <Esc> cancel  ");
}

#[test]
fn export_bar_names_the_active_field() {
    let m = ExportFooterMode::new(
        "/tmp/out.md".to_string(),
        "markdown".to_string(),
        vec!["next_steps".to_string()],
    );
    let t = text(&m.mode_bar_content());
    assert_eq!(t, "[EXPORT — Next Steps]  <Tab> switch field  <Ctrl-S> export  <Esc> cancel  ");
}

#[test]
fn help_and_select_fields_bars() {
    let h = KeybindingsHelpMode::new();
    assert_eq!(
        text(&h.mode_bar_content(&keys(&["k", "j", "q"]))),
        "[HELP]  type to search  <k/j> scroll  <q> close  "
    );
    let f = SelectFieldsMode::new(vec![("a".to_string(), true)], 0u8, 0u8);
    assert_eq!(
        text(&f.mode_bar_content(&keys(&["Space", "K", "J", "Enter", "Esc", "a", "n"]))),
        "[SELECT FIELDS]  <Space> toggle  <K/J> reorder  <Enter> apply  <Esc> cancel  <a> all  <n> none  "
    );
    let e = FilterEditMode { filter_id: None, filter_input: String::new() };
    assert_eq!(text(&e.mode_bar_content(&keys(&["Esc", "Enter"]))), "[FILTER EDIT]  <Esc> cancel  <Enter> save  ");
}

#[test]
fn docker_select_status_and_state() {
    let m = DockerSelectMode::new(vec![]);
    assert!(m.status_line().contains("[DOCKER]"));
    let (containers, selected, err) = m.docker_select_state().unwrap();
    assert!(containers.is_empty());
    assert_eq!(selected, 0);
    assert_eq!(err, None);
    let e = DockerSelectMode::with_error("Docker not found".to_string());
    let (_, _, err) = e.docker_select_state().unwrap();
    assert_eq!(err, Some("Docker not found"));
}

fn command_state(mode: &CommandMode) -> Option<(String, usize)> {
    match mode.render_state() {
        ModeRenderState::Command { input, cursor, .. } => Some((input, cursor)),
        _ => None,
    }
}

#[test]
fn test_command_state_returns_input_and_cursor() {
    let mode = CommandMode::with_history("hello".to_string(), 3, vec![]);
    assert_eq!(command_state(&mode), Some(("hello".to_string(), 3)));
}

#[test]
fn test_render_state_is_command() {
    let mode = CommandMode::with_history(String::new(), 0, vec![]);
    assert!(matches!(mode.render_state(), ModeRenderState::Command { .. }));
}

#[test]
fn test_render_state_returns_line_count() {
    let mode = CommentMode::new(vec![5, 6, 7, 8]);
    match mode.render_state() {
        ModeRenderState::Comment { line_count, .. } => assert_eq!(line_count, 4),
        other => panic!("expected Comment, got {:?}", other),
    }
}

#[test]
fn test_render_state_reflects_all_fields() {
    let mut mode = ExportFooterMode::new(
        "/tmp/out.md".to_string(),
        "markdown".to_string(),
        vec!["conclusion".to_string(), "next_steps".to_string()],
    );
    mode.fields[0].lines = vec!["done".to_string()];
    mode.fields[1].lines = vec!["todo".to_string()];
    match mode.render_state() {
        ModeRenderState::ExportFooter { path, template_name, fields, active_idx, .. } => {
            assert_eq!(path, "/tmp/out.md");
            assert_eq!(template_name, "markdown");
            assert_eq!(active_idx, 0);
            assert_eq!(fields[0].1, vec!["done"]);
            assert_eq!(fields[1].1, vec!["todo"]);
        },
        other => panic!("expected ExportFooter, got {:?}", other),
    }
}

#[test]
fn file_switcher_mode_test_new_initializes_at_zero_with_empty_search() {
    let entries = vec![(0, "a.log".to_string()), (1, "b.log".to_string()), (2, "c.log".to_string())];
    let mode = FileSwitcherMode::new(entries, 1);
    match mode.render_state() {
        ModeRenderState::FileSwitcher { entries, active_tab, selected, search } => {
            assert_eq!(entries.len(), 3);
            assert_eq!(active_tab, 1);
            assert_eq!(selected, 0);
            assert_eq!(search, "");
        },
        other => panic!("expected FileSwitcher, got {:?}", other),
    }
}

#[test]
fn theme_picker_mode_test_new_initializes_at_zero_with_empty_search() {
    let mode = ThemePickerMode::new(vec!["dracula".to_string(), "nord".to_string()], 0u8);
    match mode.render_state() {
        ModeRenderState::ThemePicker { entries, selected, search } => {
            assert_eq!(entries, vec!["dracula".to_string(), "nord".to_string()]);
            assert_eq!(selected, 0);
            assert_eq!(search, "");
        },
        other => panic!("expected ThemePicker, got {:?}", other),
    }
}

#[test]
fn test_render_state_matches_selected_group() {
    let mode = GroupManagementMode::new("sys".to_string());
    assert!(matches!(
        mode.render_state(),
        ModeRenderState::GroupManagement { selected_group, .. } if selected_group == "sys"
    ));
}

#[test]
fn test_search_state_forward_true() {
    let mode = SearchMode { input: "test".to_string(), forward: true };
    match mode.render_state() {
        ModeRenderState::Search { query, forward, .. } => {
            assert_eq!(query, "test");
            assert!(forward);
        },
        other => panic!("expected Search, got {:?}", other),
    }
}

#[test]
fn test_search_state_forward_false() {
    let mode = SearchMode { input: "warn".to_string(), forward: false };
    match mode.render_state() {
        ModeRenderState::Search { query, forward, .. } => {
            assert_eq!(query, "warn");
            assert!(!forward);
        },
        other => panic!("expected Search, got {:?}", other),
    }
}

#[test]
fn default_filters_and_value_colors_states_copy_the_mode() {
    let m = DefaultFiltersMode::new(
        vec![("json".to_string(), false), ("mine".to_string(), true)],
        &vec![("json".to_string(), "/etc/f.json".to_string())],
    );
    match m.render_state() {
        ModeRenderState::DefaultFilters { rows, search, selected, editing } => {
            assert_eq!(rows.len(), 2);
            assert_eq!(rows[0].name, "json");
            assert_eq!(rows[0].path.as_deref(), Some("/etc/f.json"));
            assert_eq!(rows[1].path, None);
            assert_eq!(search, "");
            assert_eq!(selected, 0);
            assert!(editing.is_none());
        },
        other => panic!("expected DefaultFilters, got {:?}", other),
    }
}
