use logana::comment::CommentMode;
use logana::default_filters::DefaultFiltersMode;
use logana::export_footer::placeholder_to_label;
use logana::group::GroupManagementMode;
use logana::help::{build_help_rows, filter_rows, HelpRow};
use logana::render::ModeRenderState;
use logana::select::MergeSelectMode;
use std::sync::Arc;

#[test]
fn test_edit_constructor_prefills_text() {
    let mode = CommentMode::edit(0, "hello\nworld".to_string(), vec![1, 2]);
    assert_eq!(mode.lines, vec!["hello", "world"]);
    assert_eq!(mode.cursor_row, 1);
    assert_eq!(mode.cursor_col, 5);
    assert_eq!(mode.editing_index, Some(0));
    assert_eq!(mode.line_indices, vec![1, 2]);
}

#[test]
fn test_edit_constructor_empty_text() {
    let mode = CommentMode::edit(3, String::new(), vec![0]);
    assert_eq!(mode.lines, vec![""]);
    assert_eq!(mode.cursor_row, 0);
    assert_eq!(mode.cursor_col, 0);
    assert_eq!(mode.editing_index, Some(3));
}

/// The format names in the order the schema completion gives them: custom
/// schemas alphabetically, then the built-in formats alphabetically.
fn sample_mode() -> DefaultFiltersMode {
    let names = vec![
        ("acme".to_string(), true),
        ("zeta".to_string(), true),
        ("json".to_string(), false),
        ("logfmt".to_string(), false),
        ("syslog".to_string(), false),
    ];
    let current = vec![("acme".to_string(), "/tmp/acme.json".to_string())];
    DefaultFiltersMode::new(names, &current)
}

#[test]
fn test_new_orders_custom_first_alphabetical_then_builtin() {
    let mode = sample_mode();
    let custom: Vec<&str> = mode.rows.iter().filter(|r| r.is_custom).map(|r| r.name.as_str()).collect();
    assert_eq!(custom, vec!["acme", "zeta"]);
    assert!(mode.rows.iter().any(|r| !r.is_custom && r.name == "syslog"));
}

#[test]
fn test_new_pairs_existing_mapping() {
    let mode = sample_mode();
    let acme = mode.rows.iter().find(|r| r.name == "acme").unwrap();
    assert_eq!(acme.path.as_deref(), Some("/tmp/acme.json"));
    let zeta = mode.rows.iter().find(|r| r.name == "zeta").unwrap();
    assert_eq!(zeta.path, None);
}

#[test]
fn default_filters_mode_test_visible_rows_no_search() {
    let mode = sample_mode();
    assert_eq!(mode.visible_rows().len(), mode.rows.len());
}

#[test]
fn test_visible_rows_with_search_filters_by_name() {
    let mut mode = sample_mode();
    mode.search = "acme".to_string();
    let rows = mode.visible_rows();
    assert_eq!(rows.len(), 1);
    assert_eq!(mode.rows[rows[0]].name, "acme");
}

#[test]
fn test_placeholder_to_label() {
    assert_eq!(placeholder_to_label("conclusion"), "Conclusion");
    assert_eq!(placeholder_to_label("next_steps"), "Next Steps");
    assert_eq!(placeholder_to_label("my_long_field_name"), "My Long Field Name");
    assert_eq!(placeholder_to_label(""), "");
}

#[test]
fn test_new_sets_selected_group() {
    let mode = GroupManagementMode::new("net".to_string());
    assert_eq!(mode.selected_group, "net");
}

fn tabs(n: usize) -> Vec<(String, bool)> {
    (0..n).map(|i| (format!("tab{i}"), false)).collect()
}

fn indices(n: usize) -> Vec<usize> {
    (0..n).collect()
}

#[test]
fn test_new_initializes_selected_at_zero() {
    let mode = MergeSelectMode::new(tabs(5), indices(5));
    assert_eq!(mode.selected, 0);
    assert_eq!(mode.tabs.len(), 5);
    assert_eq!(mode.tab_indices.len(), 5);
}

/// The default key displays, one list per section of the help table.
fn default_keys() -> Vec<Vec<String>> {
    let s = |v: &[&str]| v.iter().map(|k| k.to_string()).collect::<Vec<String>>();
    vec![
        s(&["j", "k", "Ctrl+d", "Ctrl+u", "Ctrl+f", "Ctrl+b"]),
        s(&[
            "h", "l", "0", "$", "g", "G", "m", "M", "y", "Y", "V", "v", "/", "?", "n", "N", "i", "I", "o", "f", "u",
            ":", "c", "C", "X", "e", "E", "w", "W", "Esc", "x", "F1",
        ]),
        s(&["c", "y", "m", "/", "Esc"]),
        s(&[
            "h", "l", "w", "b", "e", "W", "B", "E", "0", "^", "$", "f", "F", "t", "T", ";", ",", "i", "o", "/", "v", "y",
            "Esc",
        ]),
        s(&["q", "Tab", "Shift+Tab", "Ctrl+w", "Ctrl+t"]),
        s(&["s", "b", "B", "w", "Esc"]),
        s(&["i", "o", "t", " ", "d", "e", "c", "K", "J", "A", "C", ">", "<", "Esc"]),
        s(&["Ctrl+s", "Enter", "Ctrl+d", "Esc"]),
        s(&["Enter", "Esc"]),
        s(&["Enter", "Esc"]),
        s(&["Enter", "Esc"]),
        s(&["Enter", "Esc"]),
        s(&["Space", "a", "n", "Enter", "Esc"]),
        s(&["Space", "K", "J", "a", "n", "Enter", "Esc"]),
        s(&["Esc"]),
        s(&["y", "n"]),
    ]
}

#[test]
fn test_build_help_rows_contains_normal_header() {
    let rows = build_help_rows(&default_keys());
    let has_normal = rows.iter().any(|r| matches!(r, HelpRow::Header(h) if h == "Normal Mode"));
    assert!(has_normal);
}

#[test]
fn test_filter_rows_empty_query_returns_all() {
    let rows = build_help_rows(&default_keys());
    let count = rows.len();
    let filtered = filter_rows(&rows, "");
    assert_eq!(filtered.len(), count);
}

#[test]
fn test_filter_rows_matches_action() {
    let rows = build_help_rows(&default_keys());
    let filtered = filter_rows(&rows, "quit");
    let has_quit = filtered
        .iter()
        .any(|r| matches!(r, HelpRow::Entry { action, .. } if action.to_lowercase().contains("quit")));
    assert!(has_quit);
}

#[test]
fn test_filter_rows_matches_key() {
    let rows = build_help_rows(&default_keys());
    let filtered = filter_rows(&rows, "ctrl");
    assert!(!filtered.is_empty());
}

#[test]
fn test_filter_rows_no_orphan_headers() {
    let rows = build_help_rows(&default_keys());
    let filtered = filter_rows(&rows, "zzzzznotakey");
    assert!(filtered.is_empty());
}

#[test]
fn test_filter_rows_header_dropped_when_no_entry_matches() {
    let rows = build_help_rows(&default_keys());
    let filtered = filter_rows(&rows, "visual");
    let global_header = filtered.iter().any(|r| matches!(r, HelpRow::Header(h) if h == "Global"));
    assert!(!global_header, "Global header should be absent when no Global entries match");
}

#[test]
fn help_rows_have_sixteen_sections_and_doubled_chord() {
    let rows = build_help_rows(&default_keys());
    let headers = rows.iter().filter(|r| matches!(r, HelpRow::Header(_))).count();
    assert_eq!(headers, 16);
    assert_eq!(rows.len(), 16 + 117);
    assert!(matches!(&rows[0], HelpRow::Header(h) if h == "Navigation (all modes)"));
    let gg = rows.iter().find(|r| matches!(r, HelpRow::Entry { action, .. } if action == "Go to top (gg)")).unwrap();
    assert!(matches!(gg, HelpRow::Entry { keys, .. } if keys == "gg"));
}

#[test]
fn help_rows_missing_keys_show_empty() {
    let rows = build_help_rows(&Vec::new());
    assert!(matches!(&rows[1], HelpRow::Entry { action, keys } if action == "Scroll down" && keys.is_empty()));
}

#[test]
fn filter_rows_every_header_is_followed_by_an_entry() {
    let rows = build_help_rows(&default_keys());
    for q in ["tog", "esc", "a", "mark", "ctrl"] {
        let filtered = filter_rows(&rows, q);
        for (i, r) in filtered.iter().enumerate() {
            if matches!(r, HelpRow::Header(_)) {
                assert!(matches!(filtered.get(i + 1), Some(HelpRow::Entry { .. })), "orphan header for {q}");
            }
        }
    }
}

#[test]
fn mode_name_covers_all_variants() {
    assert_eq!(ModeRenderState::Normal.mode_name(), "NORMAL");
    assert_eq!(
        ModeRenderState::Command {
            input: String::new(),
            cursor: 0,
            completion_index: None,
            completion_query: None,
        }
        .mode_name(),
        "COMMAND"
    );
    assert_eq!(
        ModeRenderState::Search {
            query: String::new(),
            cursor: 0,
            forward: true
        }
        .mode_name(),
        "SEARCH"
    );
    assert_eq!(
        ModeRenderState::Search {
            query: String::new(),
            cursor: 0,
            forward: false
        }
        .mode_name(),
        "SEARCH↑"
    );
    assert_eq!(
        ModeRenderState::FilterManagement {
            selected_index: 0,
            search: String::new(),
            searching: false,
        }
        .mode_name(),
        "FILTER"
    );
    assert_eq!(ModeRenderState::FilterEdit.mode_name(), "FILTER EDIT");
    assert_eq!(
        ModeRenderState::GroupManagement {
            selected_group: String::new()
        }
        .mode_name(),
        "GROUP"
    );
    assert_eq!(
        ModeRenderState::VisualLine { anchor: 0 }.mode_name(),
        "VISUAL LINE"
    );
    assert_eq!(
        ModeRenderState::Visual {
            anchor_col: None,
            cursor_col: 0,
            pending_motion: false
        }
        .mode_name(),
        "VISUAL"
    );
    assert_eq!(
        ModeRenderState::Comment {
            lines: vec![],
            cursor_row: 0,
            cursor_col: 0,
            line_count: 0,
            is_editing: false
        }
        .mode_name(),
        "COMMENT"
    );
    assert_eq!(
        ModeRenderState::KeybindingsHelp {
            scroll: 0,
            search: String::new()
        }
        .mode_name(),
        "HELP"
    );
    assert_eq!(
        ModeRenderState::SelectFields {
            fields: vec![],
            selected: 0
        }
        .mode_name(),
        "FIELDS"
    );
    assert_eq!(
        ModeRenderState::DockerSelect {
            containers: vec![],
            selected: 0,
            error: None
        }
        .mode_name(),
        "DOCKER"
    );
    assert_eq!(
        ModeRenderState::DltSelect {
            devices: vec![],
            selected: 0,
            error: None,
            adding: None
        }
        .mode_name(),
        "DLT"
    );
    assert_eq!(
        ModeRenderState::ValueColors {
            groups: vec![],
            search: String::new(),
            selected: 0
        }
        .mode_name(),
        "VALUE COLORS"
    );
    assert_eq!(
        ModeRenderState::LevelColors {
            groups: vec![],
            search: String::new(),
            selected: 0
        }
        .mode_name(),
        "LEVEL COLORS"
    );
    assert_eq!(ModeRenderState::ConfirmRestore.mode_name(), "CONFIRM");
    assert_eq!(
        ModeRenderState::ConfirmRestoreSession {
            files: Arc::new(vec![])
        }
        .mode_name(),
        "CONFIRM"
    );
    assert_eq!(ModeRenderState::Ui.mode_name(), "UI");
    assert_eq!(
        ModeRenderState::ArchivePicker {
            rows: vec![],
            selected: 0,
            source_path: String::new(),
            search: String::new(),
            searching: false,
        }
        .mode_name(),
        "ARCHIVE"
    );
    assert_eq!(
        ModeRenderState::ExportFooter {
            path: String::new(),
            template_name: String::new(),
            fields: vec![],
            active_idx: 0,
            cursor_row: 0,
            cursor_col: 0,
        }
        .mode_name(),
        "EXPORT"
    );
    assert_eq!(
        ModeRenderState::DefaultFilters {
            rows: vec![],
            search: String::new(),
            selected: 0,
            editing: None,
        }
        .mode_name(),
        "DEFAULT FILTERS"
    );
    assert_eq!(
        ModeRenderState::FileSwitcher {
            entries: vec![],
            active_tab: 0,
            selected: 0,
            search: String::new(),
        }
        .mode_name(),
        "SWITCH"
    );
    assert_eq!(
        ModeRenderState::ThemePicker {
            entries: vec![],
            selected: 0,
            search: String::new(),
        }
        .mode_name(),
        "THEME"
    );
}
