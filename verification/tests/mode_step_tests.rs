use logana::archive::{archive_row, ArchiveNodeKind, CheckState};
use logana::completion::{compute_completions, file_path_query, replace_partial, theme_completions, CompletionTiers, FieldPartial};
use logana::confirm::{ConfirmBinding, ConfirmRestoreMode, ConfirmRestoreSessionMode, RestoreStep};
use logana::dlt::{AddDeviceState, DltBinding, DltDevice, DltRequest, DltSelectMode};
use logana::key::{Key, KeyInput, KeyResult};
use logana::normal::{char_offset, search_match_char_offset, SearchRegex, NormalBinding, NormalEffect, NormalMode, NormalNext, NormalView};
use logana::picker::PickerNext;
use logana::select::{DockerContainer, DockerSelectMode, FieldsStep, ListBinding, MergeOutcome, MergeSelectMode, SelectFieldsMode};
use logana::ui::{SearchBinding, SearchMode, SearchRequest, UiBinding, UiFlags, UiMode};
use logana::visual_line::{lines_to_toggle, selection_range, VisualLineBinding, VisualLineEffect, VisualLineMode, VisualLineNext, VisualLineView};

fn key(k: Key) -> KeyInput {
    KeyInput { key: k, ctrl: false, alt: false, shift: false, meta: false }
}

fn nview() -> NormalView {
    NormalView {
        scroll_offset: 5,
        visible_height: 20,
        visible_len: 100,
        cursor_line: Some(42),
        g_pressed: false,
        wrap: false,
        horizontal_scroll: 0,
        num_filters: 3,
        last_selected_filter: 7,
        first_group: None,
        has_search: false,
        has_notification: false,
        cursor_comment: None,
        continuation_parent: None,
    }
}

#[test]
fn normal_count_then_scroll() {
    let mut m = NormalMode::new();
    let v = nview();
    m.handle_key(key(Key::Char('1')), &vec![], &v);
    m.handle_key(key(Key::Char('0')), &vec![], &v);
    assert_eq!(m.count, Some(10));
    let out = m.handle_key(key(Key::Char('j')), &vec![NormalBinding::ScrollDown], &v);
    assert_eq!(out.effect, NormalEffect::Scroll(15));
    assert_eq!(m.count, None);
    let out = m.handle_key(key(Key::Char('d')), &vec![NormalBinding::HalfPageDown], &v);
    assert_eq!(out.effect, NormalEffect::Scroll(15));
    let out = m.handle_key(key(Key::Char('k')), &vec![NormalBinding::ScrollUp], &NormalView { scroll_offset: 0, ..nview() });
    assert_eq!(out.effect, NormalEffect::Scroll(0));
}

#[test]
fn normal_count_saturates_at_cap() {
    let mut m = NormalMode::new();
    let v = nview();
    for _ in 0..10 {
        m.handle_key(key(Key::Char('9')), &vec![], &v);
    }
    assert_eq!(m.count, Some(999_999));
}

#[test]
fn normal_gg_chord() {
    let mut m = NormalMode::new();
    let out = m.handle_key(key(Key::Char('g')), &vec![NormalBinding::GoToTopChord], &nview());
    assert!(out.g_pressed);
    assert_eq!(out.effect, NormalEffect::Nothing);
    let v = NormalView { g_pressed: true, ..nview() };
    let out = m.handle_key(key(Key::Char('g')), &vec![NormalBinding::GoToTopChord], &v);
    assert!(!out.g_pressed);
    assert_eq!(out.effect, NormalEffect::Scroll(0));
    m.handle_key(key(Key::Char('7')), &vec![], &v);
    let out = m.handle_key(key(Key::Char('G')), &vec![NormalBinding::GoToBottom], &v);
    assert_eq!(out.effect, NormalEffect::GotoLine(7));
    let out = m.handle_key(key(Key::Char('G')), &vec![NormalBinding::GoToBottom], &v);
    assert_eq!(out.effect, NormalEffect::Scroll(99));
}

#[test]
fn normal_opens_modes() {
    let mut m = NormalMode::new();
    let out = m.handle_key(key(Key::Char('i')), &vec![NormalBinding::FilterInclude], &nview());
    assert!(matches!(out.next, NormalNext::Command { ref input, cursor: 7 } if input == "filter "));
    assert!(out.clear_command_error);
    let out = m.handle_key(key(Key::Char('f')), &vec![NormalBinding::FilterMode], &nview());
    assert!(matches!(out.next, NormalNext::FilterManagement(2)));
    let out = m.handle_key(key(Key::Char('u')), &vec![NormalBinding::GroupMode], &nview());
    assert!(matches!(out.next, NormalNext::GroupManagement(ref g) if g.is_empty()));
    let out = m.handle_key(key(Key::Char('c')), &vec![NormalBinding::CommentLine], &nview());
    assert!(matches!(out.next, NormalNext::NewComment(42)));
    let v = NormalView { cursor_comment: Some(3), ..nview() };
    let out = m.handle_key(key(Key::Char('c')), &vec![NormalBinding::CommentLine], &v);
    assert!(matches!(out.next, NormalNext::EditComment(3)));
}

#[test]
fn normal_messages_and_custom_commands() {
    let mut m = NormalMode::new();
    let empty = NormalView { visible_len: 0, ..nview() };
    let out = m.handle_key(key(Key::Char('y')), &vec![NormalBinding::YankLine], &empty);
    assert_eq!(out.message.as_deref(), Some("No visible lines"));
    let out = m.handle_key(key(Key::Char('y')), &vec![NormalBinding::YankLine], &NormalView { scroll_offset: 500, ..nview() });
    assert_eq!(out.effect, NormalEffect::YankLine(99));
    let out = m.handle_key(key(Key::Char('C')), &vec![NormalBinding::DeleteComment], &nview());
    assert_eq!(out.message.as_deref(), Some("No comment on this line"));
    let out = m.handle_key(key(Key::Char('w')), &vec![NormalBinding::Custom("wrap".to_string())], &nview());
    assert!(matches!(out.result, KeyResult::ExecuteCommand(ref c) if c == "wrap"));
    let out = m.handle_key(key(Key::Char('q')), &vec![NormalBinding::Global], &nview());
    assert!(matches!(out.result, KeyResult::Ignored));
}

#[test]
fn normal_clear_search_only_when_active() {
    let mut m = NormalMode::new();
    let bound = vec![NormalBinding::ClearSearch, NormalBinding::ShowKeybindings];
    let out = m.handle_key(key(Key::Esc), &bound, &nview());
    assert!(matches!(out.next, NormalNext::Help));
    let v = NormalView { has_search: true, ..nview() };
    let out = m.handle_key(key(Key::Esc), &bound, &v);
    assert_eq!(out.effect, NormalEffect::ClearSearch);
}

#[test]
fn search_match_offset_counts_characters() {
    let re = SearchRegex::new("b+").unwrap();
    assert!(SearchRegex::new("(b").is_none());
    assert_eq!(search_match_char_offset(Some(1), Some(&re), "äb cbb"), 4);
    assert_eq!(search_match_char_offset(Some(0), Some(&re), "äb cbb"), 1);
    assert_eq!(search_match_char_offset(Some(5), Some(&re), "äb cbb"), 0);
    assert_eq!(search_match_char_offset(None, Some(&re), "äb"), 0);
    assert_eq!(search_match_char_offset(Some(0), None, "äb"), 0);
    assert_eq!(char_offset("äöx", 4), 2);
}

fn vview(visible: Vec<usize>) -> VisualLineView {
    VisualLineView { scroll_offset: 3, visible_height: 10, visible, g_pressed: false, lo_text: "a.b c".to_string() }
}

#[test]
fn visual_line_selection_and_actions() {
    assert_eq!(selection_range(5, 2, 10), (2, 5));
    assert_eq!(selection_range(1, 20, 4), (1, 3));
    let mut m = VisualLineMode { anchor: 1, count: None };
    let (out, _) = m.handle_key(key(Key::Char('c')), Some(VisualLineBinding::Comment), &vview(vec![10, 11, 12, 13, 14]));
    assert!(matches!(out.next, VisualLineNext::Comment(ref ls) if ls == &vec![11, 12, 13]));
    let (out, _) = m.handle_key(key(Key::Char('i')), Some(VisualLineBinding::FilterInclude), &vview(vec![0]));
    assert!(matches!(out.next, VisualLineNext::Command { ref input, cursor } if input == r"filter a\.b c" && cursor == 13));
    let (out, _) = m.handle_key(key(Key::Char('/')), Some(VisualLineBinding::Search), &vview(vec![0]));
    assert!(matches!(out.next, VisualLineNext::Search { ref input } if input == r"a\.b c"));
    let (out, _) = m.handle_key(key(Key::Char('y')), Some(VisualLineBinding::Yank), &vview(vec![]));
    assert_eq!(out.message.as_deref(), Some("No lines to copy"));
    let (out, _) = m.handle_key(key(Key::Char('m')), Some(VisualLineBinding::Mark), &vview(vec![7, 8, 9, 10]));
    assert!(matches!(out.effect, VisualLineEffect::MarkLines(ref ls) if ls == &vec![8, 9, 10]));
}

#[test]
fn visual_line_count_motion() {
    let mut m = VisualLineMode { anchor: 0, count: None };
    m.handle_key(key(Key::Char('4')), None, &vview(vec![0, 1]));
    assert_eq!(m.count, Some(4));
    let (out, _) = m.handle_key(key(Key::Char('j')), Some(VisualLineBinding::ScrollDown), &vview(vec![0, 1]));
    assert!(matches!(out.effect, VisualLineEffect::Scroll(7)));
    assert_eq!(m.count, None);
}

#[test]
fn group_marking_marks_unmarked_or_clears_all() {
    assert_eq!(lines_to_toggle(&vec![1, 2, 3], &vec![true, false, true]), vec![2]);
    assert_eq!(lines_to_toggle(&vec![1, 2, 3], &vec![true, true, true]), vec![1, 2, 3]);
    assert_eq!(lines_to_toggle(&vec![], &vec![]), Vec::<usize>::new());
}

fn devices() -> Vec<DltDevice> {
    vec![
        DltDevice { name: "ecu1".to_string(), host: "192.168.1.10".to_string(), port: 3490 },
        DltDevice { name: "ecu2".to_string(), host: "192.168.1.11".to_string(), port: 3491 },
    ]
}

#[test]
fn dlt_list_navigation_attach_and_delete() {
    let mut m = DltSelectMode::new(devices());
    assert_eq!(m.total_entries(), 3);
    m.handle_list_key(Some(DltBinding::ScrollDown));
    m.handle_list_key(Some(DltBinding::ScrollDown));
    m.handle_list_key(Some(DltBinding::ScrollDown));
    assert_eq!(m.selected, 2);
    let (next, _, _) = m.handle_list_key(Some(DltBinding::Confirm));
    assert_eq!(next, PickerNext::Stay);
    assert!(m.adding.is_some());
    let mut m = DltSelectMode::new(devices());
    m.selected = 1;
    let (next, res, _) = m.handle_list_key(Some(DltBinding::Confirm));
    assert_eq!(next, PickerNext::Normal);
    assert!(matches!(res, KeyResult::DltAttach(ref h, 3491, ref n) if h == "192.168.1.11" && n == "ecu2"));
    let (_, _, req) = m.handle_list_key(Some(DltBinding::Delete));
    assert!(matches!(req, DltRequest::Remove(ref n) if n == "ecu2"));
    assert_eq!(m.devices.len(), 1);
    let (_, res, _) = m.handle_list_key(None);
    assert!(matches!(res, KeyResult::Ignored));
}

#[test]
fn dlt_add_form_validates_and_saves() {
    let mut m = DltSelectMode::new(vec![]);
    m.adding = Some(AddDeviceState::new());
    let (_, req) = m.handle_add_key(Some(DltBinding::Confirm), key(Key::Enter));
    assert!(matches!(req, DltRequest::Nothing));
    assert_eq!(m.error.as_deref(), Some("Name and host are required"));
    for c in "ecu".chars() {
        m.handle_add_key(None, key(Key::Char(c)));
    }
    m.handle_add_key(Some(DltBinding::NextField), key(Key::Tab));
    for c in " host ".chars() {
        m.handle_add_key(None, key(Key::Char(c)));
    }
    m.handle_add_key(Some(DltBinding::NextField), key(Key::Tab));
    assert_eq!(m.adding.as_ref().unwrap().cursor, 4);
    m.handle_add_key(None, key(Key::Char('x')));
    let (_, req) = m.handle_add_key(Some(DltBinding::Confirm), key(Key::Enter));
    assert!(matches!(req, DltRequest::Nothing));
    assert_eq!(m.error.as_deref(), Some("Port must be a number (0-65535)"));
    m.handle_add_key(None, key(Key::Backspace));
    let (_, req) = m.handle_add_key(Some(DltBinding::Confirm), key(Key::Enter));
    match req {
        DltRequest::Save(d) => {
            assert_eq!(d.name, "ecu");
            assert_eq!(d.host, "host");
            assert_eq!(d.port, 3490);
            m.device_saved(d);
        }
        other => panic!("expected save, got {other:?}"),
    }
    assert_eq!(m.devices.len(), 1);
    assert_eq!(m.selected, 0);
    assert!(m.adding.is_none());
}

#[test]
fn dlt_add_form_port_range_and_editing() {
    let mut m = DltSelectMode::new(vec![]);
    let mut a = AddDeviceState::new();
    a.fields = ["n".to_string(), "h".to_string(), "65536".to_string()];
    m.adding = Some(a);
    m.handle_add_key(Some(DltBinding::Confirm), key(Key::Enter));
    assert_eq!(m.error.as_deref(), Some("Port must be a number (0-65535)"));
    let mut a = AddDeviceState::new();
    a.fields = ["n".to_string(), "h".to_string(), "+80".to_string()];
    m.adding = Some(a);
    let (_, req) = m.handle_add_key(Some(DltBinding::Confirm), key(Key::Enter));
    assert!(matches!(req, DltRequest::Save(ref d) if d.port == 80));
    for bad in ["+", "8a", "-1"] {
        let mut a = AddDeviceState::new();
        a.fields = ["n".to_string(), "h".to_string(), bad.to_string()];
        m.adding = Some(a);
        let (_, req) = m.handle_add_key(Some(DltBinding::Confirm), key(Key::Enter));
        assert!(!matches!(req, DltRequest::Save(_)), "{bad} accepted");
    }
    let mut a = AddDeviceState::new();
    a.fields = ["n".to_string(), "h".to_string(), "00065535".to_string()];
    m.adding = Some(a);
    let (_, req) = m.handle_add_key(Some(DltBinding::Confirm), key(Key::Enter));
    assert!(matches!(req, DltRequest::Save(ref d) if d.port == 65535));
    let mut a = AddDeviceState::new();
    a.fields = ["héllo".to_string(), String::new(), String::new()];
    a.cursor = 2;
    m.adding = Some(a);
    m.handle_add_key(None, key(Key::Backspace));
    assert_eq!(m.adding.as_ref().unwrap().fields[0], "hllo");
    m.handle_add_key(None, key(Key::Right));
    m.handle_add_key(None, key(Key::Char('!')));
    assert_eq!(m.adding.as_ref().unwrap().fields[0], "hl!lo");
    m.handle_add_key(Some(DltBinding::Cancel), key(Key::Esc));
    assert!(m.adding.is_none());
}

#[test]
fn docker_picker_attaches_to_selected() {
    let c = |id: &str, name: &str| DockerContainer {
        id: id.to_string(),
        name: name.to_string(),
        image: "img".to_string(),
        status: "Up".to_string(),
    };
    let mut m = DockerSelectMode::new(vec![c("abc123", "web-app"), c("def456", "db-server")]);
    m.handle_key(key(Key::Char('j')));
    m.handle_key(key(Key::Char('j')));
    assert_eq!(m.selected, 1);
    let (next, res) = m.handle_key(key(Key::Enter));
    assert_eq!(next, PickerNext::Normal);
    assert!(matches!(res, KeyResult::DockerAttach(ref id, ref n) if id == "def456" && n == "db-server"));
    let mut e = DockerSelectMode::with_error("docker not found".to_string());
    let (next, res) = e.handle_key(key(Key::Enter));
    assert_eq!(next, PickerNext::Normal);
    assert!(matches!(res, KeyResult::Handled));
}

#[test]
fn merge_needs_two_tabs() {
    let tabs = vec![("a".to_string(), false), ("b".to_string(), false), ("c".to_string(), true)];
    let mut m = MergeSelectMode::new(tabs, vec![4, 5, 6]);
    let (next, _, outcome) = m.handle_key(Some(ListBinding::Apply));
    assert_eq!(next, PickerNext::Stay);
    assert_eq!(outcome, MergeOutcome::TooFew);
    assert_eq!(MergeSelectMode::too_few_message(), "Select at least 2 tabs to merge");
    m.handle_key(Some(ListBinding::Toggle));
    let (next, res, _) = m.handle_key(Some(ListBinding::Apply));
    assert_eq!(next, PickerNext::Normal);
    assert!(matches!(res, KeyResult::OpenMergedView { ref source_tab_indices } if source_tab_indices == &vec![4, 6]));
    m.handle_key(Some(ListBinding::Clear));
    assert!(m.tabs.iter().all(|t| !t.1));
}

#[test]
fn select_fields_reorder_apply_cancel() {
    let fields = vec![("ts".to_string(), true), ("level".to_string(), true), ("msg".to_string(), false)];
    let m = SelectFieldsMode::new(fields, 17u32, vec!["x".to_string()]);
    let m = match m.handle_key(Some(ListBinding::MoveDown)).0 {
        FieldsStep::Stay(m) => m,
        _ => panic!("expected stay"),
    };
    assert_eq!(m.selected, 1);
    assert_eq!(m.fields[0].0, "level");
    let m = match m.handle_key(Some(ListBinding::Toggle)).0 {
        FieldsStep::Stay(m) => m,
        _ => panic!("expected stay"),
    };
    let (step, res) = m.handle_key(Some(ListBinding::Apply));
    assert!(matches!(res, KeyResult::Handled));
    match step {
        FieldsStep::Apply { columns, shown, hidden } => {
            assert_eq!(columns, vec!["level", "ts", "msg"]);
            assert_eq!(shown, vec!["level"]);
            assert_eq!(hidden, vec!["ts", "msg"]);
        }
        _ => panic!("expected apply"),
    }
    let m = SelectFieldsMode::new(vec![], 17u32, vec!["x".to_string()]);
    match m.handle_key(Some(ListBinding::Cancel)).0 {
        FieldsStep::Restore { layout, hidden_fields } => {
            assert_eq!(layout, 17);
            assert_eq!(hidden_fields, vec!["x"]);
        }
        _ => panic!("expected restore"),
    }
}

#[test]
fn confirm_restore_answers() {
    let m = ConfirmRestoreMode { context: "ctx" };
    assert!(matches!(m.handle_key(Some(ConfirmBinding::Always)), (RestoreStep::Apply { context: "ctx", always: true }, KeyResult::Handled)));
    let m = ConfirmRestoreMode { context: "ctx" };
    assert!(matches!(m.handle_key(Some(ConfirmBinding::Never)), (RestoreStep::Discard, KeyResult::NeverRestoreFile)));
    let s = ConfirmRestoreSessionMode { files: vec!["a.log".to_string()] };
    let (next, res) = s.handle_key(Some(ConfirmBinding::Yes));
    assert!(next.is_none());
    assert!(matches!(res, KeyResult::RestoreSession(ref f) if f == &vec!["a.log".to_string()]));
    let s = ConfirmRestoreSessionMode { files: vec![] };
    let (next, res) = s.handle_key(None);
    assert!(next.is_some());
    assert!(matches!(res, KeyResult::Handled));
}

#[test]
fn ui_toggles_and_labels() {
    let mut flags = UiFlags { sidebar: true, mode_bar: true, borders: false, wrap: false };
    let ui = UiMode::from_tab(flags);
    assert_eq!(ui.switch_labels(), vec!["sidebar[ON]", "mode bar[ON]", "borders[OFF]", "wrap[OFF]"]);
    let (leave, res) = ui.handle_key(Some(UiBinding::ToggleWrap), &mut flags);
    assert!(leave);
    assert!(matches!(res, KeyResult::Handled));
    assert!(flags.wrap);
    let (_, res) = ui.handle_key(Some(UiBinding::ToggleModeBar), &mut flags);
    assert!(matches!(res, KeyResult::ToggleModeBar));
    assert!(flags.mode_bar);
    let (leave, res) = ui.handle_key(None, &mut flags);
    assert!(!leave);
    assert!(matches!(res, KeyResult::Ignored));
}

#[test]
fn search_prompt_edits_and_requests() {
    let mut s = SearchMode { input: String::new(), forward: false };
    let (_, _, req) = s.handle_key(None, key(Key::Char('e')));
    assert_eq!(req, SearchRequest::Incremental);
    let (_, _, req) = s.handle_key(None, key(Key::Backspace));
    assert_eq!(req, SearchRequest::ClearIncremental);
    let (leave, res, _) = s.handle_key(None, key(Key::Tab));
    assert!(!leave);
    assert!(matches!(res, KeyResult::Ignored));
    let (leave, _, req) = s.handle_key(Some(SearchBinding::Confirm), key(Key::Enter));
    assert!(leave);
    assert_eq!(req, SearchRequest::Run);
    assert_eq!(s.seed_incremental_position(&vec![9, 8, 7], 1), (8, false));
    assert_eq!(s.seed_incremental_position(&vec![9], 4), (0, false));
}

#[test]
fn theme_and_partial_completion() {
    let themes = vec!["dracula".to_string(), "nord".to_string(), "solarized".to_string()];
    assert_eq!(theme_completions("set-theme", &themes).unwrap().len(), 3);
    assert_eq!(theme_completions("set-theme   dr", &themes), Some(vec!["set-theme dracula".to_string()]));
    assert_eq!(theme_completions("set-theme zzz", &themes), Some(vec![]));
    assert_eq!(theme_completions("filter x", &themes), None);
    let comps = vec!["markdown".to_string(), "mail".to_string()];
    assert_eq!(replace_partial("export a.md -t ma", "ma", &comps), vec!["export a.md -t markdown", "export a.md -t mail"]);
    assert_eq!(replace_partial("export a.md -t", "", &comps)[0], "export a.md -tmarkdown");
}

#[test]
fn archive_rows() {
    let r = archive_row("a.log", 2, &ArchiveNodeKind::File, CheckState::Checked);
    assert_eq!(r.name, "a.log");
    assert_eq!(r.depth, 2);
    assert!(!r.is_container && !r.is_error);
    let r = archive_row("b.zip", 1, &ArchiveNodeKind::UnreadableContainer("bad zip".to_string()), CheckState::Checked);
    assert_eq!(r.name, "b.zip (bad zip)");
    assert_eq!(r.check_state, CheckState::Unchecked);
    assert!(r.is_error);
}

fn strings(v: &[&str]) -> Vec<String> {
    v.iter().map(|s| s.to_string()).collect()
}

fn no_tiers() -> CompletionTiers {
    CompletionTiers { field: None, color: None, templates: vec![], file: None, themes: vec![], commands: vec![] }
}

#[test]
fn completions_take_the_first_tier_with_candidates() {
    let t = CompletionTiers {
        field: Some((FieldPartial::Name("sta".to_string()), strings(&["status", "stack"]))),
        ..no_tiers()
    };
    assert_eq!(compute_completions("  filter --field sta", &t), vec!["filter --field status=", "filter --field stack="]);
    let t = CompletionTiers {
        field: Some((FieldPartial::Value { field: "level".to_string(), partial: "er".to_string() }, strings(&["error"]))),
        ..no_tiers()
    };
    assert_eq!(compute_completions("filter --field level=er", &t), vec!["filter --field level=error"]);
    let t = CompletionTiers {
        field: Some((FieldPartial::Name(String::new()), vec![])),
        color: Some(("re".to_string(), strings(&["red"]))),
        commands: strings(&["filter"]),
        ..no_tiers()
    };
    assert_eq!(compute_completions("filter x --fg re ", &t), vec!["filter x --fg red"]);
    let t = CompletionTiers { templates: strings(&["markdown"]), ..no_tiers() };
    assert_eq!(compute_completions("export a.md -t ma", &t), vec!["export a.md -t markdown"]);
    let t = CompletionTiers { file: Some(("open".to_string(), vec![])), commands: strings(&["open"]), ..no_tiers() };
    assert!(compute_completions("open /tm", &t).is_empty());
    let t = CompletionTiers { file: Some(("open".to_string(), strings(&["/tmp/"]))), ..no_tiers() };
    assert_eq!(compute_completions("open /tm", &t), vec!["open /tmp/"]);
    let t = CompletionTiers { themes: strings(&["nord", "dracula"]), commands: strings(&["set-theme"]), ..no_tiers() };
    assert_eq!(compute_completions("set-theme no", &t), vec!["set-theme nord"]);
    assert_eq!(compute_completions("set-th", &t), vec!["set-theme"]);
}

#[test]
fn file_path_query_picks_the_command_and_the_path() {
    let cmds = vec!["open".to_string(), "load".to_string()];
    assert_eq!(
        file_path_query("  open  logs/a", &cmds, None),
        Some(("open".to_string(), "logs/a".to_string()))
    );
    assert_eq!(
        file_path_query("load ", &cmds, Some("/var/log/app.log")),
        Some(("load".to_string(), "/var/log/".to_string()))
    );
    assert_eq!(file_path_query("open ", &cmds, None), Some(("open".to_string(), String::new())));
    assert_eq!(file_path_query("opener x", &cmds, None), None);
    assert_eq!(file_path_query("open", &cmds, None), None);
}
