use logana::commands::{ColorConfig, FilterPattern, FilterType};
use logana::filter_manage::{FilterBinding, FilterEntry, FilterListView, FilterManagementMode, FilterNext, FilterRequest};
use logana::group::{group_is_on, GroupBinding, GroupListView, GroupManagementMode, GroupNext, GroupRequest};
use logana::key::{Key, KeyInput, KeyResult};

fn key(k: Key) -> KeyInput {
    KeyInput { key: k, ctrl: false, alt: false, shift: false, meta: false }
}

fn view(n: usize) -> FilterListView {
    FilterListView {
        num_filters: n,
        selected_filter: None,
        any_enabled: true,
        narrowed: (0..n).collect(),
        sidebar_visible_height: 10,
        sidebar_width: 30,
        g_pressed: false,
    }
}

#[test]
fn filter_count_prefix_scrolls_by_count() {
    let mut m = FilterManagementMode::new(0);
    let v = view(10);
    m.handle_key(None, key(Key::Char('3')), &v);
    assert_eq!(m.count, Some(3));
    let (next, res, out) = m.handle_key(Some(FilterBinding::ScrollDown), key(Key::Char('j')), &v);
    assert!(matches!(next, FilterNext::Stay));
    assert!(matches!(res, KeyResult::Handled));
    assert_eq!(out.request, FilterRequest::Nothing);
    assert_eq!(m.selected_filter_index, 3);
    assert_eq!(m.count, None);
    m.handle_key(Some(FilterBinding::HalfPageDown), key(Key::Char('d')), &v);
    assert_eq!(m.selected_filter_index, 8);
    m.handle_key(Some(FilterBinding::PageDown), key(Key::Char('f')), &v);
    assert_eq!(m.selected_filter_index, 9);
    m.handle_key(Some(FilterBinding::ScrollUp), key(Key::Char('k')), &v);
    assert_eq!(m.selected_filter_index, 8);
}

#[test]
fn filter_delete_last_moves_selection_up() {
    let v = FilterListView { selected_filter: Some(sample_filter()), ..view(3) };
    let mut m = FilterManagementMode::new(2);
    let (_, _, out) = m.handle_key(Some(FilterBinding::DeleteFilter), key(Key::Char('d')), &v);
    assert_eq!(out.request, FilterRequest::Delete(2));
    assert_eq!(m.selected_filter_index, 1);
}

#[test]
fn filter_gg_chord_and_bottom() {
    let mut m = FilterManagementMode::new(4);
    let v = view(6);
    let (_, _, out) = m.handle_key(Some(FilterBinding::GoToTopChord), key(Key::Char('g')), &v);
    assert!(out.g_pressed);
    assert_eq!(m.selected_filter_index, 4);
    let v2 = FilterListView { g_pressed: true, ..view(6) };
    let (_, _, out) = m.handle_key(Some(FilterBinding::GoToTopChord), key(Key::Char('g')), &v2);
    assert!(!out.g_pressed);
    assert_eq!(m.selected_filter_index, 0);
    m.handle_key(Some(FilterBinding::GoToBottom), key(Key::Char('G')), &v);
    assert_eq!(m.selected_filter_index, 5);
    m.handle_key(None, key(Key::Char('2')), &v);
    m.handle_key(Some(FilterBinding::GoToBottom), key(Key::Char('G')), &v);
    assert_eq!(m.selected_filter_index, 1);
}

fn sample_filter() -> FilterEntry {
    FilterEntry {
        filter_type: FilterType::Include,
        color_config: Some(ColorConfig { fg: Some("red".to_string()), bg: None, match_only: false }),
        pattern: FilterPattern::Text("error".to_string()),
        use_regex: true,
        ignore_case: false,
        group: Some("my group".to_string()),
    }
}

#[test]
fn filter_edit_opens_prefilled_command() {
    let v = FilterListView { selected_filter: Some(sample_filter()), ..view(1) };
    let mut m = FilterManagementMode::new(0);
    let (next, _, out) = m.handle_key(Some(FilterBinding::EditFilter), key(Key::Char('e')), &v);
    match next {
        FilterNext::Command { input, cursor } => {
            assert_eq!(input, r#"filter --regex --fg red -l --group "my group" error"#);
            assert_eq!(cursor, input.len());
        }
        other => panic!("expected command, got {other:?}"),
    }
    assert!(out.edit_selected);
    assert_eq!(out.filter_context, Some(0));
    let (next, _, _) = m.handle_key(Some(FilterBinding::SetColor), key(Key::Char('c')), &v);
    assert!(matches!(next, FilterNext::Command { ref input, .. } if input == "set-color --fg red -l"));
    let (next, _, _) = m.handle_key(Some(FilterBinding::AddDate), key(Key::Char('D')), &view(0));
    assert!(matches!(next, FilterNext::Command { ref input, cursor } if input == "date-filter " && cursor == 12));
}

#[test]
fn filter_sidebar_resize_saturates_and_floors() {
    let mut m = FilterManagementMode::new(0);
    let v = FilterListView { sidebar_width: 11, ..view(1) };
    let (_, res, _) = m.handle_key(Some(FilterBinding::SidebarShrink), key(Key::Char('<')), &v);
    assert!(matches!(res, KeyResult::ResizeSidebar(10)));
    let v = FilterListView { sidebar_width: u16::MAX - 1, ..view(1) };
    let (_, res, out) = m.handle_key(Some(FilterBinding::SidebarGrow), key(Key::Char('>')), &v);
    assert!(matches!(res, KeyResult::ResizeSidebar(w) if w == u16::MAX));
    assert_eq!(out.request, FilterRequest::SetSidebarWidth(u16::MAX));
}

#[test]
fn filter_search_types_navigates_and_confirms() {
    let mut m = FilterManagementMode::new(2);
    let v = FilterListView { narrowed: vec![1, 4], ..view(5) };
    m.handle_key(Some(FilterBinding::Search), key(Key::Char('/')), &v);
    assert!(m.searching);
    assert_eq!(m.pre_search_selected, Some(2));
    let (_, _, out) = m.handle_key(None, key(Key::Char('x')), &v);
    assert_eq!(out.request, FilterRequest::Renarrow);
    assert_eq!(m.search, "x");
    m.clamp_to_narrowed(2);
    assert_eq!(m.selected_filter_index, 2 % 2 * 0);
    m.handle_key(Some(FilterBinding::ScrollDown), key(Key::Char('j')), &v);
    assert_eq!(m.selected_filter_index, 1);
    m.handle_key(Some(FilterBinding::SearchConfirm), key(Key::Enter), &v);
    assert!(!m.searching);
    assert_eq!(m.selected_filter_index, 4);
    assert_eq!(m.search, "");
}

#[test]
fn filter_toggle_all_flips_enabled_state() {
    let mut m = FilterManagementMode::new(0);
    let (_, _, out) = m.handle_key(Some(FilterBinding::ToggleAllFilters), key(Key::Char('A')), &view(2));
    assert_eq!(out.request, FilterRequest::SetAllEnabled(false));
    let (_, res, _) = m.handle_key(None, key(Key::Char('z')), &view(2));
    assert!(matches!(res, KeyResult::Ignored));
}

fn names(v: &[&str]) -> Vec<String> {
    v.iter().map(|s| s.to_string()).collect()
}

fn gview(list: &[&str]) -> GroupListView {
    GroupListView {
        names: names(list),
        narrowed: names(list),
        groups_visible_height: 4,
        g_pressed: false,
        selected_enabled: true,
        any_enabled: false,
        selected_style: None,
    }
}

#[test]
fn group_navigation_by_name() {
    let v = gview(&["alpha", "beta", "gamma"]);
    let mut m = GroupManagementMode::new("alpha".to_string());
    m.handle_key(Some(GroupBinding::ScrollDown), key(Key::Char('j')), &v);
    assert_eq!(m.selected_group, "beta");
    m.handle_key(Some(GroupBinding::PageDown), key(Key::Char('f')), &v);
    assert_eq!(m.selected_group, "gamma");
    m.handle_key(Some(GroupBinding::ScrollUp), key(Key::Char('k')), &v);
    assert_eq!(m.selected_group, "beta");
    let mut unknown = GroupManagementMode::new("zzz".to_string());
    unknown.handle_key(Some(GroupBinding::ScrollDown), key(Key::Char('j')), &v);
    assert_eq!(unknown.selected_group, "beta");
}

#[test]
fn group_delete_selects_neighbour() {
    let v = gview(&["alpha", "beta", "gamma"]);
    let mut m = GroupManagementMode::new("beta".to_string());
    let out = m.handle_key(Some(GroupBinding::Delete), key(Key::Char('d')), &v);
    assert_eq!(out.request, GroupRequest::Delete);
    assert_eq!(m.selected_group, "gamma");
    let mut last = GroupManagementMode::new("gamma".to_string());
    last.handle_key(Some(GroupBinding::Delete), key(Key::Char('d')), &v);
    assert_eq!(last.selected_group, "beta");
    let v1 = gview(&["solo"]);
    let mut only = GroupManagementMode::new("solo".to_string());
    only.handle_key(Some(GroupBinding::Delete), key(Key::Char('d')), &v1);
    assert_eq!(only.selected_group, "");
}

#[test]
fn group_toggle_and_style_commands() {
    let mut v = gview(&["net", "my group"]);
    let mut m = GroupManagementMode::new("my group".to_string());
    let out = m.handle_key(Some(GroupBinding::Toggle), key(Key::Char(' ')), &v);
    assert_eq!(out.request, GroupRequest::SetEnabled(false));
    v.selected_style = Some(ColorConfig { fg: None, bg: Some("blue".to_string()), match_only: true });
    let out = m.handle_key(Some(GroupBinding::EditStyle), key(Key::Char('e')), &v);
    assert!(out.clear_command_error);
    match out.next {
        GroupNext::Command { input, cursor } => {
            assert_eq!(input, r#"group "my group" --bg blue"#);
            assert_eq!(cursor, input.len());
        }
        other => panic!("expected command, got {other:?}"),
    }
    let out = m.handle_key(Some(GroupBinding::AddGroup), key(Key::Char('a')), &v);
    assert!(matches!(out.next, GroupNext::Command { ref input, cursor: 6 } if input == "group "));
}

#[test]
fn group_search_reselects_first_match() {
    let v = gview(&["alpha", "beta"]);
    let mut m = GroupManagementMode::new("alpha".to_string());
    m.handle_key(Some(GroupBinding::Search), key(Key::Char('/')), &v);
    let out = m.handle_key(None, key(Key::Char('b')), &v);
    assert_eq!(out.request, GroupRequest::Renarrow);
    m.reselect(&names(&["beta"]));
    assert_eq!(m.selected_group, "beta");
    m.handle_key(Some(GroupBinding::SearchCancel), key(Key::Esc), &v);
    assert_eq!(m.selected_group, "alpha");
    assert!(!m.searching);
}

#[test]
fn group_state_follows_its_filters_or_its_own_flag() {
    let filters = vec![
        (Some("net".to_string()), false),
        (Some("net".to_string()), true),
        (Some("db".to_string()), false),
        (None, true),
    ];
    assert!(group_is_on(&filters, "net", false));
    assert!(!group_is_on(&filters, "db", true));
    assert!(group_is_on(&filters, "style-only", true));
    assert!(!group_is_on(&filters, "style-only", false));
}
