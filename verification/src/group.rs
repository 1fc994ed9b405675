//! The filter-group list: selection by name (the list is recomputed and
//! sorted as filters change groups), narrowing by a typed query, and the
//! keys that toggle, delete, restyle and add groups.

use vstd::prelude::*;
use crate::commands::{build_group_style_command, color_flags, quoted_arg, ColorConfig};
use crate::editor::{byte_len, bytes_of};
use crate::key::{Key, KeyInput, KeyResult};
use crate::nav::{sat_add, sat_sub};
use crate::text::{pop_char, push_char};

verus! {

/// The position, from `i` on, of the first name equal to `x`.
pub open spec fn position_from(names: Seq<String>, x: Seq<char>, i: int) -> Option<int>
    decreases names.len() - i,
{
    if i < 0 || i >= names.len() {
        None
    } else if names[i]@ == x {
        Some(i)
    } else {
        position_from(names, x, i + 1)
    }
}

/// The position of the first name equal to `x`.
pub open spec fn position_of(names: Seq<String>, x: Seq<char>) -> Option<int> {
    position_from(names, x, 0)
}

/// The position of `x`, or 0 when it is not listed.
pub open spec fn position_or_first(names: Seq<String>, x: Seq<char>) -> int {
    match position_of(names, x) {
        Some(p) => p,
        None => 0,
    }
}

/// Finds `position_of`.
pub fn find_position(names: &Vec<String>, x: &String) -> (r: Option<usize>)
    ensures
        match r {
            Some(p) => position_of(names@, x@) == Some(p as int) && p < names@.len(),
            None => position_of(names@, x@) is None,
        },
{
    let mut i: usize = 0;
    while i < names.len()
        invariant
            i <= names@.len(),
            position_of(names@, x@) == position_from(names@, x@, i as int),
        decreases names@.len() - i,
    {
        if names[i] == *x {
            return Some(i);
        }
        i += 1;
    }
    None
}

/// The name `steps` positions after (`down`) or before the selected one,
/// stopping at the ends; the selection itself when there are no names.
pub open spec fn stepped(names: Seq<String>, selected: Seq<char>, steps: int, down: bool) -> Seq<char> {
    if names.len() == 0 {
        selected
    } else {
        let pos = position_or_first(names, selected);
        let next = if down {
            let t = sat_add(pos, steps);
            if t < names.len() - 1 { t } else { names.len() - 1 }
        } else {
            sat_sub(pos, steps)
        };
        names[next]@
    }
}

/// The group selected after deleting the selected one: whatever now sits
/// at its position, else the last, else none.
pub open spec fn after_delete(names: Seq<String>, selected: Seq<char>) -> Seq<char> {
    match position_of(names, selected) {
        Some(p) => if p + 1 < names.len() {
            names[p + 1]@
        } else if p > 0 {
            names[p - 1]@
        } else {
            Seq::empty()
        },
        None => if names.len() > 0 {
            names[0]@
        } else {
            Seq::empty()
        },
    }
}

/// What the group list reads of the tab.
#[derive(Debug)]
pub struct GroupListView {
    /// The group names, sorted.
    pub names: Vec<String>,
    /// The names the current query keeps, in order.
    pub narrowed: Vec<String>,
    /// Lines of the groups section on screen.
    pub groups_visible_height: usize,
    /// The first `g` of a `gg` chord was pressed.
    pub g_pressed: bool,
    /// Whether the selected group is on: any of its filters enabled, or,
    /// for a group without filters, its own flag.
    pub selected_enabled: bool,
    /// Whether any filter at all is enabled.
    pub any_enabled: bool,
    /// The style of the selected group, if it has one.
    pub selected_style: Option<ColorConfig>,
}

/// The configured key a press matches, in the order they are tried.
/// While searching, only `SearchConfirm`, `SearchCancel`, `ScrollDown` and
/// `ScrollUp` are tried, in that order.
#[derive(Debug, Clone, Copy, PartialEq, Eq, Structural)]
pub enum GroupBinding {
    ExitMode,
    Search,
    ScrollDown,
    ScrollUp,
    HalfPageUp,
    HalfPageDown,
    PageUp,
    PageDown,
    GoToBottom,
    GoToTopChord,
    Toggle,
    ToggleAll,
    Delete,
    EditStyle,
    ClearStyle,
    AddGroup,
    SearchConfirm,
    SearchCancel,
}

/// Where the group list goes after a key.
#[derive(Debug)]
pub enum GroupNext {
    Stay,
    Normal,
    /// The command line, prefilled, the cursor at byte `cursor`.
    Command { input: String, cursor: usize },
}

/// What the application does to the groups after a key (always to the
/// group selected when the key was pressed).
#[derive(Debug, Clone, Copy, PartialEq, Eq, Structural)]
pub enum GroupRequest {
    Nothing,
    /// Turn the group and all its filters on or off.
    SetEnabled(bool),
    /// Enable (`true`) or disable every filter.
    SetAllEnabled(bool),
    /// Remove the group: its filters and its style.
    Delete,
    ClearStyle,
    /// The query changed: narrow the names anew and call `reselect`.
    Renarrow,
}

/// Everything a key did in the group list, besides the new state.
#[derive(Debug)]
pub struct GroupOutcome {
    pub next: GroupNext,
    pub result: KeyResult,
    pub request: GroupRequest,
    /// The new state of the `gg` chord.
    pub g_pressed: bool,
    /// Clear the last command error (a command line was opened).
    pub clear_command_error: bool,
}

/// The group list mode.
#[derive(Debug)]
pub struct GroupManagementMode {
    pub selected_group: String,
    /// Typeahead query; non-empty narrows the list to matching names.
    pub search: String,
    /// Capturing typed text for `search`.
    pub searching: bool,
    /// Selection to go back to if the search is cancelled.
    pub pre_search_selected: Option<String>,
}

impl GroupManagementMode {
    /// The list, with `selected_group` selected.
    pub fn new(selected_group: String) -> (r: Self)
        ensures
            r.at(selected_group@),
    {
        GroupManagementMode { selected_group, search: String::new(), searching: false, pre_search_selected: None }
    }

    /// Freshly at the group named `name`: no search.
    pub open spec fn at(&self, name: Seq<char>) -> bool {
        &&& self.selected_group@ == name
        &&& self.search@.len() == 0
        &&& !self.searching
        &&& self.pre_search_selected is None
    }

    /// After the query changed: keep the selection if the query keeps it,
    /// else select the first name kept (none when nothing is kept).
    pub fn reselect(&mut self, narrowed: &Vec<String>)
        ensures
            final(self).selected_group@ == if position_of(narrowed@, old(self).selected_group@) is Some {
                old(self).selected_group@
            } else if narrowed@.len() > 0 {
                narrowed@[0]@
            } else {
                Seq::empty()
            },
            final(self).search == old(self).search,
            final(self).searching == old(self).searching,
            final(self).pre_search_selected == old(self).pre_search_selected,
    {
        match find_position(narrowed, &self.selected_group) {
            Some(_) => {},
            None => {
                self.selected_group = if narrowed.len() > 0 { narrowed[0].clone() } else { String::new() };
            },
        }
    }

    fn go_to(&mut self, name: String)
        ensures
            final(self).at(name@),
    {
        *self = GroupManagementMode::new(name);
    }

    fn name_at_step(names: &Vec<String>, selected: &String, steps: usize, down: bool) -> (r: String)
        ensures
            r@ == stepped(names@, selected@, steps as int, down),
    {
        let n = names.len();
        if n == 0 {
            return selected.clone();
        }
        let pos = match find_position(names, selected) {
            Some(p) => p,
            None => 0,
        };
        let next = if down {
            let t = pos.saturating_add(steps);
            if t < n - 1 { t } else { n - 1 }
        } else {
            pos.saturating_sub(steps)
        };
        names[next].clone()
    }

    fn outcome(next: GroupNext, result: KeyResult, request: GroupRequest, g_pressed: bool) -> (r: GroupOutcome)
        ensures
            r.next == next,
            r.result == result,
            r.request == request,
            r.g_pressed == g_pressed,
            !r.clear_command_error,
    {
        GroupOutcome { next, result, request, g_pressed, clear_command_error: false }
    }

    /// What a key does while typing a query.
    pub open spec fn search_outcome(
        o: Self,
        f: Self,
        bound: Option<GroupBinding>,
        k: KeyInput,
        view: GroupListView,
        out: GroupOutcome,
    ) -> bool {
        let nar = view.narrowed@;
        let pos = position_or_first(nar, o.selected_group@);
        &&& out.next is Stay
        &&& !out.clear_command_error
        &&& match bound {
            Some(GroupBinding::SearchConfirm) => out.result is Handled && !out.g_pressed && out.request
                == GroupRequest::Nothing && f.at(o.selected_group@),
            Some(GroupBinding::SearchCancel) => out.result is Handled && !out.g_pressed && out.request
                == GroupRequest::Nothing && f.at(
                match o.pre_search_selected {
                    Some(p) => p@,
                    None => Seq::empty(),
                },
            ),
            Some(GroupBinding::ScrollDown) => out.result is Handled && out.g_pressed == view.g_pressed && out.request
                == GroupRequest::Nothing && f.search == o.search && f.searching && f.pre_search_selected
                == o.pre_search_selected && f.selected_group@ == (if pos + 1 < nar.len() {
                nar[pos + 1]@
            } else if nar.len() > 0 {
                nar[nar.len() - 1]@
            } else {
                o.selected_group@
            }),
            Some(GroupBinding::ScrollUp) => out.result is Handled && out.g_pressed == view.g_pressed && out.request
                == GroupRequest::Nothing && f.search == o.search && f.searching && f.pre_search_selected
                == o.pre_search_selected && f.selected_group@ == (if sat_sub(pos, 1) < nar.len() {
                nar[sat_sub(pos, 1)]@
            } else {
                o.selected_group@
            }),
            _ => out.g_pressed == view.g_pressed && f.selected_group == o.selected_group && f.searching
                == o.searching && f.pre_search_selected == o.pre_search_selected && match k.key {
                Key::Backspace => out.result is Handled && out.request == GroupRequest::Renarrow && f.search@ == (
                if o.search@.len() > 0 {
                    o.search@.drop_last()
                } else {
                    o.search@
                }),
                Key::Char(c) => if k.ctrl {
                    out.result is Ignored && out.request == GroupRequest::Nothing && f.search == o.search
                } else {
                    out.result is Handled && out.request == GroupRequest::Renarrow && f.search@ == o.search@.push(c)
                },
                _ => out.result is Ignored && out.request == GroupRequest::Nothing && f.search == o.search,
            },
        }
    }

    fn handle_search_key(&mut self, bound: Option<GroupBinding>, k: KeyInput, view: &GroupListView) -> (out:
        GroupOutcome)
        requires
            old(self).searching,
        ensures
            Self::search_outcome(*old(self), *final(self), bound, k, *view, out),
    {
        let keep_g = view.g_pressed;
        match bound {
            Some(GroupBinding::SearchConfirm) => {
                let name = self.selected_group.clone();
                self.go_to(name);
                return Self::outcome(GroupNext::Stay, KeyResult::Handled, GroupRequest::Nothing, false);
            },
            Some(GroupBinding::SearchCancel) => {
                let name = match &self.pre_search_selected {
                    Some(p) => p.clone(),
                    None => String::new(),
                };
                self.go_to(name);
                return Self::outcome(GroupNext::Stay, KeyResult::Handled, GroupRequest::Nothing, false);
            },
            Some(GroupBinding::ScrollDown) => {
                let nar = &view.narrowed;
                let pos = match find_position(nar, &self.selected_group) {
                    Some(p) => p,
                    None => 0,
                };
                let n = nar.len();
                if pos < n && pos + 1 < n {
                    self.selected_group = nar[pos + 1].clone();
                } else if n > 0 {
                    self.selected_group = nar[n - 1].clone();
                }
                return Self::outcome(GroupNext::Stay, KeyResult::Handled, GroupRequest::Nothing, keep_g);
            },
            Some(GroupBinding::ScrollUp) => {
                let nar = &view.narrowed;
                let pos = match find_position(nar, &self.selected_group) {
                    Some(p) => p,
                    None => 0,
                };
                let up = pos.saturating_sub(1);
                if up < nar.len() {
                    self.selected_group = nar[up].clone();
                }
                return Self::outcome(GroupNext::Stay, KeyResult::Handled, GroupRequest::Nothing, keep_g);
            },
            _ => {},
        }
        match k.key {
            Key::Backspace => {
                let _ = pop_char(&mut self.search);
            },
            Key::Char(c) => {
                if k.ctrl {
                    return Self::outcome(GroupNext::Stay, KeyResult::Ignored, GroupRequest::Nothing, keep_g);
                }
                push_char(&mut self.search, c);
            },
            _ => {
                return Self::outcome(GroupNext::Stay, KeyResult::Ignored, GroupRequest::Nothing, keep_g);
            },
        }
        Self::outcome(GroupNext::Stay, KeyResult::Handled, GroupRequest::Renarrow, keep_g)
    }

    /// What a key does outside a query.
    pub open spec fn list_outcome(o: Self, f: Self, bound: Option<GroupBinding>, view: GroupListView, out: GroupOutcome) -> bool {
        let names = view.names@;
        let sel = o.selected_group@;
        let half = if view.groups_visible_height / 2 > 1 { view.groups_visible_height / 2 } else { 1 };
        let page = if view.groups_visible_height > 1 { view.groups_visible_height as int } else { 1 };
        let moved = |to: Seq<char>|
            out.next is Stay && out.result is Handled && out.request == GroupRequest::Nothing && !out.g_pressed
                && !out.clear_command_error && f.at(to);
        match bound {
            Some(GroupBinding::ExitMode) => out.next is Normal && out.result is Handled && out.request
                == GroupRequest::Nothing && !out.g_pressed && !out.clear_command_error,
            Some(GroupBinding::Search) => out.next is Stay && out.result is Handled && out.request
                == GroupRequest::Nothing && !out.g_pressed && !out.clear_command_error && f.selected_group
                == o.selected_group && f.search@.len() == 0 && f.searching && (f.pre_search_selected matches Some(p)
                && p@ == sel),
            Some(GroupBinding::ScrollDown) => moved(stepped(names, sel, 1, true)),
            Some(GroupBinding::ScrollUp) => moved(stepped(names, sel, 1, false)),
            Some(GroupBinding::HalfPageUp) => moved(stepped(names, sel, half as int, false)),
            Some(GroupBinding::HalfPageDown) => moved(stepped(names, sel, half as int, true)),
            Some(GroupBinding::PageUp) => moved(stepped(names, sel, page, false)),
            Some(GroupBinding::PageDown) => moved(stepped(names, sel, page, true)),
            Some(GroupBinding::GoToBottom) => moved(
                if names.len() > 0 {
                    names[names.len() - 1]@
                } else {
                    sel
                },
            ),
            Some(GroupBinding::GoToTopChord) => if view.g_pressed {
                moved(
                    if names.len() > 0 {
                        names[0]@
                    } else {
                        sel
                    },
                )
            } else {
                out.next is Stay && out.result is Handled && out.request == GroupRequest::Nothing && out.g_pressed
                    && !out.clear_command_error && f == o
            },
            Some(GroupBinding::Toggle) => out.next is Stay && out.result is Handled && out.request
                == GroupRequest::SetEnabled(!view.selected_enabled) && !out.g_pressed && !out.clear_command_error
                && f.at(sel),
            Some(GroupBinding::ToggleAll) => out.next is Stay && out.result is Handled && out.request
                == GroupRequest::SetAllEnabled(!view.any_enabled) && !out.g_pressed && !out.clear_command_error
                && f.at(sel),
            Some(GroupBinding::Delete) => out.next is Stay && out.result is Handled && out.request
                == GroupRequest::Delete && !out.g_pressed && !out.clear_command_error && f.at(after_delete(names, sel)),
            Some(GroupBinding::EditStyle) => (out.next matches GroupNext::Command { input, cursor } && input@
                == "group "@ + quoted_arg(sel) + match view.selected_style {
                Some(cfg) => color_flags(Some(cfg), true),
                None => Seq::empty(),
            } && cursor == bytes_of(input).len()) && out.result is Handled && out.request == GroupRequest::Nothing
                && out.g_pressed == view.g_pressed && out.clear_command_error && f == o,
            Some(GroupBinding::ClearStyle) => out.next is Stay && out.result is Handled && out.request
                == GroupRequest::ClearStyle && !out.g_pressed && !out.clear_command_error && f.at(sel),
            Some(GroupBinding::AddGroup) => (out.next matches GroupNext::Command { input, cursor } && input@
                == "group "@ && cursor == bytes_of(input).len()) && out.result is Handled && out.request
                == GroupRequest::Nothing && out.g_pressed == view.g_pressed && out.clear_command_error && f == o,
            _ => out.next is Stay && out.result is Ignored && out.request == GroupRequest::Nothing && !out.g_pressed
                && !out.clear_command_error && f == o,
        }
    }

    fn open(cmd: String, g_pressed: bool) -> (out: GroupOutcome)
        ensures
            out.next matches GroupNext::Command { input, cursor } && input@ == cmd@ && cursor == bytes_of(input).len(),
            out.result is Handled,
            out.request == GroupRequest::Nothing,
            out.g_pressed == g_pressed,
            out.clear_command_error,
    {
        let cursor = byte_len(&cmd);
        GroupOutcome {
            next: GroupNext::Command { input: cmd, cursor },
            result: KeyResult::Handled,
            request: GroupRequest::Nothing,
            g_pressed,
            clear_command_error: true,
        }
    }

    /// Handles one key (`bound` is the first configured key the press
    /// matches, see `GroupBinding`): while typing a query see
    /// `search_outcome`, otherwise `list_outcome`.
    pub fn handle_key(&mut self, bound: Option<GroupBinding>, k: KeyInput, view: &GroupListView) -> (out: GroupOutcome)
        ensures
            old(self).searching ==> Self::search_outcome(*old(self), *final(self), bound, k, *view, out),
            !old(self).searching ==> Self::list_outcome(*old(self), *final(self), bound, *view, out),
    {
        if self.searching {
            return self.handle_search_key(bound, k, view);
        }
        let names = &view.names;
        let n = names.len();
        let half = if view.groups_visible_height / 2 > 1 { view.groups_visible_height / 2 } else { 1 };
        let page = if view.groups_visible_height > 1 { view.groups_visible_height } else { 1 };
        let stay = GroupNext::Stay;
        match bound {
            Some(GroupBinding::ExitMode) => Self::outcome(GroupNext::Normal, KeyResult::Handled, GroupRequest::Nothing, false),
            Some(GroupBinding::Search) => {
                self.pre_search_selected = Some(self.selected_group.clone());
                self.search = String::new();
                self.searching = true;
                Self::outcome(stay, KeyResult::Handled, GroupRequest::Nothing, false)
            },
            Some(GroupBinding::ScrollDown) | Some(GroupBinding::ScrollUp) | Some(GroupBinding::HalfPageUp) | Some(
                GroupBinding::HalfPageDown,
            ) | Some(GroupBinding::PageUp) | Some(GroupBinding::PageDown) => {
                let (steps, down) = match bound {
                    Some(GroupBinding::ScrollDown) => (1, true),
                    Some(GroupBinding::ScrollUp) => (1, false),
                    Some(GroupBinding::HalfPageUp) => (half, false),
                    Some(GroupBinding::HalfPageDown) => (half, true),
                    Some(GroupBinding::PageUp) => (page, false),
                    _ => (page, true),
                };
                let name = Self::name_at_step(names, &self.selected_group, steps, down);
                self.go_to(name);
                Self::outcome(stay, KeyResult::Handled, GroupRequest::Nothing, false)
            },
            Some(GroupBinding::GoToBottom) => {
                let name = if n > 0 { names[n - 1].clone() } else { self.selected_group.clone() };
                self.go_to(name);
                Self::outcome(stay, KeyResult::Handled, GroupRequest::Nothing, false)
            },
            Some(GroupBinding::GoToTopChord) => {
                if view.g_pressed {
                    let name = if n > 0 { names[0].clone() } else { self.selected_group.clone() };
                    self.go_to(name);
                    Self::outcome(stay, KeyResult::Handled, GroupRequest::Nothing, false)
                } else {
                    Self::outcome(stay, KeyResult::Handled, GroupRequest::Nothing, true)
                }
            },
            Some(GroupBinding::Toggle) => {
                let name = self.selected_group.clone();
                self.go_to(name);
                Self::outcome(stay, KeyResult::Handled, GroupRequest::SetEnabled(!view.selected_enabled), false)
            },
            Some(GroupBinding::ToggleAll) => {
                let name = self.selected_group.clone();
                self.go_to(name);
                Self::outcome(stay, KeyResult::Handled, GroupRequest::SetAllEnabled(!view.any_enabled), false)
            },
            Some(GroupBinding::Delete) => {
                let target = match find_position(names, &self.selected_group) {
                    Some(p) => if p + 1 < n {
                        names[p + 1].clone()
                    } else if p > 0 {
                        names[p - 1].clone()
                    } else {
                        String::new()
                    },
                    None => if n > 0 {
                        names[0].clone()
                    } else {
                        String::new()
                    },
                };
                self.go_to(target);
                Self::outcome(stay, KeyResult::Handled, GroupRequest::Delete, false)
            },
            Some(GroupBinding::EditStyle) => {
                let cmd = build_group_style_command(self.selected_group.as_str(), view.selected_style.as_ref());
                Self::open(cmd, view.g_pressed)
            },
            Some(GroupBinding::ClearStyle) => {
                let name = self.selected_group.clone();
                self.go_to(name);
                Self::outcome(stay, KeyResult::Handled, GroupRequest::ClearStyle, false)
            },
            Some(GroupBinding::AddGroup) => Self::open(String::from_str("group "), view.g_pressed),
            _ => Self::outcome(stay, KeyResult::Ignored, GroupRequest::Nothing, false),
        }
    }
}


/// Deleting a listed group, when another remains, selects another one:
/// among distinct names, the group selected afterwards is not the deleted
/// one.
pub proof fn lemma_delete_moves_off(names: Seq<String>, selected: Seq<char>)
    requires
        position_of(names, selected) is Some,
        names.len() > 1,
        forall|a: int, b: int| 0 <= a < b < names.len() ==> names[a]@ != names[b]@,
    ensures
        after_delete(names, selected) != selected,
{
    lemma_position_found(names, selected, 0);
    let p = position_of(names, selected)->0;
    if p + 1 < names.len() {
        assert(names[p]@ != names[p + 1]@);
    } else {
        assert(names[p - 1]@ != names[p]@);
    }
}

proof fn lemma_position_found(names: Seq<String>, x: Seq<char>, i: int)
    requires
        0 <= i,
        position_from(names, x, i) is Some,
    ensures
        ({
            let p = position_from(names, x, i)->0;
            i <= p < names.len() && names[p]@ == x
        }),
    decreases names.len() - i,
{
    if i < names.len() && names[i]@ != x {
        lemma_position_found(names, x, i + 1);
    }
}

/// `G` in the group list selects the last group listed (and keeps the
/// selection when there is none), closes no request and leaves no query
/// open. Among distinct names, moving down any number of rows from there
/// stays on that last group.
pub proof fn lemma_bottom_selects_last(
    o: GroupManagementMode,
    f: GroupManagementMode,
    view: GroupListView,
    out: GroupOutcome,
    steps: int,
)
    requires
        GroupManagementMode::list_outcome(o, f, Some(GroupBinding::GoToBottom), view, out),
        steps >= 0,
    ensures
        out.next is Stay,
        out.result is Handled,
        out.request == GroupRequest::Nothing,
        !f.searching,
        f.search@.len() == 0,
        view.names@.len() == 0 ==> f.selected_group@ == o.selected_group@,
        view.names@.len() > 0 ==> f.selected_group@ == view.names@.last()@,
        view.names@.len() > 0 && (forall|a: int, b: int|
            0 <= a < b < view.names@.len() ==> view.names@[a]@ != view.names@[b]@) ==> stepped(
            view.names@,
            f.selected_group@,
            steps,
            true,
        ) == f.selected_group@,
{
    let names = view.names@;
    if names.len() > 0 && (forall|a: int, b: int| 0 <= a < b < names.len() ==> names[a]@ != names[b]@) {
        let last = names.len() - 1;
        lemma_position_of_distinct(names, last, 0);
        assert(position_or_first(names, f.selected_group@) == last);
        assert(names.len() == view.names.len());
        assert(sat_add(last, steps) >= last);
        assert(stepped(names, f.selected_group@, steps, true) == names[last]@);
    }
}

/// Paging through the group list moves the selection by whole pages: from
/// the group at position `p` among distinct names, PageDown and PageUp move
/// by the height of the groups section (at least one row), HalfPageDown and
/// HalfPageUp by half of it (at least one row), stopping at the first and
/// the last group. No request is made and no query is left open.
pub proof fn lemma_group_paging_distance(
    o: GroupManagementMode,
    f: GroupManagementMode,
    b: GroupBinding,
    view: GroupListView,
    out: GroupOutcome,
    p: int,
)
    requires
        GroupManagementMode::list_outcome(o, f, Some(b), view, out),
        b is PageUp || b is PageDown || b is HalfPageUp || b is HalfPageDown,
        0 <= p < view.names@.len(),
        o.selected_group@ == view.names@[p]@,
        forall|a: int, c: int| 0 <= a < c < view.names@.len() ==> view.names@[a]@ != view.names@[c]@,
    ensures
        out.next is Stay,
        out.request == GroupRequest::Nothing,
        !f.searching,
        ({
            let len = view.names@.len() as int;
            let h = view.groups_visible_height as int;
            let whole: int = if h == 0 { 1 } else { h };
            let halved: int = if h < 4 { 1 } else { h / 2 };
            let step: int = if b is PageUp || b is PageDown { whole } else { halved };
            let target: int = if b is PageDown || b is HalfPageDown {
                if p + step < len - 1 { p + step } else { len - 1 }
            } else if p < step {
                0
            } else {
                p - step
            };
            f.selected_group@ == view.names@[target]@
        }),
{
    let names = view.names@;
    lemma_position_of_distinct(names, p, 0);
    assert(names.len() == view.names.len());
    assert(position_or_first(names, o.selected_group@) == p);
}

/// `gg` in the group list selects the first group listed (and keeps the
/// selection when there is none); the first `g` only arms the chord and
/// changes nothing else.
pub proof fn lemma_top_chord_selects_first(
    o: GroupManagementMode,
    f: GroupManagementMode,
    view: GroupListView,
    out: GroupOutcome,
)
    requires
        GroupManagementMode::list_outcome(o, f, Some(GroupBinding::GoToTopChord), view, out),
    ensures
        out.next is Stay,
        out.request == GroupRequest::Nothing,
        !view.g_pressed ==> out.g_pressed && f == o,
        view.g_pressed ==> !out.g_pressed && !f.searching,
        view.g_pressed && view.names@.len() > 0 ==> f.selected_group@ == view.names@.first()@,
        view.g_pressed && view.names@.len() == 0 ==> f.selected_group@ == o.selected_group@,
{
}

/// Among distinct names, the name at `j` is found at `j` from any `i <= j`.
proof fn lemma_position_of_distinct(names: Seq<String>, j: int, i: int)
    requires
        0 <= i <= j < names.len(),
        forall|a: int, b: int| 0 <= a < b < names.len() ==> names[a]@ != names[b]@,
    ensures
        position_from(names, names[j]@, i) == Some(j),
    decreases j - i,
{
    if i < j {
        assert(names[i]@ != names[j]@);
        lemma_position_of_distinct(names, j, i + 1);
    }
}

/// The filter (its group, whether it is on) belongs to the group `g`.
pub open spec fn in_group(f: (Option<String>, bool), g: Seq<char>) -> bool {
    f.0 matches Some(x) && x@ == g
}

/// Whether the group `g` counts as on: for a group with filters, when any
/// of them is on; for a group without filters (one that exists only by its
/// style), its own flag.
pub open spec fn group_on(filters: Seq<(Option<String>, bool)>, g: Seq<char>, own_flag: bool) -> bool {
    if exists|i: int| 0 <= i < filters.len() && in_group(#[trigger] filters[i], g) {
        exists|i: int| 0 <= i < filters.len() && in_group(#[trigger] filters[i], g) && filters[i].1
    } else {
        own_flag
    }
}

/// Computes `group_on` (`filters` lists each filter's group and whether it
/// is on; `own_flag` is the group's stored flag): the state that toggling
/// the group flips.
pub fn group_is_on(filters: &Vec<(Option<String>, bool)>, group: &str, own_flag: bool) -> (r: bool)
    ensures
        r == group_on(filters@, group@, own_flag),
{
    let target = String::from_str(group);
    let mut has = false;
    let mut on = false;
    let mut i: usize = 0;
    while i < filters.len()
        invariant
            i <= filters@.len(),
            target@ == group@,
            has == exists|t: int| 0 <= t < i && in_group(#[trigger] filters@[t], group@),
            on == exists|t: int| 0 <= t < i && in_group(#[trigger] filters@[t], group@) && filters@[t].1,
        decreases filters@.len() - i,
    {
        let member = match &filters[i].0 {
            Some(g) => *g == target,
            None => false,
        };
        proof {
            assert(member == in_group(filters@[i as int], group@));
        }
        if member {
            has = true;
            if filters[i].1 {
                on = true;
            }
        }
        i += 1;
    }
    if has {
        on
    } else {
        own_flag
    }
}

} // verus!
