//! The filter list in the sidebar: moving through it (with a count prefix
//! and the `gg` chord), narrowing it by a typed query, and the keys that
//! toggle, delete, reorder, edit and add filters.

use vstd::prelude::*;
use crate::commands::{build_color_command, build_edit_command, color_flags, date_filter_command,
    field_filter_command, text_filter_command, ColorConfig, FilterPattern, FilterType};
use crate::editor::{byte_len, bytes_of};
use crate::key::{Key, KeyInput, KeyResult};
use crate::nav::{count_step, full_page, half_page, push_count_key, sat_add, sat_mul, sat_sub, saturating_mul};
use crate::text::{pop_char, push_char};

verus! {

/// A stored filter, as the list shows and edits it.
#[derive(Debug, Clone)]
pub struct FilterEntry {
    pub filter_type: FilterType,
    pub color_config: Option<ColorConfig>,
    pub pattern: FilterPattern,
    pub use_regex: bool,
    pub ignore_case: bool,
    pub group: Option<String>,
}

fn clone_text(s: &Option<String>) -> (r: Option<String>)
    ensures
        r is Some <==> s is Some,
        r is Some ==> r->0@ == s->0@,
{
    match s {
        Some(t) => Some(t.clone()),
        None => None,
    }
}

fn clone_color(cc: &ColorConfig) -> (r: ColorConfig)
    ensures
        forall|b: bool| color_flags(Some(r), b) == color_flags(Some(*cc), b),
{
    ColorConfig { fg: clone_text(&cc.fg), bg: clone_text(&cc.bg), match_only: cc.match_only }
}

/// The command that recreates a filter, for editing it.
pub open spec fn edit_command(f: FilterEntry) -> Seq<char> {
    match f.pattern {
        FilterPattern::Date(expr) => date_filter_command(f.color_config, expr@),
        FilterPattern::Field(expr, parsed) => field_filter_command(f.filter_type, f.color_config, expr@, f.group, parsed),
        FilterPattern::Text(p) => text_filter_command(f.filter_type, f.color_config, p@, f.use_regex, f.ignore_case, f.group),
    }
}

/// What the filter list reads of the tab.
#[derive(Debug)]
pub struct FilterListView {
    /// How many filters there are.
    pub num_filters: usize,
    /// The filter at the selected position, if there is one there.
    pub selected_filter: Option<FilterEntry>,
    /// Whether any filter is enabled.
    pub any_enabled: bool,
    /// The positions (in the full list) of the filters the query keeps.
    pub narrowed: Vec<usize>,
    /// Lines of the sidebar on screen.
    pub sidebar_visible_height: usize,
    pub sidebar_width: u16,
    /// The first `g` of a `gg` chord was pressed.
    pub g_pressed: bool,
}

/// The configured key a press matches, in the order they are tried.
/// While searching, only `SearchConfirm`, `SearchCancel`, `ScrollDown` and
/// `ScrollUp` are tried, in that order.
#[derive(Debug, Clone, Copy, PartialEq, Eq, Structural)]
pub enum FilterBinding {
    /// Next tab, previous tab or the file switcher: left to the application.
    Global,
    ExitMode,
    Search,
    ScrollUp,
    ScrollDown,
    HalfPageUp,
    HalfPageDown,
    PageUp,
    PageDown,
    GoToBottom,
    GoToTopChord,
    ToggleFilter,
    DeleteFilter,
    MoveFilterUp,
    MoveFilterDown,
    EditFilter,
    SetColor,
    ToggleFiltering,
    ToggleAllFilters,
    ClearAllFilters,
    AddInclude,
    AddIncludeAuto,
    AddExclude,
    AddDate,
    AddHighlight,
    SidebarGrow,
    SidebarShrink,
    SearchConfirm,
    SearchCancel,
}

/// Where the filter list goes after a key.
#[derive(Debug)]
pub enum FilterNext {
    Stay,
    Normal,
    /// The command line, prefilled with `input`, the cursor at its end.
    Command { input: String, cursor: usize },
}

/// What the application does to the filters after a key.
#[derive(Debug, Clone, Copy, PartialEq, Eq, Structural)]
pub enum FilterRequest {
    Nothing,
    /// Toggle, delete or move the filter at this position.
    Toggle(usize),
    Delete(usize),
    MoveUp(usize),
    MoveDown(usize),
    /// Turn filtering as a whole on or off.
    ToggleFiltering,
    /// Enable (`true`) or disable (`false`) every filter.
    SetAllEnabled(bool),
    ClearAll,
    /// Set the sidebar width.
    SetSidebarWidth(u16),
    /// The query changed: narrow the list anew and call `clamp_to_narrowed`.
    Renarrow,
}

/// The rest of what a key did, besides the next mode and the result.
#[derive(Debug)]
pub struct FilterOutcome {
    pub request: FilterRequest,
    /// The new state of the `gg` chord.
    pub g_pressed: bool,
    /// Clear the last command error (a command line was opened).
    pub clear_command_error: bool,
    /// Remember this list position to come back to from the command line.
    pub filter_context: Option<usize>,
    /// The command line edits the selected filter.
    pub edit_selected: bool,
}

/// The filter list mode.
#[derive(Debug)]
pub struct FilterManagementMode {
    pub selected_filter_index: usize,
    /// Pending count prefix (the `4` in `4j`).
    pub count: Option<usize>,
    /// Typeahead query; non-empty narrows the list to matching filters.
    pub search: String,
    /// Capturing typed text for `search`.
    pub searching: bool,
    /// Selection to go back to if the search is cancelled.
    pub pre_search_selected: Option<usize>,
}

/// The position a count or a jump lands on: `count - 1` (or the last
/// filter) within the list.
pub open spec fn jump_target(count: Option<usize>, n: int, default: int) -> int {
    match count {
        Some(c) => {
            let a = sat_sub(c as int, 1);
            let b = sat_sub(n, 1);
            if a < b { a } else { b }
        },
        None => default,
    }
}

/// Moving down by `amount` from `sel`, stopping at the last filter.
pub open spec fn scrolled_down(sel: int, amount: int, n: int) -> int {
    if n > 0 {
        let t = sat_add(sel, amount);
        if t < n - 1 { t } else { n - 1 }
    } else {
        0
    }
}

impl FilterManagementMode {
    /// The list, with `selected_filter_index` selected.
    pub fn new(selected_filter_index: usize) -> (r: Self)
        ensures
            r.at(selected_filter_index as int),
    {
        FilterManagementMode {
            selected_filter_index,
            count: None,
            search: String::new(),
            searching: false,
            pre_search_selected: None,
        }
    }

    /// Freshly at position `idx`: no count, no search.
    pub open spec fn at(&self, idx: int) -> bool {
        &&& self.selected_filter_index == idx
        &&& self.count is None
        &&& self.search@.len() == 0
        &&& !self.searching
        &&& self.pre_search_selected is None
    }

    /// Searching at position `idx`, keeping the query and the position to
    /// go back to of `o`.
    pub open spec fn searching_at(&self, o: Self, idx: int) -> bool {
        &&& self.selected_filter_index == idx
        &&& self.count is None
        &&& self.search == o.search
        &&& self.searching
        &&& self.pre_search_selected == o.pre_search_selected
    }

    /// After the query changed: keep the selection if it is within the
    /// `narrowed_len` filters the query keeps, else go to the first.
    pub fn clamp_to_narrowed(&mut self, narrowed_len: usize)
        ensures
            final(self).selected_filter_index == if old(self).selected_filter_index < narrowed_len {
                old(self).selected_filter_index
            } else {
                0
            },
            final(self).count == old(self).count,
            final(self).search == old(self).search,
            final(self).searching == old(self).searching,
            final(self).pre_search_selected == old(self).pre_search_selected,
    {
        if self.selected_filter_index >= narrowed_len {
            self.selected_filter_index = 0;
        }
    }

    fn go_to(&mut self, idx: usize)
        ensures
            final(self).at(idx as int),
    {
        *self = FilterManagementMode::new(idx);
    }

    /// Handles a key while typing a query: confirm jumps to the filter
    /// selected in the narrowed list, cancel goes back to where the search
    /// started, Down/Up move within the narrowed list, Backspace and plain
    /// characters edit the query.
    fn handle_search_key(&mut self, bound: Option<FilterBinding>, k: KeyInput, view: &FilterListView) -> (r: (
        FilterNext,
        KeyResult,
        FilterOutcome,
    ))
        requires
            old(self).searching,
        ensures
            Self::search_outcome(*old(self), *final(self), bound, k, *view, r),
    {
        let quiet = FilterOutcome {
            request: FilterRequest::Nothing,
            g_pressed: false,
            clear_command_error: false,
            filter_context: None,
            edit_selected: false,
        };
        match bound {
            Some(FilterBinding::SearchConfirm) => {
                let idx = if self.selected_filter_index < view.narrowed.len() {
                    view.narrowed[self.selected_filter_index]
                } else {
                    0
                };
                self.go_to(idx);
                return (FilterNext::Stay, KeyResult::Handled, quiet);
            },
            Some(FilterBinding::SearchCancel) => {
                let idx = match self.pre_search_selected {
                    Some(i) => i,
                    None => 0,
                };
                self.go_to(idx);
                return (FilterNext::Stay, KeyResult::Handled, quiet);
            },
            Some(FilterBinding::ScrollDown) => {
                let len = view.narrowed.len();
                let idx = if len > 0 {
                    if self.selected_filter_index < len - 1 {
                        self.selected_filter_index + 1
                    } else {
                        len - 1
                    }
                } else {
                    0
                };
                self.selected_filter_index = idx;
                self.count = None;
                let out = FilterOutcome { g_pressed: view.g_pressed, ..quiet };
                return (FilterNext::Stay, KeyResult::Handled, out);
            },
            Some(FilterBinding::ScrollUp) => {
                self.selected_filter_index = self.selected_filter_index.saturating_sub(1);
                self.count = None;
                let out = FilterOutcome { g_pressed: view.g_pressed, ..quiet };
                return (FilterNext::Stay, KeyResult::Handled, out);
            },
            _ => {},
        }
        let keep = FilterOutcome { g_pressed: view.g_pressed, ..quiet };
        match k.key {
            Key::Backspace => {
                let _ = pop_char(&mut self.search);
            },
            Key::Char(c) => {
                if k.ctrl {
                    return (FilterNext::Stay, KeyResult::Ignored, keep);
                }
                push_char(&mut self.search, c);
            },
            _ => {
                return (FilterNext::Stay, KeyResult::Ignored, keep);
            },
        }
        let out = FilterOutcome { request: FilterRequest::Renarrow, ..keep };
        (FilterNext::Stay, KeyResult::Handled, out)
    }

    /// What a key does while typing a query.
    pub open spec fn search_outcome(
        o: Self,
        f: Self,
        bound: Option<FilterBinding>,
        k: KeyInput,
        view: FilterListView,
        r: (FilterNext, KeyResult, FilterOutcome),
    ) -> bool {
        let out = r.2;
        &&& out.filter_context is None
        &&& !out.edit_selected
        &&& !out.clear_command_error
        &&& r.0 is Stay
        &&& match bound {
            Some(FilterBinding::SearchConfirm) => r.1 is Handled && !out.g_pressed && out.request
                == FilterRequest::Nothing && f.at(
                if o.selected_filter_index < view.narrowed@.len() {
                    view.narrowed@[o.selected_filter_index as int] as int
                } else {
                    0
                },
            ),
            Some(FilterBinding::SearchCancel) => r.1 is Handled && !out.g_pressed && out.request
                == FilterRequest::Nothing && f.at(
                match o.pre_search_selected {
                    Some(i) => i as int,
                    None => 0,
                },
            ),
            Some(FilterBinding::ScrollDown) => r.1 is Handled && out.g_pressed == view.g_pressed && out.request
                == FilterRequest::Nothing && f.searching_at(
                o,
                if view.narrowed@.len() > 0 {
                    if o.selected_filter_index + 1 < view.narrowed@.len() - 1 {
                        o.selected_filter_index + 1
                    } else {
                        view.narrowed@.len() - 1
                    }
                } else {
                    0
                },
            ),
            Some(FilterBinding::ScrollUp) => r.1 is Handled && out.g_pressed == view.g_pressed && out.request
                == FilterRequest::Nothing && f.searching_at(o, sat_sub(o.selected_filter_index as int, 1)),
            _ => out.g_pressed == view.g_pressed && f.selected_filter_index == o.selected_filter_index && f.count
                == o.count && f.searching == o.searching && f.pre_search_selected == o.pre_search_selected
                && match k.key {
                Key::Backspace => r.1 is Handled && out.request == FilterRequest::Renarrow && f.search@ == (if o.search@.len()
                    > 0 {
                    o.search@.drop_last()
                } else {
                    o.search@
                }),
                Key::Char(c) => if k.ctrl {
                    r.1 is Ignored && out.request == FilterRequest::Nothing && f.search == o.search
                } else {
                    r.1 is Handled && out.request == FilterRequest::Renarrow && f.search@ == o.search@.push(c)
                },
                _ => r.1 is Ignored && out.request == FilterRequest::Nothing && f.search == o.search,
            },
        }
    }

    /// What a key does outside a query, for the bindings that do not open
    /// the command line.
    pub open spec fn list_outcome(
        o: Self,
        f: Self,
        bound: Option<FilterBinding>,
        view: FilterListView,
        r: (FilterNext, KeyResult, FilterOutcome),
    ) -> bool {
        let out = r.2;
        let n = view.num_filters as int;
        let sel = o.selected_filter_index as int;
        let count = match o.count {
            Some(c) => c as int,
            None => 1,
        };
        let half = if view.sidebar_visible_height / 2 > 1 { view.sidebar_visible_height / 2 } else { 1 };
        let page = if view.sidebar_visible_height > 1 { view.sidebar_visible_height as int } else { 1 };
        let has = sel < n;
        &&& out.filter_context is None
        &&& !out.edit_selected
        &&& !out.clear_command_error
        &&& match bound {
            Some(FilterBinding::Global) => r.0 is Stay && r.1 is Ignored && !out.g_pressed && out.request
                == FilterRequest::Nothing && f.count is None && f.selected_filter_index == o.selected_filter_index
                && f.search == o.search && f.searching == o.searching && f.pre_search_selected
                == o.pre_search_selected,
            Some(FilterBinding::ExitMode) => r.0 is Normal && r.1 is Handled && !out.g_pressed && out.request
                == FilterRequest::Nothing,
            Some(FilterBinding::Search) => r.0 is Stay && r.1 is Handled && !out.g_pressed && out.request
                == FilterRequest::Nothing && f.selected_filter_index == o.selected_filter_index && f.count is None
                && f.search@.len() == 0 && f.searching && f.pre_search_selected == Some(o.selected_filter_index),
            Some(FilterBinding::GoToTopChord) => r.0 is Stay && r.1 is Handled && out.request
                == FilterRequest::Nothing && if view.g_pressed {
                !out.g_pressed && f.at(jump_target(o.count, n, 0))
            } else {
                out.g_pressed && f == o
            },
            Some(b) => r.0 is Stay && !out.g_pressed && match b {
                FilterBinding::ScrollUp => r.1 is Handled && out.request == FilterRequest::Nothing && f.at(
                    sat_sub(sel, count),
                ),
                FilterBinding::ScrollDown => r.1 is Handled && out.request == FilterRequest::Nothing && f.at(
                    scrolled_down(sel, count, n),
                ),
                FilterBinding::HalfPageUp => r.1 is Handled && out.request == FilterRequest::Nothing && f.at(
                    sat_sub(sel, sat_mul(half as int, count)),
                ),
                FilterBinding::HalfPageDown => r.1 is Handled && out.request == FilterRequest::Nothing && f.at(
                    scrolled_down(sel, sat_mul(half as int, count), n),
                ),
                FilterBinding::PageUp => r.1 is Handled && out.request == FilterRequest::Nothing && f.at(
                    sat_sub(sel, sat_mul(page, count)),
                ),
                FilterBinding::PageDown => r.1 is Handled && out.request == FilterRequest::Nothing && f.at(
                    scrolled_down(sel, sat_mul(page, count), n),
                ),
                FilterBinding::GoToBottom => r.1 is Handled && out.request == FilterRequest::Nothing && f.at(
                    jump_target(o.count, n, sat_sub(n, 1)),
                ),
                FilterBinding::ToggleFilter => r.1 is Handled && f.at(sel) && out.request == (if has {
                    FilterRequest::Toggle(o.selected_filter_index)
                } else {
                    FilterRequest::Nothing
                }),
                FilterBinding::DeleteFilter => r.1 is Handled && if has {
                    out.request == FilterRequest::Delete(o.selected_filter_index) && f.at(
                        if n - 1 > 0 && sel >= n - 1 {
                            n - 2
                        } else {
                            sel
                        },
                    )
                } else {
                    out.request == FilterRequest::Nothing && f.at(sel)
                },
                FilterBinding::MoveFilterUp => r.1 is Handled && if has {
                    out.request == FilterRequest::MoveUp(o.selected_filter_index) && f.at(sat_sub(sel, 1))
                } else {
                    out.request == FilterRequest::Nothing && f.at(sel)
                },
                FilterBinding::MoveFilterDown => r.1 is Handled && if has {
                    out.request == FilterRequest::MoveDown(o.selected_filter_index) && f.at(
                        if sel + 1 < n {
                            sel + 1
                        } else {
                            sel
                        },
                    )
                } else {
                    out.request == FilterRequest::Nothing && f.at(sel)
                },
                FilterBinding::ToggleFiltering => r.1 is Handled && out.request == FilterRequest::ToggleFiltering
                    && f.at(sel),
                FilterBinding::ToggleAllFilters => r.1 is Handled && out.request == FilterRequest::SetAllEnabled(
                    !view.any_enabled,
                ) && f.at(sel),
                FilterBinding::EditFilter => r.1 is Handled && out.request == FilterRequest::Nothing && f.at(sel),
                FilterBinding::ClearAllFilters => r.1 is Handled && out.request == FilterRequest::ClearAll && f.at(0),
                FilterBinding::SidebarGrow => {
                    let w = sat_add(view.sidebar_width as int, 2);
                    let w = if w > u16::MAX { u16::MAX as int } else { w };
                    r.1 == KeyResult::ResizeSidebar(w as u16) && out.request == FilterRequest::SetSidebarWidth(
                        w as u16,
                    ) && f.at(sel)
                },
                FilterBinding::SidebarShrink => {
                    let w = sat_sub(view.sidebar_width as int, 2);
                    let w = if w < 10 { 10 } else { w };
                    r.1 == KeyResult::ResizeSidebar(w as u16) && out.request == FilterRequest::SetSidebarWidth(
                        w as u16,
                    ) && f.at(sel)
                },
                _ => r.1 is Ignored && out.request == FilterRequest::Nothing && f.count is None
                    && f.selected_filter_index == o.selected_filter_index && f.search == o.search && f.searching
                    == o.searching && f.pre_search_selected == o.pre_search_selected,
            },
            None => r.0 is Stay && r.1 is Ignored && !out.g_pressed && out.request == FilterRequest::Nothing
                && f.count is None && f.selected_filter_index == o.selected_filter_index && f.search == o.search
                && f.searching == o.searching && f.pre_search_selected == o.pre_search_selected,
        }
    }

    /// The command line a binding opens, prefilled, if it opens one.
    pub open spec fn command_for(o: Self, bound: Option<FilterBinding>, view: FilterListView) -> Option<Seq<char>> {
        match bound {
            Some(FilterBinding::EditFilter) => match view.selected_filter {
                Some(flt) => Some(edit_command(flt)),
                None => None,
            },
            Some(FilterBinding::SetColor) => Some(
                "set-color"@ + color_flags(
                    match view.selected_filter {
                        Some(flt) => flt.color_config,
                        None => None,
                    },
                    true,
                ),
            ),
            Some(FilterBinding::AddInclude) => Some("filter "@),
            Some(FilterBinding::AddIncludeAuto) => Some("filter --auto "@),
            Some(FilterBinding::AddExclude) => Some("exclude "@),
            Some(FilterBinding::AddDate) => Some("date-filter "@),
            Some(FilterBinding::AddHighlight) => Some("highlight "@),
            _ => None,
        }
    }

    /// Opens the command line on `cmd`, the cursor at its end.
    fn open_command(cmd: String, filter_context: Option<usize>, edit_selected: bool, g_pressed: bool) -> (r: (
        FilterNext,
        KeyResult,
        FilterOutcome,
    ))
        ensures
            r.0 matches FilterNext::Command { input, cursor } && input@ == cmd@ && cursor == bytes_of(input).len(),
            r.1 is Handled,
            r.2.request == FilterRequest::Nothing,
            r.2.clear_command_error,
            r.2.filter_context == filter_context,
            r.2.edit_selected == edit_selected,
            r.2.g_pressed == g_pressed,
    {
        let len = byte_len(&cmd);
        let out = FilterOutcome {
            request: FilterRequest::Nothing,
            g_pressed,
            clear_command_error: true,
            filter_context,
            edit_selected,
        };
        (FilterNext::Command { input: cmd, cursor: len }, KeyResult::Handled, out)
    }

    /// Handles one key. `bound` is the first configured key the press
    /// matches (see `FilterBinding` for the order); `view` is what the list
    /// reads of the tab. While typing a query see `search_outcome`;
    /// otherwise a count digit extends the count, a binding that opens the
    /// command line opens it prefilled (`command_for`), and the rest is
    /// `list_outcome`.
    pub fn handle_key(&mut self, bound: Option<FilterBinding>, k: KeyInput, view: &FilterListView) -> (r: (
        FilterNext,
        KeyResult,
        FilterOutcome,
    ))
        requires
            view.selected_filter is Some <==> old(self).selected_filter_index < view.num_filters,
        ensures
            old(self).searching ==> Self::search_outcome(*old(self), *final(self), bound, k, *view, r),
            !old(self).searching ==> match count_step(old(self).count, k) {
                Some(c) => r.0 is Stay && r.1 is Handled && r.2.request == FilterRequest::Nothing && r.2.g_pressed
                    == view.g_pressed && !r.2.clear_command_error && r.2.filter_context is None && !r.2.edit_selected
                    && final(self).count == c && final(self).selected_filter_index == old(self).selected_filter_index
                    && final(self).search == old(self).search && final(self).searching == old(self).searching
                    && final(self).pre_search_selected == old(self).pre_search_selected,
                None => match Self::command_for(*old(self), bound, *view) {
                    Some(cmd) => (r.0 matches FilterNext::Command { input, cursor } && input@ == cmd && cursor
                        == bytes_of(input).len()) && r.1 is Handled && r.2.request == FilterRequest::Nothing
                        && r.2.clear_command_error && r.2.g_pressed == view.g_pressed && r.2.filter_context == (
                    if bound == Some(FilterBinding::EditFilter) || bound == Some(FilterBinding::SetColor) {
                        Some(old(self).selected_filter_index)
                    } else {
                        None
                    }) && r.2.edit_selected == (bound == Some(FilterBinding::EditFilter)) && *final(self) == *old(
                        self,
                    ),
                    None => Self::list_outcome(*old(self), *final(self), bound, *view, r),
                },
            },
    {
        if self.searching {
            return self.handle_search_key(bound, k, view);
        }
        let quiet = FilterOutcome {
            request: FilterRequest::Nothing,
            g_pressed: false,
            clear_command_error: false,
            filter_context: None,
            edit_selected: false,
        };
        match push_count_key(self.count, &k) {
            Some(c) => {
                self.count = c;
                return (FilterNext::Stay, KeyResult::Handled, FilterOutcome { g_pressed: view.g_pressed, ..quiet });
            },
            None => {},
        }
        let sel = self.selected_filter_index;
        let n = view.num_filters;
        let count = match self.count {
            Some(c) => c,
            None => 1,
        };
        match bound {
            None | Some(FilterBinding::Global) => {
                self.count = None;
                (FilterNext::Stay, KeyResult::Ignored, quiet)
            },
            Some(FilterBinding::ExitMode) => (FilterNext::Normal, KeyResult::Handled, quiet),
            Some(FilterBinding::Search) => {
                self.pre_search_selected = Some(sel);
                self.search = String::new();
                self.searching = true;
                self.count = None;
                (FilterNext::Stay, KeyResult::Handled, quiet)
            },
            Some(FilterBinding::ScrollUp) => {
                self.go_to(sel.saturating_sub(count));
                (FilterNext::Stay, KeyResult::Handled, quiet)
            },
            Some(FilterBinding::ScrollDown) => {
                self.go_to(Self::down_by(sel, count, n));
                (FilterNext::Stay, KeyResult::Handled, quiet)
            },
            Some(FilterBinding::HalfPageUp) => {
                let amount = saturating_mul(half_page(view.sidebar_visible_height), count);
                self.go_to(sel.saturating_sub(amount));
                (FilterNext::Stay, KeyResult::Handled, quiet)
            },
            Some(FilterBinding::HalfPageDown) => {
                let amount = saturating_mul(half_page(view.sidebar_visible_height), count);
                self.go_to(Self::down_by(sel, amount, n));
                (FilterNext::Stay, KeyResult::Handled, quiet)
            },
            Some(FilterBinding::PageUp) => {
                let amount = saturating_mul(full_page(view.sidebar_visible_height), count);
                self.go_to(sel.saturating_sub(amount));
                (FilterNext::Stay, KeyResult::Handled, quiet)
            },
            Some(FilterBinding::PageDown) => {
                let amount = saturating_mul(full_page(view.sidebar_visible_height), count);
                self.go_to(Self::down_by(sel, amount, n));
                (FilterNext::Stay, KeyResult::Handled, quiet)
            },
            Some(FilterBinding::GoToBottom) => {
                let idx = Self::jump(self.count, n, n.saturating_sub(1));
                self.go_to(idx);
                (FilterNext::Stay, KeyResult::Handled, quiet)
            },
            Some(FilterBinding::GoToTopChord) => {
                if view.g_pressed {
                    let idx = Self::jump(self.count, n, 0);
                    self.go_to(idx);
                    (FilterNext::Stay, KeyResult::Handled, quiet)
                } else {
                    (FilterNext::Stay, KeyResult::Handled, FilterOutcome { g_pressed: true, ..quiet })
                }
            },
            Some(FilterBinding::ToggleFilter) => {
                let request = if sel < n { FilterRequest::Toggle(sel) } else { FilterRequest::Nothing };
                self.go_to(sel);
                (FilterNext::Stay, KeyResult::Handled, FilterOutcome { request, ..quiet })
            },
            Some(FilterBinding::DeleteFilter) => {
                if sel < n {
                    let remaining = n - 1;
                    let idx = if remaining > 0 && sel >= remaining { remaining - 1 } else { sel };
                    self.go_to(idx);
                    (FilterNext::Stay, KeyResult::Handled, FilterOutcome { request: FilterRequest::Delete(sel), ..quiet })
                } else {
                    self.go_to(sel);
                    (FilterNext::Stay, KeyResult::Handled, quiet)
                }
            },
            Some(FilterBinding::MoveFilterUp) => {
                if sel < n {
                    self.go_to(sel.saturating_sub(1));
                    (FilterNext::Stay, KeyResult::Handled, FilterOutcome { request: FilterRequest::MoveUp(sel), ..quiet })
                } else {
                    self.go_to(sel);
                    (FilterNext::Stay, KeyResult::Handled, quiet)
                }
            },
            Some(FilterBinding::MoveFilterDown) => {
                if sel < n {
                    let idx = if sel + 1 < n { sel + 1 } else { sel };
                    self.go_to(idx);
                    (FilterNext::Stay, KeyResult::Handled, FilterOutcome { request: FilterRequest::MoveDown(sel), ..quiet })
                } else {
                    self.go_to(sel);
                    (FilterNext::Stay, KeyResult::Handled, quiet)
                }
            },
            Some(FilterBinding::EditFilter) => {
                match &view.selected_filter {
                    Some(flt) => {
                        let cmd = build_edit_command(
                            &flt.filter_type,
                            &flt.color_config,
                            &flt.pattern,
                            flt.use_regex,
                            flt.ignore_case,
                            &flt.group,
                        );
                        Self::open_command(cmd, Some(sel), true, view.g_pressed)
                    },
                    None => {
                        self.go_to(sel);
                        (FilterNext::Stay, KeyResult::Handled, quiet)
                    },
                }
            },
            Some(FilterBinding::SetColor) => {
                let cc = match &view.selected_filter {
                    Some(flt) => match &flt.color_config {
                        Some(c) => Some(clone_color(c)),
                        None => None,
                    },
                    None => None,
                };
                let cmd = build_color_command(cc);
                Self::open_command(cmd, Some(sel), false, view.g_pressed)
            },
            Some(FilterBinding::ToggleFiltering) => {
                self.go_to(sel);
                (FilterNext::Stay, KeyResult::Handled, FilterOutcome { request: FilterRequest::ToggleFiltering, ..quiet })
            },
            Some(FilterBinding::ToggleAllFilters) => {
                self.go_to(sel);
                let request = FilterRequest::SetAllEnabled(!view.any_enabled);
                (FilterNext::Stay, KeyResult::Handled, FilterOutcome { request, ..quiet })
            },
            Some(FilterBinding::ClearAllFilters) => {
                self.go_to(0);
                (FilterNext::Stay, KeyResult::Handled, FilterOutcome { request: FilterRequest::ClearAll, ..quiet })
            },
            Some(FilterBinding::AddInclude) => Self::open_command(String::from_str("filter "), None, false, view.g_pressed),
            Some(FilterBinding::AddIncludeAuto) => Self::open_command(
                String::from_str("filter --auto "),
                None,
                false,
                view.g_pressed,
            ),
            Some(FilterBinding::AddExclude) => Self::open_command(String::from_str("exclude "), None, false, view.g_pressed),
            Some(FilterBinding::AddDate) => Self::open_command(String::from_str("date-filter "), None, false, view.g_pressed),
            Some(FilterBinding::AddHighlight) => Self::open_command(
                String::from_str("highlight "),
                None,
                false,
                view.g_pressed,
            ),
            Some(FilterBinding::SidebarGrow) => {
                let w = view.sidebar_width.saturating_add(2);
                self.go_to(sel);
                (FilterNext::Stay, KeyResult::ResizeSidebar(w), FilterOutcome { request: FilterRequest::SetSidebarWidth(w), ..quiet })
            },
            Some(FilterBinding::SidebarShrink) => {
                let s = view.sidebar_width.saturating_sub(2);
                let w = if s < 10 { 10 } else { s };
                self.go_to(sel);
                (FilterNext::Stay, KeyResult::ResizeSidebar(w), FilterOutcome { request: FilterRequest::SetSidebarWidth(w), ..quiet })
            },
            Some(FilterBinding::SearchConfirm) | Some(FilterBinding::SearchCancel) => {
                self.count = None;
                (FilterNext::Stay, KeyResult::Ignored, quiet)
            },
        }
    }

    fn down_by(sel: usize, amount: usize, n: usize) -> (r: usize)
        ensures
            r == scrolled_down(sel as int, amount as int, n as int),
    {
        if n > 0 {
            let t = sel.saturating_add(amount);
            if t < n - 1 { t } else { n - 1 }
        } else {
            0
        }
    }

    fn jump(count: Option<usize>, n: usize, default: usize) -> (r: usize)
        ensures
            r == jump_target(count, n as int, default as int),
    {
        match count {
            Some(c) => {
                let a = c.saturating_sub(1);
                let b = n.saturating_sub(1);
                if a < b { a } else { b }
            },
            None => default,
        }
    }
}


/// Moving through a non-empty list never leaves it: a move down, and a
/// jump by count, land on a filter that exists.
pub proof fn lemma_moves_stay_in_list(sel: int, amount: int, n: int, count: Option<usize>)
    requires
        n > 0,
        sel >= 0,
        amount >= 0,
    ensures
        0 <= scrolled_down(sel, amount, n) < n,
        0 <= jump_target(count, n, 0) < n,
        0 <= jump_target(count, n, n - 1) < n,
{
}

/// Paging through the filter list moves the selection by whole sidebar
/// pages: PageUp and PageDown by the sidebar's visible height (at least one
/// row) for each count (one when no count is typed), HalfPageUp and
/// HalfPageDown by half of it (at least one row) for each count. Up stops at
/// the first filter, down at the last one (0 when the list is empty). The
/// count is used up and no query is left open.
pub proof fn lemma_paging_distance(
    o: FilterManagementMode,
    f: FilterManagementMode,
    b: FilterBinding,
    view: FilterListView,
    r: (FilterNext, KeyResult, FilterOutcome),
)
    requires
        FilterManagementMode::list_outcome(o, f, Some(b), view, r),
        b is PageUp || b is PageDown || b is HalfPageUp || b is HalfPageDown,
    ensures
        r.0 is Stay,
        r.1 is Handled,
        r.2.request == FilterRequest::Nothing,
        f.count is None,
        !f.searching,
        ({
            let c: int = match o.count {
                Some(k) => k as int,
                None => 1,
            };
            let sel = o.selected_filter_index as int;
            let n = view.num_filters as int;
            let h = view.sidebar_visible_height as int;
            let whole: int = if h == 0 { 1 } else { h };
            let halved: int = if h < 4 { 1 } else { h / 2 };
            let step: int = if b is PageUp || b is PageDown { whole } else { halved };
            f.selected_filter_index as int == if b is PageUp || b is HalfPageUp {
                if sel < step * c { 0 } else { sel - step * c }
            } else if n == 0 {
                0
            } else if sel + step * c < n - 1 {
                sel + step * c
            } else {
                n - 1
            }
        }),
{
    let c: int = match o.count {
        Some(k) => k as int,
        None => 1,
    };
    let h = view.sidebar_visible_height as int;
    let whole: int = if h == 0 { 1 } else { h };
    let halved: int = if h < 4 { 1 } else { h / 2 };
    let page: int = if view.sidebar_visible_height > 1 { view.sidebar_visible_height as int } else { 1 };
    let half: int = if view.sidebar_visible_height / 2 > 1 {
        (view.sidebar_visible_height / 2) as int
    } else {
        1
    };
    assert(whole == page);
    assert(halved == half);
    assert(whole * c == page * c);
    assert(halved * c == half * c);
    assert(page * c >= 0) by (nonlinear_arith)
        requires
            page >= 1,
            c >= 0,
    ;
    assert(half * c >= 0) by (nonlinear_arith)
        requires
            half >= 1,
            c >= 0,
    ;
}

/// `G` jumps to the last filter, and `gg` (the second `g`) to the first;
/// with a count typed both jump to that filter, counting from one, or to
/// the last filter when the count is larger than the list. The count is
/// used up and no query is left open.
pub proof fn lemma_jumps(
    o: FilterManagementMode,
    f: FilterManagementMode,
    b: FilterBinding,
    view: FilterListView,
    r: (FilterNext, KeyResult, FilterOutcome),
)
    requires
        FilterManagementMode::list_outcome(o, f, Some(b), view, r),
        b is GoToBottom || (b is GoToTopChord && view.g_pressed),
    ensures
        r.0 is Stay,
        r.1 is Handled,
        r.2.request == FilterRequest::Nothing,
        f.count is None,
        !f.searching,
        ({
            let n = view.num_filters as int;
            f.selected_filter_index as int == match o.count {
                Some(c) => if n == 0 || c == 0 {
                    0
                } else if c <= n {
                    c - 1
                } else {
                    n - 1
                },
                None => if b is GoToBottom && n > 0 { n - 1 } else { 0 },
            }
        }),
{
}

/// Editing a filter's pattern in place.
#[derive(Debug)]
pub struct FilterEditMode {
    /// The filter being edited, if any.
    pub filter_id: Option<usize>,
    pub filter_input: String,
}

/// The configured key a press matches, in the order they are tried.
#[derive(Debug, Clone, Copy, PartialEq, Eq, Structural)]
pub enum FilterEditBinding {
    /// Next or previous tab: left to the application.
    Tab,
    Confirm,
    Cancel,
}

/// Where the pattern editor goes after a key.
#[derive(Debug)]
pub enum FilterEditStep {
    Stay(FilterEditMode),
    /// Back to the filter list at the top; when `save` holds a filter, store
    /// the edited pattern in it first.
    Done { save: Option<(usize, String)> },
}

impl FilterEditMode {
    /// Handles one key (`bound` is the first configured key the press
    /// matches): confirm saves the pattern into the filter being edited,
    /// cancel drops it, both going back to the filter list; Backspace and
    /// characters edit the pattern.
    pub fn handle_key(self, bound: Option<FilterEditBinding>, k: KeyInput) -> (r: (FilterEditStep, KeyResult))
        ensures
            match bound {
                Some(FilterEditBinding::Tab) => r.1 is Ignored && (r.0 matches FilterEditStep::Stay(m) && m.filter_id
                    == self.filter_id && m.filter_input == self.filter_input),
                Some(FilterEditBinding::Confirm) => r.1 is Handled && (r.0 matches FilterEditStep::Done { save } && match self.filter_id {
                    Some(id) => save matches Some(p) && p.0 == id && p.1 == self.filter_input,
                    None => save is None,
                }),
                Some(FilterEditBinding::Cancel) => r.1 is Handled && (r.0 matches FilterEditStep::Done { save } && save is None),
                None => r.1 is Handled && (r.0 matches FilterEditStep::Stay(m) && m.filter_id == self.filter_id && match k.key {
                    Key::Backspace => m.filter_input@ == (if self.filter_input@.len() > 0 {
                        self.filter_input@.drop_last()
                    } else {
                        self.filter_input@
                    }),
                    Key::Char(c) => m.filter_input@ == self.filter_input@.push(c),
                    _ => m.filter_input == self.filter_input,
                }),
            },
    {
        match bound {
            Some(FilterEditBinding::Tab) => (FilterEditStep::Stay(self), KeyResult::Ignored),
            Some(FilterEditBinding::Confirm) => {
                let save = match self.filter_id {
                    Some(id) => Some((id, self.filter_input)),
                    None => None,
                };
                (FilterEditStep::Done { save }, KeyResult::Handled)
            },
            Some(FilterEditBinding::Cancel) => (FilterEditStep::Done { save: None }, KeyResult::Handled),
            None => {
                let mut m = self;
                match k.key {
                    Key::Backspace => {
                        let _ = pop_char(&mut m.filter_input);
                    },
                    Key::Char(c) => {
                        push_char(&mut m.filter_input, c);
                    },
                    _ => {},
                }
                (FilterEditStep::Stay(m), KeyResult::Handled)
            },
        }
    }
}

} // verus!
