//! What each mode shows, for drawing it, and the short name of each mode
//! shown in the tab bar when the mode bar is hidden.

use std::sync::Arc;
use vstd::prelude::*;
use crate::archive::ArchiveRow;
use crate::command::CommandMode;
use crate::editor::{byte_len, bytes_of};
use crate::comment::CommentMode;
use crate::confirm::{ConfirmRestoreMode, ConfirmRestoreSessionMode};
use crate::filter_manage::FilterEditMode;
use crate::normal::NormalMode;
use crate::select::DockerSelectMode;
use crate::ui::{SearchMode, UiMode};
use crate::dlt::DltSelectMode;
use crate::export_footer::ExportFooterMode;
use crate::filter_manage::FilterManagementMode;
use crate::group::GroupManagementMode;
use crate::help::KeybindingsHelpMode;
use crate::picker::{FileSwitcherMode, ThemePickerMode};
use crate::select::{MergeSelectMode, SelectFieldsMode};
use crate::visual_char::VisualMode;
use crate::visual_line::VisualLineMode;
use crate::default_filters::{DefaultFilterRow, DefaultFiltersMode, PathEditState};
use crate::dlt::{AddDeviceRenderState, DltDevice};
use crate::select::DockerContainer;
use crate::value_colors::{ValueColorEntry, ValueColorGroup, ValueColorsMode};

verus! {

/// What the current mode shows.
#[derive(Debug)]
pub enum ModeRenderState {
    Normal,
    Command {
        input: String,
        cursor: usize,
        completion_index: Option<usize>,
        /// Original typed text before Tab cycling; `None` when no completion session is active.
        completion_query: Option<String>,
    },
    Search {
        query: String,
        cursor: usize,
        forward: bool,
    },
    FilterManagement {
        selected_index: usize,
        /// Live typeahead query narrowing the sidebar; empty when not searching
        /// or when search is active but nothing has been typed yet.
        search: String,
        /// True while capturing search input — distinct from `search.is_empty()`,
        /// since the moment right after pressing `/` has an empty query but
        /// still needs a visible "you're searching now" indicator.
        searching: bool,
    },
    FilterEdit,
    GroupManagement {
        selected_group: String,
    },
    VisualLine {
        anchor: usize,
    },
    Visual {
        anchor_col: Option<usize>,
        cursor_col: usize,
        pending_motion: bool,
    },
    Comment {
        lines: Vec<String>,
        cursor_row: usize,
        cursor_col: usize,
        line_count: usize,
        is_editing: bool,
    },
    KeybindingsHelp {
        scroll: usize,
        search: String,
    },
    SelectFields {
        fields: Vec<(String, bool)>,
        selected: usize,
    },
    DockerSelect {
        containers: Vec<DockerContainer>,
        selected: usize,
        error: Option<String>,
    },
    DltSelect {
        devices: Vec<DltDevice>,
        selected: usize,
        error: Option<String>,
        adding: Option<AddDeviceRenderState>,
    },
    ValueColors {
        groups: Vec<ValueColorGroup>,
        search: String,
        selected: usize,
    },
    LevelColors {
        groups: Vec<ValueColorGroup>,
        search: String,
        selected: usize,
    },
    ConfirmRestore,
    ConfirmRestoreSession {
        files: Arc<Vec<String>>,
    },
    MergeSelect {
        tabs: Vec<(String, bool)>,
        selected: usize,
    },
    ArchivePicker {
        rows: Vec<ArchiveRow>,
        selected: usize,
        source_path: String,
        /// Live typeahead query narrowing `rows`; empty when not searching
        /// or when search is active but nothing has been typed yet.
        search: String,
        /// True while capturing search input — distinct from `search.is_empty()`
        /// so the popup can show a marker the instant `/` is pressed.
        searching: bool,
    },
    Ui,
    ExportFooter {
        path: String,
        template_name: String,
        fields: Vec<(String, Vec<String>)>,
        active_idx: usize,
        cursor_row: usize,
        cursor_col: usize,
    },
    DefaultFilters {
        rows: Vec<DefaultFilterRow>,
        search: String,
        selected: usize,
        /// `Some` while the selected row's path is being edited.
        editing: Option<PathEditState>,
    },
    FileSwitcher {
        /// (`App::tabs` index, tab title) for every open tab, snapshotted
        /// when the popup opened.
        entries: Vec<(usize, String)>,
        /// The tab that was active when the popup opened.
        active_tab: usize,
        /// Index into the *visible* (filtered) entries.
        selected: usize,
        search: String,
    },
    ThemePicker {
        /// Available theme names, snapshotted when the popup opened.
        entries: Vec<String>,
        /// Index into the *visible* (filtered) entries.
        selected: usize,
        search: String,
    },
}

/// The short upper-case name of a mode.
pub open spec fn mode_label(s: ModeRenderState) -> Seq<char> {
    match s {
            ModeRenderState::Normal => "NORMAL"@,
            ModeRenderState::Ui => "UI"@,
            ModeRenderState::Command { .. } => "COMMAND"@,
            ModeRenderState::Search { forward, .. } => if forward { "SEARCH"@ } else { "SEARCH↑"@ },
            ModeRenderState::FilterManagement { .. } => "FILTER"@,
            ModeRenderState::FilterEdit => "FILTER EDIT"@,
            ModeRenderState::GroupManagement { .. } => "GROUP"@,
            ModeRenderState::VisualLine { .. } => "VISUAL LINE"@,
            ModeRenderState::Visual { .. } => "VISUAL"@,
            ModeRenderState::Comment { .. } => "COMMENT"@,
            ModeRenderState::KeybindingsHelp { .. } => "HELP"@,
            ModeRenderState::SelectFields { .. } => "FIELDS"@,
            ModeRenderState::DockerSelect { .. } => "DOCKER"@,
            ModeRenderState::DltSelect { .. } => "DLT"@,
            ModeRenderState::ValueColors { .. } => "VALUE COLORS"@,
            ModeRenderState::LevelColors { .. } => "LEVEL COLORS"@,
            ModeRenderState::ConfirmRestore => "CONFIRM"@,
            ModeRenderState::ConfirmRestoreSession { .. } => "CONFIRM"@,
            ModeRenderState::MergeSelect { .. } => "MERGE"@,
            ModeRenderState::ArchivePicker { .. } => "ARCHIVE"@,
            ModeRenderState::ExportFooter { .. } => "EXPORT"@,
            ModeRenderState::DefaultFilters { .. } => "DEFAULT FILTERS"@,
            ModeRenderState::FileSwitcher { .. } => "SWITCH"@,
            ModeRenderState::ThemePicker { .. } => "THEME"@,
    }
}

impl ModeRenderState {
    /// A short upper-case label for the current mode, used in the tab bar
    /// when the mode bar is hidden.
    pub fn mode_name(&self) -> (r: &'static str)
        ensures
            r@ == mode_label(*self),
    {
        match self {
            ModeRenderState::Normal => "NORMAL",
            ModeRenderState::Ui => "UI",
            ModeRenderState::Command { .. } => "COMMAND",
            ModeRenderState::Search { forward, .. } => if *forward { "SEARCH" } else { "SEARCH↑" },
            ModeRenderState::FilterManagement { .. } => "FILTER",
            ModeRenderState::FilterEdit => "FILTER EDIT",
            ModeRenderState::GroupManagement { .. } => "GROUP",
            ModeRenderState::VisualLine { .. } => "VISUAL LINE",
            ModeRenderState::Visual { .. } => "VISUAL",
            ModeRenderState::Comment { .. } => "COMMENT",
            ModeRenderState::KeybindingsHelp { .. } => "HELP",
            ModeRenderState::SelectFields { .. } => "FIELDS",
            ModeRenderState::DockerSelect { .. } => "DOCKER",
            ModeRenderState::DltSelect { .. } => "DLT",
            ModeRenderState::ValueColors { .. } => "VALUE COLORS",
            ModeRenderState::LevelColors { .. } => "LEVEL COLORS",
            ModeRenderState::ConfirmRestore => "CONFIRM",
            ModeRenderState::ConfirmRestoreSession { .. } => "CONFIRM",
            ModeRenderState::MergeSelect { .. } => "MERGE",
            ModeRenderState::ArchivePicker { .. } => "ARCHIVE",
            ModeRenderState::ExportFooter { .. } => "EXPORT",
            ModeRenderState::DefaultFilters { .. } => "DEFAULT FILTERS",
            ModeRenderState::FileSwitcher { .. } => "SWITCH",
            ModeRenderState::ThemePicker { .. } => "THEME",
        }
    }
}

fn copy_strings(v: &Vec<String>) -> (r: Vec<String>)
    ensures
        r@ == v@,
{
    let mut out: Vec<String> = Vec::new();
    let mut i: usize = 0;
    while i < v.len()
        invariant
            i <= v@.len(),
            out@ == v@.take(i as int),
        decreases v@.len() - i,
    {
        out.push(v[i].clone());
        assert(v@.take(i + 1) =~= v@.take(i as int).push(v@[i as int]));
        i += 1;
    }
    assert(v@.take(v@.len() as int) =~= v@);
    out
}

fn copy_pairs(v: &Vec<(String, bool)>) -> (r: Vec<(String, bool)>)
    ensures
        r@ == v@,
{
    let mut out: Vec<(String, bool)> = Vec::new();
    let mut i: usize = 0;
    while i < v.len()
        invariant
            i <= v@.len(),
            out@ == v@.take(i as int),
        decreases v@.len() - i,
    {
        out.push((v[i].0.clone(), v[i].1));
        assert(v@.take(i + 1) =~= v@.take(i as int).push(v@[i as int]));
        i += 1;
    }
    assert(v@.take(v@.len() as int) =~= v@);
    out
}

impl VisualLineMode {
    /// What line selection shows: its anchor.
    pub fn render_state(&self) -> (r: ModeRenderState)
        ensures
            r == (ModeRenderState::VisualLine { anchor: self.anchor }),
    {
        ModeRenderState::VisualLine { anchor: self.anchor }
    }
}

impl VisualMode {
    /// What character selection shows: anchor, cursor, and whether an
    /// `f/F/t/T` waits for its character.
    pub fn render_state(&self) -> (r: ModeRenderState)
        ensures
            r == (ModeRenderState::Visual {
                anchor_col: self.anchor_col,
                cursor_col: self.cursor_col,
                pending_motion: self.pending_motion is Some,
            }),
    {
        ModeRenderState::Visual {
            anchor_col: self.anchor_col,
            cursor_col: self.cursor_col,
            pending_motion: self.pending_motion.is_some(),
        }
    }
}

impl CommentMode {
    /// What the comment editor shows: the text, the cursor, how many lines
    /// the comment is on, and whether it edits an existing comment.
    pub fn render_state(&self) -> (r: ModeRenderState)
        ensures
            r matches ModeRenderState::Comment { lines, cursor_row, cursor_col, line_count, is_editing } && lines@
                == self.lines@ && cursor_row == self.cursor_row && cursor_col == self.cursor_col && line_count
                == self.line_indices@.len() && is_editing == self.editing_index is Some,
    {
        ModeRenderState::Comment {
            lines: copy_strings(&self.lines),
            cursor_row: self.cursor_row,
            cursor_col: self.cursor_col,
            line_count: self.line_indices.len(),
            is_editing: self.editing_index.is_some(),
        }
    }
}

impl KeybindingsHelpMode {
    /// What the help popup shows: its scroll and search.
    pub fn render_state(&self) -> (r: ModeRenderState)
        ensures
            r matches ModeRenderState::KeybindingsHelp { scroll, search } && scroll == self.scroll && search
                == self.search,
    {
        ModeRenderState::KeybindingsHelp { scroll: self.scroll, search: self.search.clone() }
    }
}

impl FilterManagementMode {
    /// What the filter list shows: the selection and the query.
    pub fn render_state(&self) -> (r: ModeRenderState)
        ensures
            r matches ModeRenderState::FilterManagement { selected_index, search, searching } && selected_index
                == self.selected_filter_index && search == self.search && searching == self.searching,
    {
        ModeRenderState::FilterManagement {
            selected_index: self.selected_filter_index,
            search: self.search.clone(),
            searching: self.searching,
        }
    }
}

impl GroupManagementMode {
    /// What the group list shows: the selected group.
    pub fn render_state(&self) -> (r: ModeRenderState)
        ensures
            r matches ModeRenderState::GroupManagement { selected_group } && selected_group == self.selected_group,
    {
        ModeRenderState::GroupManagement { selected_group: self.selected_group.clone() }
    }
}

impl MergeSelectMode {
    /// What the merge picker shows: the tabs with their toggles, and the
    /// cursor.
    pub fn render_state(&self) -> (r: ModeRenderState)
        ensures
            r matches ModeRenderState::MergeSelect { tabs, selected } && tabs@ == self.tabs@ && selected
                == self.selected,
    {
        ModeRenderState::MergeSelect { tabs: copy_pairs(&self.tabs), selected: self.selected }
    }
}

impl<L, H> SelectFieldsMode<L, H> {
    /// What the field picker shows: the fields with their toggles, and the
    /// cursor.
    pub fn render_state(&self) -> (r: ModeRenderState)
        ensures
            r matches ModeRenderState::SelectFields { fields, selected } && fields@ == self.fields@ && selected
                == self.selected,
    {
        ModeRenderState::SelectFields { fields: copy_pairs(&self.fields), selected: self.selected }
    }
}

impl FileSwitcherMode {
    /// What the file switcher shows.
    pub fn render_state(&self) -> (r: ModeRenderState)
        ensures
            r matches ModeRenderState::FileSwitcher { entries, active_tab, selected, search } && entries@
                == self.entries@ && active_tab == self.active_tab && selected == self.selected && search
                == self.search,
    {
        let mut entries: Vec<(usize, String)> = Vec::new();
        let mut i: usize = 0;
        while i < self.entries.len()
            invariant
                i <= self.entries@.len(),
                entries@ == self.entries@.take(i as int),
            decreases self.entries@.len() - i,
        {
            entries.push((self.entries[i].0, self.entries[i].1.clone()));
            assert(self.entries@.take(i + 1) =~= self.entries@.take(i as int).push(self.entries@[i as int]));
            i += 1;
        }
        assert(self.entries@.take(self.entries@.len() as int) =~= self.entries@);
        ModeRenderState::FileSwitcher {
            entries,
            active_tab: self.active_tab,
            selected: self.selected,
            search: self.search.clone(),
        }
    }
}

impl<T> ThemePickerMode<T> {
    /// What the theme picker shows.
    pub fn render_state(&self) -> (r: ModeRenderState)
        ensures
            r matches ModeRenderState::ThemePicker { entries, selected, search } && entries@ == self.entries@
                && selected == self.selected && search == self.search,
    {
        ModeRenderState::ThemePicker {
            entries: copy_strings(&self.entries),
            selected: self.selected,
            search: self.search.clone(),
        }
    }
}

impl ExportFooterMode {
    /// What the footer editor shows: the target, each field's name and
    /// lines, the active field and the cursor.
    pub fn render_state(&self) -> (r: ModeRenderState)
        ensures
            r matches ModeRenderState::ExportFooter { path, template_name, fields, active_idx, cursor_row, cursor_col }
                && path == self.path && template_name == self.template_name && fields@.len() == self.fields@.len()
                && (forall|i: int| 0 <= i < fields@.len() ==> #[trigger] fields@[i].0 == self.fields@[i].name
                && fields@[i].1@ == self.fields@[i].lines@) && active_idx == self.active_idx && cursor_row
                == self.cursor_row && cursor_col == self.cursor_col,
    {
        let mut fields: Vec<(String, Vec<String>)> = Vec::new();
        let mut i: usize = 0;
        while i < self.fields.len()
            invariant
                i <= self.fields@.len(),
                fields@.len() == i,
                forall|j: int| 0 <= j < i ==> #[trigger] fields@[j].0 == self.fields@[j].name && fields@[j].1@
                    == self.fields@[j].lines@,
            decreases self.fields@.len() - i,
        {
            fields.push((self.fields[i].name.clone(), copy_strings(&self.fields[i].lines)));
            i += 1;
        }
        ModeRenderState::ExportFooter {
            path: self.path.clone(),
            template_name: self.template_name.clone(),
            fields,
            active_idx: self.active_idx,
            cursor_row: self.cursor_row,
            cursor_col: self.cursor_col,
        }
    }
}

impl DltSelectMode {
    /// What the DLT picker shows: the devices, the selection, the error,
    /// and the form while it is open.
    pub fn render_state(&self) -> (r: ModeRenderState)
        ensures
            r matches ModeRenderState::DltSelect { devices, selected, error, adding } && devices@.len()
                == self.devices@.len() && (forall|i: int| 0 <= i < devices@.len() ==> #[trigger] devices@[i].name
                == self.devices@[i].name && devices@[i].host == self.devices@[i].host && devices@[i].port
                == self.devices@[i].port) && selected == self.selected && error == self.error && match self.adding {
                Some(a) => adding matches Some(s) && s.fields@ == a.fields@ && s.active_field == a.active_field
                    && s.cursor == a.cursor,
                None => adding is None,
            },
    {
        let mut devices: Vec<DltDevice> = Vec::new();
        let mut i: usize = 0;
        while i < self.devices.len()
            invariant
                i <= self.devices@.len(),
                devices@.len() == i,
                forall|j: int| 0 <= j < i ==> #[trigger] devices@[j].name == self.devices@[j].name && devices@[j].host
                    == self.devices@[j].host && devices@[j].port == self.devices@[j].port,
            decreases self.devices@.len() - i,
        {
            let d = &self.devices[i];
            devices.push(DltDevice { name: d.name.clone(), host: d.host.clone(), port: d.port });
            i += 1;
        }
        let error = match &self.error {
            Some(e) => Some(e.clone()),
            None => None,
        };
        let adding = match &self.adding {
            Some(a) => Some(a.render_state()),
            None => None,
        };
        ModeRenderState::DltSelect { devices, selected: self.selected, error, adding }
    }
}

impl NormalMode {
    /// What normal mode shows: nothing of its own.
    pub fn render_state(&self) -> (r: ModeRenderState)
        ensures
            r is Normal,
    {
        ModeRenderState::Normal
    }
}

impl CommandMode {
    /// What the command line shows: the input, the cursor and the
    /// highlighted completion; no completion query is kept by the mode.
    pub fn render_state(&self) -> (r: ModeRenderState)
        ensures
            r matches ModeRenderState::Command { input, cursor, completion_index, completion_query } && input@
                == self.input@ && cursor == self.cursor && completion_index == self.completion_index
                && completion_query is None,
    {
        ModeRenderState::Command {
            input: self.input.clone(),
            cursor: self.cursor,
            completion_index: self.completion_index,
            completion_query: None,
        }
    }
}

impl SearchMode {
    /// What the search prompt shows: the query, the cursor after it (the
    /// prompt only edits at its end), and the direction.
    pub fn render_state(&self) -> (r: ModeRenderState)
        ensures
            r matches ModeRenderState::Search { query, cursor, forward } && query@ == self.input@ && cursor
                == bytes_of(self.input).len() && forward == self.forward,
    {
        ModeRenderState::Search {
            query: self.input.clone(),
            cursor: byte_len(&self.input),
            forward: self.forward,
        }
    }
}

impl<C> ConfirmRestoreMode<C> {
    /// What the restore question shows: nothing of its own.
    pub fn render_state(&self) -> (r: ModeRenderState)
        ensures
            r is ConfirmRestore,
    {
        ModeRenderState::ConfirmRestore
    }
}

impl ConfirmRestoreSessionMode {
    /// What the session question shows: the files it would reopen.
    pub fn render_state(&self) -> (r: ModeRenderState)
        ensures
            r matches ModeRenderState::ConfirmRestoreSession { files } && (*files)@ == self.files@,
    {
        ModeRenderState::ConfirmRestoreSession { files: Arc::new(copy_strings(&self.files)) }
    }
}

impl UiMode {
    /// What the display menu shows: nothing of its own.
    pub fn render_state(&self) -> (r: ModeRenderState)
        ensures
            r is Ui,
    {
        ModeRenderState::Ui
    }
}

impl FilterEditMode {
    /// What the filter editor shows: nothing of its own.
    pub fn render_state(&self) -> (r: ModeRenderState)
        ensures
            r is FilterEdit,
    {
        ModeRenderState::FilterEdit
    }
}

impl DockerSelectMode {
    /// The containers, the selection and the error, for drawing the list.
    pub fn docker_select_state(&self) -> (r: Option<(&[DockerContainer], usize, Option<&str>)>)
        ensures
            r matches Some((c, s, e)) && c@ == self.containers@ && s == self.selected && match self.error {
                Some(x) => e matches Some(y) && y@ == x@,
                None => e is None,
            },
    {
        let err = match &self.error {
            Some(x) => Some(x.as_str()),
            None => None,
        };
        Some((self.containers.as_slice(), self.selected, err))
    }
}

/// `b` is a copy of the category `a`.
pub open spec fn same_entry(a: ValueColorEntry, b: ValueColorEntry) -> bool {
    a.key@ == b.key@ && a.label@ == b.label@ && a.color == b.color && a.enabled == b.enabled
}

/// `b` is a copy of the groups `a`: same labels, same categories.
pub open spec fn same_groups(a: Seq<ValueColorGroup>, b: Seq<ValueColorGroup>) -> bool {
    &&& a.len() == b.len()
    &&& forall|i: int|
        0 <= i < a.len() ==> {
            &&& (#[trigger] b[i]).label@ == a[i].label@
            &&& b[i].children@.len() == a[i].children@.len()
            &&& forall|j: int|
                0 <= j < a[i].children@.len() ==> same_entry(a[i].children@[j], #[trigger] b[i].children@[j])
        }
}

fn copy_group(g: &ValueColorGroup) -> (r: ValueColorGroup)
    ensures
        r.label@ == g.label@,
        r.children@.len() == g.children@.len(),
        forall|j: int| 0 <= j < g.children@.len() ==> same_entry(g.children@[j], #[trigger] r.children@[j]),
{
    let mut children: Vec<ValueColorEntry> = Vec::new();
    let mut j: usize = 0;
    while j < g.children.len()
        invariant
            j <= g.children@.len(),
            children@.len() == j,
            forall|t: int| 0 <= t < j ==> same_entry(g.children@[t], #[trigger] children@[t]),
        decreases g.children@.len() - j,
    {
        let e = &g.children[j];
        children.push(
            ValueColorEntry { key: e.key.clone(), label: e.label.clone(), color: e.color, enabled: e.enabled },
        );
        j += 1;
    }
    ValueColorGroup { label: g.label.clone(), children }
}

fn copy_groups(gs: &Vec<ValueColorGroup>) -> (r: Vec<ValueColorGroup>)
    ensures
        same_groups(gs@, r@),
{
    let mut out: Vec<ValueColorGroup> = Vec::new();
    let mut i: usize = 0;
    while i < gs.len()
        invariant
            i <= gs@.len(),
            out@.len() == i,
            forall|t: int|
                0 <= t < i ==> {
                    &&& (#[trigger] out@[t]).label@ == gs@[t].label@
                    &&& out@[t].children@.len() == gs@[t].children@.len()
                    &&& forall|j: int|
                        0 <= j < gs@[t].children@.len() ==> same_entry(gs@[t].children@[j], #[trigger] out@[t].children@[j])
                },
        decreases gs@.len() - i,
    {
        out.push(copy_group(&gs[i]));
        i += 1;
    }
    out
}

impl<H> ValueColorsMode<H> {
    /// What the value colour picker shows: a copy of the groups, the query
    /// and the selection.
    pub fn render_state(&self) -> (r: ModeRenderState)
        ensures
            r matches ModeRenderState::ValueColors { groups, search, selected } && same_groups(self.groups@, groups@)
                && search@ == self.search@ && selected == self.selected,
    {
        ModeRenderState::ValueColors {
            groups: copy_groups(&self.groups),
            search: self.search.clone(),
            selected: self.selected,
        }
    }
}

fn copy_opt_string(s: &Option<String>) -> (r: Option<String>)
    ensures
        match *s {
            Some(x) => r matches Some(y) && y@ == x@,
            None => r is None,
        },
{
    match s {
        Some(x) => Some(x.clone()),
        None => None,
    }
}

/// `b` is a copy of the default filter row `a`.
pub open spec fn same_row(a: DefaultFilterRow, b: DefaultFilterRow) -> bool {
    &&& a.name@ == b.name@
    &&& a.is_custom == b.is_custom
    &&& match a.path {
        Some(x) => b.path matches Some(y) && y@ == x@,
        None => b.path is None,
    }
}

/// `b` is a copy of the path edit `a`.
pub open spec fn same_edit(a: PathEditState, b: PathEditState) -> bool {
    &&& a.input@ == b.input@
    &&& a.cursor == b.cursor
    &&& a.completion_index == b.completion_index
    &&& match a.query {
        Some(x) => b.query matches Some(y) && y@ == x@,
        None => b.query is None,
    }
}

impl DefaultFiltersMode {
    /// What the default filter list shows: a copy of the rows, the query,
    /// the selection and the path being edited.
    pub fn render_state(&self) -> (r: ModeRenderState)
        ensures
            r matches ModeRenderState::DefaultFilters { rows, search, selected, editing } && rows@.len()
                == self.rows@.len() && (forall|i: int|
                0 <= i < rows@.len() ==> same_row(self.rows@[i], #[trigger] rows@[i])) && search@ == self.search@
                && selected == self.selected && match self.editing {
                Some(e) => editing matches Some(f) && same_edit(e, f),
                None => editing is None,
            },
    {
        let mut rows: Vec<DefaultFilterRow> = Vec::new();
        let mut i: usize = 0;
        while i < self.rows.len()
            invariant
                i <= self.rows@.len(),
                rows@.len() == i,
                forall|t: int| 0 <= t < i ==> same_row(self.rows@[t], #[trigger] rows@[t]),
            decreases self.rows@.len() - i,
        {
            let row = &self.rows[i];
            rows.push(
                DefaultFilterRow {
                    name: row.name.clone(),
                    is_custom: row.is_custom,
                    path: copy_opt_string(&row.path),
                },
            );
            i += 1;
        }
        let editing = match &self.editing {
            Some(e) => Some(
                PathEditState {
                    input: e.input.clone(),
                    cursor: e.cursor,
                    query: copy_opt_string(&e.query),
                    completion_index: e.completion_index,
                },
            ),
            None => None,
        };
        ModeRenderState::DefaultFilters { rows, search: self.search.clone(), selected: self.selected, editing }
    }
}

} // verus!
