//! The default-filters popup: one row per known log format with the filter
//! file loaded by default for it; rows are narrowed by a fuzzy query, and
//! the selected row's path can be edited with Tab-cycled completions.

use vstd::prelude::*;
use crate::key::{Key, KeyInput, KeyResult};
use crate::picker::{clamp_index, clamped, down_index, lemma_filter_range_members, shown, shown_indices, step_down, step_up, visible_indices, NavBinding, PickerNext};
use crate::text::{insert_at_char, insert_char_at, pop_char, push_char, remove_before_char, remove_char_before, trim, trimmed};

verus! {

/// One row: a format name, whether it is a custom schema, and its
/// configured default filter file.
#[derive(Debug)]
pub struct DefaultFilterRow {
    pub name: String,
    pub is_custom: bool,
    pub path: Option<String>,
}

/// The path being edited for the selected row.
#[derive(Debug)]
pub struct PathEditState {
    pub input: String,
    /// Cursor, in characters.
    pub cursor: usize,
    /// The text as typed before the first Tab; completions are computed
    /// from it while Tab cycles.
    pub query: Option<String>,
    /// Which completion Tab last put into `input`.
    pub completion_index: Option<usize>,
}

/// The default-filters popup.
#[derive(Debug)]
pub struct DefaultFiltersMode {
    pub rows: Vec<DefaultFilterRow>,
    pub search: String,
    /// Index into the visible (filtered) rows.
    pub selected: usize,
    pub editing: Option<PathEditState>,
}

/// The value of the first pair whose key is `name`.
pub open spec fn lookup(pairs: Seq<(String, String)>, name: Seq<char>) -> Option<Seq<char>>
    decreases pairs.len(),
{
    if pairs.len() == 0 {
        None
    } else if pairs[0].0@ == name {
        Some(pairs[0].1@)
    } else {
        lookup(pairs.drop_first(), name)
    }
}

fn find_path(pairs: &Vec<(String, String)>, name: &String) -> (r: Option<String>)
    ensures
        match lookup(pairs@, name@) {
            Some(p) => r matches Some(s) && s@ == p,
            None => r is None,
        },
{
    let mut i: usize = 0;
    assert(pairs@.skip(0) =~= pairs@);
    while i < pairs.len()
        invariant
            i <= pairs@.len(),
            lookup(pairs@.skip(i as int), name@) == lookup(pairs@, name@),
        decreases pairs@.len() - i,
    {
        proof {
            assert(pairs@.skip(i as int).drop_first() =~= pairs@.skip(i + 1));
        }
        if pairs[i].0 == *name {
            return Some(pairs[i].1.clone());
        }
        i += 1;
    }
    None
}

impl DefaultFiltersMode {
    /// The names of the rows.
    pub open spec fn names(&self) -> Seq<Seq<char>> {
        self.rows@.map_values(|r: DefaultFilterRow| r.name@)
    }

    /// The indices of the rows shown for the current query.
    pub open spec fn visible(&self) -> Seq<usize> {
        shown_indices(self.search@, self.names())
    }

    /// One row per (name, is-custom) pair, in the given order — custom
    /// schemas first, then built-in formats, each alphabetical — paired with
    /// its configured default filter file from `current`, which maps each
    /// format name (at most once) to its file.
    pub fn new(names: Vec<(String, bool)>, current: &Vec<(String, String)>) -> (r: Self)
        requires
            forall|a: int, b: int| 0 <= a < b < current@.len() ==> current@[a].0@ != current@[b].0@,
        ensures
            r.rows@.len() == names@.len(),
            forall|i: int| #![trigger r.rows@[i]] 0 <= i < names@.len() ==> {
                &&& r.rows@[i].name == names@[i].0
                &&& r.rows@[i].is_custom == names@[i].1
                &&& match lookup(current@, names@[i].0@) {
                    Some(p) => r.rows@[i].path matches Some(s) && s@ == p,
                    None => r.rows@[i].path is None,
                }
            },
            r.search@ == Seq::<char>::empty(),
            r.selected == 0,
            r.editing is None,
    {
        let mut rows: Vec<DefaultFilterRow> = Vec::new();
        let mut i: usize = 0;
        while i < names.len()
            invariant
                i <= names@.len(),
                rows@.len() == i,
                forall|j: int| #![trigger rows@[j]] 0 <= j < i ==> {
                    &&& rows@[j].name == names@[j].0
                    &&& rows@[j].is_custom == names@[j].1
                    &&& match lookup(current@, names@[j].0@) {
                        Some(p) => rows@[j].path matches Some(s) && s@ == p,
                        None => rows@[j].path is None,
                    }
                },
            decreases names@.len() - i,
        {
            let name = names[i].0.clone();
            let path = find_path(current, &name);
            rows.push(DefaultFilterRow { name, is_custom: names[i].1, path });
            i += 1;
        }
        DefaultFiltersMode { rows, search: String::new(), selected: 0, editing: None }
    }

    /// Indices of the rows matching the current query, ascending (all rows
    /// when the query is empty).
    pub fn visible_rows(&self) -> (r: Vec<usize>)
        ensures
            r@ == self.visible(),
    {
        let mut names: Vec<String> = Vec::new();
        let mut i: usize = 0;
        while i < self.rows.len()
            invariant
                i <= self.rows@.len(),
                names@.len() == i,
                forall|j: int| 0 <= j < i ==> #[trigger] names@[j]@ == self.rows@[j].name@,
            decreases self.rows@.len() - i,
        {
            names.push(self.rows[i].name.clone());
            i += 1;
        }
        assert(names@.map_values(|s: String| s@) =~= self.names());
        visible_indices(self.search.as_str(), &names)
    }

    /// Keeps the selection inside the visible rows.
    pub fn clamp_selected(&mut self)
        ensures
            final(self).selected == clamped(old(self).selected, old(self).visible().len() as int),
            final(self).rows == old(self).rows,
            final(self).search == old(self).search,
            final(self).editing == old(self).editing,
    {
        let count = self.visible_rows().len();
        self.selected = clamp_index(self.selected, count);
    }

    /// The row index of the selection, when the visible list has one.
    pub open spec fn selected_row(&self) -> Option<int> {
        if self.selected < self.visible().len() {
            Some(self.visible()[self.selected as int] as int)
        } else {
            None
        }
    }

    /// Handles a key while browsing the rows. `nav` is the navigation
    /// binding the key matched.
    pub fn handle_list_key(&mut self, nav: Option<NavBinding>, k: KeyInput) -> (r: (PickerNext, KeyResult))
        requires
            old(self).editing is None,
        ensures
            nav == Some(NavBinding::Down) ==> r == (PickerNext::Stay, KeyResult::Handled) && final(self).rows
                == old(self).rows && final(self).search == old(self).search && final(self).editing is None
                && final(self).selected == step_down(old(self).selected, old(self).visible().len() as int),
            nav == Some(NavBinding::Up) ==> r == (PickerNext::Stay, KeyResult::Handled) && final(self).rows
                == old(self).rows && final(self).search == old(self).search && final(self).editing is None
                && final(self).selected == step_up(old(self).selected),
            nav is None && k.key == Key::Enter ==> r == (PickerNext::Stay, KeyResult::Handled) && final(self).rows
                == old(self).rows && final(self).search == old(self).search && final(self).selected == old(
                self,
            ).selected && match old(self).selected_row() {
                Some(idx) => final(self).editing matches Some(e) && e.input@ == (match old(self).rows@[idx].path {
                    Some(p) => p@,
                    None => Seq::<char>::empty(),
                }) && e.cursor == e.input@.len() && e.query is None && e.completion_index is None,
                None => final(self).editing is None,
            },
            nav is None && k.key == Key::Char('d') && !k.ctrl && old(self).search@.len() == 0 ==> r.0
                == PickerNext::Stay && final(self).search == old(self).search && final(self).selected == old(
                self,
            ).selected && final(self).editing is None && match old(self).selected_row() {
                Some(idx) => if old(self).rows@[idx].path is Some {
                    &&& final(self).rows@.len() == old(self).rows@.len()
                    &&& forall|j: int| 0 <= j < old(self).rows@.len() && j != idx ==> #[trigger] final(self).rows@[j]
                        == old(self).rows@[j]
                    &&& final(self).rows@[idx].path is None
                    &&& final(self).rows@[idx].name == old(self).rows@[idx].name
                    &&& final(self).rows@[idx].is_custom == old(self).rows@[idx].is_custom
                    &&& r.1 matches KeyResult::SetDefaultFilterFile { format, path } && format@ == old(
                        self,
                    ).rows@[idx].name@ && path is None
                } else {
                    r.1 is Handled && final(self).rows == old(self).rows
                },
                None => r.1 is Handled && final(self).rows == old(self).rows,
            },
            nav is None && k.key == Key::Esc ==> r.1 is Handled && final(self).rows == old(self).rows
                && final(self).editing is None && if old(self).search@.len() > 0 {
                r.0 == PickerNext::Stay && final(self).search@ == Seq::<char>::empty() && final(self).selected == 0
            } else {
                r.0 == PickerNext::Normal
            },
            nav is None && k.key != Key::Enter && k.key != Key::Esc && !(k.key == Key::Char('d') && !k.ctrl
                && old(self).search@.len() == 0) ==> r.0 == PickerNext::Stay && final(self).rows == old(self).rows
                && final(self).editing is None && match k.key {
                Key::Char(c) => if k.ctrl {
                    r.1 is Ignored && final(self).search == old(self).search && final(self).selected == old(
                        self,
                    ).selected
                } else {
                    r.1 is Handled && final(self).search@ == old(self).search@.push(c) && final(self).selected == 0
                },
                Key::Backspace => r.1 is Handled && final(self).search@ == (if old(self).search@.len() > 0 {
                    old(self).search@.drop_last()
                } else {
                    old(self).search@
                }) && final(self).selected == 0,
                _ => r.1 is Ignored && final(self).search == old(self).search && final(self).selected == old(
                    self,
                ).selected,
            },
    {
        if nav == Some(NavBinding::Down) {
            let count = self.visible_rows().len();
            self.selected = down_index(self.selected, count);
            return (PickerNext::Stay, KeyResult::Handled);
        }
        if nav == Some(NavBinding::Up) {
            self.selected = if self.selected == 0 { 0 } else { self.selected - 1 };
            return (PickerNext::Stay, KeyResult::Handled);
        }
        if k.key == Key::Enter {
            let rows = self.visible_rows();
            if self.selected < rows.len() {
                let n = self.rows.len();
                proof {
                    lemma_filter_range_members(n as int, |i: int| shown(self.search@, self.names()[i]));
                }
                let idx = rows[self.selected];
                let existing = match &self.rows[idx].path {
                    Some(p) => p.clone(),
                    None => String::new(),
                };
                let cursor = existing.as_str().unicode_len();
                self.editing = Some(PathEditState { input: existing, cursor, query: None, completion_index: None });
            }
            return (PickerNext::Stay, KeyResult::Handled);
        }
        if k.key == Key::Char('d') && !k.ctrl && self.search.as_str().is_empty() {
            let rows = self.visible_rows();
            if self.selected < rows.len() {
                let n = self.rows.len();
                proof {
                    lemma_filter_range_members(n as int, |i: int| shown(self.search@, self.names()[i]));
                }
                let idx = rows[self.selected];
                if self.rows[idx].path.is_some() {
                    let format = self.rows[idx].name.clone();
                    let row = DefaultFilterRow {
                        name: self.rows[idx].name.clone(),
                        is_custom: self.rows[idx].is_custom,
                        path: None,
                    };
                    let ghost before = self.rows@;
                    self.rows.set(idx, row);
                    proof {
                        assert(self.rows@[idx as int].name@ == before[idx as int].name@);
                    }
                    return (PickerNext::Stay, KeyResult::SetDefaultFilterFile { format, path: None });
                }
            }
            return (PickerNext::Stay, KeyResult::Handled);
        }
        if k.key == Key::Esc {
            if !self.search.as_str().is_empty() {
                self.search = String::new();
                self.selected = 0;
                return (PickerNext::Stay, KeyResult::Handled);
            }
            return (PickerNext::Normal, KeyResult::Handled);
        }
        match k.key {
            Key::Char(c) => {
                if k.ctrl {
                    return (PickerNext::Stay, KeyResult::Ignored);
                }
                push_char(&mut self.search, c);
                self.selected = 0;
                self.clamp_selected();
                (PickerNext::Stay, KeyResult::Handled)
            },
            Key::Backspace => {
                pop_char(&mut self.search);
                self.selected = 0;
                self.clamp_selected();
                (PickerNext::Stay, KeyResult::Handled)
            },
            _ => (PickerNext::Stay, KeyResult::Ignored),
        }
    }

    /// The text the path completions are computed from: the text typed
    /// before the first Tab, or the current input.
    pub open spec fn query_text(e: PathEditState) -> Seq<char> {
        match e.query {
            Some(q) => q@,
            None => e.input@,
        }
    }

    /// The text to compute path completions for (see `query_text`).
    pub fn completion_query(&self) -> (r: String)
        requires
            self.editing is Some,
        ensures
            r@ == Self::query_text(self.editing->0),
    {
        match &self.editing {
            Some(e) => match &e.query {
                Some(q) => q.clone(),
                None => e.input.clone(),
            },
            None => String::new(),
        }
    }

    /// The editor can take `k`: Shift-Tab steps back from a completion
    /// index that lies inside the completion list, and typing can advance
    /// the cursor.
    pub open spec fn edit_key_ok(&self, k: KeyInput, completions: Seq<String>) -> bool {
        let e = self.editing->0;
        &&& (k.key == Key::BackTab && completions.len() > 0 ==> match e.completion_index {
            Some(i) => i > 0 ==> i - 1 < completions.len(),
            None => true,
        })
        &&& (k.key is Char && !k.ctrl && !k.alt ==> match e.query {
            Some(q) => q@.len() < usize::MAX,
            None => e.cursor < usize::MAX,
        })
    }

    /// Handles a key while the selected row's path is edited. `completions`
    /// are the file-path completions of `completion_query()` (only read for
    /// Tab and Shift-Tab).
    pub fn handle_edit_key(&mut self, k: KeyInput, completions: &Vec<String>) -> (r: (PickerNext, KeyResult))
        requires
            old(self).editing is Some,
            old(self).edit_key_ok(k, completions@),
        ensures
            r.0 == PickerNext::Stay,
            final(self).search == old(self).search,
            final(self).selected == old(self).selected,
            k.key != Key::Enter ==> final(self).rows == old(self).rows && r.1 is Handled,
            ({
                let e = old(self).editing->0;
                match k.key {
                    Key::Enter => final(self).editing is None && match old(self).selected_row() {
                        Some(idx) => {
                            let t = trimmed(e.input@);
                            &&& final(self).rows@.len() == old(self).rows@.len()
                            &&& forall|j: int| 0 <= j < old(self).rows@.len() && j != idx ==> #[trigger] final(self).rows@[j]
                                == old(self).rows@[j]
                            &&& final(self).rows@[idx].name == old(self).rows@[idx].name
                            &&& final(self).rows@[idx].is_custom == old(self).rows@[idx].is_custom
                            &&& (if t.len() == 0 {
                                final(self).rows@[idx].path is None
                            } else {
                                final(self).rows@[idx].path matches Some(p) && p@ == t
                            })
                            &&& r.1 matches KeyResult::SetDefaultFilterFile { format, path } && format@ == old(
                                self,
                            ).rows@[idx].name@ && (if t.len() == 0 {
                                path is None
                            } else {
                                path matches Some(p) && p@ == t
                            })
                        },
                        None => r.1 is Handled && final(self).rows == old(self).rows,
                    },
                    Key::Esc => final(self).editing is None,
                    Key::Tab | Key::BackTab => final(self).editing matches Some(e2) && {
                        &&& e2.query matches Some(q) && q@ == Self::query_text(e)
                        &&& if completions@.len() == 0 {
                            e2.input == e.input && e2.cursor == e.cursor && e2.completion_index == e.completion_index
                        } else {
                            let n = completions@.len();
                            let idx = if k.key == Key::Tab {
                                match e.completion_index {
                                    None => 0,
                                    Some(i) => (i + 1) % (n as int),
                                }
                            } else {
                                match e.completion_index {
                                    None => n - 1,
                                    Some(i) => if i == 0 { n - 1 } else { i - 1 },
                                }
                            };
                            &&& e2.completion_index == Some(idx as usize)
                            &&& e2.input@ == completions@[idx]@
                            &&& e2.cursor == e2.input@.len()
                        }
                    },
                    Key::Backspace => final(self).editing matches Some(e2) && {
                        let (base, cur) = match e.query {
                            Some(q) => (q@, q@.len() as int),
                            None => (e.input@, e.cursor as int),
                        };
                        &&& e2.query is None
                        &&& e2.completion_index == (if e.query is Some { None } else { e.completion_index })
                        &&& if cur > 0 {
                            e2.input@ == remove_char_before(base, cur) && e2.cursor == cur - 1
                        } else {
                            e2.input@ == base && e2.cursor == cur
                        }
                    },
                    Key::Left => final(self).editing matches Some(e2) && e2.input == e.input && e2.query == e.query
                        && e2.completion_index == e.completion_index && e2.cursor == (if e.cursor == 0 {
                        0
                    } else {
                        e.cursor - 1
                    }),
                    Key::Right => final(self).editing matches Some(e2) && e2.input == e.input && e2.query
                        == e.query && e2.completion_index == e.completion_index && e2.cursor == (if e.cursor + 1
                        <= e.input@.len() {
                        e.cursor + 1
                    } else {
                        e.input@.len() as int
                    }),
                    Key::Char(c) => if k.ctrl || k.alt {
                        final(self).editing == old(self).editing
                    } else {
                        final(self).editing matches Some(e2) && {
                            let (base, cur) = match e.query {
                                Some(q) => (q@, q@.len() as int),
                                None => (e.input@, e.cursor as int),
                            };
                            &&& e2.query is None
                            &&& e2.completion_index == (if e.query is Some { None } else { e.completion_index })
                            &&& e2.input@ == insert_char_at(base, cur, c)
                            &&& e2.cursor == cur + 1
                        }
                    },
                    _ => final(self).editing == old(self).editing,
                }
            }),
    {
        let mut e = match self.editing.take() {
            Some(e) => e,
            None => {
                return (PickerNext::Stay, KeyResult::Handled);
            },
        };
        match k.key {
            Key::Enter => {
                let rows = self.visible_rows();
                if self.selected >= rows.len() {
                    return (PickerNext::Stay, KeyResult::Handled);
                }
                let n = self.rows.len();
                proof {
                    lemma_filter_range_members(n as int, |i: int| shown(self.search@, self.names()[i]));
                }
                let idx = rows[self.selected];
                let input = trim(e.input.as_str());
                let path = if input.as_str().is_empty() { None } else { Some(input) };
                let path2 = match &path {
                    Some(p) => Some(p.clone()),
                    None => None,
                };
                let format = self.rows[idx].name.clone();
                let row = DefaultFilterRow {
                    name: self.rows[idx].name.clone(),
                    is_custom: self.rows[idx].is_custom,
                    path: path2,
                };
                self.rows.set(idx, row);
                (PickerNext::Stay, KeyResult::SetDefaultFilterFile { format, path })
            },
            Key::Esc => (PickerNext::Stay, KeyResult::Handled),
            Key::Tab | Key::BackTab => {
                if e.query.is_none() {
                    e.query = Some(e.input.clone());
                }
                let n = completions.len();
                if n > 0 {
                    let idx = if k.key == Key::Tab {
                        match e.completion_index {
                            None => 0,
                            Some(i) => {
                                // (i + 1) % n without overflow
                                let j = i % n;
                                proof {
                                    assert((i + 1) % (n as int) == if j + 1 == n { 0 } else { j + 1 }) by (nonlinear_arith)
                                        requires n > 0, j as int == (i as int) % (n as int), i >= 0;
                                }
                                if j + 1 == n { 0 } else { j + 1 }
                            },
                        }
                    } else {
                        match e.completion_index {
                            None => n - 1,
                            Some(i) => if i == 0 { n - 1 } else { i - 1 },
                        }
                    };
                    e.completion_index = Some(idx);
                    e.input = completions[idx].clone();
                    e.cursor = e.input.as_str().unicode_len();
                }
                self.editing = Some(e);
                (PickerNext::Stay, KeyResult::Handled)
            },
            Key::Backspace => {
                if let Some(q) = e.query.take() {
                    e.cursor = q.as_str().unicode_len();
                    e.input = q;
                    e.completion_index = None;
                }
                if e.cursor > 0 {
                    e.input = remove_before_char(&e.input, e.cursor);
                    e.cursor = e.cursor - 1;
                }
                self.editing = Some(e);
                (PickerNext::Stay, KeyResult::Handled)
            },
            Key::Left => {
                e.cursor = if e.cursor == 0 { 0 } else { e.cursor - 1 };
                self.editing = Some(e);
                (PickerNext::Stay, KeyResult::Handled)
            },
            Key::Right => {
                let max = e.input.as_str().unicode_len();
                e.cursor = if e.cursor < max { e.cursor + 1 } else { max };
                self.editing = Some(e);
                (PickerNext::Stay, KeyResult::Handled)
            },
            Key::Char(c) => {
                if !k.ctrl && !k.alt {
                    if let Some(q) = e.query.take() {
                        e.cursor = q.as_str().unicode_len();
                        e.input = q;
                        e.completion_index = None;
                    }
                    let cur = e.cursor;
                    e.input = insert_at_char(&e.input, cur, c);
                    let len = e.input.as_str().unicode_len();
                    e.cursor = cur + 1;
                }
                self.editing = Some(e);
                (PickerNext::Stay, KeyResult::Handled)
            },
            _ => {
                self.editing = Some(e);
                (PickerNext::Stay, KeyResult::Handled)
            },
        }
    }
}

} // verus!
