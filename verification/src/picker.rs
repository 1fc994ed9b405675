//! The fuzzy-filtered pickers: the list of open tabs (quick switch) and the
//! list of themes. Both narrow their entries by a typeahead query and keep
//! the selection inside the narrowed list.

use vstd::prelude::*;
use crate::fuzzy::{fuzzy, fuzzy_match};
use crate::key::{Key, KeyInput, KeyResult};
use crate::text::{pop_char, push_char};

verus! {

/// An entry is shown for `search`: the query is empty or matches it.
pub open spec fn shown(search: Seq<char>, name: Seq<char>) -> bool {
    search.len() == 0 || fuzzy(search, name)
}

/// The indices `i < n` with `pred(i)`, ascending.
pub open spec fn filter_range(n: int, pred: spec_fn(int) -> bool) -> Seq<usize>
    decreases n,
{
    if n <= 0 {
        Seq::empty()
    } else if pred(n - 1) {
        filter_range(n - 1, pred).push((n - 1) as usize)
    } else {
        filter_range(n - 1, pred)
    }
}

/// The indices of the names shown for `search`.
pub open spec fn shown_indices(search: Seq<char>, names: Seq<Seq<char>>) -> Seq<usize> {
    filter_range(names.len() as int, |i: int| shown(search, names[i]))
}

/// Every index in `filter_range(n, pred)` is below `n` and satisfies `pred`.
pub proof fn lemma_filter_range_members(n: int, pred: spec_fn(int) -> bool)
    requires
        n <= usize::MAX,
    ensures
        forall|k: int| 0 <= k < filter_range(n, pred).len() ==> {
            let i = #[trigger] filter_range(n, pred)[k];
            0 <= i < n && pred(i as int)
        },
        filter_range(n, pred).len() <= if n > 0 { n } else { 0 },
    decreases n,
{
    if n > 0 {
        lemma_filter_range_members(n - 1, pred);
    }
}

/// Every index below `n` that satisfies `pred` is in `filter_range(n, pred)`,
/// and the indices ascend.
pub proof fn lemma_filter_range_complete(n: int, pred: spec_fn(int) -> bool)
    requires
        n <= usize::MAX,
    ensures
        forall|i: int| 0 <= i < n && #[trigger] pred(i) ==> filter_range(n, pred).contains(i as usize),
        forall|a: int, b: int|
            0 <= a < b < filter_range(n, pred).len() ==> filter_range(n, pred)[a] < filter_range(n, pred)[b],
    decreases n,
{
    if n > 0 {
        lemma_filter_range_complete(n - 1, pred);
        lemma_filter_range_members(n - 1, pred);
        let prev = filter_range(n - 1, pred);
        if pred(n - 1) {
            assert(filter_range(n, pred)[prev.len() as int] == (n - 1) as usize);
            assert forall|i: int| 0 <= i < n && #[trigger] pred(i) implies filter_range(n, pred).contains(i as usize) by {
                if i < n - 1 {
                    let k = choose|k: int| 0 <= k < prev.len() && prev[k] == i as usize;
                    assert(filter_range(n, pred)[k] == i as usize);
                }
            }
        }
    }
}

/// The indices of the `names` shown for `search`, ascending: all of them
/// when the query is empty.
pub fn visible_indices(search: &str, names: &Vec<String>) -> (r: Vec<usize>)
    ensures
        r@ == shown_indices(search@, names@.map_values(|s: String| s@)),
{
    let ghost views = names@.map_values(|s: String| s@);
    let ghost pred = |i: int| shown(search@, views[i]);
    let mut out: Vec<usize> = Vec::new();
    let empty = search.is_empty();
    let mut i: usize = 0;
    while i < names.len()
        invariant
            i <= names@.len(),
            views == names@.map_values(|s: String| s@),
            pred == (|i: int| shown(search@, views[i])),
            empty == (search@.len() == 0),
            out@ == filter_range(i as int, pred),
        decreases names@.len() - i,
    {
        if empty || fuzzy_match(search, names[i].as_str()) {
            out.push(i);
        }
        i += 1;
    }
    out
}

/// The selection after the list shrank to `count` entries: unchanged when
/// it still fits, otherwise the last entry (0 for an empty list).
pub open spec fn clamped(selected: usize, count: int) -> usize {
    if count == 0 {
        0
    } else if selected >= count {
        (count - 1) as usize
    } else {
        selected
    }
}

/// The selection one step down, stopping at the last of `count` entries.
pub open spec fn step_down(selected: usize, count: int) -> usize {
    if count > 0 {
        if selected + 1 < count - 1 { (selected + 1) as usize } else { (count - 1) as usize }
    } else {
        selected
    }
}

/// The selection one step up, stopping at 0.
pub open spec fn step_up(selected: usize) -> usize {
    if selected == 0 { 0 } else { (selected - 1) as usize }
}

/// Computes `clamped`.
pub fn clamp_index(selected: usize, count: usize) -> (r: usize)
    ensures
        r == clamped(selected, count as int),
{
    if count == 0 {
        0
    } else if selected >= count {
        count - 1
    } else {
        selected
    }
}

/// Computes `step_down`.
pub fn down_index(selected: usize, count: usize) -> (r: usize)
    ensures
        r == step_down(selected, count as int),
{
    if count > 0 {
        if selected < count - 1 && selected + 1 < count - 1 { selected + 1 } else { count - 1 }
    } else {
        selected
    }
}

/// The navigation binding a key matched, if any (down is checked first).
#[derive(Debug, Clone, Copy, PartialEq, Eq, Structural)]
pub enum NavBinding {
    Down,
    Up,
}

/// Where a picker goes after a key.
#[derive(Debug, Clone, Copy, PartialEq, Eq, Structural)]
pub enum PickerNext {
    Stay,
    Normal,
}

/// The quick-switch popup listing every open tab, narrowed by a fuzzy query.
#[derive(Debug)]
pub struct FileSwitcherMode {
    /// (tab index, tab title) for every open tab.
    pub entries: Vec<(usize, String)>,
    /// The tab that was active when the popup opened.
    pub active_tab: usize,
    /// Index into the visible (filtered) entries.
    pub selected: usize,
    pub search: String,
}

impl FileSwitcherMode {
    /// The titles of the entries.
    pub open spec fn titles(&self) -> Seq<Seq<char>> {
        self.entries@.map_values(|e: (usize, String)| e.1@)
    }

    /// The indices of the entries shown for the current query.
    pub open spec fn visible(&self) -> Seq<usize> {
        shown_indices(self.search@, self.titles())
    }

    /// The popup over `entries`, nothing typed, the first entry selected.
    pub fn new(entries: Vec<(usize, String)>, active_tab: usize) -> (r: Self)
        ensures
            r.entries == entries,
            r.active_tab == active_tab,
            r.selected == 0,
            r.search@ == Seq::<char>::empty(),
    {
        FileSwitcherMode { entries, active_tab, selected: 0, search: String::new() }
    }

    /// Indices into `entries` matching the current query, ascending.
    pub fn visible_entries(&self) -> (r: Vec<usize>)
        ensures
            r@ == self.visible(),
    {
        let mut titles: Vec<String> = Vec::new();
        let mut i: usize = 0;
        while i < self.entries.len()
            invariant
                i <= self.entries@.len(),
                titles@.len() == i,
                forall|j: int| 0 <= j < i ==> #[trigger] titles@[j]@ == self.entries@[j].1@,
            decreases self.entries@.len() - i,
        {
            titles.push(self.entries[i].1.clone());
            i += 1;
        }
        let r = visible_indices(self.search.as_str(), &titles);
        assert(titles@.map_values(|s: String| s@) =~= self.titles());
        r
    }

    /// Keeps the selection inside the visible entries.
    pub fn clamp_selected(&mut self)
        ensures
            final(self).selected == clamped(old(self).selected, old(self).visible().len() as int),
            final(self).entries == old(self).entries,
            final(self).search == old(self).search,
            final(self).active_tab == old(self).active_tab,
    {
        let count = self.visible_entries().len();
        self.selected = clamp_index(self.selected, count);
    }

    /// Handles one key. `nav` is the navigation binding the key matched;
    /// `switcher` whether it matches the quick-switch key itself.
    pub fn handle_key(&mut self, nav: Option<NavBinding>, switcher: bool, k: KeyInput) -> (r: (PickerNext, KeyResult))
        ensures
            final(self).entries == old(self).entries,
            final(self).active_tab == old(self).active_tab,
            nav == Some(NavBinding::Down) ==> r.0 == PickerNext::Stay && r.1 is Handled
                && final(self).search == old(self).search
                && final(self).selected == step_down(old(self).selected, old(self).visible().len() as int),
            nav == Some(NavBinding::Up) ==> r.0 == PickerNext::Stay && r.1 is Handled
                && final(self).search == old(self).search
                && final(self).selected == step_up(old(self).selected),
            nav is None && k.key == Key::Enter ==> r.0 == PickerNext::Normal && if old(self).selected
                < old(self).visible().len() {
                r.1 == KeyResult::SwitchToTab(
                    old(self).entries@[old(self).visible()[old(self).selected as int] as int].0,
                )
            } else {
                r.1 is Handled
            },
            nav is None && k.key != Key::Enter && (k.key == Key::Esc || switcher) ==> r.1 is Handled && if k.key
                == Key::Esc && old(self).search@.len() > 0 {
                r.0 == PickerNext::Stay && final(self).search@ == Seq::<char>::empty() && final(self).selected == 0
            } else {
                r.0 == PickerNext::Normal
            },
            nav is None && k.key != Key::Enter && k.key != Key::Esc && !switcher ==> r.0 == PickerNext::Stay
                && match k.key {
                Key::Char(c) => if k.ctrl {
                    r.1 is Ignored && *final(self) == *old(self)
                } else {
                    r.1 is Handled && final(self).search@ == old(self).search@.push(c) && final(self).selected == 0
                },
                Key::Backspace => r.1 is Handled && final(self).search@ == (if old(self).search@.len() > 0 {
                    old(self).search@.drop_last()
                } else {
                    old(self).search@
                }) && final(self).selected == 0,
                _ => r.1 is Ignored && *final(self) == *old(self),
            },
    {
        if nav == Some(NavBinding::Down) {
            let count = self.visible_entries().len();
            self.selected = down_index(self.selected, count);
            return (PickerNext::Stay, KeyResult::Handled);
        }
        if nav == Some(NavBinding::Up) {
            self.selected = if self.selected == 0 { 0 } else { self.selected - 1 };
            return (PickerNext::Stay, KeyResult::Handled);
        }
        if k.key == Key::Enter {
            let visible = self.visible_entries();
            let n_entries = self.entries.len();
            if self.selected < visible.len() {
                let entry_idx = visible[self.selected];
                proof {
                    lemma_filter_range_members(self.titles().len() as int, |i: int| shown(self.search@, self.titles()[i]));
                }
                let tab_idx = self.entries[entry_idx].0;
                return (PickerNext::Normal, KeyResult::SwitchToTab(tab_idx));
            }
            return (PickerNext::Normal, KeyResult::Handled);
        }
        if k.key == Key::Esc || switcher {
            if !self.search.as_str().is_empty() && k.key == Key::Esc {
                self.search = String::new();
                self.selected = 0;
                return (PickerNext::Stay, KeyResult::Handled);
            }
            return (PickerNext::Normal, KeyResult::Handled);
        }
        match k.key {
            Key::Char(c) => {
                if k.ctrl {
                    return (PickerNext::Stay, KeyResult::Ignored);
                }
                push_char(&mut self.search, c);
                self.selected = 0;
                self.clamp_selected();
                (PickerNext::Stay, KeyResult::Handled)
            },
            Key::Backspace => {
                pop_char(&mut self.search);
                self.selected = 0;
                self.clamp_selected();
                (PickerNext::Stay, KeyResult::Handled)
            },
            _ => (PickerNext::Stay, KeyResult::Ignored),
        }
    }
}

/// The theme picker: every available theme, narrowed by a fuzzy query;
/// moving the selection previews the theme, Esc reverts to the theme that
/// was active when the picker opened (kept here as `original_theme`).
#[derive(Debug)]
pub struct ThemePickerMode<T> {
    /// Available theme names.
    pub entries: Vec<String>,
    /// Index into the visible (filtered) entries.
    pub selected: usize,
    pub search: String,
    /// The theme active when the picker opened.
    pub original_theme: T,
}

impl<T> ThemePickerMode<T> {
    /// The indices of the entries shown for the current query.
    pub open spec fn visible(&self) -> Seq<usize> {
        shown_indices(self.search@, self.entries@.map_values(|s: String| s@))
    }

    /// The highlighted theme's name, if the narrowed list is not empty.
    pub open spec fn highlighted(&self) -> Option<Seq<char>> {
        if self.selected < self.visible().len() {
            Some(self.entries@[self.visible()[self.selected as int] as int]@)
        } else {
            None
        }
    }

    /// What a selection change reports: a preview of the highlighted theme,
    /// or just `Handled` when nothing is highlighted.
    pub open spec fn preview(&self, r: KeyResult) -> bool {
        match self.highlighted() {
            Some(name) => r matches KeyResult::PreviewTheme(n) && n@ == name,
            None => r is Handled,
        }
    }

    /// The picker over `entries`, nothing typed, the first entry selected.
    pub fn new(entries: Vec<String>, original_theme: T) -> (r: Self)
        ensures
            r.entries == entries,
            r.original_theme == original_theme,
            r.selected == 0,
            r.search@ == Seq::<char>::empty(),
    {
        ThemePickerMode { entries, selected: 0, search: String::new(), original_theme }
    }

    /// Indices into `entries` matching the current query, ascending.
    pub fn visible_entries(&self) -> (r: Vec<usize>)
        ensures
            r@ == self.visible(),
    {
        visible_indices(self.search.as_str(), &self.entries)
    }

    /// Keeps the selection inside the visible entries.
    pub fn clamp_selected(&mut self)
        ensures
            final(self).selected == clamped(old(self).selected, old(self).visible().len() as int),
            final(self).entries == old(self).entries,
            final(self).search == old(self).search,
            final(self).original_theme == old(self).original_theme,
    {
        let count = self.visible_entries().len();
        self.selected = clamp_index(self.selected, count);
    }

    /// The name of the highlighted entry, `None` when the query matches nothing.
    pub fn selected_name(&self) -> (r: Option<String>)
        ensures
            match self.highlighted() {
                Some(name) => r matches Some(s) && s@ == name,
                None => r is None,
            },
    {
        let visible = self.visible_entries();
        if self.selected < visible.len() {
            let n = self.entries.len();
            proof {
                lemma_filter_range_members(
                    self.entries@.len() as int,
                    |i: int| shown(self.search@, self.entries@.map_values(|s: String| s@)[i]),
                );
            }
            Some(self.entries[visible[self.selected]].clone())
        } else {
            None
        }
    }

    /// A preview of the highlighted entry, or `Handled` when there is none.
    pub fn preview_result(&self) -> (r: KeyResult)
        ensures
            self.preview(r),
    {
        match self.selected_name() {
            Some(name) => KeyResult::PreviewTheme(name),
            None => KeyResult::Handled,
        }
    }

    /// Handles one key; `nav` is the navigation binding the key matched.
    pub fn handle_key(&mut self, nav: Option<NavBinding>, k: KeyInput) -> (r: (PickerNext, KeyResult))
        ensures
            final(self).entries == old(self).entries,
            final(self).original_theme == old(self).original_theme,
            nav == Some(NavBinding::Down) ==> r.0 == PickerNext::Stay && final(self).search == old(self).search
                && final(self).selected == step_down(old(self).selected, old(self).visible().len() as int)
                && final(self).preview(r.1),
            nav == Some(NavBinding::Up) ==> r.0 == PickerNext::Stay && final(self).search == old(self).search
                && final(self).selected == step_up(old(self).selected) && final(self).preview(r.1),
            nav is None && k.key == Key::Enter ==> r.0 == PickerNext::Normal && match old(self).highlighted() {
                Some(name) => r.1 matches KeyResult::ConfirmTheme(n) && n@ == name,
                None => r.1 is RevertTheme,
            },
            nav is None && k.key == Key::Esc ==> if old(self).search@.len() > 0 {
                r.0 == PickerNext::Stay && final(self).search@ == Seq::<char>::empty() && final(self).selected == 0
                    && final(self).preview(r.1)
            } else {
                r.0 == PickerNext::Normal && r.1 is RevertTheme
            },
            nav is None && k.key != Key::Enter && k.key != Key::Esc ==> r.0 == PickerNext::Stay && match k.key {
                Key::Char(c) => if k.ctrl {
                    r.1 is Ignored && *final(self) == *old(self)
                } else {
                    final(self).search@ == old(self).search@.push(c) && final(self).selected == 0
                        && final(self).preview(r.1)
                },
                Key::Backspace => final(self).search@ == (if old(self).search@.len() > 0 {
                    old(self).search@.drop_last()
                } else {
                    old(self).search@
                }) && final(self).selected == 0 && final(self).preview(r.1),
                _ => r.1 is Ignored && *final(self) == *old(self),
            },
    {
        if nav == Some(NavBinding::Down) {
            let count = self.visible_entries().len();
            self.selected = down_index(self.selected, count);
            let result = self.preview_result();
            return (PickerNext::Stay, result);
        }
        if nav == Some(NavBinding::Up) {
            self.selected = if self.selected == 0 { 0 } else { self.selected - 1 };
            let result = self.preview_result();
            return (PickerNext::Stay, result);
        }
        if k.key == Key::Enter {
            return match self.selected_name() {
                Some(name) => (PickerNext::Normal, KeyResult::ConfirmTheme(name)),
                None => (PickerNext::Normal, KeyResult::RevertTheme),
            };
        }
        if k.key == Key::Esc {
            if !self.search.as_str().is_empty() {
                self.search = String::new();
                self.selected = 0;
                let result = self.preview_result();
                return (PickerNext::Stay, result);
            }
            return (PickerNext::Normal, KeyResult::RevertTheme);
        }
        match k.key {
            Key::Char(c) => {
                if k.ctrl {
                    return (PickerNext::Stay, KeyResult::Ignored);
                }
                push_char(&mut self.search, c);
                self.selected = 0;
                self.clamp_selected();
                let result = self.preview_result();
                (PickerNext::Stay, result)
            },
            Key::Backspace => {
                pop_char(&mut self.search);
                self.selected = 0;
                self.clamp_selected();
                let result = self.preview_result();
                (PickerNext::Stay, result)
            },
            _ => (PickerNext::Stay, KeyResult::Ignored),
        }
    }
}

} // verus!
