//! The list pickers with toggles: the Docker container list, the tab list
//! for a merged view, and the field list of structured logs.

use vstd::prelude::*;
use crate::key::{Key, KeyInput, KeyResult};
use crate::picker::{down_index, step_down, step_up, PickerNext};

verus! {

/// Sets every toggle of the list to `on`, keeping the names and order.
fn set_all(items: &mut Vec<(String, bool)>, on: bool)
    ensures
        final(items)@.len() == old(items)@.len(),
        forall|i: int| 0 <= i < old(items)@.len() ==> #[trigger] final(items)@[i] == (old(items)@[i].0, on),
{
    let ghost start = items@;
    let mut i: usize = 0;
    while i < items.len()
        invariant
            i <= items@.len(),
            items@.len() == start.len(),
            forall|j: int| 0 <= j < i ==> #[trigger] items@[j] == (start[j].0, on),
            forall|j: int| i <= j < start.len() ==> #[trigger] items@[j] == start[j],
        decreases items@.len() - i,
    {
        let (name, _) = items.remove(i);
        items.insert(i, (name, on));
        i += 1;
    }
}

/// Flips the toggle at `i`, if there is an item there.
fn flip(items: &mut Vec<(String, bool)>, i: usize)
    ensures
        i < old(items)@.len() ==> final(items)@ == old(items)@.update(
            i as int,
            (old(items)@[i as int].0, !old(items)@[i as int].1),
        ),
        i >= old(items)@.len() ==> final(items)@ == old(items)@,
{
    if i < items.len() {
        let (name, on) = items.remove(i);
        items.insert(i, (name, !on));
        assert(items@ =~= old(items)@.update(i as int, (old(items)@[i as int].0, !old(items)@[i as int].1)));
    }
}

/// A running container, as `docker ps` lists it.
#[derive(Debug, Clone)]
pub struct DockerContainer {
    pub id: String,
    pub name: String,
    pub image: String,
    pub status: String,
}

/// The list of running containers to attach to.
#[derive(Debug)]
pub struct DockerSelectMode {
    pub containers: Vec<DockerContainer>,
    pub selected: usize,
    /// Why the list could not be had, shown instead of it.
    pub error: Option<String>,
}

impl DockerSelectMode {
    /// The list, with the first container selected.
    pub fn new(containers: Vec<DockerContainer>) -> (r: Self)
        ensures
            r.containers == containers,
            r.selected == 0,
            r.error is None,
    {
        DockerSelectMode { containers, selected: 0, error: None }
    }

    /// An empty list showing `error`.
    pub fn with_error(error: String) -> (r: Self)
        ensures
            r.containers@.len() == 0,
            r.selected == 0,
            r.error == Some(error),
    {
        DockerSelectMode { containers: Vec::new(), selected: 0, error: Some(error) }
    }

    /// Handles one key: `j`/Down and `k`/Up move the selection, Enter
    /// attaches to the selected container (or just closes when there is
    /// none), Esc closes.
    pub fn handle_key(&mut self, k: KeyInput) -> (r: (PickerNext, KeyResult))
        ensures
            final(self).containers == old(self).containers,
            final(self).error == old(self).error,
            match k.key {
                Key::Char('j') | Key::Down => r.0 == PickerNext::Stay && r.1 is Handled && final(self).selected
                    == step_down(old(self).selected, old(self).containers@.len() as int),
                Key::Char('k') | Key::Up => r.0 == PickerNext::Stay && r.1 is Handled && final(self).selected
                    == step_up(old(self).selected),
                Key::Enter => r.0 == PickerNext::Normal && final(self).selected == old(self).selected && if old(
                    self,
                ).selected < old(self).containers@.len() {
                    r.1 matches KeyResult::DockerAttach(id, name) && id@ == old(self).containers@[old(
                        self,
                    ).selected as int].id@ && name@ == old(self).containers@[old(self).selected as int].name@
                } else {
                    r.1 is Handled
                },
                Key::Esc => r.0 == PickerNext::Normal && r.1 is Handled && final(self).selected == old(
                    self,
                ).selected,
                _ => r.0 == PickerNext::Stay && r.1 is Handled && final(self).selected == old(self).selected,
            },
    {
        match k.key {
            Key::Char('j') | Key::Down => {
                self.selected = down_index(self.selected, self.containers.len());
                (PickerNext::Stay, KeyResult::Handled)
            },
            Key::Char('k') | Key::Up => {
                self.selected = self.selected.saturating_sub(1);
                (PickerNext::Stay, KeyResult::Handled)
            },
            Key::Enter => {
                if self.selected < self.containers.len() {
                    let c = &self.containers[self.selected];
                    return (PickerNext::Normal, KeyResult::DockerAttach(c.id.clone(), c.name.clone()));
                }
                (PickerNext::Normal, KeyResult::Handled)
            },
            Key::Esc => (PickerNext::Normal, KeyResult::Handled),
            _ => (PickerNext::Stay, KeyResult::Handled),
        }
    }
}

/// The configured list key a press matches, in the order they are tried.
#[derive(Debug, Clone, Copy, PartialEq, Eq, Structural)]
pub enum ListBinding {
    Apply,
    Cancel,
    Down,
    Up,
    Toggle,
    MoveDown,
    MoveUp,
    All,
    Clear,
}

/// The indices, among `tab_indices`, of the tabs whose toggle is on, in
/// list order.
pub open spec fn chosen_tabs(tabs: Seq<(String, bool)>, tab_indices: Seq<usize>) -> Seq<usize>
    decreases tabs.len(),
{
    if tabs.len() == 0 {
        Seq::empty()
    } else {
        let rest = chosen_tabs(tabs.drop_last(), tab_indices);
        if tabs.last().1 {
            rest.push(tab_indices[tabs.len() - 1])
        } else {
            rest
        }
    }
}

/// Picking the tabs to merge into one view.
#[derive(Debug)]
pub struct MergeSelectMode {
    /// Tab title and whether it is chosen.
    pub tabs: Vec<(String, bool)>,
    /// The application's tab index of each entry of `tabs`.
    pub tab_indices: Vec<usize>,
    /// Cursor position in the list.
    pub selected: usize,
}

/// What a key in the merge picker asks of the application.
#[derive(Debug, Clone, PartialEq, Eq)]
pub enum MergeOutcome {
    Nothing,
    /// Fewer than two tabs are chosen: show this message.
    TooFew,
}

impl MergeSelectMode {
    /// The picker, with the cursor on the first tab.
    pub fn new(tabs: Vec<(String, bool)>, tab_indices: Vec<usize>) -> (r: Self)
        ensures
            r.tabs == tabs,
            r.tab_indices == tab_indices,
            r.selected == 0,
    {
        MergeSelectMode { tabs, tab_indices, selected: 0 }
    }

    /// The message shown when fewer than two tabs are chosen.
    pub fn too_few_message() -> (r: String)
        ensures
            r@ == "Select at least 2 tabs to merge"@,
    {
        String::from_str("Select at least 2 tabs to merge")
    }

    /// Handles one key (`bound` is the first configured key the press
    /// matches). Apply opens the merged view of the chosen tabs, or stays
    /// and reports `TooFew` when fewer than two are chosen; Cancel closes;
    /// Down/Up move; Toggle flips the current tab; All/None set every tab.
    /// Keys other than apply and cancel fall through to the global keys.
    pub fn handle_key(&mut self, bound: Option<ListBinding>) -> (r: (PickerNext, KeyResult, MergeOutcome))
        requires
            old(self).tab_indices@.len() >= old(self).tabs@.len(),
        ensures
            final(self).tab_indices == old(self).tab_indices,
            final(self).tab_indices@.len() >= final(self).tabs@.len(),
            ({
                let o = *old(self);
                let f = *final(self);
                match bound {
                    Some(ListBinding::Apply) => {
                        let chosen = chosen_tabs(o.tabs@, o.tab_indices@);
                        f == o && if chosen.len() < 2 {
                            r.0 == PickerNext::Stay && r.1 is Handled && r.2 == MergeOutcome::TooFew
                        } else {
                            r.0 == PickerNext::Normal && r.2 == MergeOutcome::Nothing && (r.1 matches KeyResult::OpenMergedView {
                                source_tab_indices,
                            } && source_tab_indices@ == chosen)
                        }
                    },
                    Some(ListBinding::Cancel) => r.0 == PickerNext::Normal && r.1 is Handled && r.2
                        == MergeOutcome::Nothing && f == o,
                    _ => r.0 == PickerNext::Stay && r.1 is Ignored && r.2 == MergeOutcome::Nothing && match bound {
                        Some(ListBinding::Down) => f.tabs@ == o.tabs@ && f.selected == step_down(
                            o.selected,
                            o.tabs@.len() as int,
                        ),
                        Some(ListBinding::Up) => f.tabs@ == o.tabs@ && f.selected == step_up(o.selected),
                        Some(ListBinding::Toggle) => f.selected == o.selected && if o.selected < o.tabs@.len() {
                            f.tabs@ == o.tabs@.update(
                                o.selected as int,
                                (o.tabs@[o.selected as int].0, !o.tabs@[o.selected as int].1),
                            )
                        } else {
                            f.tabs@ == o.tabs@
                        },
                        Some(ListBinding::All) => f.selected == o.selected && f.tabs@.len() == o.tabs@.len()
                            && forall|i: int| 0 <= i < o.tabs@.len() ==> #[trigger] f.tabs@[i] == (o.tabs@[i].0, true),
                        Some(ListBinding::Clear) => f.selected == o.selected && f.tabs@.len() == o.tabs@.len()
                            && forall|i: int| 0 <= i < o.tabs@.len() ==> #[trigger] f.tabs@[i] == (o.tabs@[i].0, false),
                        _ => f == o,
                    },
                }
            }),
    {
        match bound {
            Some(ListBinding::Apply) => {
                let mut chosen: Vec<usize> = Vec::new();
                let mut i: usize = 0;
                while i < self.tabs.len()
                    invariant
                        i <= self.tabs@.len(),
                        self.tab_indices@.len() >= self.tabs@.len(),
                        chosen@ == chosen_tabs(self.tabs@.take(i as int), self.tab_indices@),
                    decreases self.tabs@.len() - i,
                {
                    assert(self.tabs@.take(i + 1).drop_last() =~= self.tabs@.take(i as int));
                    if self.tabs[i].1 {
                        chosen.push(self.tab_indices[i]);
                    }
                    i += 1;
                }
                assert(self.tabs@.take(self.tabs@.len() as int) =~= self.tabs@);
                if chosen.len() < 2 {
                    return (PickerNext::Stay, KeyResult::Handled, MergeOutcome::TooFew);
                }
                (PickerNext::Normal, KeyResult::OpenMergedView { source_tab_indices: chosen }, MergeOutcome::Nothing)
            },
            Some(ListBinding::Cancel) => (PickerNext::Normal, KeyResult::Handled, MergeOutcome::Nothing),
            _ => {
                match bound {
                    Some(ListBinding::Down) => {
                        self.selected = down_index(self.selected, self.tabs.len());
                    },
                    Some(ListBinding::Up) => {
                        self.selected = self.selected.saturating_sub(1);
                    },
                    Some(ListBinding::Toggle) => {
                        flip(&mut self.tabs, self.selected);
                    },
                    Some(ListBinding::All) => {
                        set_all(&mut self.tabs, true);
                    },
                    Some(ListBinding::Clear) => {
                        set_all(&mut self.tabs, false);
                    },
                    _ => {},
                }
                (PickerNext::Stay, KeyResult::Ignored, MergeOutcome::Nothing)
            },
        }
    }
}

/// The names of the fields, in list order.
pub open spec fn field_names(fields: Seq<(String, bool)>) -> Seq<Seq<char>> {
    fields.map_values(|f: (String, bool)| f.0@)
}

/// The names of the fields whose toggle is `on`, in list order.
pub open spec fn names_with(fields: Seq<(String, bool)>, on: bool) -> Seq<Seq<char>> {
    field_names(fields.filter(|f: (String, bool)| f.1 == on))
}

/// The strings, as text.
pub open spec fn texts(v: Seq<String>) -> Seq<Seq<char>> {
    v.map_values(|s: String| s@)
}

/// Choosing and ordering the fields of structured log lines. `L` and `H`
/// are the field layout and the set of hidden fields in force on entry,
/// handed back untouched on cancel.
#[derive(Debug)]
pub struct SelectFieldsMode<L, H> {
    /// Field name and whether it is shown.
    pub fields: Vec<(String, bool)>,
    /// Cursor position in the fields list.
    pub selected: usize,
    /// The field layout in force on entry.
    pub original_layout: L,
    /// The hidden fields in force on entry.
    pub original_hidden_fields: H,
}

/// Where the field picker goes after a key.
#[derive(Debug)]
pub enum FieldsStep<L, H> {
    Stay(SelectFieldsMode<L, H>),
    /// Back to normal mode: show the fields in the order of `columns`,
    /// unhide each of `shown` and hide each of `hidden`.
    Apply { columns: Vec<String>, shown: Vec<String>, hidden: Vec<String> },
    /// Back to normal mode, putting back the layout and hidden fields that
    /// were in force on entry.
    Restore { layout: L, hidden_fields: H },
}

impl<L, H> SelectFieldsMode<L, H> {
    /// The picker, with the cursor on the first field.
    pub fn new(fields: Vec<(String, bool)>, original_layout: L, original_hidden_fields: H) -> (r: Self)
        ensures
            r.fields == fields,
            r.selected == 0,
            r.wf(),
            r.original() == (original_layout, original_hidden_fields),
    {
        SelectFieldsMode { fields, selected: 0, original_layout, original_hidden_fields }
    }

    /// The cursor is on a field, or at the top of an empty list.
    pub open spec fn wf(&self) -> bool {
        self.selected == 0 || self.selected < self.fields@.len()
    }

    /// The layout and hidden fields in force on entry.
    pub open spec fn original(&self) -> (L, H) {
        (self.original_layout, self.original_hidden_fields)
    }

    /// All names in order, those shown, those hidden.
    fn apply_lists(&self) -> (r: (Vec<String>, Vec<String>, Vec<String>))
        ensures
            texts(r.0@) == field_names(self.fields@),
            texts(r.1@) == names_with(self.fields@, true),
            texts(r.2@) == names_with(self.fields@, false),
    {
        let mut columns: Vec<String> = Vec::new();
        let mut shown: Vec<String> = Vec::new();
        let mut hidden: Vec<String> = Vec::new();
        let mut i: usize = 0;
        while i < self.fields.len()
            invariant
                i <= self.fields@.len(),
                texts(columns@) == field_names(self.fields@.take(i as int)),
                texts(shown@) == names_with(self.fields@.take(i as int), true),
                texts(hidden@) == names_with(self.fields@.take(i as int), false),
            decreases self.fields@.len() - i,
        {
            let ghost pre = self.fields@.take(i as int);
            let ghost cur = self.fields@.take(i + 1);
            let ghost f = self.fields@[i as int];
            proof {
                reveal(Seq::filter);
                assert(cur.drop_last() =~= pre);
                assert(cur.last() == f);
            }
            let ghost (c0, s0, h0) = (texts(columns@), texts(shown@), texts(hidden@));
            let name = self.fields[i].0.clone();
            let name2 = self.fields[i].0.clone();
            columns.push(name);
            assert(texts(columns@) =~= c0.push(f.0@));
            assert(field_names(cur) =~= field_names(pre).push(f.0@));
            if self.fields[i].1 {
                shown.push(name2);
                assert(texts(shown@) =~= s0.push(f.0@));
                assert(cur.filter(|g: (String, bool)| g.1 == true) == pre.filter(|g: (String, bool)| g.1 == true).push(f));
                assert(names_with(cur, true) =~= names_with(pre, true).push(f.0@));
                assert(cur.filter(|g: (String, bool)| g.1 == false) == pre.filter(|g: (String, bool)| g.1 == false));
            } else {
                hidden.push(name2);
                assert(texts(hidden@) =~= h0.push(f.0@));
                assert(cur.filter(|g: (String, bool)| g.1 == false) == pre.filter(|g: (String, bool)| g.1 == false).push(f));
                assert(names_with(cur, false) =~= names_with(pre, false).push(f.0@));
                assert(cur.filter(|g: (String, bool)| g.1 == true) == pre.filter(|g: (String, bool)| g.1 == true));
            }
            i += 1;
        }
        assert(self.fields@.take(self.fields@.len() as int) =~= self.fields@);
        (columns, shown, hidden)
    }

    /// Handles one key (`bound` is the first configured key the press
    /// matches). Apply leaves with the chosen order and visibility; Cancel
    /// leaves, restoring what was in force on entry; Down/Up move the
    /// cursor; Toggle flips the current field; MoveDown/MoveUp swap it with
    /// its neighbour, the cursor following; All/None set every field.
    /// Keys other than apply and cancel fall through to the global keys.
    pub fn handle_key(self, bound: Option<ListBinding>) -> (r: (FieldsStep<L, H>, KeyResult))
        requires
            self.wf(),
        ensures
            match bound {
                Some(ListBinding::Apply) => r.1 is Handled && (r.0 matches FieldsStep::Apply { columns, shown, hidden }
                    && texts(columns@) == field_names(self.fields@) && texts(shown@) == names_with(self.fields@, true)
                    && texts(hidden@) == names_with(self.fields@, false)),
                Some(ListBinding::Cancel) => r.1 is Handled && (r.0 matches FieldsStep::Restore {
                    layout,
                    hidden_fields,
                } && (layout, hidden_fields) == self.original()),
                _ => r.1 is Ignored && (r.0 matches FieldsStep::Stay(f) && f.original() == self.original() && f.wf() && {
                    let n = self.fields@.len();
                    let s = self.selected;
                    match bound {
                        Some(ListBinding::Down) => f.fields@ == self.fields@ && f.selected == step_down(s, n as int),
                        Some(ListBinding::Up) => f.fields@ == self.fields@ && f.selected == step_up(s),
                        Some(ListBinding::Toggle) => f.selected == s && if s < n {
                            f.fields@ == self.fields@.update(
                                s as int,
                                (self.fields@[s as int].0, !self.fields@[s as int].1),
                            )
                        } else {
                            f.fields@ == self.fields@
                        },
                        Some(ListBinding::MoveDown) => if s + 1 < n {
                            f.selected == s + 1 && f.fields@ == self.fields@.update(s as int, self.fields@[s + 1]).update(
                                s + 1,
                                self.fields@[s as int],
                            )
                        } else {
                            f.selected == s && f.fields@ == self.fields@
                        },
                        Some(ListBinding::MoveUp) => if s > 0 {
                            f.selected == s - 1 && f.fields@ == self.fields@.update(s as int, self.fields@[s - 1]).update(
                                s - 1,
                                self.fields@[s as int],
                            )
                        } else {
                            f.selected == s && f.fields@ == self.fields@
                        },
                        Some(ListBinding::All) => f.selected == s && f.fields@.len() == n && forall|i: int|
                            0 <= i < n ==> #[trigger] f.fields@[i] == (self.fields@[i].0, true),
                        Some(ListBinding::Clear) => f.selected == s && f.fields@.len() == n && forall|i: int|
                            0 <= i < n ==> #[trigger] f.fields@[i] == (self.fields@[i].0, false),
                        _ => f.fields@ == self.fields@ && f.selected == s,
                    }
                }),
            },
    {
        match bound {
            Some(ListBinding::Apply) => {
                let (columns, shown, hidden) = self.apply_lists();
                (FieldsStep::Apply { columns, shown, hidden }, KeyResult::Handled)
            },
            Some(ListBinding::Cancel) => {
                let SelectFieldsMode { fields: _, selected: _, original_layout, original_hidden_fields } = self;
                (FieldsStep::Restore { layout: original_layout, hidden_fields: original_hidden_fields }, KeyResult::Handled)
            },
            _ => {
                let mut m = self;
                let n = m.fields.len();
                match bound {
                    Some(ListBinding::Down) => {
                        m.selected = down_index(m.selected, n);
                    },
                    Some(ListBinding::Up) => {
                        m.selected = m.selected.saturating_sub(1);
                    },
                    Some(ListBinding::Toggle) => {
                        flip(&mut m.fields, m.selected);
                    },
                    Some(ListBinding::MoveDown) => {
                        if m.selected < n && m.selected + 1 < n {
                            let s = m.selected;
                            let next = m.fields.remove(s + 1);
                            m.fields.insert(s, next);
                            m.selected = s + 1;
                        }
                    },
                    Some(ListBinding::MoveUp) => {
                        if m.selected > 0 {
                            let s = m.selected;
                            let cur = m.fields.remove(s);
                            m.fields.insert(s - 1, cur);
                            m.selected = s - 1;
                        }
                    },
                    Some(ListBinding::All) => {
                        set_all(&mut m.fields, true);
                    },
                    Some(ListBinding::Clear) => {
                        set_all(&mut m.fields, false);
                    },
                    _ => {},
                }
                (FieldsStep::Stay(m), KeyResult::Ignored)
            },
        }
    }
}


/// Applying the field list shows or hides every field: the shown and the
/// hidden names together are as many as the fields.
pub proof fn lemma_fields_partition(fields: Seq<(String, bool)>)
    ensures
        names_with(fields, true).len() + names_with(fields, false).len() == fields.len(),
    decreases fields.len(),
{
    reveal(Seq::filter);
    if fields.len() > 0 {
        lemma_fields_partition(fields.drop_last());
    }
}

} // verus!
