//! Choosing which value categories (HTTP methods, status codes, IPs, ...)
//! are coloured: groups of toggles, a typeahead, and tri-state groups.

use vstd::prelude::*;
use crate::fuzzy::{fuzzy, fuzzy_match};
use crate::key::{Key, KeyInput, KeyResult};
use crate::text::{pop_char, push_char};

verus! {

/// The terminal colour of a category, carried through untouched.
#[verifier::external_type_specification]
#[verifier::external_body]
pub struct ExColor(ratatui::style::Color);

/// A single toggleable colour category.
#[derive(Debug)]
pub struct ValueColorEntry {
    /// Internal key (e.g. "http_get", "status_2xx").
    pub key: String,
    /// Human-readable name.
    pub label: String,
    /// The colour of the category.
    pub color: ratatui::style::Color,
    /// Whether the category is coloured.
    pub enabled: bool,
}

/// A group header and the categories under it.
#[derive(Debug)]
pub struct ValueColorGroup {
    pub label: String,
    pub children: Vec<ValueColorEntry>,
}

/// A row of the list: a group header, or a category of a group.
#[derive(Debug, Clone, Copy, PartialEq, Eq, Structural)]
pub enum ValueColorRow {
    Group(usize),
    Entry(usize, usize),
}

/// Whether the query matches a category: "group label" fuzzily.
pub open spec fn entry_matches(q: Seq<char>, group_label: Seq<char>, label: Seq<char>) -> bool {
    fuzzy(q, group_label + seq![' '] + label)
}

/// The positions, below `n`, of the categories of `g` the query matches.
pub open spec fn matching_entries(q: Seq<char>, g: ValueColorGroup, n: int) -> Seq<usize>
    decreases n,
{
    if n <= 0 {
        Seq::empty()
    } else {
        let r = matching_entries(q, g, n - 1);
        if entry_matches(q, g.label@, g.children@[n - 1].label@) {
            r.push((n - 1) as usize)
        } else {
            r
        }
    }
}

/// The rows of group `gi`: its header and every category for an empty
/// query; else the header and the matching categories, or nothing when
/// none matches.
pub open spec fn group_rows(q: Seq<char>, groups: Seq<ValueColorGroup>, gi: int) -> Seq<ValueColorRow> {
    let g = groups[gi];
    if q.len() == 0 {
        seq![ValueColorRow::Group(gi as usize)] + Seq::new(
            g.children@.len(),
            |ei: int| ValueColorRow::Entry(gi as usize, ei as usize),
        )
    } else {
        let m = matching_entries(q, g, g.children@.len() as int);
        if m.len() == 0 {
            Seq::empty()
        } else {
            seq![ValueColorRow::Group(gi as usize)] + m.map_values(|ei: usize| ValueColorRow::Entry(gi as usize, ei))
        }
    }
}

/// The rows of the first `n` groups.
pub open spec fn rows_through(q: Seq<char>, groups: Seq<ValueColorGroup>, n: int) -> Seq<ValueColorRow>
    decreases n,
{
    if n <= 0 {
        Seq::empty()
    } else {
        rows_through(q, groups, n - 1) + group_rows(q, groups, n - 1)
    }
}

/// `o` with every category's toggle set to `en(group, category)`, all
/// else unchanged.
pub open spec fn toggled(o: Seq<ValueColorGroup>, f: Seq<ValueColorGroup>, en: spec_fn(int, int) -> bool) -> bool {
    &&& f.len() == o.len()
    &&& forall|gi: int|
        0 <= gi < o.len() ==> #[trigger] f[gi].label == o[gi].label && f[gi].children@.len() == o[gi].children@.len()
    &&& forall|gi: int, ei: int|
        0 <= gi < o.len() && 0 <= ei < o[gi].children@.len() ==> #[trigger] f[gi].children@[ei] == (ValueColorEntry {
            enabled: en(gi, ei),
            ..o[gi].children@[ei]
        })
}

/// Whether every category of the group is on (`Some(true)`), every one
/// off (`Some(false)`), or they differ (`None`).
pub open spec fn tri_state(g: ValueColorGroup) -> Option<bool> {
    if forall|ei: int| 0 <= ei < g.children@.len() ==> #[trigger] g.children@[ei].enabled {
        Some(true)
    } else if forall|ei: int| 0 <= ei < g.children@.len() ==> !#[trigger] g.children@[ei].enabled {
        Some(false)
    } else {
        None
    }
}

/// The keys of the categories turned off, group by group.
pub open spec fn disabled_keys(groups: Seq<ValueColorGroup>, n: int) -> Seq<Seq<char>>
    decreases n,
{
    if n <= 0 {
        Seq::empty()
    } else {
        disabled_keys(groups, n - 1) + disabled_in(groups[n - 1].children@, groups[n - 1].children@.len() as int)
    }
}

/// The keys of the first `n` entries that are off.
pub open spec fn disabled_in(children: Seq<ValueColorEntry>, n: int) -> Seq<Seq<char>>
    decreases n,
{
    if n <= 0 {
        Seq::empty()
    } else {
        let r = disabled_in(children, n - 1);
        if !children[n - 1].enabled {
            r.push(children[n - 1].key@)
        } else {
            r
        }
    }
}

fn set_group(groups: &mut Vec<ValueColorGroup>, gi: usize, on: bool)
    requires
        gi < old(groups)@.len(),
    ensures
        toggled(
            old(groups)@,
            final(groups)@,
            |g: int, e: int| if g == gi { on } else { old(groups)@[g].children@[e].enabled },
        ),
{
    let ghost start = groups@;
    let mut g = groups.remove(gi);
    let ghost g0 = g;
    let mut i: usize = 0;
    while i < g.children.len()
        invariant
            i <= g.children@.len(),
            g.label == g0.label,
            g.children@.len() == g0.children@.len(),
            forall|e: int| 0 <= e < i ==> #[trigger] g.children@[e] == (ValueColorEntry { enabled: on, ..g0.children@[e] }),
            forall|e: int| i <= e < g0.children@.len() ==> #[trigger] g.children@[e] == g0.children@[e],
        decreases g.children@.len() - i,
    {
        let mut e = g.children.remove(i);
        e.enabled = on;
        g.children.insert(i, e);
        i += 1;
    }
    groups.insert(gi, g);
    assert forall|x: int| 0 <= x < start.len() implies #[trigger] groups@[x].label == start[x].label
        && groups@[x].children@.len() == start[x].children@.len() by {
        if x != gi {
            assert(groups@[x] == start[x]);
        }
    }
    assert forall|x: int, e: int| 0 <= x < start.len() && 0 <= e < start[x].children@.len() implies #[trigger] groups@[x].children@[e]
        == (ValueColorEntry {
        enabled: if x == gi { on } else { start[x].children@[e].enabled },
        ..start[x].children@[e]
    }) by {
        if x != gi {
            assert(groups@[x] == start[x]);
        }
    }
}

fn flip_entry(groups: &mut Vec<ValueColorGroup>, gi: usize, ei: usize)
    requires
        gi < old(groups)@.len(),
        ei < old(groups)@[gi as int].children@.len(),
    ensures
        toggled(
            old(groups)@,
            final(groups)@,
            |g: int, e: int| if g == gi && e == ei {
                !old(groups)@[g].children@[e].enabled
            } else {
                old(groups)@[g].children@[e].enabled
            },
        ),
{
    let ghost start = groups@;
    let mut g = groups.remove(gi);
    let ghost g0 = g;
    let mut e = g.children.remove(ei);
    e.enabled = !e.enabled;
    g.children.insert(ei, e);
    groups.insert(gi, g);
    assert forall|x: int| 0 <= x < start.len() implies #[trigger] groups@[x].label == start[x].label
        && groups@[x].children@.len() == start[x].children@.len() by {
        if x != gi {
            assert(groups@[x] == start[x]);
        }
    }
    assert forall|x: int, y: int| 0 <= x < start.len() && 0 <= y < start[x].children@.len() implies #[trigger] groups@[x].children@[y]
        == (ValueColorEntry {
        enabled: if x == gi && y == ei { !start[x].children@[y].enabled } else { start[x].children@[y].enabled },
        ..start[x].children@[y]
    }) by {
        if x != gi {
            assert(groups@[x] == start[x]);
        }
    }
}

fn set_all(groups: &mut Vec<ValueColorGroup>, on: bool)
    ensures
        toggled(old(groups)@, final(groups)@, |g: int, e: int| on),
{
    let ghost start = groups@;
    let mut i: usize = 0;
    while i < groups.len()
        invariant
            i <= groups@.len(),
            toggled(start, groups@, |g: int, e: int| if g < i { on } else { start[g].children@[e].enabled }),
        decreases groups@.len() - i,
    {
        let ghost before = groups@;
        set_group(groups, i, on);
        assert(toggled(start, groups@, |g: int, e: int| if g < i + 1 { on } else { start[g].children@[e].enabled })) by {
            assert forall|x: int| 0 <= x < start.len() implies #[trigger] groups@[x].label == start[x].label
                && groups@[x].children@.len() == start[x].children@.len() by {
                assert(groups@[x].label == before[x].label);
                assert(before[x].label == start[x].label);
            }
            assert forall|x: int, y: int| 0 <= x < start.len() && 0 <= y < start[x].children@.len() implies #[trigger] groups@[x].children@[y]
                == (ValueColorEntry {
                enabled: if x < i + 1 { on } else { start[x].children@[y].enabled },
                ..start[x].children@[y]
            }) by {
                assert(before.len() == start.len());
                assert(before[x].label == start[x].label);
                assert(before[x].children@.len() == start[x].children@.len());
                let en = |g: int, e: int| if g == i { on } else { before[g].children@[e].enabled };
                assert(toggled(before, groups@, en));
                assert(groups@[x].children@[y] == (ValueColorEntry { enabled: en(x, y), ..before[x].children@[y] }));
                assert(before[x].children@[y] == (ValueColorEntry {
                    enabled: if x < i { on } else { start[x].children@[y].enabled },
                    ..start[x].children@[y]
                }));
                assert(groups@[x].children@[y] == (ValueColorEntry {
                    enabled: if x == i { on } else { before[x].children@[y].enabled },
                    ..before[x].children@[y]
                }));
            }
        }
        i += 1;
    }
}

/// Where the value-colour list goes after a key.
#[derive(Debug)]
pub enum ValueColorsStep<H> {
    Stay(ValueColorsMode<H>),
    /// Back to normal mode with the categories of these keys off.
    Apply(Vec<String>),
    /// Back to normal mode with the categories that were off on entry.
    Restore(H),
}

/// The value-colour list. `H` is the set of keys that were off on entry,
/// handed back on cancel.
#[derive(Debug)]
pub struct ValueColorsMode<H> {
    pub groups: Vec<ValueColorGroup>,
    pub search: String,
    /// Index into the visible (narrowed) rows.
    pub selected: usize,
    /// The keys that were off on entry.
    pub original_disabled: H,
}

impl<H> ValueColorsMode<H> {
    /// The list over `groups`, no query, the first row selected.
    pub fn new(groups: Vec<ValueColorGroup>, original_disabled: H) -> (r: Self)
        ensures
            r.groups == groups,
            r.search@.len() == 0,
            r.selected == 0,
            r.original_disabled == original_disabled,
    {
        ValueColorsMode { groups, search: String::new(), selected: 0, original_disabled }
    }

    /// The visible rows for the current query.
    pub open spec fn rows(&self) -> Seq<ValueColorRow> {
        rows_through(self.search@, self.groups@, self.groups@.len() as int)
    }

    /// The rows shown: every group and category for an empty query;
    /// else the groups with a matching category, each with its matching
    /// categories.
    pub fn visible_rows(&self) -> (r: Vec<ValueColorRow>)
        ensures
            r@ == self.rows(),
    {
        let q = self.search.as_str();
        let empty = q.is_empty();
        let mut rows: Vec<ValueColorRow> = Vec::new();
        let mut gi: usize = 0;
        while gi < self.groups.len()
            invariant
                gi <= self.groups@.len(),
                q@ == self.search@,
                empty == (q@.len() == 0),
                rows@ == rows_through(self.search@, self.groups@, gi as int),
            decreases self.groups@.len() - gi,
        {
            let group = &self.groups[gi];
            let n = group.children.len();
            if empty {
                let ghost before = rows@;
                rows.push(ValueColorRow::Group(gi));
                let mut ei: usize = 0;
                while ei < n
                    invariant
                        ei <= n,
                        n == group.children@.len(),
                        rows@ == before + seq![ValueColorRow::Group(gi)] + Seq::new(
                            ei as nat,
                            |e: int| ValueColorRow::Entry(gi, e as usize),
                        ),
                    decreases n - ei,
                {
                    rows.push(ValueColorRow::Entry(gi, ei));
                    ei += 1;
                    assert(rows@ =~= before + seq![ValueColorRow::Group(gi)] + Seq::new(
                        ei as nat,
                        |e: int| ValueColorRow::Entry(gi, e as usize),
                    ));
                }
                assert(rows@ =~= before + group_rows(self.search@, self.groups@, gi as int));
            } else {
                let mut matching: Vec<usize> = Vec::new();
                let mut ei: usize = 0;
                while ei < n
                    invariant
                        ei <= n,
                        n == group.children@.len(),
                        q@ == self.search@,
                        *group == self.groups@[gi as int],
                        matching@ == matching_entries(self.search@, *group, ei as int),
                    decreases n - ei,
                {
                    let mut hay = group.label.clone();
                    hay.append(" ");
                    hay.append(group.children[ei].label.as_str());
                    proof {
                        reveal_strlit(" ");
                        assert(hay@ =~= group.label@ + seq![' '] + group.children@[ei as int].label@);
                    }
                    if fuzzy_match(q, hay.as_str()) {
                        matching.push(ei);
                    }
                    ei += 1;
                }
                if matching.len() > 0 {
                    let ghost before = rows@;
                    rows.push(ValueColorRow::Group(gi));
                    let mut j: usize = 0;
                    while j < matching.len()
                        invariant
                            j <= matching@.len(),
                            rows@ == before + seq![ValueColorRow::Group(gi)] + matching@.take(j as int).map_values(
                                |e: usize| ValueColorRow::Entry(gi, e),
                            ),
                        decreases matching@.len() - j,
                    {
                        rows.push(ValueColorRow::Entry(gi, matching[j]));
                        assert(matching@.take(j + 1) =~= matching@.take(j as int).push(matching@[j as int]));
                        j += 1;
                        assert(rows@ =~= before + seq![ValueColorRow::Group(gi)] + matching@.take(j as int).map_values(
                            |e: usize| ValueColorRow::Entry(gi, e),
                        ));
                    }
                    assert(matching@.take(matching@.len() as int) =~= matching@);
                    assert(rows@ =~= before + group_rows(self.search@, self.groups@, gi as int));
                } else {
                    assert(group_rows(self.search@, self.groups@, gi as int) =~= Seq::<ValueColorRow>::empty());
                    assert(rows@ =~= rows@ + group_rows(self.search@, self.groups@, gi as int));
                }
            }
            gi += 1;
        }
        rows
    }

    proof fn lemma_bounds(groups: &Vec<ValueColorGroup>)
        ensures
            groups@.len() <= usize::MAX,
            forall|g: int| 0 <= g < groups@.len() ==> #[trigger] groups@[g].children@.len() <= usize::MAX,
    {
        vstd::std_specs::vec::axiom_spec_len(groups);
        assert forall|g: int| 0 <= g < groups@.len() implies #[trigger] groups@[g].children@.len() <= usize::MAX by {
            vstd::std_specs::vec::axiom_spec_len(&groups@[g].children);
        }
    }

    /// Tri-state of group `gi`: all categories on, all off, or mixed.
    pub fn group_enabled(&self, gi: usize) -> (r: Option<bool>)
        requires
            gi < self.groups@.len(),
        ensures
            r == tri_state(self.groups@[gi as int]),
    {
        let g = &self.groups[gi];
        let mut all = true;
        let mut none = true;
        let mut i: usize = 0;
        while i < g.children.len()
            invariant
                i <= g.children@.len(),
                all == forall|e: int| 0 <= e < i ==> #[trigger] g.children@[e].enabled,
                none == forall|e: int| 0 <= e < i ==> !#[trigger] g.children@[e].enabled,
            decreases g.children@.len() - i,
        {
            if g.children[i].enabled {
                none = false;
            } else {
                all = false;
            }
            i += 1;
        }
        if all {
            Some(true)
        } else if none {
            Some(false)
        } else {
            None
        }
    }

    /// Keeps the selection within the visible rows.
    pub fn clamp_selected(&mut self)
        ensures
            final(self).groups == old(self).groups,
            final(self).search == old(self).search,
            final(self).original_disabled == old(self).original_disabled,
            final(self).selected == if old(self).rows().len() == 0 {
                0
            } else if old(self).selected >= old(self).rows().len() {
                (old(self).rows().len() - 1) as usize
            } else {
                old(self).selected
            },
    {
        let count = self.visible_rows().len();
        if count == 0 {
            self.selected = 0;
        } else if self.selected >= count {
            self.selected = count - 1;
        }
    }

    fn disabled(&self) -> (r: Vec<String>)
        ensures
            r@.map_values(|s: String| s@) == disabled_keys(self.groups@, self.groups@.len() as int),
    {
        let mut out: Vec<String> = Vec::new();
        let mut gi: usize = 0;
        while gi < self.groups.len()
            invariant
                gi <= self.groups@.len(),
                out@.map_values(|s: String| s@) == disabled_keys(self.groups@, gi as int),
            decreases self.groups@.len() - gi,
        {
            let g = &self.groups[gi];
            let ghost before = out@.map_values(|s: String| s@);
            let mut ei: usize = 0;
            while ei < g.children.len()
                invariant
                    ei <= g.children@.len(),
                    out@.map_values(|s: String| s@) == before + disabled_in(g.children@, ei as int),
                decreases g.children@.len() - ei,
            {
                let ghost mid = out@.map_values(|s: String| s@);
                if !g.children[ei].enabled {
                    out.push(g.children[ei].key.clone());
                    assert(out@.map_values(|s: String| s@) =~= mid.push(g.children@[ei as int].key@));
                }
                ei += 1;
            }
            gi += 1;
        }
        out
    }

    /// Handles one key. Esc clears the query, or else leaves restoring
    /// what was off on entry; Enter leaves applying the toggles; `j`/Down
    /// and `k`/Up move; Space flips the selected category, or turns a
    /// group all on (all off when it was all on); with no query `a` and
    /// `n` turn everything on or off; other characters without Ctrl and
    /// Backspace edit the query, selecting the first row. The result is
    /// always `Handled`.
    #[verifier::rlimit(40)]
    pub fn handle_key(self, k: KeyInput) -> (r: (ValueColorsStep<H>, KeyResult))
        ensures
            r.1 is Handled,
            ({
                let o = self;
                let rows = o.rows();
                match k.key {
                    Key::Esc => if o.search@.len() > 0 {
                        r.0 matches ValueColorsStep::Stay(f) && f.groups == o.groups && f.search@.len() == 0
                            && f.selected == 0 && f.original_disabled == o.original_disabled
                    } else {
                        r.0 matches ValueColorsStep::Restore(h) && h == o.original_disabled
                    },
                    Key::Enter => r.0 matches ValueColorsStep::Apply(keys) && keys@.map_values(|s: String| s@)
                        == disabled_keys(o.groups@, o.groups@.len() as int),
                    _ => r.0 matches ValueColorsStep::Stay(f) && f.original_disabled == o.original_disabled
                        && match k.key {
                        Key::Char('j') | Key::Down => f.groups == o.groups && f.search == o.search && f.selected == (
                        if rows.len() > 0 {
                            if o.selected + 1 < rows.len() - 1 {
                                o.selected + 1
                            } else {
                                rows.len() - 1
                            }
                        } else {
                            o.selected as int
                        }),
                        Key::Char('k') | Key::Up => f.groups == o.groups && f.search == o.search && f.selected == (
                        if o.selected > 0 {
                            o.selected - 1
                        } else {
                            0
                        }),
                        Key::Char(' ') => f.search == o.search && f.selected == o.selected && if o.selected
                            < rows.len() {
                            match rows[o.selected as int] {
                                ValueColorRow::Group(gi) => {
                                    let target = !(tri_state(o.groups@[gi as int]) == Some(true));
                                    toggled(
                                        o.groups@,
                                        f.groups@,
                                        |g: int, e: int| if g == gi { target } else { o.groups@[g].children@[e].enabled },
                                    )
                                },
                                ValueColorRow::Entry(gi, ei) => toggled(
                                    o.groups@,
                                    f.groups@,
                                    |g: int, e: int| if g == gi && e == ei {
                                        !o.groups@[g].children@[e].enabled
                                    } else {
                                        o.groups@[g].children@[e].enabled
                                    },
                                ),
                            }
                        } else {
                            f.groups == o.groups
                        },
                        Key::Char('a') if o.search@.len() == 0 => f.search == o.search && f.selected == o.selected
                            && toggled(o.groups@, f.groups@, |g: int, e: int| true),
                        Key::Char('n') if o.search@.len() == 0 => f.search == o.search && f.selected == o.selected
                            && toggled(o.groups@, f.groups@, |g: int, e: int| false),
                        Key::Char(c) => f.groups == o.groups && if !k.ctrl {
                            f.search@ == o.search@.push(c) && f.selected == 0
                        } else {
                            f.search == o.search && f.selected == o.selected
                        },
                        Key::Backspace => f.groups == o.groups && f.selected == 0 && f.search@ == (if o.search@.len()
                            > 0 {
                            o.search@.drop_last()
                        } else {
                            o.search@
                        }),
                        _ => f.groups == o.groups && f.search == o.search && f.selected == o.selected,
                    },
                }
            }),
    {
        let mut m = self;
        match k.key {
            Key::Esc => {
                if !m.search.as_str().is_empty() {
                    m.search = String::new();
                    m.selected = 0;
                    return (ValueColorsStep::Stay(m), KeyResult::Handled);
                }
                return (ValueColorsStep::Restore(m.original_disabled), KeyResult::Handled);
            },
            Key::Enter => {
                let keys = m.disabled();
                return (ValueColorsStep::Apply(keys), KeyResult::Handled);
            },
            Key::Char('j') | Key::Down => {
                let count = m.visible_rows().len();
                if count > 0 {
                    m.selected = if m.selected < count - 1 && m.selected + 1 < count - 1 {
                        m.selected + 1
                    } else {
                        count - 1
                    };
                }
            },
            Key::Char('k') | Key::Up => {
                m.selected = m.selected.saturating_sub(1);
            },
            Key::Char(' ') => {
                let rows = m.visible_rows();
                if m.selected < rows.len() {
                    match rows[m.selected] {
                        ValueColorRow::Group(gi) => {
                            proof {
                                Self::lemma_bounds(&m.groups);
                                lemma_rows_in_range(m.search@, m.groups@, m.groups@.len() as int, m.selected as int);
                            }
                            let target = match m.group_enabled(gi) {
                                Some(true) => false,
                                _ => true,
                            };
                            set_group(&mut m.groups, gi, target);
                        },
                        ValueColorRow::Entry(gi, ei) => {
                            proof {
                                Self::lemma_bounds(&m.groups);
                                lemma_rows_in_range(m.search@, m.groups@, m.groups@.len() as int, m.selected as int);
                            }
                            flip_entry(&mut m.groups, gi, ei);
                        },
                    }
                }
            },
            Key::Char('a') if m.search.as_str().is_empty() => {
                set_all(&mut m.groups, true);
            },
            Key::Char('n') if m.search.as_str().is_empty() => {
                set_all(&mut m.groups, false);
            },
            Key::Char(c) => {
                if !k.ctrl {
                    push_char(&mut m.search, c);
                    m.selected = 0;
                }
            },
            Key::Backspace => {
                let _ = pop_char(&mut m.search);
                m.selected = 0;
            },
            _ => {},
        }
        (ValueColorsStep::Stay(m), KeyResult::Handled)
    }
}

/// Every row names a group that exists and, for a category, a category
/// of that group.
proof fn lemma_rows_in_range(q: Seq<char>, groups: Seq<ValueColorGroup>, n: int, i: int)
    requires
        0 <= n <= groups.len(),
        groups.len() <= usize::MAX,
        forall|g: int| 0 <= g < groups.len() ==> #[trigger] groups[g].children@.len() <= usize::MAX,
        0 <= i < rows_through(q, groups, n).len(),
    ensures
        match rows_through(q, groups, n)[i] {
            ValueColorRow::Group(gi) => gi < n,
            ValueColorRow::Entry(gi, ei) => gi < n && ei < groups[gi as int].children@.len(),
        },
    decreases n,
{
    let prev = rows_through(q, groups, n - 1);
    if i < prev.len() {
        lemma_rows_in_range(q, groups, n - 1, i);
    } else {
        let g = groups[n - 1];
        let len = g.children@.len();
        let k = i - prev.len();
        let gr = group_rows(q, groups, n - 1);
        assert(rows_through(q, groups, n)[i] == gr[k]);
        if q.len() == 0 {
            if k > 0 {
                assert(gr[k] == ValueColorRow::Entry((n - 1) as usize, (k - 1) as usize));
            }
        } else {
            let m = matching_entries(q, g, len as int);
            lemma_matching_in_range(q, g, len as int);
            if k > 0 {
                assert(gr[k] == ValueColorRow::Entry((n - 1) as usize, m[k - 1]));
                assert(m[k - 1] < len);
            }
        }
    }
}

proof fn lemma_matching_in_range(q: Seq<char>, g: ValueColorGroup, n: int)
    requires
        n <= usize::MAX,
    ensures
        forall|j: int| 0 <= j < matching_entries(q, g, n).len() ==> #[trigger] matching_entries(q, g, n)[j] < n,
    decreases n,
{
    if n > 0 {
        lemma_matching_in_range(q, g, n - 1);
        let r = matching_entries(q, g, n - 1);
        let m = matching_entries(q, g, n);
        assert forall|j: int| 0 <= j < m.len() implies #[trigger] m[j] < n by {
            if j < r.len() {
                assert(m[j] == r[j]);
            }
        }
    }
}


/// Setting every category of a non-empty group to `t` leaves the group
/// all on (`t`) or all off.
pub proof fn lemma_group_set_uniform(o: Seq<ValueColorGroup>, f: Seq<ValueColorGroup>, gi: int, t: bool)
    requires
        0 <= gi < o.len(),
        o[gi].children@.len() > 0,
        toggled(o, f, |g: int, e: int| if g == gi { t } else { o[g].children@[e].enabled }),
    ensures
        tri_state(f[gi]) == Some(t),
{
    assert(f[gi].label == o[gi].label);
    let en = |g: int, e: int| if g == gi { t } else { o[g].children@[e].enabled };
    assert forall|e: int| 0 <= e < f[gi].children@.len() implies #[trigger] f[gi].children@[e].enabled == t by {
        assert(f[gi].children@[e] == (ValueColorEntry { enabled: en(gi, e), ..o[gi].children@[e] }));
    }
    if !t {
        assert(!f[gi].children@[0].enabled);
    }
}

} // verus!
