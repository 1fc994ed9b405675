//! The keybindings help popup: the table of actions and their keys, the
//! typeahead that narrows it, and the popup's own keys.

use vstd::prelude::*;
use crate::fuzzy::{fuzzy, fuzzy_match};
use crate::key::{Key, KeyInput, KeyResult};
use crate::nav::{sat_add, sat_sub};
use crate::text::{pop_char, push_char};

verus! {

/// A row of the help table, as text.
pub enum RowView {
    Header(Seq<char>),
    /// An action and the keys bound to it.
    Entry(Seq<char>, Seq<char>),
}

/// A single row in the keybindings popup: a section header, or an action
/// with its keys.
#[derive(Debug)]
pub enum HelpRow {
    Header(String),
    Entry { action: String, keys: String },
}

impl View for HelpRow {
    type V = RowView;

    open spec fn view(&self) -> RowView {
        match self {
            HelpRow::Header(h) => RowView::Header(h@),
            HelpRow::Entry { action, keys } => RowView::Entry(action@, keys@),
        }
    }
}

/// The rows, as text.
pub open spec fn rows_view(rows: Seq<HelpRow>) -> Seq<RowView> {
    rows.map_values(|r: HelpRow| r@)
}

/// The key displays, as text.
pub open spec fn keys_view(keys: Seq<Vec<String>>) -> Seq<Seq<Seq<char>>> {
    keys.map_values(|v: Vec<String>| v@.map_values(|s: String| s@))
}

/// The sections of the help table: each title with the actions it lists.
pub open spec fn help_layout() -> Seq<(Seq<char>, Seq<Seq<char>>)> {
    seq![
        ("Navigation (all modes)"@, seq!["Scroll down"@, "Scroll up"@, "Half page down"@, "Half page up"@, "Page down"@, "Page up"@]),
        ("Normal Mode"@, seq!["Scroll left"@, "Scroll right"@, "Start of line"@, "End of line"@, "Go to top (gg)"@, "Go to bottom"@, "Mark line"@, "Marks only"@, "Yank current line"@, "Yank marked lines"@, "Visual line select"@, "Visual char select"@, "Search forward"@, "Search backward"@, "Next match"@, "Prev match"@, "Filter include"@, "Filter exclude"@, "Filter mode"@, "Toggle filtering"@, "UI mode"@, "Command mode"@, "Comment line"@, "Edit comment"@, "Delete comment"@, "Next error"@, "Prev error"@, "Next warning"@, "Prev warning"@, "Clear search"@, "Clear marks/comments"@, "Show keybindings"@]),
        ("Visual Line Mode"@, seq!["Comment selection"@, "Yank to clipboard"@, "Mark lines"@, "Search"@, "Exit visual mode"@]),
        ("Visual Char Mode"@, seq!["Move left"@, "Move right"@, "Word forward"@, "Word backward"@, "Word end"@, "Word forward (WORD)"@, "Word backward (WORD)"@, "Word end (WORD)"@, "Start of line"@, "First non-blank"@, "End of line"@, "Find forward"@, "Find backward"@, "Till forward"@, "Till backward"@, "Repeat motion"@, "Repeat motion reverse"@, "Filter include"@, "Filter exclude"@, "Search"@, "Start selection"@, "Yank to clipboard"@, "Exit visual mode"@]),
        ("Global"@, seq!["Quit"@, "Next tab"@, "Prev tab"@, "Close tab"@, "New tab"@]),
        ("UI Mode"@, seq!["Toggle sidebar"@, "Toggle mode bar"@, "Toggle borders"@, "Toggle wrap"@, "Exit UI mode"@]),
        ("Filter Mode"@, seq!["Add include filter"@, "Add exclude filter"@, "Add date filter"@, "Toggle filter"@, "Delete filter"@, "Edit filter"@, "Set color"@, "Move filter up"@, "Move filter down"@, "Toggle all"@, "Clear all"@, "Grow sidebar"@, "Shrink sidebar"@, "Exit filter mode"@]),
        ("Comment Mode"@, seq!["Save comment"@, "New line"@, "Delete comment"@, "Cancel"@]),
        ("Search Mode"@, seq!["Confirm search"@, "Cancel"@]),
        ("Filter Edit Mode"@, seq!["Save"@, "Cancel"@]),
        ("Command Mode"@, seq!["Execute"@, "Cancel"@]),
        ("Docker Select Mode"@, seq!["Attach"@, "Cancel"@]),
        ("Value Colors Mode"@, seq!["Toggle"@, "Enable all"@, "Disable all"@, "Apply"@, "Cancel"@]),
        ("Select Fields Mode"@, seq!["Toggle"@, "Move up"@, "Move down"@, "Enable all"@, "Disable all"@, "Apply"@, "Cancel"@]),
        ("Help Mode"@, seq!["Close"@]),
        ("Confirm Mode"@, seq!["Yes"@, "No"@]),
    ]
}

/// The display of the key for entry `e` of section `s`; empty where none
/// was given.
pub open spec fn key_text(keys: Seq<Seq<Seq<char>>>, s: int, e: int) -> Seq<char> {
    if 0 <= s < keys.len() && 0 <= e < keys[s].len() {
        keys[s][e]
    } else {
        Seq::empty()
    }
}

/// The keys shown for entry `e` of section `s`: the go-to-top chord
/// (`gg`) is shown pressed twice.
pub open spec fn entry_keys(keys: Seq<Seq<Seq<char>>>, s: int, e: int) -> Seq<char> {
    if s == 1 && e == 4 {
        key_text(keys, s, e) + key_text(keys, s, e)
    } else {
        key_text(keys, s, e)
    }
}

/// The rows of section `s`: its header, then one entry per action.
pub open spec fn section_rows(keys: Seq<Seq<Seq<char>>>, s: int) -> Seq<RowView> {
    let labels = help_layout()[s].1;
    seq![RowView::Header(help_layout()[s].0)] + Seq::new(
        labels.len(),
        |e: int| RowView::Entry(labels[e], entry_keys(keys, s, e)),
    )
}

/// The rows of the first `n` sections.
pub open spec fn rows_through(keys: Seq<Seq<Seq<char>>>, n: nat) -> Seq<RowView>
    decreases n,
{
    if n == 0 {
        Seq::empty()
    } else {
        rows_through(keys, (n - 1) as nat) + section_rows(keys, n - 1)
    }
}

/// The whole help table.
pub open spec fn help_rows(keys: Seq<Seq<Seq<char>>>) -> Seq<RowView> {
    rows_through(keys, help_layout().len())
}

fn key_string(keys: &Vec<Vec<String>>, s: usize, e: usize) -> (r: String)
    ensures
        r@ == key_text(keys_view(keys@), s as int, e as int),
{
    if s < keys.len() && e < keys[s].len() {
        keys[s][e].clone()
    } else {
        String::new()
    }
}

fn push_section(rows: &mut Vec<HelpRow>, title: &str, labels: &[&str], keys: &Vec<Vec<String>>, s: usize)
    requires
        s < help_layout().len(),
        title@ == help_layout()[s as int].0,
        labels@.map_values(|l: &str| l@) == help_layout()[s as int].1,
    ensures
        rows_view(final(rows)@) == rows_view(old(rows)@) + section_rows(keys_view(keys@), s as int),
{
    let ghost kv = keys_view(keys@);
    let ghost start = rows_view(rows@);
    let ghost lv = labels@.map_values(|l: &str| l@);
    rows.push(HelpRow::Header(String::from_str(title)));
    assert(rows_view(rows@) =~= start + seq![RowView::Header(title@)]);
    let mut e: usize = 0;
    while e < labels.len()
        invariant
            e <= labels@.len(),
            kv == keys_view(keys@),
            lv == labels@.map_values(|l: &str| l@),
            rows_view(rows@) == start + seq![RowView::Header(title@)] + Seq::new(
                e as nat,
                |j: int| RowView::Entry(lv[j], entry_keys(kv, s as int, j)),
            ),
        decreases labels@.len() - e,
    {
        let k = key_string(keys, s, e);
        let shown = if s == 1 && e == 4 {
            let mut d = k.clone();
            d.append(k.as_str());
            d
        } else {
            k
        };
        let ghost before = rows_view(rows@);
        rows.push(HelpRow::Entry { action: String::from_str(labels[e]), keys: shown });
        assert(rows_view(rows@) =~= before.push(RowView::Entry(lv[e as int], entry_keys(kv, s as int, e as int))));
        e += 1;
        assert(rows_view(rows@) =~= start + seq![RowView::Header(title@)] + Seq::new(
            e as nat,
            |j: int| RowView::Entry(lv[j], entry_keys(kv, s as int, j)),
        ));
    }
    assert(rows_view(rows@) =~= start + section_rows(kv, s as int));
}

/// Builds the full help table. `keys[s][e]` is the display of the key
/// bound to action `e` of section `s` of `help_layout` (for the go-to-top
/// action, the display of the chord's key); a missing one shows as empty.
#[verifier::rlimit(50)]
pub fn build_help_rows(keys: &Vec<Vec<String>>) -> (rows: Vec<HelpRow>)
    ensures
        rows_view(rows@) == help_rows(keys_view(keys@)),
{
    let ghost kv = keys_view(keys@);
    let mut rows: Vec<HelpRow> = Vec::new();
    assert(rows_view(rows@) =~= rows_through(kv, 0));
    let labels = ["Scroll down", "Scroll up", "Half page down", "Half page up", "Page down", "Page up"];
    assert(labels@.map_values(|l: &str| l@) =~= help_layout()[0].1);
    push_section(&mut rows, "Navigation (all modes)", &labels, keys, 0);
    assert(rows_view(rows@) =~= rows_through(kv, 1));
    let labels = ["Scroll left", "Scroll right", "Start of line", "End of line", "Go to top (gg)", "Go to bottom", "Mark line", "Marks only", "Yank current line", "Yank marked lines", "Visual line select", "Visual char select", "Search forward", "Search backward", "Next match", "Prev match", "Filter include", "Filter exclude", "Filter mode", "Toggle filtering", "UI mode", "Command mode", "Comment line", "Edit comment", "Delete comment", "Next error", "Prev error", "Next warning", "Prev warning", "Clear search", "Clear marks/comments", "Show keybindings"];
    assert(labels@.map_values(|l: &str| l@) =~= help_layout()[1].1);
    push_section(&mut rows, "Normal Mode", &labels, keys, 1);
    assert(rows_view(rows@) =~= rows_through(kv, 2));
    let labels = ["Comment selection", "Yank to clipboard", "Mark lines", "Search", "Exit visual mode"];
    assert(labels@.map_values(|l: &str| l@) =~= help_layout()[2].1);
    push_section(&mut rows, "Visual Line Mode", &labels, keys, 2);
    assert(rows_view(rows@) =~= rows_through(kv, 3));
    let labels = ["Move left", "Move right", "Word forward", "Word backward", "Word end", "Word forward (WORD)", "Word backward (WORD)", "Word end (WORD)", "Start of line", "First non-blank", "End of line", "Find forward", "Find backward", "Till forward", "Till backward", "Repeat motion", "Repeat motion reverse", "Filter include", "Filter exclude", "Search", "Start selection", "Yank to clipboard", "Exit visual mode"];
    assert(labels@.map_values(|l: &str| l@) =~= help_layout()[3].1);
    push_section(&mut rows, "Visual Char Mode", &labels, keys, 3);
    assert(rows_view(rows@) =~= rows_through(kv, 4));
    let labels = ["Quit", "Next tab", "Prev tab", "Close tab", "New tab"];
    assert(labels@.map_values(|l: &str| l@) =~= help_layout()[4].1);
    push_section(&mut rows, "Global", &labels, keys, 4);
    assert(rows_view(rows@) =~= rows_through(kv, 5));
    let labels = ["Toggle sidebar", "Toggle mode bar", "Toggle borders", "Toggle wrap", "Exit UI mode"];
    assert(labels@.map_values(|l: &str| l@) =~= help_layout()[5].1);
    push_section(&mut rows, "UI Mode", &labels, keys, 5);
    assert(rows_view(rows@) =~= rows_through(kv, 6));
    let labels = ["Add include filter", "Add exclude filter", "Add date filter", "Toggle filter", "Delete filter", "Edit filter", "Set color", "Move filter up", "Move filter down", "Toggle all", "Clear all", "Grow sidebar", "Shrink sidebar", "Exit filter mode"];
    assert(labels@.map_values(|l: &str| l@) =~= help_layout()[6].1);
    push_section(&mut rows, "Filter Mode", &labels, keys, 6);
    assert(rows_view(rows@) =~= rows_through(kv, 7));
    let labels = ["Save comment", "New line", "Delete comment", "Cancel"];
    assert(labels@.map_values(|l: &str| l@) =~= help_layout()[7].1);
    push_section(&mut rows, "Comment Mode", &labels, keys, 7);
    assert(rows_view(rows@) =~= rows_through(kv, 8));
    let labels = ["Confirm search", "Cancel"];
    assert(labels@.map_values(|l: &str| l@) =~= help_layout()[8].1);
    push_section(&mut rows, "Search Mode", &labels, keys, 8);
    assert(rows_view(rows@) =~= rows_through(kv, 9));
    let labels = ["Save", "Cancel"];
    assert(labels@.map_values(|l: &str| l@) =~= help_layout()[9].1);
    push_section(&mut rows, "Filter Edit Mode", &labels, keys, 9);
    assert(rows_view(rows@) =~= rows_through(kv, 10));
    let labels = ["Execute", "Cancel"];
    assert(labels@.map_values(|l: &str| l@) =~= help_layout()[10].1);
    push_section(&mut rows, "Command Mode", &labels, keys, 10);
    assert(rows_view(rows@) =~= rows_through(kv, 11));
    let labels = ["Attach", "Cancel"];
    assert(labels@.map_values(|l: &str| l@) =~= help_layout()[11].1);
    push_section(&mut rows, "Docker Select Mode", &labels, keys, 11);
    assert(rows_view(rows@) =~= rows_through(kv, 12));
    let labels = ["Toggle", "Enable all", "Disable all", "Apply", "Cancel"];
    assert(labels@.map_values(|l: &str| l@) =~= help_layout()[12].1);
    push_section(&mut rows, "Value Colors Mode", &labels, keys, 12);
    assert(rows_view(rows@) =~= rows_through(kv, 13));
    let labels = ["Toggle", "Move up", "Move down", "Enable all", "Disable all", "Apply", "Cancel"];
    assert(labels@.map_values(|l: &str| l@) =~= help_layout()[13].1);
    push_section(&mut rows, "Select Fields Mode", &labels, keys, 13);
    assert(rows_view(rows@) =~= rows_through(kv, 14));
    let labels = ["Close"];
    assert(labels@.map_values(|l: &str| l@) =~= help_layout()[14].1);
    push_section(&mut rows, "Help Mode", &labels, keys, 14);
    assert(rows_view(rows@) =~= rows_through(kv, 15));
    let labels = ["Yes", "No"];
    assert(labels@.map_values(|l: &str| l@) =~= help_layout()[15].1);
    push_section(&mut rows, "Confirm Mode", &labels, keys, 15);
    assert(rows_view(rows@) =~= rows_through(kv, 16));
    rows
}


/// Whether the row is an action (not a header).
pub open spec fn is_entry(r: RowView) -> bool {
    r is Entry
}

/// Whether the row is an action whose name and keys, joined by a space,
/// the query fuzzily matches.
pub open spec fn matching_entry(q: Seq<char>, r: RowView) -> bool {
    match r {
        RowView::Entry(a, k) => fuzzy(q, a + seq![' '] + k),
        RowView::Header(_) => false,
    }
}

/// The header, if any, as a sequence of at most one row.
pub open spec fn opt_rows(p: Option<RowView>) -> Seq<RowView> {
    match p {
        Some(h) => seq![h],
        None => Seq::empty(),
    }
}

/// Walking the rows in order: the rows kept so far, the header still
/// waiting for a matching entry, and whether the current section has
/// had a match.
pub open spec fn filter_state(rows: Seq<RowView>, q: Seq<char>) -> (Seq<RowView>, Option<RowView>, bool)
    decreases rows.len(),
{
    if rows.len() == 0 {
        (Seq::empty(), None, false)
    } else {
        let prev = filter_state(rows.drop_last(), q);
        let r = rows.last();
        match r {
            RowView::Header(_) => (prev.0, Some(r), false),
            RowView::Entry(_, _) => if matching_entry(q, r) {
                if !prev.2 {
                    (prev.0 + opt_rows(prev.1) + seq![r], None, true)
                } else {
                    (prev.0.push(r), prev.1, true)
                }
            } else {
                prev
            },
        }
    }
}

/// The rows that the query keeps: all of them for an empty query; else
/// the matching entries, each section's header kept before its first
/// matching entry.
pub open spec fn filtered(rows: Seq<RowView>, q: Seq<char>) -> Seq<RowView> {
    if q.len() == 0 {
        rows
    } else {
        filter_state(rows, q).0
    }
}

fn copy_row(r: &HelpRow) -> (c: HelpRow)
    ensures
        c@ == r@,
{
    match r {
        HelpRow::Header(h) => HelpRow::Header(h.clone()),
        HelpRow::Entry { action, keys } => HelpRow::Entry { action: action.clone(), keys: keys.clone() },
    }
}

/// Filters rows by fuzzy-matching `query` against "action keys". Headers
/// are kept if at least one entry below them matches.
pub fn filter_rows(rows: &[HelpRow], query: &str) -> (r: Vec<HelpRow>)
    ensures
        rows_view(r@) == filtered(rows_view(rows@), query@),
{
    let ghost rv = rows_view(rows@);
    let mut result: Vec<HelpRow> = Vec::new();
    if query.is_empty() {
        let mut i: usize = 0;
        while i < rows.len()
            invariant
                i <= rows@.len(),
                rv == rows_view(rows@),
                rows_view(result@) == rv.take(i as int),
            decreases rows@.len() - i,
        {
            let c = copy_row(&rows[i]);
            let ghost before = rows_view(result@);
            result.push(c);
            assert(rows_view(result@) =~= before.push(rv[i as int]));
            assert(rv.take(i + 1) =~= rv.take(i as int).push(rv[i as int]));
            i += 1;
        }
        assert(rv.take(rows@.len() as int) =~= rv);
        return result;
    }
    let mut pending: Option<HelpRow> = None;
    let mut has_match = false;
    let mut i: usize = 0;
    while i < rows.len()
        invariant
            i <= rows@.len(),
            rv == rows_view(rows@),
            (rows_view(result@), match pending {
                Some(h) => Some(h@),
                None => None::<RowView>,
            }, has_match) == filter_state(rv.take(i as int), query@),
        decreases rows@.len() - i,
    {
        assert(rv.take(i + 1).drop_last() =~= rv.take(i as int));
        let ghost prev = filter_state(rv.take(i as int), query@);
        let ghost row = rv[i as int];
        assert(rv.take(i + 1).last() == row);
        match &rows[i] {
            HelpRow::Header(_) => {
                pending = Some(copy_row(&rows[i]));
                has_match = false;
            },
            HelpRow::Entry { action, keys } => {
                let mut hay = action.clone();
                hay.append(" ");
                hay.append(keys.as_str());
                proof {
                    reveal_strlit(" ");
                    assert(hay@ =~= action@ + seq![' '] + keys@);
                    assert(row == RowView::Entry(action@, keys@));
                }
                if fuzzy_match(query, hay.as_str()) {
                    assert(matching_entry(query@, row));
                    if !has_match {
                        let ghost r0 = rows_view(result@);
                        match pending {
                            Some(h) => {
                                result.push(h);
                                assert(rows_view(result@) =~= r0 + opt_rows(prev.1));
                            },
                            None => {
                                assert(rows_view(result@) =~= r0 + opt_rows(prev.1));
                            },
                        }
                        pending = None;
                        has_match = true;
                    }
                    let ghost r1 = rows_view(result@);
                    let c = copy_row(&rows[i]);
                    result.push(c);
                    assert(rows_view(result@) =~= r1.push(row));
                } else {
                    assert(!matching_entry(query@, row));
                }
            },
        }
        i += 1;
    }
    assert(rv.take(rows@.len() as int) =~= rv);
    result
}

proof fn lemma_filter_state_shape(rows: Seq<RowView>, q: Seq<char>)
    ensures
        ({
            let res = filter_state(rows, q).0;
            &&& res.len() == 0 || res.last() is Entry
            &&& forall|i: int| 0 <= i < res.len() && #[trigger] res[i] is Header ==> i + 1 < res.len() && res[i + 1] is Entry
        }),
    decreases rows.len(),
{
    if rows.len() > 0 {
        lemma_filter_state_shape(rows.drop_last(), q);
    }
}

/// With a non-empty query, no header is left without an entry after it:
/// every header kept is directly followed by an action.
pub proof fn lemma_no_orphan_headers(rows: Seq<RowView>, q: Seq<char>)
    requires
        q.len() > 0,
    ensures
        forall|i: int|
            0 <= i < filtered(rows, q).len() && #[trigger] filtered(rows, q)[i] is Header ==> i + 1 < filtered(
                rows,
                q,
            ).len() && filtered(rows, q)[i + 1] is Entry,
{
    lemma_filter_state_shape(rows, q);
}

proof fn lemma_filter_state_entries(rows: Seq<RowView>, q: Seq<char>)
    ensures
        filter_state(rows, q).0.filter(|r: RowView| is_entry(r)) == rows.filter(|r: RowView| matching_entry(q, r)),
        filter_state(rows, q).1 is Some ==> filter_state(rows, q).1->0 is Header,
    decreases rows.len(),
{
    reveal(Seq::filter);
    if rows.len() > 0 {
        let prev = filter_state(rows.drop_last(), q);
        lemma_filter_state_entries(rows.drop_last(), q);
        let r = rows.last();
        let ie = |x: RowView| is_entry(x);
        if r is Entry && matching_entry(q, r) {
            if !prev.2 {
                Seq::filter_distributes_over_add(prev.0 + opt_rows(prev.1), seq![r], ie);
                Seq::filter_distributes_over_add(prev.0, opt_rows(prev.1), ie);
                assert(opt_rows(prev.1).filter(ie) =~= Seq::empty()) by {
                    if prev.1 is Some {
                        let h = prev.1->0;
                        assert(opt_rows(prev.1) == seq![h]);
                        assert(seq![h].drop_last() =~= Seq::<RowView>::empty());
                        assert(Seq::<RowView>::empty().filter(ie) =~= Seq::<RowView>::empty());
                        assert(!ie(h));
                    } else {
                        assert(opt_rows(prev.1) =~= Seq::<RowView>::empty());
                    }
                }
                assert(seq![r].drop_last() =~= Seq::<RowView>::empty());
                assert((prev.0 + opt_rows(prev.1) + seq![r]).filter(ie) =~= prev.0.filter(ie).push(r));
            } else {
                assert(prev.0.push(r).drop_last() =~= prev.0);
            }
        }
    }
}

/// The actions kept are exactly the matching actions, in their order.
pub proof fn lemma_filter_keeps_matching_entries(rows: Seq<RowView>, q: Seq<char>)
    requires
        q.len() > 0,
    ensures
        filtered(rows, q).filter(|r: RowView| is_entry(r)) == rows.filter(|r: RowView| matching_entry(q, r)),
{
    lemma_filter_state_entries(rows, q);
}

/// Whether the row is a section header.
pub open spec fn is_header(r: RowView) -> bool {
    r is Header
}

/// No header lies strictly between rows `j` and `k`.
pub open spec fn no_header_between(rows: Seq<RowView>, j: int, k: int) -> bool {
    forall|t: int| j < t < k ==> (#[trigger] rows[t]) is Entry
}

/// The section under row `j` has, before row `end`, an action that the
/// query matches.
pub open spec fn section_matched(rows: Seq<RowView>, q: Seq<char>, j: int, end: int) -> bool {
    exists|k: int| j < k < end && #[trigger] matching_entry(q, rows[k]) && no_header_between(rows, j, k)
}

/// The headers among the first `n` rows whose section has an action the
/// query matches, in order.
pub open spec fn kept_headers(rows: Seq<RowView>, q: Seq<char>, n: int) -> Seq<RowView>
    decreases n,
{
    if n <= 0 {
        Seq::empty()
    } else {
        kept_headers(rows, q, n - 1) + (if rows[n - 1] is Header && section_matched(rows, q, n - 1, rows.len() as int) {
            seq![rows[n - 1]]
        } else {
            Seq::empty()
        })
    }
}

/// The position of the last header, if any.
pub open spec fn last_header(p: Seq<RowView>) -> Option<int>
    decreases p.len(),
{
    if p.len() == 0 {
        None
    } else if p.last() is Header {
        Some(p.len() - 1)
    } else {
        last_header(p.drop_last())
    }
}

proof fn lemma_last_header(p: Seq<RowView>)
    ensures
        match last_header(p) {
            Some(lj) => 0 <= lj < p.len() && p[lj] is Header && no_header_between(p, lj, p.len() as int),
            None => no_header_between(p, -1, p.len() as int),
        },
    decreases p.len(),
{
    if p.len() > 0 && !(p.last() is Header) {
        lemma_last_header(p.drop_last());
        assert forall|t: int| (match last_header(p) {
            Some(lj) => lj,
            None => -1,
        }) < t < p.len() implies (#[trigger] p[t]) is Entry by {
            if t < p.len() - 1 {
                assert(p.drop_last()[t] == p[t]);
            }
        }
    }
}

/// The extra header that appending row `r` to `p` makes kept: the last
/// header of `p`, when its section had no match yet and `r` matches.
pub open spec fn newly_kept(p: Seq<RowView>, q: Seq<char>, r: RowView) -> Seq<RowView> {
    match last_header(p) {
        Some(lj) => if matching_entry(q, r) && !section_matched(p, q, lj, p.len() as int) {
            seq![p[lj]]
        } else {
            Seq::empty()
        },
        None => Seq::empty(),
    }
}

proof fn lemma_kept_headers_push(p: Seq<RowView>, q: Seq<char>, r: RowView, n: int)
    requires
        0 <= n <= p.len(),
    ensures
        kept_headers(p.push(r), q, n) == kept_headers(p, q, n) + (match last_header(p) {
            Some(lj) => if lj < n {
                newly_kept(p, q, r)
            } else {
                Seq::empty()
            },
            None => Seq::empty(),
        }),
    decreases n,
{
    let rows = p.push(r);
    lemma_last_header(p);
    if n > 0 {
        lemma_kept_headers_push(p, q, r, n - 1);
        let j = n - 1;
        assert(rows[j] == p[j]);
        let lp = p.len() as int;
        // the section of row j, seen in `rows` and in `p`
        if rows[j] is Header {
            if section_matched(p, q, j, lp) {
                let k = choose|k: int| j < k < lp && #[trigger] matching_entry(q, p[k]) && no_header_between(p, j, k);
                assert(rows[k] == p[k]);
                assert(no_header_between(rows, j, k)) by {
                    assert forall|t: int| j < t < k implies (#[trigger] rows[t]) is Entry by {
                        assert(rows[t] == p[t]);
                    }
                }
                assert(matching_entry(q, rows[k]));
                assert(section_matched(rows, q, j, rows.len() as int));
            }
            if section_matched(rows, q, j, rows.len() as int) {
                let k = choose|k: int|
                    j < k < rows.len() && #[trigger] matching_entry(q, rows[k]) && no_header_between(rows, j, k);
                if k < lp {
                    assert(rows[k] == p[k]);
                    assert(no_header_between(p, j, k)) by {
                        assert forall|t: int| j < t < k implies (#[trigger] p[t]) is Entry by {
                            assert(rows[t] == p[t]);
                        }
                    }
                    assert(section_matched(p, q, j, lp));
                } else {
                    assert(rows[k] == r);
                    // j is the last header of p
                    match last_header(p) {
                        Some(lj) => {
                            if lj > j {
                                assert(rows[lj] == p[lj]);
                                assert(rows[lj] is Entry);
                            }
                            if lj < j {
                                assert(p[j] is Entry);
                            }
                        },
                        None => {
                            assert(p[j] is Entry);
                        },
                    }
                }
            }
        }
        match last_header(p) {
            Some(lj) => {
                if j == lj {
                    if matching_entry(q, r) {
                        assert(no_header_between(rows, j, lp)) by {
                            assert forall|t: int| j < t < lp implies (#[trigger] rows[t]) is Entry by {
                                assert(rows[t] == p[t]);
                            }
                        }
                        assert(rows[lp] == r);
                        assert(matching_entry(q, rows[lp]));
                        assert(section_matched(rows, q, j, rows.len() as int));
                    }
                } else if j > lj {
                    assert(p[j] is Entry);
                }
            },
            None => {
                assert(p[j] is Entry);
            },
        }
    }
}

proof fn lemma_filter_state_headers(p: Seq<RowView>, q: Seq<char>)
    ensures
        ({
            let st = filter_state(p, q);
            &&& st.0.filter(|x: RowView| is_header(x)) == kept_headers(p, q, p.len() as int)
            &&& match last_header(p) {
                Some(lj) => (st.2 <==> section_matched(p, q, lj, p.len() as int)) && st.1 == (if st.2 {
                    None
                } else {
                    Some(p[lj])
                }),
                None => st.1 is None,
            }
        }),
    decreases p.len(),
{
    reveal(Seq::filter);
    let ih = |x: RowView| is_header(x);
    if p.len() == 0 {
        assert(Seq::<RowView>::empty().filter(ih) =~= Seq::<RowView>::empty());
    } else {
        let pp = p.drop_last();
        let r = p.last();
        assert(pp.push(r) =~= p);
        lemma_filter_state_headers(pp, q);
        lemma_last_header(pp);
        lemma_kept_headers_push(pp, q, r, pp.len() as int);
        let prev = filter_state(pp, q);
        let lp = pp.len() as int;
        assert(!section_matched(p, q, lp, p.len() as int));
        assert(kept_headers(p, q, p.len() as int) == kept_headers(p, q, lp));
        let extra = match last_header(pp) {
            Some(lj) => newly_kept(pp, q, r),
            None => Seq::<RowView>::empty(),
        };
        assert(kept_headers(p, q, p.len() as int) == kept_headers(pp, q, lp) + extra);
        match last_header(pp) {
            Some(lj) => {
                if r is Entry {
                    assert(last_header(p) == Some(lj));
                    assert(no_header_between(p, lj, lp)) by {
                        assert forall|t: int| lj < t < lp implies (#[trigger] p[t]) is Entry by {
                            assert(p[t] == pp[t]);
                        }
                    }
                    if section_matched(pp, q, lj, lp) {
                        let k = choose|k: int| lj < k < lp && #[trigger] matching_entry(q, pp[k]) && no_header_between(pp, lj, k);
                        assert(p[k] == pp[k]);
                        assert(no_header_between(p, lj, k)) by {
                            assert forall|t: int| lj < t < k implies (#[trigger] p[t]) is Entry by {
                                assert(p[t] == pp[t]);
                            }
                        }
                        assert(matching_entry(q, p[k]));
                    }
                    if matching_entry(q, r) {
                        assert(p[lp] == r);
                        assert(matching_entry(q, p[lp]));
                    }
                    if section_matched(p, q, lj, p.len() as int) && !matching_entry(q, r) {
                        let k = choose|k: int| lj < k < p.len() && #[trigger] matching_entry(q, p[k]) && no_header_between(p, lj, k);
                        assert(k != lp);
                        assert(p[k] == pp[k]);
                        assert(no_header_between(pp, lj, k)) by {
                            assert forall|t: int| lj < t < k implies (#[trigger] pp[t]) is Entry by {
                                assert(p[t] == pp[t]);
                            }
                        }
                        assert(matching_entry(q, pp[k]));
                    }
                }
            },
            None => {},
        }
        match r {
            RowView::Header(_) => {
                assert(last_header(p) == Some(lp));
                assert(!matching_entry(q, r));
                assert(extra =~= Seq::<RowView>::empty());
                assert(kept_headers(pp, q, lp) + extra =~= kept_headers(pp, q, lp));
            },
            RowView::Entry(_, _) => {
                if matching_entry(q, r) {
                    if !prev.2 {
                        Seq::filter_distributes_over_add(prev.0 + opt_rows(prev.1), seq![r], ih);
                        Seq::filter_distributes_over_add(prev.0, opt_rows(prev.1), ih);
                        assert(seq![r].drop_last() =~= Seq::<RowView>::empty());
                        assert(Seq::<RowView>::empty().filter(ih) =~= Seq::<RowView>::empty());
                        assert(seq![r].last() == r);
                        assert(!ih(r));
                        assert(seq![r].filter(ih) =~= Seq::<RowView>::empty());
                        match prev.1 {
                            Some(h) => {
                                assert(seq![h].drop_last() =~= Seq::<RowView>::empty());
                                assert(Seq::<RowView>::empty().filter(ih) =~= Seq::<RowView>::empty());
                                assert(seq![h].last() == h);
                                assert(opt_rows(prev.1).filter(ih) =~= seq![h]);
                            },
                            None => {
                                assert(Seq::<RowView>::empty().filter(ih) =~= Seq::<RowView>::empty());
                                assert(opt_rows(prev.1).filter(ih) =~= Seq::<RowView>::empty());
                            },
                        }
                        assert(opt_rows(prev.1) =~= extra);
                    } else {
                        assert(prev.0.push(r).drop_last() =~= prev.0);
                        assert(extra =~= Seq::<RowView>::empty());
                    }
                } else {
                    assert(extra =~= Seq::<RowView>::empty());
                }
                assert(kept_headers(pp, q, lp) + Seq::<RowView>::empty() =~= kept_headers(pp, q, lp));
            },
        }
    }
}

/// With a non-empty query, the headers kept are exactly the headers whose
/// section has an action the query matches, in their order.
pub proof fn lemma_filter_keeps_headers_of_matched_sections(rows: Seq<RowView>, q: Seq<char>)
    requires
        q.len() > 0,
    ensures
        filtered(rows, q).filter(|r: RowView| is_header(r)) == kept_headers(rows, q, rows.len() as int),
{
    lemma_filter_state_headers(rows, q);
}

/// Which of the help popup's configured keys the press matches.
#[derive(Debug, Clone, Copy, PartialEq, Eq, Structural)]
pub struct HelpMatches {
    pub close: bool,
    pub show_keybindings: bool,
    pub half_page_down: bool,
    pub half_page_up: bool,
    pub scroll_down: bool,
    pub scroll_up: bool,
}

/// Where the help popup goes after a key.
#[derive(Debug, Clone, Copy, PartialEq, Eq, Structural)]
pub enum HelpNext {
    Stay,
    Normal,
}

/// The keybindings help popup.
#[derive(Debug)]
pub struct KeybindingsHelpMode {
    pub scroll: usize,
    pub search: String,
}

impl KeybindingsHelpMode {
    /// The popup, scrolled to the top, with no search.
    pub fn new() -> (r: Self)
        ensures
            r.scroll == 0,
            r.search@ == Seq::<char>::empty(),
    {
        KeybindingsHelpMode { scroll: 0, search: String::new() }
    }

    /// Handles one key: the close key clears the search first, then
    /// closes; the help key closes when not searching; half-page keys
    /// scroll by ten; line keys scroll by one when not searching; else a
    /// character without Ctrl extends the search and Backspace shortens
    /// it, both scrolling back to the top.
    pub fn handle_key(&mut self, m: HelpMatches, k: KeyInput) -> (r: (HelpNext, KeyResult))
        ensures
            r.1 is Handled,
            ({
                let o = *old(self);
                let f = *final(self);
                let searching = o.search@.len() > 0;
                if m.close {
                    if searching {
                        r.0 == HelpNext::Stay && f.search@.len() == 0 && f.scroll == 0
                    } else {
                        r.0 == HelpNext::Normal && f == o
                    }
                } else if m.show_keybindings && !searching {
                    r.0 == HelpNext::Normal && f == o
                } else {
                    r.0 == HelpNext::Stay && if m.half_page_down {
                        f.search == o.search && f.scroll == sat_add(o.scroll as int, 10)
                    } else if m.half_page_up {
                        f.search == o.search && f.scroll == sat_sub(o.scroll as int, 10)
                    } else if !searching && m.scroll_down {
                        f.search == o.search && f.scroll == sat_add(o.scroll as int, 1)
                    } else if !searching && m.scroll_up {
                        f.search == o.search && f.scroll == sat_sub(o.scroll as int, 1)
                    } else {
                        match k.key {
                            Key::Char(c) => if !k.ctrl {
                                f.search@ == o.search@.push(c) && f.scroll == 0
                            } else {
                                f == o
                            },
                            Key::Backspace => f.search@ == (if searching {
                                o.search@.drop_last()
                            } else {
                                o.search@
                            }) && f.scroll == 0,
                            _ => f == o,
                        }
                    }
                }
            }),
    {
        let searching = !self.search.as_str().is_empty();
        if m.close {
            if searching {
                self.search = String::new();
                self.scroll = 0;
                return (HelpNext::Stay, KeyResult::Handled);
            }
            return (HelpNext::Normal, KeyResult::Handled);
        }
        if m.show_keybindings && !searching {
            return (HelpNext::Normal, KeyResult::Handled);
        }
        if m.half_page_down {
            self.scroll = self.scroll.saturating_add(10);
            return (HelpNext::Stay, KeyResult::Handled);
        }
        if m.half_page_up {
            self.scroll = self.scroll.saturating_sub(10);
            return (HelpNext::Stay, KeyResult::Handled);
        }
        if !searching {
            if m.scroll_down {
                self.scroll = self.scroll.saturating_add(1);
                return (HelpNext::Stay, KeyResult::Handled);
            }
            if m.scroll_up {
                self.scroll = self.scroll.saturating_sub(1);
                return (HelpNext::Stay, KeyResult::Handled);
            }
        }
        match k.key {
            Key::Char(c) => {
                if !k.ctrl {
                    push_char(&mut self.search, c);
                    self.scroll = 0;
                }
            },
            Key::Backspace => {
                let _ = pop_char(&mut self.search);
                self.scroll = 0;
            },
            _ => {},
        }
        (HelpNext::Stay, KeyResult::Handled)
    }
}

} // verus!
