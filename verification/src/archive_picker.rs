//! The archive picker: the files and nested archives of an archive, in
//! preorder, with checkboxes, a typeahead search that narrows the list to
//! the matching entries and the containers that hold them, and extraction
//! of the checked files.

use vstd::prelude::*;
use crate::archive::{archive_row, is_row_for, ArchiveNodeKind, ArchiveRow, CheckState};
use crate::render::ModeRenderState;
use crate::key::{Key, KeyInput, KeyResult};
use crate::picker::{down_index, step_down, step_up, PickerNext};
use crate::text::{contains_str, occurs_in, pop_char, push_char, str_lowercase, to_lowercase_str};

verus! {

/// Whether `pattern` compiles as a case-insensitive regular expression.
pub uninterp spec fn ci_regex_compiles(pattern: Seq<char>) -> bool;

/// Whether the case-insensitive regular expression `pattern` matches
/// somewhere in `haystack`.
pub uninterp spec fn ci_regex_finds(pattern: Seq<char>, haystack: Seq<char>) -> bool;

/// A search pattern compiled once, case-insensitively, together with the
/// pattern it was compiled from. Only `compile_ci_regex` makes one.
pub struct CiRegex {
    re: regex::Regex,
    pattern: Ghost<Seq<char>>,
}

impl CiRegex {
    /// The pattern this regular expression was compiled from.
    pub closed spec fn pattern(&self) -> Seq<char> {
        self.pattern@
    }
}

/// `regex::RegexBuilder::new(query).case_insensitive(true).build()`: the
/// contract claims that compiling succeeds exactly when
/// `ci_regex_compiles(query)`, and that what comes back is the regular
/// expression of `query`.
#[verifier::external_body]
fn compile_ci_regex(query: &str) -> (r: Option<CiRegex>)
    ensures
        r.is_some() == ci_regex_compiles(query@),
        r matches Some(c) ==> c.pattern() == query@,
{
    match regex::RegexBuilder::new(query).case_insensitive(true).build() {
        Ok(re) => Some(CiRegex { re, pattern: Ghost(query@) }),
        Err(_) => None,
    }
}

/// `regex::Regex::is_match`: the contract claims that the answer is
/// `ci_regex_finds` of the pattern the expression was compiled from and the
/// haystack.
#[verifier::external_body]
fn ci_regex_is_match(re: &CiRegex, haystack: &str) -> (r: bool)
    ensures
        r == ci_regex_finds(re.pattern(), haystack@),
{
    re.re.is_match(haystack)
}

/// Whether the search `q` keeps an entry named `name`: an empty search
/// keeps everything; a search that compiles as a case-insensitive regular
/// expression keeps the names it matches; any other search keeps the names
/// that contain it, ignoring case.
pub open spec fn query_finds(q: Seq<char>, name: Seq<char>) -> bool {
    if q.len() == 0 {
        true
    } else if ci_regex_compiles(q) {
        ci_regex_finds(q, name)
    } else {
        occurs_in(str_lowercase(q), str_lowercase(name))
    }
}

/// The search query in the form it is checked against names: built once
/// when the query changes rather than for every entry checked.
pub enum SearchMatcher {
    MatchAll,
    Regex(CiRegex),
    Literal(String),
}

impl SearchMatcher {
    /// The matcher was built from the query `q`.
    pub closed spec fn is_for(&self, q: Seq<char>) -> bool {
        match self {
            SearchMatcher::MatchAll => q.len() == 0,
            SearchMatcher::Regex(r) => q.len() > 0 && ci_regex_compiles(q) && r.pattern() == q,
            SearchMatcher::Literal(n) => q.len() > 0 && !ci_regex_compiles(q) && n@ == str_lowercase(q),
        }
    }

    /// The matcher for `query`: everything for an empty query, else the
    /// query as a case-insensitive regular expression, or, where it does not
    /// compile as one, as lower-cased text.
    fn compile(query: &str) -> (r: Self)
        ensures
            r.is_for(query@),
    {
        if query.is_empty() {
            return SearchMatcher::MatchAll;
        }
        match compile_ci_regex(query) {
            Some(re) => SearchMatcher::Regex(re),
            None => SearchMatcher::Literal(to_lowercase_str(query)),
        }
    }

    /// Whether the name `haystack` is kept by the query this matcher was
    /// built from.
    fn is_match(&self, haystack: &str, Ghost(q): Ghost<Seq<char>>) -> (r: bool)
        requires
            self.is_for(q),
        ensures
            r == query_finds(q, haystack@),
    {
        match self {
            SearchMatcher::MatchAll => true,
            SearchMatcher::Regex(re) => ci_regex_is_match(re, haystack),
            SearchMatcher::Literal(needle) => {
                let low = to_lowercase_str(haystack);
                contains_str(low.as_str(), needle.as_str())
            },
        }
    }
}

/// What the picker knows of one node of the archive: its name, its depth
/// (0 at the top), the container it sits in, and what it is.
#[derive(Debug, Clone)]
pub struct ArchiveEntry {
    pub name: String,
    pub depth: usize,
    pub parent: Option<usize>,
    pub kind: ArchiveNodeKind,
}

/// The nodes form a forest: every parent is a node, one level up.
pub open spec fn entries_wf(es: Seq<ArchiveEntry>) -> bool {
    forall|i: int|
        0 <= i < es.len() ==> match (#[trigger] es[i]).parent {
            Some(p) => p < es.len() && es[p as int].depth + 1 == es[i].depth,
            None => true,
        }
}

/// `a` is `m` or is reached from `m` by following parents at most `steps`
/// times.
pub open spec fn ancestor_within(es: Seq<ArchiveEntry>, a: int, m: int, steps: nat) -> bool
    decreases steps,
{
    a == m || (steps > 0 && match es[m].parent {
        Some(p) => ancestor_within(es, a, p as int, (steps - 1) as nat),
        None => false,
    })
}

/// `a` is `m` or one of the containers `m` sits in.
pub open spec fn on_path(es: Seq<ArchiveEntry>, a: int, m: int) -> bool {
    ancestor_within(es, a, m, es[m].depth as nat)
}

/// One step of `on_path`: `a` is `m`, or is on the path of `m`'s parent.
proof fn lemma_on_path_step(es: Seq<ArchiveEntry>, a: int, m: int)
    requires
        entries_wf(es),
        0 <= m < es.len(),
    ensures
        on_path(es, a, m) == (a == m || match es[m].parent {
            Some(p) => on_path(es, a, p as int),
            None => false,
        }),
{
    assert(es[m].parent matches Some(p) ==> es[p as int].depth + 1 == es[m].depth);
}

/// Whatever is on the path of `m` is a node no deeper than `m`.
proof fn lemma_on_path_depth(es: Seq<ArchiveEntry>, a: int, m: int)
    requires
        entries_wf(es),
        0 <= m < es.len(),
        on_path(es, a, m),
    ensures
        0 <= a < es.len(),
        es[a].depth <= es[m].depth,
        a != m ==> es[a].depth < es[m].depth,
    decreases es[m].depth,
{
    lemma_on_path_step(es, a, m);
    if a != m {
        let p = es[m].parent->0 as int;
        assert(es[m].parent is Some);
        assert(es[p].depth + 1 == es[m].depth);
        lemma_on_path_depth(es, a, p);
    }
}

/// The ids of `ids` that satisfy `pred`, in order.
pub open spec fn keep_where(ids: Seq<usize>, pred: spec_fn(usize) -> bool) -> Seq<usize>
    decreases ids.len(),
{
    if ids.len() == 0 {
        Seq::empty()
    } else if pred(ids.last()) {
        keep_where(ids.drop_last(), pred).push(ids.last())
    } else {
        keep_where(ids.drop_last(), pred)
    }
}

/// The node `id` stays visible under the search `q`: it is, or holds, a
/// listed node whose name the search keeps.
pub open spec fn kept(es: Seq<ArchiveEntry>, ids: Seq<usize>, q: Seq<char>, id: int) -> bool {
    exists|j: int|
        0 <= j < ids.len() && query_finds(q, es[ids[j] as int].name@) && #[trigger] on_path(es, id, ids[j] as int)
}

/// The rows shown for the search `q`: every listed node when nothing is
/// typed, else the listed nodes that stay visible, in list order.
pub open spec fn visible(es: Seq<ArchiveEntry>, ids: Seq<usize>, q: Seq<char>) -> Seq<usize> {
    if q.len() == 0 {
        ids
    } else {
        keep_where(ids, |id: usize| kept(es, ids, q, id as int))
    }
}

/// The picker shown over an archive's contents.
pub struct ArchivePickerMode {
    /// The archive's nodes, indexed by node id.
    pub entries: Vec<ArchiveEntry>,
    /// Every row in preorder; fixed for the picker's lifetime.
    pub all_ids: Vec<usize>,
    /// Index into the visible rows.
    pub selected: usize,
    pub source_path: String,
    /// Live typeahead query; when not empty it narrows the visible rows.
    pub search: String,
    /// Kept in step with `search` at every change.
    pub search_matcher: SearchMatcher,
    /// True while keys go to the search query.
    pub searching: bool,
    /// Where the selection goes back to if the search is cancelled.
    pub pre_search_selected: Option<usize>,
}

impl ArchivePickerMode {
    /// The nodes form a forest, every row is a node, and the matcher is
    /// the current query's.
    pub open spec fn wf(&self) -> bool {
        &&& entries_wf(self.entries@)
        &&& forall|k: int| 0 <= k < self.all_ids@.len() ==> #[trigger] self.all_ids@[k] < self.entries@.len()
        &&& self.search_matcher.is_for(self.search@)
    }

    /// A picker over `entries` listing `all_ids` (the tree's rows in
    /// preorder) for the archive at `source_path`: first row selected,
    /// nothing searched.
    pub fn new(entries: Vec<ArchiveEntry>, all_ids: Vec<usize>, source_path: String) -> (r: Self)
        requires
            entries_wf(entries@),
            forall|k: int| 0 <= k < all_ids@.len() ==> #[trigger] all_ids@[k] < entries@.len(),
        ensures
            r.wf(),
            r.entries@ == entries@,
            r.all_ids@ == all_ids@,
            r.selected == 0,
            r.source_path@ == source_path@,
            r.search@.len() == 0,
            !r.searching,
            r.pre_search_selected is None,
    {
        ArchivePickerMode {
            entries,
            all_ids,
            selected: 0,
            source_path,
            search: String::new(),
            search_matcher: SearchMatcher::MatchAll,
            searching: false,
            pre_search_selected: None,
        }
    }

    /// The rows currently shown: every row when nothing is searched, else
    /// the rows whose names the search keeps and the containers that hold
    /// them, in list order.
    pub fn visible_rows(&self) -> (r: Vec<usize>)
        requires
            self.wf(),
        ensures
            r@ == visible(self.entries@, self.all_ids@, self.search@),
            forall|k: int| 0 <= k < r@.len() ==> #[trigger] r@[k] < self.entries@.len(),
    {
        let es = &self.entries;
        let ids = &self.all_ids;
        if self.search.as_str().is_empty() {
            return ids.clone();
        }
        let ghost q = self.search@;
        let mut keep: Vec<bool> = Vec::new();
        let mut z: usize = 0;
        while z < es.len()
            invariant
                keep@.len() == z,
                z <= es@.len(),
                forall|x: int| 0 <= x < z ==> !keep@[x],
            decreases es@.len() - z,
        {
            keep.push(false);
            z += 1;
        }
        let mut j: usize = 0;
        while j < ids.len()
            invariant
                self.wf(),
                es@ == self.entries@,
                ids@ == self.all_ids@,
                q == self.search@,
                q.len() > 0,
                j <= ids@.len(),
                keep@.len() == es@.len(),
                forall|x: int|
                    0 <= x < es@.len() ==> (keep@[x] <==> exists|i: int|
                        0 <= i < j && query_finds(q, es@[ids@[i] as int].name@) && #[trigger] on_path(
                            es@,
                            x,
                            ids@[i] as int,
                        )),
            decreases ids@.len() - j,
        {
            let m = ids[j];
            let hit = self.search_matcher.is_match(es[m].name.as_str(), Ghost(q));
            if hit {
                let ghost before = keep@;
                let mut cur: Option<usize> = Some(m);
                while cur.is_some()
                    invariant
                        entries_wf(es@),
                        0 <= m < es@.len(),
                        keep@.len() == es@.len(),
                        before.len() == es@.len(),
                        cur matches Some(c) ==> c < es@.len() && on_path(es@, c as int, m as int),
                        forall|x: int|
                            #![trigger keep@[x]]
                            0 <= x < es@.len() ==> (keep@[x] <==> (before[x] || (on_path(es@, x, m as int) && !(
                            cur matches Some(c) && on_path(es@, x, c as int))))),
                    decreases match cur {
                        Some(c) => es@[c as int].depth + 1,
                        None => 0,
                    },
                {
                    let c = cur.unwrap();
                    let ghost old_keep = keep@;
                    keep.set(c, true);
                    let next = es[c].parent;
                    proof {
                        lemma_on_path_step(es@, c as int, c as int);
                        assert forall|x: int| #![trigger keep@[x]] 0 <= x < es@.len() implies (keep@[x] <==> (before[x] || (on_path(
                            es@,
                            x,
                            m as int,
                        ) && !(next matches Some(p) && on_path(es@, x, p as int))))) by {
                            lemma_on_path_step(es@, x, c as int);
                            if x == c {
                                if let Some(p) = next {
                                    if on_path(es@, x, p as int) {
                                        lemma_on_path_depth(es@, x, p as int);
                                    }
                                }
                            }
                        }
                        if let Some(p) = next {
                            assert(es@[c as int].parent == Some(p));
                            assert(p < es@.len());
                            assert(on_path(es@, p as int, p as int));
                            lemma_on_path_step(es@, p as int, c as int);
                            lemma_on_path_transitive(es@, p as int, c as int, m as int);
                        }
                    }
                    cur = next;
                }
                proof {
                    assert forall|x: int| 0 <= x < es@.len() implies (keep@[x] <==> exists|i: int|
                        0 <= i < j + 1 && query_finds(q, es@[ids@[i] as int].name@) && #[trigger] on_path(
                            es@,
                            x,
                            ids@[i] as int,
                        )) by {
                        if on_path(es@, x, m as int) {
                            assert(query_finds(q, es@[ids@[j as int] as int].name@) && on_path(es@, x, ids@[j as int] as int));
                        } else if exists|i: int|
                            0 <= i < j + 1 && query_finds(q, es@[ids@[i] as int].name@) && #[trigger] on_path(
                                es@,
                                x,
                                ids@[i] as int,
                            ) {
                            let i = choose|i: int|
                                0 <= i < j + 1 && query_finds(q, es@[ids@[i] as int].name@) && #[trigger] on_path(
                                    es@,
                                    x,
                                    ids@[i] as int,
                                );
                            assert(i != j);
                        }
                    }
                }
            } else {
                proof {
                    assert forall|x: int| 0 <= x < es@.len() implies (keep@[x] <==> exists|i: int|
                        0 <= i < j + 1 && query_finds(q, es@[ids@[i] as int].name@) && #[trigger] on_path(
                            es@,
                            x,
                            ids@[i] as int,
                        )) by {
                        if exists|i: int|
                            0 <= i < j + 1 && query_finds(q, es@[ids@[i] as int].name@) && #[trigger] on_path(
                                es@,
                                x,
                                ids@[i] as int,
                            ) {
                            let i = choose|i: int|
                                0 <= i < j + 1 && query_finds(q, es@[ids@[i] as int].name@) && #[trigger] on_path(
                                    es@,
                                    x,
                                    ids@[i] as int,
                                );
                            assert(i != j);
                        }
                    }
                }
            }
            j += 1;
        }
        let ghost pred = |id: usize| kept(es@, ids@, q, id as int);
        let mut out: Vec<usize> = Vec::new();
        let mut k: usize = 0;
        while k < ids.len()
            invariant
                self.wf(),
                es@ == self.entries@,
                ids@ == self.all_ids@,
                q == self.search@,
                q.len() > 0,
                k <= ids@.len(),
                keep@.len() == es@.len(),
                pred == (|id: usize| kept(es@, ids@, q, id as int)),
                forall|x: int| 0 <= x < es@.len() ==> (keep@[x] <==> kept(es@, ids@, q, x)),
                out@ == keep_where(ids@.take(k as int), pred),
                forall|t: int| 0 <= t < out@.len() ==> #[trigger] out@[t] < es@.len(),
            decreases ids@.len() - k,
        {
            let id = ids[k];
            assert(ids@.take(k + 1).drop_last() =~= ids@.take(k as int));
            if keep[id] {
                out.push(id);
            }
            k += 1;
        }
        assert(ids@.take(ids@.len() as int) =~= ids@);
        out
    }
}

/// Following parents twice: if `a` is on the path of `b` and `b` on the
/// path of `m`, then `a` is on the path of `m`.
proof fn lemma_on_path_transitive(es: Seq<ArchiveEntry>, a: int, b: int, m: int)
    requires
        entries_wf(es),
        0 <= m < es.len(),
        0 <= b < es.len(),
        on_path(es, a, b),
        on_path(es, b, m),
    ensures
        on_path(es, a, m),
    decreases es[m].depth,
{
    lemma_on_path_step(es, b, m);
    lemma_on_path_step(es, a, m);
    if b != m {
        let p = es[m].parent->0 as int;
        lemma_on_path_transitive(es, a, b, p);
    }
}

/// The position, from `i` on, of the first occurrence of `id`.
pub open spec fn index_from(ids: Seq<usize>, id: usize, i: int) -> Option<int>
    decreases ids.len() - i,
{
    if i < 0 || i >= ids.len() {
        None
    } else if ids[i] == id {
        Some(i)
    } else {
        index_from(ids, id, i + 1)
    }
}

/// Finds `index_from(ids, id, 0)`.
fn find_id(ids: &Vec<usize>, id: usize) -> (r: Option<usize>)
    ensures
        match r {
            Some(p) => index_from(ids@, id, 0) == Some(p as int),
            None => index_from(ids@, id, 0) is None,
        },
{
    let mut i: usize = 0;
    while i < ids.len()
        invariant
            i <= ids@.len(),
            index_from(ids@, id, 0) == index_from(ids@, id, i as int),
        decreases ids@.len() - i,
    {
        if ids[i] == id {
            return Some(i);
        }
        i += 1;
    }
    None
}

/// The picker's bindings a key matched, checked in this order.
#[derive(Debug, Clone, Copy, PartialEq, Eq, Structural)]
pub enum ArchiveBinding {
    Apply,
    Cancel,
    Search,
    Down,
    Up,
    Toggle,
    All,
    /// Deselect every file ("none").
    Clear,
}

/// The bindings that act while a search is typed, checked in this order.
#[derive(Debug, Clone, Copy, PartialEq, Eq, Structural)]
pub enum ArchiveSearchBinding {
    Confirm,
    Cancel,
    Down,
    Up,
}

/// What the application does with the archive after a key.
#[derive(Debug, Clone, Copy, PartialEq, Eq, Structural)]
pub enum ArchiveRequest {
    Nothing,
    /// Flip the checkbox of this node and everything under it.
    ToggleSubtree(usize),
    /// Check (or uncheck) every file of the archive.
    SelectAllFiles(bool),
    /// Nothing is checked: show the error `nothing_checked_message`.
    NothingChecked,
    /// Extract the checked files of the archive at `source_path`.
    Extract,
}

/// The selection in the full list that a confirmed search keeps: the row
/// that was selected among the shown ones, or the first row.
pub open spec fn confirmed_index(m: ArchivePickerMode) -> usize {
    let v = visible(m.entries@, m.all_ids@, m.search@);
    if m.selected < v.len() {
        match index_from(m.all_ids@, v[m.selected as int], 0) {
            Some(p) => p as usize,
            None => 0,
        }
    } else {
        0
    }
}

/// The same picker with another selection, search, search flag and saved
/// selection; the nodes, rows and archive stay.
pub open spec fn same_but_search(o: ArchivePickerMode, f: ArchivePickerMode) -> bool {
    &&& f.entries@ == o.entries@
    &&& f.all_ids@ == o.all_ids@
    &&& f.source_path@ == o.source_path@
}

/// What a key does while a search is typed.
pub open spec fn search_outcome(
    o: ArchivePickerMode,
    f: ArchivePickerMode,
    bound: Option<ArchiveSearchBinding>,
    k: KeyInput,
    res: KeyResult,
) -> bool {
    let n = visible(o.entries@, o.all_ids@, o.search@).len();
    match bound {
        Some(ArchiveSearchBinding::Confirm) => res is Handled && f.selected == confirmed_index(o) && f.search@.len()
            == 0 && !f.searching && f.pre_search_selected is None,
        Some(ArchiveSearchBinding::Cancel) => res is Handled && f.selected == (match o.pre_search_selected {
            Some(s) => s,
            None => 0,
        }) && f.search@.len() == 0 && !f.searching && f.pre_search_selected is None,
        Some(ArchiveSearchBinding::Down) => res is Handled && f.selected == step_down(o.selected, n as int)
            && f.search@ == o.search@ && f.searching == o.searching && f.pre_search_selected == o.pre_search_selected,
        Some(ArchiveSearchBinding::Up) => res is Handled && f.selected == step_up(o.selected) && f.search@
            == o.search@ && f.searching == o.searching && f.pre_search_selected == o.pre_search_selected,
        None => f.searching == o.searching && f.pre_search_selected == o.pre_search_selected && match k.key {
            Key::Backspace => res is Handled && f.selected == 0 && f.search@ == (if o.search@.len() > 0 {
                o.search@.drop_last()
            } else {
                o.search@
            }),
            Key::Char(c) => if k.ctrl {
                res is Ignored && f.selected == o.selected && f.search@ == o.search@
            } else {
                res is Handled && f.selected == 0 && f.search@ == o.search@.push(c)
            },
            _ => res is Ignored && f.selected == o.selected && f.search@ == o.search@,
        },
    }
}

/// What a key does to the list when no search is typed.
pub open spec fn list_outcome(
    o: ArchivePickerMode,
    f: ArchivePickerMode,
    bound: Option<ArchiveBinding>,
    any_file_checked: bool,
    r: (PickerNext, KeyResult, ArchiveRequest),
) -> bool {
    let v = visible(o.entries@, o.all_ids@, o.search@);
    let kept_search = f.search@ == o.search@ && f.searching == o.searching && f.pre_search_selected
        == o.pre_search_selected;
    match bound {
        Some(ArchiveBinding::Apply) => r.1 is Handled && kept_search && f.selected == o.selected && if any_file_checked {
            r.0 == PickerNext::Normal && r.2 == ArchiveRequest::Extract
        } else {
            r.0 == PickerNext::Stay && r.2 == ArchiveRequest::NothingChecked
        },
        Some(ArchiveBinding::Cancel) => r.0 == PickerNext::Normal && r.1 is Handled && r.2 == ArchiveRequest::Nothing
            && kept_search && f.selected == o.selected,
        Some(ArchiveBinding::Search) => r.0 == PickerNext::Stay && r.1 is Handled && r.2 == ArchiveRequest::Nothing
            && f.selected == o.selected && f.pre_search_selected == Some(o.selected) && f.search@.len() == 0
            && f.searching,
        _ => r.0 == PickerNext::Stay && r.1 is Ignored && kept_search && match bound {
            Some(ArchiveBinding::Down) => r.2 == ArchiveRequest::Nothing && f.selected == step_down(
                o.selected,
                v.len() as int,
            ),
            Some(ArchiveBinding::Up) => r.2 == ArchiveRequest::Nothing && f.selected == step_up(o.selected),
            Some(ArchiveBinding::Toggle) => f.selected == o.selected && r.2 == (if o.selected < v.len() {
                ArchiveRequest::ToggleSubtree(v[o.selected as int])
            } else {
                ArchiveRequest::Nothing
            }),
            Some(ArchiveBinding::All) => f.selected == o.selected && r.2 == ArchiveRequest::SelectAllFiles(true),
            Some(ArchiveBinding::Clear) => f.selected == o.selected && r.2 == ArchiveRequest::SelectAllFiles(false),
            _ => f.selected == o.selected && r.2 == ArchiveRequest::Nothing,
        },
    }
}

impl ArchivePickerMode {
    /// The error shown when extraction is asked for with nothing checked.
    pub fn nothing_checked_message() -> (r: String)
        ensures
            r@ == "Select at least 1 file to extract"@,
    {
        String::from_str("Select at least 1 file to extract")
    }

    /// Keeps the selection within the shown rows.
    fn clamp_selected(&mut self)
        requires
            old(self).wf(),
        ensures
            *final(self) == (ArchivePickerMode { selected: final(self).selected, ..*old(self) }),
            final(self).selected == crate::picker::clamped(
                old(self).selected,
                visible(old(self).entries@, old(self).all_ids@, old(self).search@).len() as int,
            ),
    {
        let count = self.visible_rows().len();
        self.selected = crate::picker::clamp_index(self.selected, count);
    }

    /// Handles a key while a search is typed: confirm keeps the selected
    /// row (as its place in the full list) and ends the search; cancel
    /// ends it and goes back to the row selected before it; down/up move
    /// within the shown rows; Backspace and typed characters change the
    /// query and go back to the first shown row. Other keys are ignored.
    fn handle_search_key(&mut self, bound: Option<ArchiveSearchBinding>, k: KeyInput) -> (res: KeyResult)
        requires
            old(self).wf(),
        ensures
            final(self).wf(),
            same_but_search(*old(self), *final(self)),
            search_outcome(*old(self), *final(self), bound, k, res),
    {
        match bound {
            Some(ArchiveSearchBinding::Confirm) => {
                let vis = self.visible_rows();
                let full_idx = if self.selected < vis.len() {
                    match find_id(&self.all_ids, vis[self.selected]) {
                        Some(p) => p,
                        None => 0,
                    }
                } else {
                    0
                };
                self.selected = full_idx;
                self.search = String::new();
                self.search_matcher = SearchMatcher::MatchAll;
                self.searching = false;
                self.pre_search_selected = None;
                return KeyResult::Handled;
            },
            Some(ArchiveSearchBinding::Cancel) => {
                self.selected = match self.pre_search_selected {
                    Some(s) => s,
                    None => 0,
                };
                self.pre_search_selected = None;
                self.search = String::new();
                self.search_matcher = SearchMatcher::MatchAll;
                self.searching = false;
                return KeyResult::Handled;
            },
            Some(ArchiveSearchBinding::Down) => {
                let count = self.visible_rows().len();
                self.selected = down_index(self.selected, count);
                return KeyResult::Handled;
            },
            Some(ArchiveSearchBinding::Up) => {
                self.selected = if self.selected == 0 { 0 } else { self.selected - 1 };
                return KeyResult::Handled;
            },
            None => {},
        }
        match k.key {
            Key::Backspace => {
                pop_char(&mut self.search);
            },
            Key::Char(c) => {
                if k.ctrl {
                    return KeyResult::Ignored;
                }
                push_char(&mut self.search, c);
            },
            _ => {
                return KeyResult::Ignored;
            },
        }
        self.search_matcher = SearchMatcher::compile(self.search.as_str());
        self.selected = 0;
        self.clamp_selected();
        KeyResult::Handled
    }

    /// Handles a key (`bound` and `search_bound` are the first bindings of
    /// each set the press matches; `any_file_checked` tells whether any file
    /// of the archive is checked). While a search is typed the key goes to
    /// the search. Otherwise: apply extracts the checked files, or stays and
    /// asks for the error message when none is; cancel closes; search starts
    /// a search, saving the selection; down/up move; toggle flips the
    /// selected row and what it holds; all/none check or uncheck every file.
    /// Keys other than apply, cancel and search fall through to the global
    /// keys.
    pub fn handle_key(
        &mut self,
        k: KeyInput,
        bound: Option<ArchiveBinding>,
        search_bound: Option<ArchiveSearchBinding>,
        any_file_checked: bool,
    ) -> (r: (PickerNext, KeyResult, ArchiveRequest))
        requires
            old(self).wf(),
        ensures
            final(self).wf(),
            same_but_search(*old(self), *final(self)),
            old(self).searching ==> r.0 == PickerNext::Stay && r.2 == ArchiveRequest::Nothing && search_outcome(
                *old(self),
                *final(self),
                search_bound,
                k,
                r.1,
            ),
            !old(self).searching ==> list_outcome(*old(self), *final(self), bound, any_file_checked, r),
    {
        if self.searching {
            let res = self.handle_search_key(search_bound, k);
            return (PickerNext::Stay, res, ArchiveRequest::Nothing);
        }
        match bound {
            Some(ArchiveBinding::Apply) => {
                if !any_file_checked {
                    return (PickerNext::Stay, KeyResult::Handled, ArchiveRequest::NothingChecked);
                }
                (PickerNext::Normal, KeyResult::Handled, ArchiveRequest::Extract)
            },
            Some(ArchiveBinding::Cancel) => (PickerNext::Normal, KeyResult::Handled, ArchiveRequest::Nothing),
            Some(ArchiveBinding::Search) => {
                self.pre_search_selected = Some(self.selected);
                self.search = String::new();
                self.search_matcher = SearchMatcher::MatchAll;
                self.searching = true;
                (PickerNext::Stay, KeyResult::Handled, ArchiveRequest::Nothing)
            },
            Some(ArchiveBinding::Down) => {
                let count = self.visible_rows().len();
                self.selected = down_index(self.selected, count);
                (PickerNext::Stay, KeyResult::Ignored, ArchiveRequest::Nothing)
            },
            Some(ArchiveBinding::Up) => {
                self.selected = if self.selected == 0 { 0 } else { self.selected - 1 };
                (PickerNext::Stay, KeyResult::Ignored, ArchiveRequest::Nothing)
            },
            Some(ArchiveBinding::Toggle) => {
                let vis = self.visible_rows();
                let req = if self.selected < vis.len() {
                    ArchiveRequest::ToggleSubtree(vis[self.selected])
                } else {
                    ArchiveRequest::Nothing
                };
                (PickerNext::Stay, KeyResult::Ignored, req)
            },
            Some(ArchiveBinding::All) => (PickerNext::Stay, KeyResult::Ignored, ArchiveRequest::SelectAllFiles(true)),
            Some(ArchiveBinding::Clear) => (PickerNext::Stay, KeyResult::Ignored, ArchiveRequest::SelectAllFiles(false)),
            None => (PickerNext::Stay, KeyResult::Ignored, ArchiveRequest::Nothing),
        }
    }
}

impl ArchivePickerMode {
    /// Whether any file of the archive is checked (`checked[id]` is node
    /// `id`'s checkbox).
    pub fn any_file_checked(&self, checked: &Vec<bool>) -> (r: bool)
        requires
            checked@.len() == self.entries@.len(),
        ensures
            r == exists|i: int| 0 <= i < checked@.len() && self.entries@[i].kind is File && #[trigger] checked@[i],
    {
        let mut i: usize = 0;
        while i < checked.len()
            invariant
                i <= checked@.len(),
                checked@.len() == self.entries@.len(),
                forall|t: int| 0 <= t < i ==> !(self.entries@[t].kind is File && #[trigger] checked@[t]),
            decreases checked@.len() - i,
        {
            if checked[i] && matches!(self.entries[i].kind, ArchiveNodeKind::File) {
                return true;
            }
            i += 1;
        }
        false
    }

    /// Checks (or unchecks) every file, leaving containers as they are.
    pub fn set_all_files_checked(&self, checked: &mut Vec<bool>, value: bool)
        requires
            old(checked)@.len() == self.entries@.len(),
        ensures
            final(checked)@.len() == old(checked)@.len(),
            forall|i: int|
                0 <= i < final(checked)@.len() ==> #[trigger] final(checked)@[i] == if self.entries@[i].kind is File {
                    value
                } else {
                    old(checked)@[i]
                },
    {
        let mut i: usize = 0;
        while i < checked.len()
            invariant
                i <= checked@.len(),
                checked@.len() == old(checked)@.len(),
                checked@.len() == self.entries@.len(),
                forall|t: int|
                    0 <= t < checked@.len() ==> #[trigger] checked@[t] == if t < i && self.entries@[t].kind is File {
                        value
                    } else {
                        old(checked)@[t]
                    },
            decreases checked@.len() - i,
        {
            if matches!(self.entries[i].kind, ArchiveNodeKind::File) {
                checked.set(i, value);
            }
            i += 1;
        }
    }

    /// What the picker shows: a row for each shown node (`states[id]` is
    /// node `id`'s checkbox), the selection, the archive, and the search.
    pub fn render_state(&self, states: &Vec<CheckState>) -> (r: ModeRenderState)
        requires
            self.wf(),
            states@.len() == self.entries@.len(),
        ensures
            ({
                let v = visible(self.entries@, self.all_ids@, self.search@);
                r matches ModeRenderState::ArchivePicker { rows, selected, source_path, search, searching } && rows@.len()
                    == v.len() && (forall|i: int|
                    0 <= i < v.len() ==> {
                        let e = self.entries@[#[trigger] v[i] as int];
                        is_row_for(e.name@, e.depth, e.kind, states@[v[i] as int], rows@[i])
                    }) && selected == self.selected && source_path@ == self.source_path@ && search@ == self.search@
                    && searching == self.searching
            }),
    {
        let vis = self.visible_rows();
        let mut rows: Vec<ArchiveRow> = Vec::new();
        let mut i: usize = 0;
        while i < vis.len()
            invariant
                i <= vis@.len(),
                states@.len() == self.entries@.len(),
                forall|k: int| 0 <= k < vis@.len() ==> #[trigger] vis@[k] < self.entries@.len(),
                rows@.len() == i,
                forall|t: int|
                    0 <= t < i ==> {
                        let e = self.entries@[#[trigger] vis@[t] as int];
                        is_row_for(e.name@, e.depth, e.kind, states@[vis@[t] as int], rows@[t])
                    },
            decreases vis@.len() - i,
        {
            let id = vis[i];
            let e = &self.entries[id];
            rows.push(archive_row(e.name.as_str(), e.depth, &e.kind, states[id]));
            i += 1;
        }
        ModeRenderState::ArchivePicker {
            rows,
            selected: self.selected,
            source_path: self.source_path.clone(),
            search: self.search.clone(),
            searching: self.searching,
        }
    }
}

/// What `keep_where` keeps: exactly the ids of the list that satisfy the
/// predicate.
proof fn lemma_keep_where_members(ids: Seq<usize>, pred: spec_fn(usize) -> bool, x: usize)
    ensures
        keep_where(ids, pred).contains(x) <==> (ids.contains(x) && pred(x)),
    decreases ids.len(),
{
    if ids.len() > 0 {
        lemma_keep_where_members(ids.drop_last(), pred, x);
        assert(ids =~= ids.drop_last().push(ids.last()));
        if ids.contains(x) && x != ids.last() {
            let i = choose|i: int| 0 <= i < ids.len() && ids[i] == x;
            assert(ids.drop_last()[i] == x);
        }
        if ids.drop_last().contains(x) {
            let i = choose|i: int| 0 <= i < ids.drop_last().len() && ids.drop_last()[i] == x;
            assert(ids[i] == x);
        }
        if pred(ids.last()) {
            let rest = keep_where(ids.drop_last(), pred);
            if rest.push(ids.last()).contains(x) && x != ids.last() {
                let i = choose|i: int| 0 <= i < rest.push(ids.last()).len() && rest.push(ids.last())[i] == x;
                assert(rest[i] == x);
            }
            if rest.contains(x) {
                let i = choose|i: int| 0 <= i < rest.len() && rest[i] == x;
                assert(rest.push(ids.last())[i] == x);
            }
            assert(rest.push(ids.last())[rest.len() as int] == ids.last());
        }
        assert(ids[ids.len() - 1] == ids.last());
    }
}

/// A search shows a listed row exactly when the search keeps its name or
/// the name of a listed row it holds: the matching entries stay, and so do
/// the containers they sit in; nothing else does.
pub proof fn lemma_search_shows_matches_and_their_containers(
    es: Seq<ArchiveEntry>,
    ids: Seq<usize>,
    q: Seq<char>,
    a: usize,
)
    requires
        q.len() > 0,
        ids.contains(a),
    ensures
        visible(es, ids, q).contains(a) <==> exists|j: int|
            0 <= j < ids.len() && query_finds(q, es[ids[j] as int].name@) && #[trigger] on_path(es, a as int, ids[j] as int),
{
    lemma_keep_where_members(ids, |id: usize| kept(es, ids, q, id as int), a);
}

/// Starting a search and cancelling it goes back to the row that was
/// selected before, with no search left.
pub proof fn lemma_cancelled_search_restores_selection(
    o: ArchivePickerMode,
    s: ArchivePickerMode,
    f: ArchivePickerMode,
    any_file_checked: bool,
    r: (PickerNext, KeyResult, ArchiveRequest),
    k: KeyInput,
    res: KeyResult,
)
    requires
        !o.searching,
        list_outcome(o, s, Some(ArchiveBinding::Search), any_file_checked, r),
        search_outcome(s, f, Some(ArchiveSearchBinding::Cancel), k, res),
    ensures
        f.selected == o.selected,
        f.search@.len() == 0,
        !f.searching,
{
}

/// While a search is typed, every key but confirm and cancel keeps the
/// selection that cancelling goes back to.
pub proof fn lemma_typing_keeps_saved_selection(
    o: ArchivePickerMode,
    f: ArchivePickerMode,
    bound: Option<ArchiveSearchBinding>,
    k: KeyInput,
    res: KeyResult,
)
    requires
        search_outcome(o, f, bound, k, res),
        bound != Some(ArchiveSearchBinding::Confirm),
        bound != Some(ArchiveSearchBinding::Cancel),
    ensures
        f.pre_search_selected == o.pre_search_selected,
{
}

/// `index_from` finds an id that occurs from `i` on, and what it finds is
/// that id.
proof fn lemma_index_from_finds(ids: Seq<usize>, id: usize, i: int, j: int)
    requires
        0 <= i <= j < ids.len(),
        ids[j] == id,
    ensures
        index_from(ids, id, i) matches Some(p) && 0 <= p < ids.len() && ids[p] == id,
    decreases ids.len() - i,
{
    if ids[i] != id {
        lemma_index_from_finds(ids, id, i + 1, j);
    }
}

/// Confirming a search keeps the row that was selected among the shown
/// ones selected, now as its place in the full list.
pub proof fn lemma_confirm_keeps_selected_row(
    o: ArchivePickerMode,
    f: ArchivePickerMode,
    k: KeyInput,
    res: KeyResult,
)
    requires
        search_outcome(o, f, Some(ArchiveSearchBinding::Confirm), k, res),
        same_but_search(o, f),
        o.all_ids@.len() <= usize::MAX,
        o.selected < visible(o.entries@, o.all_ids@, o.search@).len(),
    ensures
        f.selected < f.all_ids@.len(),
        f.all_ids@[f.selected as int] == visible(o.entries@, o.all_ids@, o.search@)[o.selected as int],
{
    let ids = o.all_ids@;
    let v = visible(o.entries@, ids, o.search@);
    let id = v[o.selected as int];
    assert(v.contains(id));
    if o.search@.len() > 0 {
        lemma_keep_where_members(ids, |x: usize| kept(o.entries@, ids, o.search@, x as int), id);
    }
    assert(ids.contains(id));
    let j = choose|j: int| 0 <= j < ids.len() && ids[j] == id;
    lemma_index_from_finds(ids, id, 0, j);
}

/// Typing a character into the search and then pressing Backspace gives
/// back the query there was.
pub proof fn lemma_search_type_then_backspace(
    o: ArchivePickerMode,
    m: ArchivePickerMode,
    f: ArchivePickerMode,
    c: char,
    k1: KeyInput,
    k2: KeyInput,
    r1: KeyResult,
    r2: KeyResult,
)
    requires
        k1.key == Key::Char(c),
        !k1.ctrl,
        k2.key == Key::Backspace,
        search_outcome(o, m, None, k1, r1),
        search_outcome(m, f, None, k2, r2),
    ensures
        f.search@ == o.search@,
{
    assert(o.search@.push(c).drop_last() =~= o.search@);
}

} // verus!
