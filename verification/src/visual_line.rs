//! Line selection (visual line mode): the anchor stays where `V` was
//! pressed, the cursor moves, and the lines between them can be commented,
//! marked, copied, or turned into a filter or a search.

use vstd::prelude::*;
use crate::editor::{byte_len, bytes_of};
use crate::key::{KeyInput, KeyResult};
use crate::nav::{count_step, full_page, half_page, push_count_key, sat_add, sat_mul, sat_sub, saturating_mul};
use crate::text::{regex_escape, regex_escaped};

verus! {

/// The first and last view positions of the selection between `anchor`
/// and the cursor at `offset`, both clamped to the `len` visible lines.
pub open spec fn selection_bounds(anchor: int, offset: int, len: int) -> (int, int) {
    let lo = if anchor < offset { anchor } else { offset };
    let hi = if anchor < offset { offset } else { anchor };
    (if lo < len - 1 { lo } else { len - 1 }, if hi < len - 1 { hi } else { len - 1 })
}

/// The log lines of the selection, in view order.
pub open spec fn selected_lines(anchor: int, offset: int, visible: Seq<usize>) -> Seq<usize> {
    let (lo, hi) = selection_bounds(anchor, offset, visible.len() as int);
    visible.subrange(lo, hi + 1)
}

/// Computes `selection_bounds` for a non-empty view.
pub fn selection_range(anchor: usize, offset: usize, len: usize) -> (r: (usize, usize))
    requires
        len > 0,
    ensures
        r.0 as int == selection_bounds(anchor as int, offset as int, len as int).0,
        r.1 as int == selection_bounds(anchor as int, offset as int, len as int).1,
        r.0 <= r.1 < len,
{
    let lo = if anchor < offset { anchor } else { offset };
    let hi = if anchor < offset { offset } else { anchor };
    let max = len - 1;
    (if lo < max { lo } else { max }, if hi < max { hi } else { max })
}

/// The selected log lines.
pub fn selection_lines(anchor: usize, offset: usize, visible: &Vec<usize>) -> (r: Vec<usize>)
    requires
        visible@.len() > 0,
    ensures
        r@ == selected_lines(anchor as int, offset as int, visible@),
        r@.len() > 0,
{
    let len = visible.len();
    let (lo, hi) = selection_range(anchor, offset, len);
    let mut out: Vec<usize> = Vec::new();
    let mut i: usize = lo;
    while i <= hi
        invariant
            lo <= i <= hi + 1,
            hi < len,
            len == visible@.len(),
            out@ == visible@.subrange(lo as int, i as int),
        decreases hi + 1 - i,
    {
        out.push(visible[i]);
        assert(visible@.subrange(lo as int, i + 1) =~= visible@.subrange(lo as int, i as int).push(visible@[i as int]));
        i += 1;
    }
    out
}

/// The lines whose mark to toggle so that the selection ends up all
/// marked, or all unmarked when every line was already marked.
pub open spec fn marks_to_flip(lines: Seq<usize>, marked: Seq<bool>) -> Seq<usize> {
    if forall|i: int| 0 <= i < marked.len() ==> #[trigger] marked[i] {
        lines
    } else {
        unmarked(lines, marked)
    }
}

/// The lines not marked, in order (`marked[i]` tells of `lines[i]`).
pub open spec fn unmarked(lines: Seq<usize>, marked: Seq<bool>) -> Seq<usize>
    decreases lines.len(),
{
    if lines.len() == 0 {
        Seq::empty()
    } else {
        let rest = unmarked(lines.drop_last(), marked);
        if lines.len() - 1 < marked.len() && !marked[lines.len() - 1] {
            rest.push(lines.last())
        } else {
            rest
        }
    }
}

/// Which of the selected `lines` to toggle, given whether each is marked:
/// all of them when every one is marked (unmarking the group), else the
/// unmarked ones (marking the group).
pub fn lines_to_toggle(lines: &Vec<usize>, marked: &Vec<bool>) -> (r: Vec<usize>)
    requires
        marked@.len() == lines@.len(),
    ensures
        r@ == marks_to_flip(lines@, marked@),
{
    let mut all = true;
    let mut i: usize = 0;
    while i < marked.len()
        invariant
            i <= marked@.len(),
            all == forall|j: int| 0 <= j < i ==> #[trigger] marked@[j],
        decreases marked@.len() - i,
    {
        if !marked[i] {
            all = false;
        }
        i += 1;
    }
    let mut out: Vec<usize> = Vec::new();
    let mut j: usize = 0;
    while j < lines.len()
        invariant
            j <= lines@.len(),
            marked@.len() == lines@.len(),
            out@ == (if all { lines@.take(j as int) } else { unmarked(lines@.take(j as int), marked@) }),
        decreases lines@.len() - j,
    {
        assert(lines@.take(j + 1).drop_last() =~= lines@.take(j as int));
        assert(lines@.take(j + 1) =~= lines@.take(j as int).push(lines@[j as int]));
        if all || !marked[j] {
            out.push(lines[j]);
        }
        j += 1;
    }
    assert(lines@.take(lines@.len() as int) =~= lines@);
    out
}

/// After toggling what `lines_to_toggle` returns, every selected line is
/// marked, unless every one was marked before, and then none is.
pub proof fn lemma_group_marking(lines: Seq<usize>, marked: Seq<bool>, k: int)
    requires
        marked.len() == lines.len(),
        0 <= k < lines.len(),
        forall|a: int, b: int| 0 <= a < b < lines.len() ==> lines[a] != lines[b],
    ensures
        ({
            let flips = marks_to_flip(lines, marked);
            let toggled = flips.contains(lines[k]);
            let after = if toggled { !marked[k] } else { marked[k] };
            if forall|i: int| 0 <= i < marked.len() ==> #[trigger] marked[i] {
                !after
            } else {
                after
            }
        }),
{
    if !(forall|i: int| 0 <= i < marked.len() ==> #[trigger] marked[i]) {
        lemma_unmarked_contains(lines, marked, k);
    }
}

proof fn lemma_unmarked_contains(lines: Seq<usize>, marked: Seq<bool>, k: int)
    requires
        marked.len() >= lines.len(),
        0 <= k < lines.len(),
        forall|a: int, b: int| 0 <= a < b < lines.len() ==> lines[a] != lines[b],
    ensures
        unmarked(lines, marked).contains(lines[k]) == !marked[k],
    decreases lines.len(),
{
    let n = lines.len();
    let pre = lines.drop_last();
    let rest = unmarked(pre, marked);
    let u = unmarked(lines, marked);
    lemma_unmarked_members(pre, marked);
    if k < n - 1 {
        lemma_unmarked_contains(pre, marked, k);
        assert(pre[k] == lines[k]);
        if !marked[n - 1] {
            assert(u == rest.push(lines[n - 1]));
            assert(lines[n - 1] != lines[k]);
            assert(u.contains(lines[k]) == rest.contains(lines[k])) by {
                if u.contains(lines[k]) {
                    let j = choose|j: int| 0 <= j < u.len() && #[trigger] u[j] == lines[k];
                    assert(j < rest.len());
                    assert(rest[j] == lines[k]);
                }
                if rest.contains(lines[k]) {
                    let j = choose|j: int| 0 <= j < rest.len() && #[trigger] rest[j] == lines[k];
                    assert(u[j] == lines[k]);
                }
            }
        }
    } else {
        assert(!rest.contains(lines[k])) by {
            if rest.contains(lines[k]) {
                assert(pre.contains(lines[k]));
                let j = choose|j: int| 0 <= j < pre.len() && #[trigger] pre[j] == lines[k];
                assert(lines[j] == lines[k]);
            }
        }
        if !marked[k] {
            assert(u[rest.len() as int] == lines[k]);
        } else {
            assert(u == rest);
        }
    }
}

proof fn lemma_unmarked_members(lines: Seq<usize>, marked: Seq<bool>)
    ensures
        forall|x: usize| #[trigger] unmarked(lines, marked).contains(x) ==> lines.contains(x),
    decreases lines.len(),
{
    if lines.len() > 0 {
        let pre = lines.drop_last();
        let rest = unmarked(pre, marked);
        let u = unmarked(lines, marked);
        lemma_unmarked_members(pre, marked);
        assert forall|x: usize| #[trigger] u.contains(x) implies lines.contains(x) by {
            if rest.contains(x) {
                assert(pre.contains(x));
                let i = choose|i: int| 0 <= i < pre.len() && #[trigger] pre[i] == x;
                assert(lines[i] == x);
            } else {
                let j = choose|j: int| 0 <= j < u.len() && #[trigger] u[j] == x;
                if j < rest.len() {
                    assert(rest[j] == x);
                }
                assert(lines[lines.len() - 1] == x);
            }
        }
    }
}

/// Line selection: where it started, and a pending count.
#[derive(Debug)]
pub struct VisualLineMode {
    /// The view position of the cursor when the selection started.
    pub anchor: usize,
    /// Pending count prefix for multi-line motions.
    pub count: Option<usize>,
}

/// The configured keys of line selection, in the order they are tried.
#[derive(Debug, Clone, Copy, PartialEq, Eq, Structural)]
pub enum VisualLineBinding {
    ScrollDown,
    ScrollUp,
    HalfPageDown,
    HalfPageUp,
    PageDown,
    PageUp,
    GoToBottom,
    GoToTopChord,
    Comment,
    Mark,
    Yank,
    FilterInclude,
    FilterExclude,
    Search,
    Exit,
}

/// What line selection reads of the tab.
#[derive(Debug)]
pub struct VisualLineView {
    pub scroll_offset: usize,
    pub visible_height: usize,
    /// The log lines that pass the filters, in view order.
    pub visible: Vec<usize>,
    /// The first `g` of a `gg` chord was pressed.
    pub g_pressed: bool,
    /// The displayed text of the first selected line (empty when no line
    /// is visible).
    pub lo_text: String,
}

/// Where line selection goes after a key.
#[derive(Debug)]
pub enum VisualLineNext {
    Stay,
    Normal,
    /// A new comment on these log lines.
    Comment(Vec<usize>),
    /// The command line, prefilled, the cursor at byte `cursor`.
    Command { input: String, cursor: usize },
    /// A forward search for `input`.
    Search { input: String },
}

/// What the application does to the tab after a key.
#[derive(Debug)]
pub enum VisualLineEffect {
    Nothing,
    /// Set the scroll offset.
    Scroll(usize),
    /// Jump to this line number.
    GotoLine(usize),
    /// Mark these log lines as a group (see `lines_to_toggle`).
    MarkLines(Vec<usize>),
    /// Copy the displayed text of these log lines, one per line.
    YankLines(Vec<usize>),
}

/// Everything a key did in line selection.
#[derive(Debug)]
pub struct VisualLineOutcome {
    pub next: VisualLineNext,
    pub effect: VisualLineEffect,
    /// The new state of the `gg` chord.
    pub g_pressed: bool,
    /// A message to show as the command error.
    pub message: Option<String>,
}

impl VisualLineMode {
    /// What a key does in line selection, from `o` to `f` (see
    /// `handle_key`).
    pub open spec fn key_outcome(
        o: Self,
        f: Self,
        k: KeyInput,
        bound: Option<VisualLineBinding>,
        view: VisualLineView,
        r: (VisualLineOutcome, KeyResult),
    ) -> bool {
        let out = r.0;
        let cnt = match o.count {
            Some(c) => c as int,
            None => 1,
        };
        let off = view.scroll_offset as int;
        let half = if view.visible_height / 2 > 1 { view.visible_height / 2 } else { 1 };
        let page = if view.visible_height > 1 { view.visible_height as int } else { 1 };
        let n = view.visible@.len();
        let lines = selected_lines(o.anchor as int, off, view.visible@);
        let scrolls = |to: int|
            out.next is Stay && out.message is None && !out.g_pressed && (out.effect matches VisualLineEffect::Scroll(
                s,
            ) && s == to) && f.count is None;
        match count_step(o.count, k) {
            Some(c) => f.count == c && out.next is Stay && out.effect is Nothing && out.message is None
                && out.g_pressed == view.g_pressed,
            None => match bound {
                Some(VisualLineBinding::ScrollDown) => scrolls(sat_add(off, cnt)),
                Some(VisualLineBinding::ScrollUp) => scrolls(sat_sub(off, cnt)),
                Some(VisualLineBinding::HalfPageDown) => scrolls(sat_add(off, sat_mul(half as int, cnt))),
                Some(VisualLineBinding::HalfPageUp) => scrolls(sat_sub(off, sat_mul(half as int, cnt))),
                Some(VisualLineBinding::PageDown) => scrolls(sat_add(off, sat_mul(page, cnt))),
                Some(VisualLineBinding::PageUp) => scrolls(sat_sub(off, sat_mul(page, cnt))),
                Some(VisualLineBinding::GoToBottom) => out.next is Stay && out.message is None
                    && !out.g_pressed && f.count is None && match o.count {
                    Some(c) => out.effect matches VisualLineEffect::GotoLine(l) && l == c,
                    None => if n > 0 {
                        out.effect matches VisualLineEffect::Scroll(s) && s == n - 1
                    } else {
                        out.effect is Nothing
                    },
                },
                Some(VisualLineBinding::GoToTopChord) => out.next is Stay && out.message is None && if view.g_pressed {
                    !out.g_pressed && f.count is None && match o.count {
                        Some(c) => out.effect matches VisualLineEffect::GotoLine(l) && l == c,
                        None => out.effect matches VisualLineEffect::Scroll(s) && s == 0,
                    }
                } else {
                    out.g_pressed && f.count == o.count && out.effect is Nothing
                },
                Some(VisualLineBinding::Comment) => !out.g_pressed && out.message is None && out.effect is Nothing
                    && if n == 0 {
                    out.next is Normal
                } else {
                    out.next matches VisualLineNext::Comment(ls) && ls@ == lines
                },
                Some(VisualLineBinding::Mark) => out.next is Normal && out.message is None && out.g_pressed
                    == view.g_pressed && if n == 0 {
                    out.effect is Nothing
                } else {
                    out.effect matches VisualLineEffect::MarkLines(ls) && ls@ == lines
                },
                Some(VisualLineBinding::Yank) => out.next is Normal && out.g_pressed == view.g_pressed
                    && if n == 0 {
                    out.effect is Nothing && (out.message matches Some(m) && m@ == "No lines to copy"@)
                } else {
                    out.message is None && (out.effect matches VisualLineEffect::YankLines(ls) && ls@ == lines)
                },
                Some(VisualLineBinding::FilterInclude) => out.effect is Nothing && out.message is None
                    && out.g_pressed == view.g_pressed && (out.next matches VisualLineNext::Command { input, cursor }
                    && input@ == "filter "@ + regex_escaped(view.lo_text@) && cursor == bytes_of(input).len()),
                Some(VisualLineBinding::FilterExclude) => out.effect is Nothing && out.message is None
                    && out.g_pressed == view.g_pressed && (out.next matches VisualLineNext::Command { input, cursor }
                    && input@ == "exclude "@ + regex_escaped(view.lo_text@) && cursor == bytes_of(input).len()),
                Some(VisualLineBinding::Search) => out.effect is Nothing && out.message is None && out.g_pressed
                    == view.g_pressed && (out.next matches VisualLineNext::Search { input } && input@
                    == regex_escaped(view.lo_text@)),
                Some(VisualLineBinding::Exit) => out.next is Normal && out.effect is Nothing && out.message is None
                    && out.g_pressed == view.g_pressed,
                None => out.next is Stay && out.effect is Nothing && out.message is None && out.g_pressed
                    == view.g_pressed && f.count == o.count,
            },
        }
    }

    /// Handles one key (`bound` is the first configured key the press
    /// matches). A digit extends the count; motions move the cursor (the
    /// selection follows); the action keys act on the selected lines and
    /// leave the mode. The result is always `Handled`.
    #[verifier::rlimit(30)]
    pub fn handle_key(&mut self, k: KeyInput, bound: Option<VisualLineBinding>, view: &VisualLineView) -> (r: (
        VisualLineOutcome,
        KeyResult,
    ))
        ensures
            r.1 is Handled,
            final(self).anchor == old(self).anchor,
            Self::key_outcome(*old(self), *final(self), k, bound, *view, r),
    {
        let stay = VisualLineOutcome {
            next: VisualLineNext::Stay,
            effect: VisualLineEffect::Nothing,
            g_pressed: view.g_pressed,
            message: None,
        };
        match push_count_key(self.count, &k) {
            Some(c) => {
                self.count = c;
                return (stay, KeyResult::Handled);
            },
            None => {},
        }
        let count = self.count;
        let cnt = match count {
            Some(c) => c,
            None => 1,
        };
        let off = view.scroll_offset;
        let n = view.visible.len();
        let leave = VisualLineOutcome {
            next: VisualLineNext::Normal,
            effect: VisualLineEffect::Nothing,
            g_pressed: view.g_pressed,
            message: None,
        };
        let out = match bound {
            Some(VisualLineBinding::ScrollDown) => Self::scroll(off.saturating_add(cnt)),
            Some(VisualLineBinding::ScrollUp) => Self::scroll(off.saturating_sub(cnt)),
            Some(VisualLineBinding::HalfPageDown) => Self::scroll(
                off.saturating_add(saturating_mul(half_page(view.visible_height), cnt)),
            ),
            Some(VisualLineBinding::HalfPageUp) => Self::scroll(
                off.saturating_sub(saturating_mul(half_page(view.visible_height), cnt)),
            ),
            Some(VisualLineBinding::PageDown) => Self::scroll(
                off.saturating_add(saturating_mul(full_page(view.visible_height), cnt)),
            ),
            Some(VisualLineBinding::PageUp) => Self::scroll(
                off.saturating_sub(saturating_mul(full_page(view.visible_height), cnt)),
            ),
            Some(VisualLineBinding::GoToBottom) => {
                let effect = match count {
                    Some(c) => VisualLineEffect::GotoLine(c),
                    None => if n > 0 {
                        VisualLineEffect::Scroll(n - 1)
                    } else {
                        VisualLineEffect::Nothing
                    },
                };
                VisualLineOutcome { next: VisualLineNext::Stay, effect, g_pressed: false, message: None }
            },
            Some(VisualLineBinding::GoToTopChord) => {
                if view.g_pressed {
                    let effect = match count {
                        Some(c) => VisualLineEffect::GotoLine(c),
                        None => VisualLineEffect::Scroll(0),
                    };
                    VisualLineOutcome { next: VisualLineNext::Stay, effect, g_pressed: false, message: None }
                } else {
                    return (VisualLineOutcome { g_pressed: true, ..stay }, KeyResult::Handled);
                }
            },
            Some(VisualLineBinding::Comment) => {
                if n == 0 {
                    VisualLineOutcome { g_pressed: false, ..leave }
                } else {
                    let lines = selection_lines(self.anchor, off, &view.visible);
                    VisualLineOutcome { next: VisualLineNext::Comment(lines), g_pressed: false, ..leave }
                }
            },
            Some(VisualLineBinding::Mark) => {
                if n == 0 {
                    leave
                } else {
                    let lines = selection_lines(self.anchor, off, &view.visible);
                    VisualLineOutcome { effect: VisualLineEffect::MarkLines(lines), ..leave }
                }
            },
            Some(VisualLineBinding::Yank) => {
                if n == 0 {
                    VisualLineOutcome { message: Some(String::from_str("No lines to copy")), ..leave }
                } else {
                    let lines = selection_lines(self.anchor, off, &view.visible);
                    VisualLineOutcome { effect: VisualLineEffect::YankLines(lines), ..leave }
                }
            },
            Some(VisualLineBinding::FilterInclude) => {
                let mut input = String::from_str("filter ");
                let esc = regex_escape(view.lo_text.as_str());
                input.append(esc.as_str());
                let cursor = byte_len(&input);
                VisualLineOutcome { next: VisualLineNext::Command { input, cursor }, ..leave }
            },
            Some(VisualLineBinding::FilterExclude) => {
                let mut input = String::from_str("exclude ");
                let esc = regex_escape(view.lo_text.as_str());
                input.append(esc.as_str());
                let cursor = byte_len(&input);
                VisualLineOutcome { next: VisualLineNext::Command { input, cursor }, ..leave }
            },
            Some(VisualLineBinding::Search) => {
                let input = regex_escape(view.lo_text.as_str());
                VisualLineOutcome { next: VisualLineNext::Search { input }, ..leave }
            },
            Some(VisualLineBinding::Exit) => leave,
            None => {
                return (stay, KeyResult::Handled);
            },
        };
        self.count = None;
        (out, KeyResult::Handled)
    }

    fn scroll(to: usize) -> (out: VisualLineOutcome)
        ensures
            out.next is Stay,
            out.message is None,
            !out.g_pressed,
            out.effect matches VisualLineEffect::Scroll(s) && s == to,
    {
        VisualLineOutcome { next: VisualLineNext::Stay, effect: VisualLineEffect::Scroll(to), g_pressed: false, message: None }
    }
}

/// The visible row of the selection's first line: the smaller of the
/// anchor and the cursor row, kept within the `count` visible rows; `None`
/// when no row is visible.
pub fn lo_line_index(anchor: usize, scroll_offset: usize, count: usize) -> (r: Option<usize>)
    ensures
        count == 0 ==> r is None,
        count > 0 ==> r == Some(
            if anchor <= scroll_offset && anchor <= count - 1 {
                anchor
            } else if scroll_offset <= anchor && scroll_offset <= count - 1 {
                scroll_offset
            } else {
                (count - 1) as usize
            },
        ),
{
    if count == 0 {
        return None;
    }
    let max_idx = count - 1;
    let a = if anchor < scroll_offset { anchor } else { scroll_offset };
    Some(if a < max_idx { a } else { max_idx })
}

/// Paging in line selection moves the cursor row by whole pages: PageDown
/// and PageUp by the visible height (at least one line) for each count (one
/// when no count is typed), HalfPageDown and HalfPageUp by half the visible
/// height (at least one line) for each count; the offset stops at 0 and at
/// `usize::MAX`. The count is used up and the mode stays.
pub proof fn lemma_line_paging_distance(
    o: VisualLineMode,
    f: VisualLineMode,
    k: KeyInput,
    b: VisualLineBinding,
    view: VisualLineView,
    r: (VisualLineOutcome, KeyResult),
)
    requires
        VisualLineMode::key_outcome(o, f, k, Some(b), view, r),
        count_step(o.count, k) is None,
        b is PageDown || b is PageUp || b is HalfPageDown || b is HalfPageUp,
    ensures
        r.0.next is Stay,
        f.count is None,
        ({
            let c: int = match o.count {
                Some(n) => n as int,
                None => 1,
            };
            let off = view.scroll_offset as int;
            let h = view.visible_height as int;
            let whole: int = if h == 0 { 1 } else { h };
            let halved: int = if h < 4 { 1 } else { h / 2 };
            let step: int = if b is PageDown || b is PageUp { whole } else { halved };
            let target: int = if b is PageDown || b is HalfPageDown {
                if off + step * c > usize::MAX { usize::MAX as int } else { off + step * c }
            } else {
                if off < step * c { 0 } else { off - step * c }
            };
            r.0.effect matches VisualLineEffect::Scroll(s) && s == target
        }),
{
    let c: int = match o.count {
        Some(n) => n as int,
        None => 1,
    };
    let h = view.visible_height as int;
    let whole: int = if h == 0 { 1 } else { h };
    let halved: int = if h < 4 { 1 } else { h / 2 };
    let page: int = if view.visible_height > 1 { view.visible_height as int } else { 1 };
    let half: int = if view.visible_height / 2 > 1 { (view.visible_height / 2) as int } else { 1 };
    assert(whole == page);
    assert(halved == half);
    assert(whole * c == page * c);
    assert(halved * c == half * c);
    assert(page * c >= 0) by (nonlinear_arith)
        requires
            page >= 1,
            c >= 0,
    ;
    assert(half * c >= 0) by (nonlinear_arith)
        requires
            half >= 1,
            c >= 0,
    ;
}

/// `G` in line selection, with no count typed, moves the cursor to the last
/// visible line (nothing happens when no line is visible); with a count it
/// jumps to that line number. The count is used up and the mode stays.
pub proof fn lemma_line_bottom(
    o: VisualLineMode,
    f: VisualLineMode,
    k: KeyInput,
    view: VisualLineView,
    r: (VisualLineOutcome, KeyResult),
)
    requires
        VisualLineMode::key_outcome(o, f, k, Some(VisualLineBinding::GoToBottom), view, r),
        count_step(o.count, k) is None,
    ensures
        r.0.next is Stay,
        f.count is None,
        o.count is None && view.visible@.len() > 0 ==> (r.0.effect matches VisualLineEffect::Scroll(s) && s
            == view.visible@.len() - 1),
        o.count is None && view.visible@.len() == 0 ==> r.0.effect is Nothing,
        o.count is Some ==> (r.0.effect matches VisualLineEffect::GotoLine(l) && l == o.count->0),
{
}

} // verus!
