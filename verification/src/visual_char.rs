//! Character-level visual mode: a cursor moving over the text of the current
//! log line with vim motions; `v` anchors a selection, and the selection (or
//! the character under the cursor) can be turned into a filter, an exclude,
//! a search, or copied.

use vstd::prelude::*;
use crate::commands::{quote_for_command, quoted_pattern};
use crate::editor::{byte_len, bytes_of};
use crate::key::KeyResult;
use crate::motion::{apply_char_motion, backward_start_result, char_left, char_motion_result, char_right, first_nonblank, forward_end_result, forward_start_result, last_col, reverse_motion, reversed, word_backward, word_backward_big, word_end, word_end_big, word_forward, word_forward_big, PendingMotion};
use crate::nav::{full_page, half_page, sat_add, sat_sub};
use crate::text::{chars_of, from_utf8_lossy, join_with, joined, regex_escape, regex_escaped, string_from_chars, unicode_white_space, utf8_lossy, views};

verus! {

/// Character-level visual mode.
#[derive(Debug)]
pub struct VisualMode {
    /// Column where the selection was anchored (`None`: cursor only).
    pub anchor_col: Option<usize>,
    /// Column (character index) of the moving cursor.
    pub cursor_col: usize,
    /// The displayed text of the current line.
    pub line_text: String,
    /// An `f/F/t/T` waiting for its target character.
    pub pending_motion: Option<PendingMotion>,
    /// The last `f/F/t/T` with its character, for `;` and `,`.
    pub last_char_motion: Option<(PendingMotion, char)>,
}

/// The configured visual-mode key the press matches, first match in the
/// order the mode checks its bindings (`Unbound` when none matches).
#[derive(Debug, Clone, Copy, PartialEq, Eq, Structural)]
pub enum VisualAction {
    MoveLeft,
    MoveRight,
    WordForward,
    WordBackward,
    WordEnd,
    WordForwardBig,
    WordBackwardBig,
    WordEndBig,
    StartOfLine,
    FirstNonblank,
    EndOfLine,
    FindForward,
    FindBackward,
    TillForward,
    TillBackward,
    RepeatMotion,
    RepeatMotionRev,
    StartSelection,
    FilterInclude,
    FilterExclude,
    Search,
    Yank,
    Exit,
    ScrollDown,
    ScrollUp,
    HalfPageDown,
    HalfPageUp,
    PageDown,
    PageUp,
    GoToBottom,
    GoToTopChord,
    Unbound,
}

/// The part of the log view that the visual modes move: the scroll
/// position (the current line), the view height, the number of visible
/// lines and whether the first `g` of `gg` was pressed.
#[derive(Debug, Clone, Copy, PartialEq, Eq, Structural)]
pub struct ScrollState {
    pub scroll_offset: usize,
    pub visible_height: usize,
    pub line_count: usize,
    pub g_key_pressed: bool,
}

/// Where visual mode goes after a key.
#[derive(Debug)]
pub enum VisualNext {
    /// Stay in visual mode.
    Stay,
    /// Stay, but the current line changed: refresh the line text with
    /// `on_line_change`.
    LineChanged,
    /// Back to the log view.
    Normal,
    /// Open the command line with `input`, the cursor at byte `cursor`.
    Command { input: String, cursor: usize },
    /// Open the search prompt with `input`, searching forward.
    Search { input: String },
}

/// The scroll offset after a scrolling action, or `None` for other actions.
pub open spec fn scrolled(s: ScrollState, a: VisualAction) -> Option<int> {
    let half = if s.visible_height / 2 > 1 { s.visible_height / 2 } else { 1 };
    let page = if s.visible_height > 1 { s.visible_height as int } else { 1 };
    match a {
        VisualAction::ScrollDown => Some(sat_add(s.scroll_offset as int, 1)),
        VisualAction::ScrollUp => Some(sat_sub(s.scroll_offset as int, 1)),
        VisualAction::HalfPageDown => Some(sat_add(s.scroll_offset as int, half as int)),
        VisualAction::HalfPageUp => Some(sat_sub(s.scroll_offset as int, half as int)),
        VisualAction::PageDown => Some(sat_add(s.scroll_offset as int, page)),
        VisualAction::PageUp => Some(sat_sub(s.scroll_offset as int, page)),
        VisualAction::GoToBottom => Some(
            if s.line_count > 0 { s.line_count - 1 } else { s.scroll_offset as int },
        ),
        _ => None,
    }
}

impl VisualMode {
    /// The cursor (and anchor) lie on the line or just past its last
    /// character (where an empty search match at the end of the line puts
    /// the cursor).
    pub open spec fn wf(&self) -> bool {
        &&& self.cursor_col <= self.line_text@.len()
        &&& (self.anchor_col matches Some(a) ==> a <= self.line_text@.len())
    }

    /// The selection's first and last column.
    pub open spec fn range(&self) -> (usize, usize) {
        let a = match self.anchor_col {
            Some(a) => a,
            None => self.cursor_col,
        };
        if a <= self.cursor_col { (a, self.cursor_col) } else { (self.cursor_col, a) }
    }

    /// The selected characters (the one under the cursor without an anchor).
    pub open spec fn selection(&self) -> Seq<char> {
        let (lo, hi) = self.range();
        let n = self.line_text@.len();
        let from = if lo <= n { lo as int } else { n as int };
        let to = if hi + 1 <= n { hi + 1 } else { n as int };
        self.line_text@.subrange(from, to)
    }

    /// Visual mode on `line_text`, the cursor at column 0, nothing selected.
    pub fn new(line_text: String) -> (r: Self)
        ensures
            r.anchor_col is None,
            r.cursor_col == 0,
            r.line_text == line_text,
            r.pending_motion is None,
            r.last_char_motion is None,
            r.wf(),
    {
        VisualMode { anchor_col: None, cursor_col: 0, line_text, pending_motion: None, last_char_motion: None }
    }

    /// Visual mode on `line_text` with the cursor seeded at `cursor_col`
    /// (where the current search match starts; just past the last
    /// character for an empty match at the end of the line), nothing
    /// selected.
    pub fn seeded(line_text: String, cursor_col: usize) -> (r: Self)
        ensures
            r.anchor_col is None,
            r.cursor_col == cursor_col,
            r.line_text == line_text,
            r.pending_motion is None,
            r.last_char_motion is None,
            cursor_col <= line_text@.len() ==> r.wf(),
    {
        VisualMode { anchor_col: None, cursor_col, line_text, pending_motion: None, last_char_motion: None }
    }

    /// The current line changed: take its text, keep the cursor column when
    /// it still fits (else move it to the last column), drop the selection
    /// and any pending search.
    pub fn on_line_change(&mut self, line_text: String)
        ensures
            final(self).line_text == line_text,
            final(self).cursor_col == if line_text@.len() == 0 {
                0
            } else if old(self).cursor_col <= line_text@.len() - 1 {
                old(self).cursor_col as int
            } else {
                line_text@.len() - 1
            },
            final(self).anchor_col is None,
            final(self).pending_motion is None,
            final(self).last_char_motion == old(self).last_char_motion,
            final(self).wf(),
    {
        self.line_text = line_text;
        let n = self.line_text.unicode_len();
        self.cursor_col = if n == 0 {
            0
        } else if self.cursor_col <= n - 1 {
            self.cursor_col
        } else {
            n - 1
        };
        self.anchor_col = None;
        self.pending_motion = None;
    }

    /// The selection's (first, last) column, inclusive; (cursor, cursor)
    /// without an anchor.
    pub fn selection_range(&self) -> (r: (usize, usize))
        ensures
            r == self.range(),
            r.0 <= r.1,
    {
        let anchor = match self.anchor_col {
            Some(a) => a,
            None => self.cursor_col,
        };
        if anchor <= self.cursor_col {
            (anchor, self.cursor_col)
        } else {
            (self.cursor_col, anchor)
        }
    }

    /// The selected text; without an anchor, the character under the cursor.
    pub fn selected_text(&self) -> (r: String)
        ensures
            r@ == self.selection(),
    {
        let (lo, hi) = self.selection_range();
        let chars = chars_of(self.line_text.as_str());
        let n = chars.len();
        let from = if lo <= n { lo } else { n };
        let to = if hi < n { hi + 1 } else { n };
        let mut out: Vec<char> = Vec::new();
        let mut i = from;
        while i < to
            invariant
                from <= i <= to <= n,
                n == chars@.len(),
                chars@ == self.line_text@,
                out@ == chars@.subrange(from as int, i as int),
            decreases to - i,
        {
            out.push(chars[i]);
            assert(chars@.subrange(from as int, i + 1) =~= chars@.subrange(from as int, i as int).push(chars@[i as int]));
            i += 1;
        }
        string_from_chars(&out)
    }

    /// Handles one key. `action` is the first visual binding the key
    /// matches, `chord` whether it matches the `gg` chord key, `typed` the
    /// character of a character key. A pending `f/F/t/T` takes `typed` as
    /// its target (any other key cancels it); otherwise the action moves
    /// the cursor, starts a selection, hands the selection to the command
    /// line or the search prompt, copies it, leaves, or scrolls the view.
    pub fn handle_key(
        &mut self,
        action: VisualAction,
        chord: bool,
        typed: Option<char>,
        scroll: &mut ScrollState,
    ) -> (r: (VisualNext, KeyResult))
        requires
            old(self).wf(),
        ensures
            final(self).wf(),
            final(self).line_text == old(self).line_text,
            old(self).pending_motion matches Some(m) ==> {
                &&& r.0 is Stay && r.1 is Handled
                &&& final(self).pending_motion is None
                &&& *final(scroll) == *old(scroll)
                &&& final(self).anchor_col == old(self).anchor_col
                &&& match typed {
                    Some(c) => {
                        &&& char_motion_result(old(self).line_text@, old(self).cursor_col as int, m, c, final(self).cursor_col as int)
                        &&& final(self).last_char_motion == Some((m, c))
                    },
                    None => final(self).cursor_col == old(self).cursor_col
                        && final(self).last_char_motion == old(self).last_char_motion,
                }
            },
            old(self).pending_motion is None ==> {
                let s = old(self).line_text@;
                let col = old(self).cursor_col as int;
                let nc = final(self).cursor_col as int;
                let g = if chord { old(scroll).g_key_pressed } else { false };
                &&& (scrolled(*old(scroll), action) matches Some(off) ==> {
                    &&& final(scroll).scroll_offset == off
                    &&& final(scroll).g_key_pressed == g
                    &&& r.0 is LineChanged && r.1 is Handled
                })
                &&& (action == VisualAction::GoToTopChord ==> if g {
                    &&& final(scroll).scroll_offset == 0
                    &&& !final(scroll).g_key_pressed
                    &&& r.0 is LineChanged && r.1 is Handled
                } else {
                    &&& final(scroll).scroll_offset == old(scroll).scroll_offset
                    &&& final(scroll).g_key_pressed
                    &&& r.0 is Stay && r.1 is Handled
                })
                &&& (scrolled(*old(scroll), action) is None && action != VisualAction::GoToTopChord ==> {
                    &&& final(scroll).scroll_offset == old(scroll).scroll_offset
                    &&& final(scroll).g_key_pressed == g
                })
                &&& final(scroll).visible_height == old(scroll).visible_height
                &&& final(scroll).line_count == old(scroll).line_count
                &&& match action {
                    VisualAction::MoveLeft => nc == if col == 0 { 0 } else { col - 1 },
                    VisualAction::MoveRight => nc == if s.len() == 0 {
                        0
                    } else if col + 1 < s.len() - 1 {
                        col + 1
                    } else {
                        s.len() - 1
                    },
                    VisualAction::WordForward => forward_start_result(s, col, nc, false),
                    VisualAction::WordBackward => backward_start_result(s, col, nc, false),
                    VisualAction::WordEnd => forward_end_result(s, col, nc, false),
                    VisualAction::WordForwardBig => forward_start_result(s, col, nc, true),
                    VisualAction::WordBackwardBig => backward_start_result(s, col, nc, true),
                    VisualAction::WordEndBig => forward_end_result(s, col, nc, true),
                    VisualAction::StartOfLine => nc == 0,
                    VisualAction::FirstNonblank => (nc < s.len() && !unicode_white_space(s[nc])
                        && forall|i: int| 0 <= i < nc ==> unicode_white_space(#[trigger] s[i]))
                        || (nc == 0 && forall|i: int| 0 <= i < s.len() ==> unicode_white_space(#[trigger] s[i])),
                    VisualAction::EndOfLine => nc == last_col(s.len() as int),
                    VisualAction::FindForward => final(self).pending_motion == Some(PendingMotion::FindForward) && nc == col,
                    VisualAction::FindBackward => final(self).pending_motion == Some(PendingMotion::FindBackward) && nc == col,
                    VisualAction::TillForward => final(self).pending_motion == Some(PendingMotion::TillForward) && nc == col,
                    VisualAction::TillBackward => final(self).pending_motion == Some(PendingMotion::TillBackward) && nc == col,
                    VisualAction::RepeatMotion => match old(self).last_char_motion {
                        Some((m, c)) => char_motion_result(s, col, m, c, nc),
                        None => nc == col,
                    },
                    VisualAction::RepeatMotionRev => match old(self).last_char_motion {
                        Some((m, c)) => char_motion_result(s, col, reversed(m), c, nc),
                        None => nc == col,
                    },
                    VisualAction::StartSelection => final(self).anchor_col == Some(old(self).cursor_col) && nc == col
                        && final(self).pending_motion is None,
                    VisualAction::FilterInclude => match r.0 {
                        VisualNext::Command { input, cursor } => input@ == "filter "@ + quoted_pattern(
                            regex_escaped(old(self).selection()),
                        ) && cursor == bytes_of(input).len(),
                        _ => false,
                    },
                    VisualAction::FilterExclude => match r.0 {
                        VisualNext::Command { input, cursor } => input@ == "exclude "@ + quoted_pattern(
                            regex_escaped(old(self).selection()),
                        ) && cursor == bytes_of(input).len(),
                        _ => false,
                    },
                    VisualAction::Search => match r.0 {
                        VisualNext::Search { input } => input@ == regex_escaped(old(self).selection()),
                        _ => false,
                    },
                    VisualAction::Yank => r.0 is Normal && match r.1 {
                        KeyResult::CopyToClipboard(t) => t@ == old(self).selection(),
                        _ => false,
                    },
                    VisualAction::Exit => r.0 is Normal && r.1 is Handled,
                    _ => nc == col,
                }
                &&& (match action {
                    VisualAction::MoveLeft | VisualAction::MoveRight | VisualAction::WordForward
                    | VisualAction::WordBackward | VisualAction::WordEnd | VisualAction::WordForwardBig
                    | VisualAction::WordBackwardBig | VisualAction::WordEndBig | VisualAction::StartOfLine
                    | VisualAction::FirstNonblank | VisualAction::EndOfLine | VisualAction::RepeatMotion
                    | VisualAction::RepeatMotionRev | VisualAction::Unbound => {
                        &&& r.0 is Stay && r.1 is Handled
                        &&& final(self).anchor_col == old(self).anchor_col
                        &&& final(self).pending_motion is None
                    },
                    VisualAction::FindForward | VisualAction::FindBackward | VisualAction::TillForward
                    | VisualAction::TillBackward => {
                        &&& r.0 is Stay && r.1 is Handled
                        &&& final(self).anchor_col == old(self).anchor_col
                    },
                    VisualAction::StartSelection => r.0 is Stay && r.1 is Handled,
                    _ => true,
                })
                &&& final(self).last_char_motion == old(self).last_char_motion
            },
    {
        if let Some(pending) = self.pending_motion {
            self.pending_motion = None;
            if let Some(c) = typed {
                self.cursor_col = apply_char_motion(self.line_text.as_str(), self.cursor_col, &pending, c);
                self.last_char_motion = Some((pending, c));
            }
            return (VisualNext::Stay, KeyResult::Handled);
        }
        let text = self.line_text.as_str();
        let col = self.cursor_col;
        if !chord {
            scroll.g_key_pressed = false;
        }
        match action {
            VisualAction::MoveLeft => {
                self.cursor_col = char_left(col);
            },
            VisualAction::MoveRight => {
                self.cursor_col = char_right(text, col);
            },
            VisualAction::WordForward => {
                self.cursor_col = word_forward(text, col);
            },
            VisualAction::WordBackward => {
                self.cursor_col = word_backward(text, col);
            },
            VisualAction::WordEnd => {
                self.cursor_col = word_end(text, col);
            },
            VisualAction::WordForwardBig => {
                self.cursor_col = word_forward_big(text, col);
            },
            VisualAction::WordBackwardBig => {
                self.cursor_col = word_backward_big(text, col);
            },
            VisualAction::WordEndBig => {
                self.cursor_col = word_end_big(text, col);
            },
            VisualAction::StartOfLine => {
                self.cursor_col = 0;
            },
            VisualAction::FirstNonblank => {
                self.cursor_col = first_nonblank(text);
            },
            VisualAction::EndOfLine => {
                let n = text.unicode_len();
                self.cursor_col = if n == 0 { 0 } else { n - 1 };
            },
            VisualAction::FindForward => {
                self.pending_motion = Some(PendingMotion::FindForward);
            },
            VisualAction::FindBackward => {
                self.pending_motion = Some(PendingMotion::FindBackward);
            },
            VisualAction::TillForward => {
                self.pending_motion = Some(PendingMotion::TillForward);
            },
            VisualAction::TillBackward => {
                self.pending_motion = Some(PendingMotion::TillBackward);
            },
            VisualAction::RepeatMotion => {
                if let Some((m, c)) = self.last_char_motion {
                    self.cursor_col = apply_char_motion(text, col, &m, c);
                }
            },
            VisualAction::RepeatMotionRev => {
                if let Some((m, c)) = self.last_char_motion {
                    let rev = reverse_motion(&m);
                    self.cursor_col = apply_char_motion(text, col, &rev, c);
                }
            },
            VisualAction::StartSelection => {
                self.anchor_col = Some(col);
            },
            VisualAction::FilterInclude | VisualAction::FilterExclude => {
                let escaped = regex_escape(self.selected_text().as_str());
                let selected = quote_for_command(escaped.as_str());
                let mut input = if action == VisualAction::FilterInclude {
                    String::from_str("filter ")
                } else {
                    String::from_str("exclude ")
                };
                input.append(selected.as_str());
                let cursor = byte_len(&input);
                return (VisualNext::Command { input, cursor }, KeyResult::Handled);
            },
            VisualAction::Search => {
                let input = regex_escape(self.selected_text().as_str());
                return (VisualNext::Search { input }, KeyResult::Handled);
            },
            VisualAction::Yank => {
                let selected = self.selected_text();
                return (VisualNext::Normal, KeyResult::CopyToClipboard(selected));
            },
            VisualAction::Exit => {
                return (VisualNext::Normal, KeyResult::Handled);
            },
            VisualAction::ScrollDown => {
                scroll.scroll_offset = scroll.scroll_offset.saturating_add(1);
                return (VisualNext::LineChanged, KeyResult::Handled);
            },
            VisualAction::ScrollUp => {
                scroll.scroll_offset = scroll.scroll_offset.saturating_sub(1);
                return (VisualNext::LineChanged, KeyResult::Handled);
            },
            VisualAction::HalfPageDown => {
                scroll.scroll_offset = scroll.scroll_offset.saturating_add(half_page(scroll.visible_height));
                return (VisualNext::LineChanged, KeyResult::Handled);
            },
            VisualAction::HalfPageUp => {
                scroll.scroll_offset = scroll.scroll_offset.saturating_sub(half_page(scroll.visible_height));
                return (VisualNext::LineChanged, KeyResult::Handled);
            },
            VisualAction::PageDown => {
                scroll.scroll_offset = scroll.scroll_offset.saturating_add(full_page(scroll.visible_height));
                return (VisualNext::LineChanged, KeyResult::Handled);
            },
            VisualAction::PageUp => {
                scroll.scroll_offset = scroll.scroll_offset.saturating_sub(full_page(scroll.visible_height));
                return (VisualNext::LineChanged, KeyResult::Handled);
            },
            VisualAction::GoToBottom => {
                if scroll.line_count > 0 {
                    scroll.scroll_offset = scroll.line_count - 1;
                }
                return (VisualNext::LineChanged, KeyResult::Handled);
            },
            VisualAction::GoToTopChord => {
                if scroll.g_key_pressed {
                    scroll.scroll_offset = 0;
                    scroll.g_key_pressed = false;
                    return (VisualNext::LineChanged, KeyResult::Handled);
                } else {
                    scroll.g_key_pressed = true;
                }
            },
            VisualAction::Unbound => {},
        }
        (VisualNext::Stay, KeyResult::Handled)
    }
}

/// The text a log line is shown with: the fields its format laid out,
/// joined by single spaces, when the line parsed; else its bytes read as
/// UTF-8.
pub open spec fn shown_text(bytes: Seq<u8>, fields: Option<Seq<String>>) -> Seq<char> {
    match fields {
        Some(f) => joined(views(f), ' '),
        None => utf8_lossy(bytes),
    }
}

/// The text of the line under the cursor (`line` is its bytes and, when its
/// format parsed it, its laid-out fields), or empty when no line is there.
pub fn display_line_text(line: Option<(&[u8], Option<&Vec<String>>)>) -> (r: String)
    ensures
        match line {
            Some((bytes, fields)) => r@ == shown_text(
                bytes@,
                match fields {
                    Some(f) => Some(f@),
                    None => None,
                },
            ),
            None => r@.len() == 0,
        },
{
    match line {
        Some((bytes, Some(fields))) => join_with(fields, ' '),
        Some((bytes, None)) => from_utf8_lossy(bytes),
        None => String::new(),
    }
}

/// Paging in visual mode: Ctrl+d and Ctrl+u move the view by half the
/// visible height, Ctrl+f and Ctrl+b by the whole visible height (each at
/// least one line); the offset stops at 0 and at `usize::MAX`.
pub proof fn lemma_visual_paging_distance(s: ScrollState)
    ensures
        ({
            let o = s.scroll_offset as int;
            let h = s.visible_height as int;
            let whole: int = if h == 0 { 1 } else { h };
            let halved: int = if h < 4 { 1 } else { h / 2 };
            &&& scrolled(s, VisualAction::HalfPageDown) == Some(
                if o + halved > usize::MAX { usize::MAX as int } else { o + halved },
            )
            &&& scrolled(s, VisualAction::HalfPageUp) == Some(if o < halved { 0 } else { o - halved })
            &&& scrolled(s, VisualAction::PageDown) == Some(
                if o + whole > usize::MAX { usize::MAX as int } else { o + whole },
            )
            &&& scrolled(s, VisualAction::PageUp) == Some(if o < whole { 0 } else { o - whole })
        }),
{
}

/// `G` in visual mode scrolls to the last line (keeping the offset when
/// there are no lines), and `j`/`k` move one line, stopping at 0 and at
/// `usize::MAX`.
pub proof fn lemma_visual_line_moves(s: ScrollState)
    ensures
        s.line_count > 0 ==> scrolled(s, VisualAction::GoToBottom) == Some(s.line_count - 1),
        s.line_count == 0 ==> scrolled(s, VisualAction::GoToBottom) == Some(s.scroll_offset as int),
        scrolled(s, VisualAction::ScrollDown) == Some(
            if s.scroll_offset == usize::MAX { usize::MAX as int } else { s.scroll_offset + 1 },
        ),
        scrolled(s, VisualAction::ScrollUp) == Some(
            if s.scroll_offset == 0 { 0 } else { s.scroll_offset - 1 },
        ),
{
}

} // verus!
