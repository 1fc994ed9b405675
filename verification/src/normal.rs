//! Normal mode: the count prefix, scrolling, the `gg` chord, and the keys
//! that open the other modes or act on the line under the cursor.

use vstd::prelude::*;
use vstd::utf8::*;
use crate::editor::str_tail;
use crate::key::{KeyInput, KeyResult};
use crate::nav::{count_step, full_page, half_page, push_count_key, sat_add, sat_mul, sat_sub, saturating_mul};

verus! {

/// The configured keys of normal mode, in the order they are tried.
#[derive(Debug, Clone, PartialEq, Eq)]
pub enum NormalBinding {
    /// A user-defined key running this command line.
    Custom(String),
    /// Quit, next/previous/close/new tab, or the file switcher: left to the
    /// application.
    Global,
    HalfPageDown,
    HalfPageUp,
    PageDown,
    PageUp,
    CommandMode,
    FilterMode,
    GroupMode,
    ToggleFiltering,
    ToggleHighlightMode,
    FilterInclude,
    FilterIncludeAuto,
    FilterExclude,
    EnterUiMode,
    ScrollDown,
    ScrollUp,
    ScrollLeft,
    ScrollRight,
    StartOfLine,
    EndOfLine,
    GoToBottom,
    GoToTopChord,
    MarkLine,
    ExpandContinuation,
    CollapseContinuation,
    ToggleMarksOnly,
    YankLine,
    YankMarked,
    VisualMode,
    VisualChar,
    SearchForward,
    SearchBackward,
    NextMatch,
    PrevMatch,
    /// Only taken while a search or a notification is shown.
    ClearSearch,
    ClearAll,
    EditComment,
    DeleteComment,
    CommentLine,
    NextError,
    PrevError,
    NextWarning,
    PrevWarning,
    ShowKeybindings,
}

/// What normal mode reads of the tab.
#[derive(Debug)]
pub struct NormalView {
    pub scroll_offset: usize,
    /// Lines of the log view on screen.
    pub visible_height: usize,
    /// How many lines pass the filters.
    pub visible_len: usize,
    /// The log line under the cursor, if the cursor is on one.
    pub cursor_line: Option<usize>,
    /// The first `g` of a `gg` chord was pressed.
    pub g_pressed: bool,
    pub wrap: bool,
    pub horizontal_scroll: usize,
    pub num_filters: usize,
    /// The filter selected when the filter list was last left.
    pub last_selected_filter: usize,
    /// The first filter group, if any.
    pub first_group: Option<String>,
    /// A search pattern is active.
    pub has_search: bool,
    /// A notification is shown.
    pub has_notification: bool,
    /// The first comment covering the line under the cursor.
    pub cursor_comment: Option<usize>,
    /// The record (first line) whose continuation lines the cursor line
    /// belongs to, when it has continuation lines.
    pub continuation_parent: Option<usize>,
}

/// The mode normal mode hands over to.
#[derive(Debug)]
pub enum NormalNext {
    Stay,
    /// The command line, prefilled with `input`, the cursor at byte `cursor`.
    Command { input: String, cursor: usize },
    /// The filter list, with this filter selected.
    FilterManagement(usize),
    /// The group list, with this group selected.
    GroupManagement(String),
    Ui,
    /// Line selection anchored at this view position.
    VisualLine(usize),
    /// Character selection on the cursor line.
    VisualChar,
    Search { forward: bool },
    /// Editing the comment with this index.
    EditComment(usize),
    /// A new comment on this log line.
    NewComment(usize),
    Help,
}

/// What the application does to the tab after a key.
#[derive(Debug, Clone, Copy, PartialEq, Eq, Structural)]
pub enum NormalEffect {
    Nothing,
    /// Set the scroll offset.
    Scroll(usize),
    /// Set the horizontal scroll.
    HorizontalScroll(usize),
    ToggleFiltering,
    ToggleHighlightMode,
    ToggleMarksOnly,
    /// Scroll so that the end of this log line is in view.
    ScrollToLineEnd(usize),
    /// Jump to this line number.
    GotoLine(usize),
    ToggleMark(usize),
    /// Collapse (`true`) or expand the continuation lines of this record.
    SetCollapsed(usize, bool),
    /// Copy the line at this view position.
    YankLine(usize),
    YankMarked,
    /// Cancel the search (character selection starts).
    CancelSearch,
    /// Next or previous search match, or mark when there is no search.
    NextMatch,
    PrevMatch,
    NextMark,
    PrevMark,
    ClearSearch,
    ClearAll,
    DeleteComment(usize),
    NextError,
    PrevError,
    NextWarning,
    PrevWarning,
}

/// The rest of what a key did in normal mode.
#[derive(Debug)]
pub struct NormalOutcome {
    pub next: NormalNext,
    pub result: KeyResult,
    pub effect: NormalEffect,
    /// The new state of the `gg` chord.
    pub g_pressed: bool,
    /// Clear the last command error.
    pub clear_command_error: bool,
    /// A message to show as the command error.
    pub message: Option<String>,
}

/// Whether a binding is taken: clearing the search only while a search
/// or a notification is shown.
pub open spec fn takes(b: NormalBinding, view: NormalView) -> bool {
    b == NormalBinding::ClearSearch ==> view.has_search || view.has_notification
}

/// The position, from `i` on, of the first of `bound` that is taken.
pub open spec fn taken_from(bound: Seq<NormalBinding>, view: NormalView, i: int) -> Option<int>
    decreases bound.len() - i,
{
    if i < 0 || i >= bound.len() {
        None
    } else if takes(bound[i], view) {
        Some(i)
    } else {
        taken_from(bound, view, i + 1)
    }
}

/// The first of `bound` that is taken.
pub open spec fn first_taken(bound: Seq<NormalBinding>, view: NormalView) -> Option<NormalBinding> {
    match taken_from(bound, view, 0) {
        Some(i) => Some(bound[i]),
        None => None,
    }
}

/// Stays in normal mode, the key handled.
pub open spec fn stays(out: NormalOutcome) -> bool {
    out.next is Stay && out.result is Handled
}

/// No message, and the last error left as it is.
pub open spec fn quiet(out: NormalOutcome) -> bool {
    !out.clear_command_error && out.message is None
}

/// Shows `text` as the command error.
pub open spec fn says(out: NormalOutcome, text: Seq<char>) -> bool {
    !out.clear_command_error && (out.message matches Some(m) && m@ == text)
}

/// Opens the command line on `text`, the cursor at byte `cursor`.
pub open spec fn opens(out: NormalOutcome, text: Seq<char>, cursor: int) -> bool {
    &&& (out.next matches NormalNext::Command { input, cursor: c } && input@ == text && c == cursor)
    &&& out.result is Handled
    &&& out.effect == NormalEffect::Nothing
    &&& out.clear_command_error
    &&& out.message is None
}

/// Goes to `next`, the key handled, nothing else done.
pub open spec fn goes(out: NormalOutcome, next: NormalNext) -> bool {
    out.next == next && out.result is Handled && out.effect == NormalEffect::Nothing && quiet(out)
}

/// Stays, doing `effect`.
pub open spec fn does(out: NormalOutcome, effect: NormalEffect) -> bool {
    stays(out) && out.effect == effect && quiet(out)
}

/// What binding `b` (or no binding) does in normal mode with the count
/// `count` pending: the new count, and the outcome.
pub open spec fn normal_outcome(
    count: Option<usize>,
    new_count: Option<usize>,
    b: Option<NormalBinding>,
    view: NormalView,
    out: NormalOutcome,
) -> bool {
    let cnt = match count {
        Some(c) => c as int,
        None => 1,
    };
    let off = view.scroll_offset as int;
    let half = if view.visible_height / 2 > 1 { view.visible_height / 2 } else { 1 };
    let page = if view.visible_height > 1 { view.visible_height as int } else { 1 };
    match b {
        Some(NormalBinding::Global) => new_count is None && out.g_pressed == view.g_pressed && out.next is Stay
            && out.result is Ignored && out.effect == NormalEffect::Nothing && quiet(out),
        Some(NormalBinding::GoToTopChord) if !view.g_pressed => new_count == count && out.g_pressed && does(
            out,
            NormalEffect::Nothing,
        ),
        _ => new_count is None && !out.g_pressed && match b {
            None => does(out, NormalEffect::Nothing),
            Some(NormalBinding::Custom(cmd)) => out.next is Stay && (out.result matches KeyResult::ExecuteCommand(c)
                && c@ == cmd@) && out.effect == NormalEffect::Nothing && quiet(out),
            Some(NormalBinding::HalfPageDown) => does(out, NormalEffect::Scroll(sat_add(off, sat_mul(half as int, cnt)) as usize)),
            Some(NormalBinding::HalfPageUp) => does(out, NormalEffect::Scroll(sat_sub(off, sat_mul(half as int, cnt)) as usize)),
            Some(NormalBinding::PageDown) => does(out, NormalEffect::Scroll(sat_add(off, sat_mul(page, cnt)) as usize)),
            Some(NormalBinding::PageUp) => does(out, NormalEffect::Scroll(sat_sub(off, sat_mul(page, cnt)) as usize)),
            Some(NormalBinding::CommandMode) => opens(out, ""@, 0),
            Some(NormalBinding::FilterMode) => goes(
                out,
                NormalNext::FilterManagement(
                    (if view.last_selected_filter < sat_sub(view.num_filters as int, 1) {
                        view.last_selected_filter as int
                    } else {
                        sat_sub(view.num_filters as int, 1)
                    }) as usize,
                ),
            ),
            Some(NormalBinding::GroupMode) => (out.next matches NormalNext::GroupManagement(g) && g@ == match view.first_group {
                Some(name) => name@,
                None => Seq::empty(),
            }) && out.result is Handled && out.effect == NormalEffect::Nothing && quiet(out),
            Some(NormalBinding::ToggleFiltering) => does(out, NormalEffect::ToggleFiltering),
            Some(NormalBinding::ToggleHighlightMode) => does(out, NormalEffect::ToggleHighlightMode),
            Some(NormalBinding::FilterInclude) => opens(out, "filter "@, 7),
            Some(NormalBinding::FilterIncludeAuto) => opens(out, "filter --auto "@, 14),
            Some(NormalBinding::FilterExclude) => opens(out, "exclude "@, 8),
            Some(NormalBinding::EnterUiMode) => goes(out, NormalNext::Ui),
            Some(NormalBinding::ScrollDown) => does(out, NormalEffect::Scroll(sat_add(off, cnt) as usize)),
            Some(NormalBinding::ScrollUp) => does(out, NormalEffect::Scroll(sat_sub(off, cnt) as usize)),
            Some(NormalBinding::ScrollLeft) => does(
                out,
                if view.wrap {
                    NormalEffect::Nothing
                } else {
                    NormalEffect::HorizontalScroll(sat_sub(view.horizontal_scroll as int, 1) as usize)
                },
            ),
            Some(NormalBinding::ScrollRight) => does(
                out,
                if view.wrap {
                    NormalEffect::Nothing
                } else {
                    NormalEffect::HorizontalScroll(sat_add(view.horizontal_scroll as int, 1) as usize)
                },
            ),
            Some(NormalBinding::StartOfLine) => does(out, NormalEffect::HorizontalScroll(0)),
            Some(NormalBinding::EndOfLine) => does(
                out,
                match view.cursor_line {
                    Some(l) => NormalEffect::ScrollToLineEnd(l),
                    None => NormalEffect::Nothing,
                },
            ),
            Some(NormalBinding::GoToBottom) => does(
                out,
                match count {
                    Some(c) => NormalEffect::GotoLine(c),
                    None => if view.visible_len > 0 {
                        NormalEffect::Scroll((view.visible_len - 1) as usize)
                    } else {
                        NormalEffect::Nothing
                    },
                },
            ),
            Some(NormalBinding::GoToTopChord) => does(
                out,
                match count {
                    Some(c) => NormalEffect::GotoLine(c),
                    None => NormalEffect::Scroll(0),
                },
            ),
            Some(NormalBinding::MarkLine) => does(
                out,
                match view.cursor_line {
                    Some(l) => NormalEffect::ToggleMark(l),
                    None => NormalEffect::Nothing,
                },
            ),
            Some(NormalBinding::ExpandContinuation) => does(
                out,
                match (view.cursor_line, view.continuation_parent) {
                    (Some(_), Some(p)) => NormalEffect::SetCollapsed(p, false),
                    _ => NormalEffect::Nothing,
                },
            ),
            Some(NormalBinding::CollapseContinuation) => does(
                out,
                match (view.cursor_line, view.continuation_parent) {
                    (Some(_), Some(p)) => NormalEffect::SetCollapsed(p, true),
                    _ => NormalEffect::Nothing,
                },
            ),
            Some(NormalBinding::ToggleMarksOnly) => does(out, NormalEffect::ToggleMarksOnly),
            Some(NormalBinding::YankLine) => if view.visible_len == 0 {
                stays(out) && out.effect == NormalEffect::Nothing && says(out, "No visible lines"@)
            } else {
                does(
                    out,
                    NormalEffect::YankLine(
                        (if off < view.visible_len - 1 {
                            off
                        } else {
                            view.visible_len - 1
                        }) as usize,
                    ),
                )
            },
            Some(NormalBinding::YankMarked) => does(out, NormalEffect::YankMarked),
            Some(NormalBinding::VisualMode) => goes(out, NormalNext::VisualLine(view.scroll_offset)),
            Some(NormalBinding::VisualChar) => out.next is VisualChar && out.result is Handled && out.effect
                == NormalEffect::CancelSearch && quiet(out),
            Some(NormalBinding::SearchForward) => goes(out, NormalNext::Search { forward: true }),
            Some(NormalBinding::SearchBackward) => goes(out, NormalNext::Search { forward: false }),
            Some(NormalBinding::NextMatch) => does(
                out,
                if view.has_search {
                    NormalEffect::NextMatch
                } else {
                    NormalEffect::NextMark
                },
            ),
            Some(NormalBinding::PrevMatch) => does(
                out,
                if view.has_search {
                    NormalEffect::PrevMatch
                } else {
                    NormalEffect::PrevMark
                },
            ),
            Some(NormalBinding::ClearSearch) => does(out, NormalEffect::ClearSearch),
            Some(NormalBinding::ClearAll) => stays(out) && out.effect == NormalEffect::ClearAll && says(
                out,
                "Cleared all marks and comments"@,
            ),
            Some(NormalBinding::EditComment) => match (view.cursor_line, view.cursor_comment) {
                (Some(_), Some(i)) => goes(out, NormalNext::EditComment(i)),
                (Some(_), None) => stays(out) && out.effect == NormalEffect::Nothing && says(
                    out,
                    "No comment on this line"@,
                ),
                _ => does(out, NormalEffect::Nothing),
            },
            Some(NormalBinding::DeleteComment) => match (view.cursor_line, view.cursor_comment) {
                (Some(_), Some(i)) => does(out, NormalEffect::DeleteComment(i)),
                (Some(_), None) => stays(out) && out.effect == NormalEffect::Nothing && says(
                    out,
                    "No comment on this line"@,
                ),
                _ => does(out, NormalEffect::Nothing),
            },
            Some(NormalBinding::CommentLine) => match (view.cursor_line, view.cursor_comment) {
                (Some(_), Some(i)) => goes(out, NormalNext::EditComment(i)),
                (Some(l), None) => goes(out, NormalNext::NewComment(l)),
                _ => does(out, NormalEffect::Nothing),
            },
            Some(NormalBinding::NextError) => does(out, NormalEffect::NextError),
            Some(NormalBinding::PrevError) => does(out, NormalEffect::PrevError),
            Some(NormalBinding::NextWarning) => does(out, NormalEffect::NextWarning),
            Some(NormalBinding::PrevWarning) => does(out, NormalEffect::PrevWarning),
            Some(NormalBinding::ShowKeybindings) => goes(out, NormalNext::Help),
            Some(NormalBinding::Global) => false,
        },
    }
}

/// Normal mode: the count typed before a motion.
#[derive(Debug)]
pub struct NormalMode {
    pub count: Option<usize>,
}

impl NormalMode {
    /// Normal mode with no count.
    pub fn new() -> (r: Self)
        ensures
            r.count is None,
    {
        NormalMode { count: None }
    }

    fn pick(bound: &Vec<NormalBinding>, view: &NormalView) -> (r: Option<usize>)
        ensures
            match r {
                Some(i) => taken_from(bound@, *view, 0) == Some(i as int) && i < bound@.len(),
                None => taken_from(bound@, *view, 0) is None,
            },
    {
        let mut i: usize = 0;
        while i < bound.len()
            invariant
                i <= bound@.len(),
                taken_from(bound@, *view, 0) == taken_from(bound@, *view, i as int),
            decreases bound@.len() - i,
        {
            let taken = match &bound[i] {
                NormalBinding::ClearSearch => view.has_search || view.has_notification,
                _ => true,
            };
            if taken {
                return Some(i);
            }
            i += 1;
        }
        None
    }

    fn open(text: &str, cursor: usize) -> (out: NormalOutcome)
        ensures
            opens(out, text@, cursor as int),
            !out.g_pressed,
    {
        NormalOutcome {
            next: NormalNext::Command { input: String::from_str(text), cursor },
            result: KeyResult::Handled,
            effect: NormalEffect::Nothing,
            g_pressed: false,
            clear_command_error: true,
            message: None,
        }
    }

    fn go(next: NormalNext) -> (out: NormalOutcome)
        ensures
            out.next == next,
            out.result is Handled,
            out.effect == NormalEffect::Nothing,
            quiet(out),
            !out.g_pressed,
    {
        NormalOutcome { next, result: KeyResult::Handled, effect: NormalEffect::Nothing, g_pressed: false, clear_command_error: false, message: None }
    }

    fn act(effect: NormalEffect) -> (out: NormalOutcome)
        ensures
            does(out, effect),
            !out.g_pressed,
    {
        NormalOutcome { next: NormalNext::Stay, result: KeyResult::Handled, effect, g_pressed: false, clear_command_error: false, message: None }
    }

    fn say(text: &str) -> (out: NormalOutcome)
        ensures
            stays(out),
            out.effect == NormalEffect::Nothing,
            says(out, text@),
            !out.g_pressed,
    {
        NormalOutcome {
            next: NormalNext::Stay,
            result: KeyResult::Handled,
            effect: NormalEffect::Nothing,
            g_pressed: false,
            clear_command_error: false,
            message: Some(String::from_str(text)),
        }
    }

    /// Handles one key. `bound` lists the configured keys the press matches,
    /// in the order of `NormalBinding`; the first that is taken acts. A
    /// digit (1–9, or 0 after a count) extends the count instead.
    #[verifier::rlimit(40)]
    pub fn handle_key(&mut self, k: KeyInput, bound: &Vec<NormalBinding>, view: &NormalView) -> (out: NormalOutcome)
        ensures
            match count_step(old(self).count, k) {
                Some(c) => final(self).count == c && does(out, NormalEffect::Nothing) && out.g_pressed
                    == view.g_pressed,
                None => normal_outcome(old(self).count, final(self).count, first_taken(bound@, *view), *view, out),
            },
    {
        match push_count_key(self.count, &k) {
            Some(c) => {
                self.count = c;
                let out = Self::act(NormalEffect::Nothing);
                return NormalOutcome { g_pressed: view.g_pressed, ..out };
            },
            None => {},
        }
        let count = self.count;
        let cnt = match count {
            Some(c) => c,
            None => 1,
        };
        let off = view.scroll_offset;
        let picked = Self::pick(bound, view);
        let i = match picked {
            Some(i) => i,
            None => {
                self.count = None;
                return Self::act(NormalEffect::Nothing);
            },
        };
        let b = &bound[i];
        match b {
            NormalBinding::Global => {
                self.count = None;
                return NormalOutcome {
                    next: NormalNext::Stay,
                    result: KeyResult::Ignored,
                    effect: NormalEffect::Nothing,
                    g_pressed: view.g_pressed,
                    clear_command_error: false,
                    message: None,
                };
            },
            NormalBinding::GoToTopChord => {
                if !view.g_pressed {
                    let out = Self::act(NormalEffect::Nothing);
                    return NormalOutcome { g_pressed: true, ..out };
                }
            },
            _ => {},
        }
        self.count = None;
        match b {
            NormalBinding::Custom(cmd) => NormalOutcome {
                next: NormalNext::Stay,
                result: KeyResult::ExecuteCommand(cmd.clone()),
                effect: NormalEffect::Nothing,
                g_pressed: false,
                clear_command_error: false,
                message: None,
            },
            NormalBinding::Global => Self::act(NormalEffect::Nothing),
            NormalBinding::HalfPageDown => Self::act(
                NormalEffect::Scroll(off.saturating_add(saturating_mul(half_page(view.visible_height), cnt))),
            ),
            NormalBinding::HalfPageUp => Self::act(
                NormalEffect::Scroll(off.saturating_sub(saturating_mul(half_page(view.visible_height), cnt))),
            ),
            NormalBinding::PageDown => Self::act(
                NormalEffect::Scroll(off.saturating_add(saturating_mul(full_page(view.visible_height), cnt))),
            ),
            NormalBinding::PageUp => Self::act(
                NormalEffect::Scroll(off.saturating_sub(saturating_mul(full_page(view.visible_height), cnt))),
            ),
            NormalBinding::CommandMode => Self::open("", 0),
            NormalBinding::FilterMode => {
                let last = view.num_filters.saturating_sub(1);
                let idx = if view.last_selected_filter < last { view.last_selected_filter } else { last };
                Self::go(NormalNext::FilterManagement(idx))
            },
            NormalBinding::GroupMode => {
                let name = match &view.first_group {
                    Some(g) => g.clone(),
                    None => String::new(),
                };
                Self::go(NormalNext::GroupManagement(name))
            },
            NormalBinding::ToggleFiltering => Self::act(NormalEffect::ToggleFiltering),
            NormalBinding::ToggleHighlightMode => Self::act(NormalEffect::ToggleHighlightMode),
            NormalBinding::FilterInclude => Self::open("filter ", 7),
            NormalBinding::FilterIncludeAuto => Self::open("filter --auto ", 14),
            NormalBinding::FilterExclude => Self::open("exclude ", 8),
            NormalBinding::EnterUiMode => Self::go(NormalNext::Ui),
            NormalBinding::ScrollDown => Self::act(NormalEffect::Scroll(off.saturating_add(cnt))),
            NormalBinding::ScrollUp => Self::act(NormalEffect::Scroll(off.saturating_sub(cnt))),
            NormalBinding::ScrollLeft => Self::act(
                if view.wrap {
                    NormalEffect::Nothing
                } else {
                    NormalEffect::HorizontalScroll(view.horizontal_scroll.saturating_sub(1))
                },
            ),
            NormalBinding::ScrollRight => Self::act(
                if view.wrap {
                    NormalEffect::Nothing
                } else {
                    NormalEffect::HorizontalScroll(view.horizontal_scroll.saturating_add(1))
                },
            ),
            NormalBinding::StartOfLine => Self::act(NormalEffect::HorizontalScroll(0)),
            NormalBinding::EndOfLine => Self::act(
                match view.cursor_line {
                    Some(l) => NormalEffect::ScrollToLineEnd(l),
                    None => NormalEffect::Nothing,
                },
            ),
            NormalBinding::GoToBottom => Self::act(
                match count {
                    Some(c) => NormalEffect::GotoLine(c),
                    None => if view.visible_len > 0 {
                        NormalEffect::Scroll(view.visible_len - 1)
                    } else {
                        NormalEffect::Nothing
                    },
                },
            ),
            NormalBinding::GoToTopChord => Self::act(
                match count {
                    Some(c) => NormalEffect::GotoLine(c),
                    None => NormalEffect::Scroll(0),
                },
            ),
            NormalBinding::MarkLine => Self::act(
                match view.cursor_line {
                    Some(l) => NormalEffect::ToggleMark(l),
                    None => NormalEffect::Nothing,
                },
            ),
            NormalBinding::ExpandContinuation => Self::act(
                match (view.cursor_line, view.continuation_parent) {
                    (Some(_), Some(p)) => NormalEffect::SetCollapsed(p, false),
                    _ => NormalEffect::Nothing,
                },
            ),
            NormalBinding::CollapseContinuation => Self::act(
                match (view.cursor_line, view.continuation_parent) {
                    (Some(_), Some(p)) => NormalEffect::SetCollapsed(p, true),
                    _ => NormalEffect::Nothing,
                },
            ),
            NormalBinding::ToggleMarksOnly => Self::act(NormalEffect::ToggleMarksOnly),
            NormalBinding::YankLine => {
                if view.visible_len == 0 {
                    Self::say("No visible lines")
                } else {
                    let last = view.visible_len - 1;
                    Self::act(NormalEffect::YankLine(if off < last { off } else { last }))
                }
            },
            NormalBinding::YankMarked => Self::act(NormalEffect::YankMarked),
            NormalBinding::VisualMode => Self::go(NormalNext::VisualLine(off)),
            NormalBinding::VisualChar => {
                let out = Self::go(NormalNext::VisualChar);
                NormalOutcome { effect: NormalEffect::CancelSearch, ..out }
            },
            NormalBinding::SearchForward => Self::go(NormalNext::Search { forward: true }),
            NormalBinding::SearchBackward => Self::go(NormalNext::Search { forward: false }),
            NormalBinding::NextMatch => Self::act(
                if view.has_search {
                    NormalEffect::NextMatch
                } else {
                    NormalEffect::NextMark
                },
            ),
            NormalBinding::PrevMatch => Self::act(
                if view.has_search {
                    NormalEffect::PrevMatch
                } else {
                    NormalEffect::PrevMark
                },
            ),
            NormalBinding::ClearSearch => Self::act(NormalEffect::ClearSearch),
            NormalBinding::ClearAll => {
                let out = Self::say("Cleared all marks and comments");
                NormalOutcome { effect: NormalEffect::ClearAll, ..out }
            },
            NormalBinding::EditComment => match (view.cursor_line, view.cursor_comment) {
                (Some(_), Some(c)) => Self::go(NormalNext::EditComment(c)),
                (Some(_), None) => Self::say("No comment on this line"),
                _ => Self::act(NormalEffect::Nothing),
            },
            NormalBinding::DeleteComment => match (view.cursor_line, view.cursor_comment) {
                (Some(_), Some(c)) => Self::act(NormalEffect::DeleteComment(c)),
                (Some(_), None) => Self::say("No comment on this line"),
                _ => Self::act(NormalEffect::Nothing),
            },
            NormalBinding::CommentLine => match (view.cursor_line, view.cursor_comment) {
                (Some(_), Some(c)) => Self::go(NormalNext::EditComment(c)),
                (Some(l), None) => Self::go(NormalNext::NewComment(l)),
                _ => Self::act(NormalEffect::Nothing),
            },
            NormalBinding::NextError => Self::act(NormalEffect::NextError),
            NormalBinding::PrevError => Self::act(NormalEffect::PrevError),
            NormalBinding::NextWarning => Self::act(NormalEffect::NextWarning),
            NormalBinding::PrevWarning => Self::act(NormalEffect::PrevWarning),
            NormalBinding::ShowKeybindings => Self::go(NormalNext::Help),
        }
    }
}

/// A compiled search pattern, carried through to the matcher.
#[verifier::external_type_specification]
#[verifier::external_body]
pub struct ExRegex(regex::Regex);

/// Whether `pattern` compiles as a regular expression.
pub uninterp spec fn regex_compiles(pattern: Seq<char>) -> bool;

/// Where the `k`-th match (from 0) of the regular expression `pattern` in
/// `text` starts, as a byte offset; `None` when there are not that many
/// matches.
pub uninterp spec fn nth_match_start_of(pattern: Seq<char>, text: Seq<char>, k: nat) -> Option<usize>;

/// The search pattern, compiled once, together with the pattern it was
/// compiled from. Only `SearchRegex::new` makes one.
pub struct SearchRegex {
    re: regex::Regex,
    pattern: Ghost<Seq<char>>,
}

impl SearchRegex {
    /// The pattern this regular expression was compiled from.
    pub closed spec fn pattern(&self) -> Seq<char> {
        self.pattern@
    }

    /// The search `pattern` compiled, or `None` when it is not a valid
    /// regular expression.
    pub fn new(pattern: &str) -> (r: Option<SearchRegex>)
        ensures
            r.is_some() == regex_compiles(pattern@),
            r matches Some(x) ==> x.pattern() == pattern@,
    {
        compile_search_regex(pattern)
    }
}

/// `regex::Regex::new(pattern)`: the contract claims that compiling
/// succeeds exactly when `regex_compiles(pattern)`, and that what comes
/// back is the regular expression of `pattern`.
#[verifier::external_body]
fn compile_search_regex(pattern: &str) -> (r: Option<SearchRegex>)
    ensures
        r.is_some() == regex_compiles(pattern@),
        r matches Some(x) ==> x.pattern() == pattern@,
{
    match regex::Regex::new(pattern) {
        Ok(re) => Some(SearchRegex { re, pattern: Ghost(pattern@) }),
        Err(_) => None,
    }
}

/// `re.find_iter(text).nth(k)`, by its start: the byte offset where the
/// `k`-th match (from 0) of `re` in `text` begins. The contract names the
/// answer `nth_match_start_of` of the pattern, the text and `k`, and states
/// what the `regex` documentation guarantees of `Match::start`: it falls
/// on a character boundary of the text.
#[verifier::external_body]
fn nth_match_start(re: &SearchRegex, text: &str, k: usize) -> (r: Option<usize>)
    ensures
        r == nth_match_start_of(re.pattern(), text@, k as nat),
        r matches Some(b) ==> b <= encode_utf8(text@).len() && is_char_boundary(encode_utf8(text@), b as int),
{
    match re.re.find_iter(text).nth(k) {
        Some(m) => Some(m.start()),
        None => None,
    }
}

/// The number of characters in the first `b` bytes of `text`.
pub open spec fn chars_before(text: Seq<char>, b: int) -> int {
    decode_utf8(encode_utf8(text).take(b)).len() as int
}

/// How many characters lie before byte offset `b` of `text`, `b` being a
/// character boundary.
pub fn char_offset(text: &str, b: usize) -> (r: usize)
    requires
        is_char_boundary(encode_utf8(text@), b as int),
    ensures
        r == chars_before(text@, b as int),
{
    let tail = str_tail(text, b);
    let n = text.unicode_len();
    let m = tail.unicode_len();
    proof {
        let bytes = encode_utf8(text@);
        encode_utf8_valid_utf8(text@);
        encode_utf8_decode_utf8(text@);
        encode_utf8_decode_utf8(tail@);
        decode_utf8_split(bytes, b as int);
        assert(bytes.subrange(0, b as int) =~= bytes.take(b as int));
        assert(bytes.subrange(b as int, bytes.len() as int) =~= bytes.skip(b as int));
    }
    n - m
}

/// The character column where the search match current on the cursor
/// line starts, given where that match starts (if the line has it).
pub open spec fn match_column(line_text: Seq<char>, occurrence: Option<usize>, pattern: Option<Seq<char>>) -> int {
    match (occurrence, pattern) {
        (Some(k), Some(p)) => match nth_match_start_of(p, line_text, k as nat) {
            Some(b) => chars_before(line_text, b as int),
            None => 0,
        },
        _ => 0,
    }
}

/// The character column where the search match current on the cursor
/// line starts: `occurrence` is the index of that match among the line's
/// matches (none when the cursor line has no current match), `pattern`
/// the compiled search; 0 when either is missing or the line has fewer
/// matches.
pub fn search_match_char_offset(occurrence: Option<usize>, pattern: Option<&SearchRegex>, line_text: &str) -> (r: usize)
    ensures
        r == match_column(
            line_text@,
            occurrence,
            match pattern {
                Some(p) => Some(p.pattern()),
                None => None,
            },
        ),
{
    let k = match occurrence {
        Some(k) => k,
        None => {
            return 0;
        },
    };
    let re = match pattern {
        Some(re) => re,
        None => {
            return 0;
        },
    };
    match nth_match_start(re, line_text, k) {
        Some(b) => char_offset(line_text, b),
        None => 0,
    }
}

/// Paging in the log view moves by whole pages: PageDown and PageUp move
/// the view by the visible height (at least one line) for each count (one
/// when no count is typed), HalfPageDown and HalfPageUp by half the visible
/// height (at least one line) for each count; the offset stops at 0 and at
/// `usize::MAX`. The count is used up and normal mode stays.
pub proof fn lemma_paging_distance(
    count: Option<usize>,
    new_count: Option<usize>,
    b: NormalBinding,
    view: NormalView,
    out: NormalOutcome,
)
    requires
        normal_outcome(count, new_count, Some(b), view, out),
        b is PageDown || b is PageUp || b is HalfPageDown || b is HalfPageUp,
    ensures
        new_count is None,
        out.next is Stay,
        out.result is Handled,
        ({
            let c: int = match count {
                Some(n) => n as int,
                None => 1,
            };
            let o = view.scroll_offset as int;
            let h = view.visible_height as int;
            let whole: int = if h == 0 { 1 } else { h };
            let halved: int = if h < 4 { 1 } else { h / 2 };
            let step: int = if b is PageDown || b is PageUp { whole } else { halved };
            let target: int = if b is PageDown || b is HalfPageDown {
                if o + step * c > usize::MAX { usize::MAX as int } else { o + step * c }
            } else {
                if o < step * c { 0 } else { o - step * c }
            };
            out.effect == NormalEffect::Scroll(target as usize)
        }),
{
    let c: int = match count {
        Some(n) => n as int,
        None => 1,
    };
    let h = view.visible_height as int;
    let whole: int = if h == 0 { 1 } else { h };
    let halved: int = if h < 4 { 1 } else { h / 2 };
    let page: int = if view.visible_height > 1 { view.visible_height as int } else { 1 };
    let half: int = if view.visible_height / 2 > 1 { (view.visible_height / 2) as int } else { 1 };
    assert(whole == page);
    assert(halved == half);
    assert(whole * c == page * c);
    assert(halved * c == half * c);
    assert(c >= 0);
    assert(page * c >= 0) by (nonlinear_arith)
        requires
            page >= 1,
            c >= 0,
    ;
    assert(half * c >= 0) by (nonlinear_arith)
        requires
            half >= 1,
            c >= 0,
    ;
}

/// `G` scrolls to the last visible line (nothing happens when no line is
/// visible) and `gg` to the first; with a count typed both jump to that
/// line number instead. The first `g` of `gg` only arms the chord and keeps
/// the count. Every jump uses up the count and stays in normal mode.
pub proof fn lemma_jumps(
    count: Option<usize>,
    new_count: Option<usize>,
    b: NormalBinding,
    view: NormalView,
    out: NormalOutcome,
)
    requires
        normal_outcome(count, new_count, Some(b), view, out),
        b is GoToBottom || b is GoToTopChord,
    ensures
        out.next is Stay,
        out.result is Handled,
        b is GoToTopChord && !view.g_pressed ==> out.g_pressed && new_count == count && out.effect
            == NormalEffect::Nothing,
        b is GoToBottom || view.g_pressed ==> !out.g_pressed && new_count is None,
        (b is GoToBottom || view.g_pressed) && count is Some ==> out.effect == NormalEffect::GotoLine(count->0),
        b is GoToBottom && count is None && view.visible_len > 0 ==> out.effect == NormalEffect::Scroll(
            (view.visible_len - 1) as usize,
        ),
        b is GoToBottom && count is None && view.visible_len == 0 ==> out.effect == NormalEffect::Nothing,
        b is GoToTopChord && view.g_pressed && count is None ==> out.effect == NormalEffect::Scroll(0),
{
}

} // verus!
