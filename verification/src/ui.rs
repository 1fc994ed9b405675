//! UI mode (toggling the sidebar, mode bar, borders and line wrap) and the
//! `/` and `?` search prompt.

use vstd::prelude::*;
use crate::key::{Key, KeyInput, KeyResult};
use crate::text::{pop_char, push_char};

verus! {

/// The display switches of a tab.
#[derive(Debug, Clone, Copy, PartialEq, Eq, Structural)]
pub struct UiFlags {
    pub sidebar: bool,
    pub mode_bar: bool,
    pub borders: bool,
    pub wrap: bool,
}

/// UI mode: the switches as they were on entry, for the mode bar.
#[derive(Debug)]
pub struct UiMode {
    pub sidebar: bool,
    pub mode_bar: bool,
    pub borders: bool,
    pub wrap: bool,
}

/// The configured UI key a press matches, in the order they are tried.
#[derive(Debug, Clone, Copy, PartialEq, Eq, Structural)]
pub enum UiBinding {
    Exit,
    ToggleSidebar,
    ToggleModeBar,
    ToggleBorders,
    ToggleWrap,
}

/// `name` followed by `[ON]` or `[OFF]`.
pub open spec fn switch_label(name: Seq<char>, on: bool) -> Seq<char> {
    name + if on { "[ON]"@ } else { "[OFF]"@ }
}

impl UiMode {
    /// UI mode over the tab's current switches.
    pub fn from_tab(tab: UiFlags) -> (r: Self)
        ensures
            r.sidebar == tab.sidebar,
            r.mode_bar == tab.mode_bar,
            r.borders == tab.borders,
            r.wrap == tab.wrap,
    {
        UiMode { sidebar: tab.sidebar, mode_bar: tab.mode_bar, borders: tab.borders, wrap: tab.wrap }
    }

    /// The mode-bar labels of the four switches, in order.
    pub fn switch_labels(&self) -> (r: Vec<String>)
        ensures
            r@.len() == 4,
            r@[0]@ == switch_label("sidebar"@, self.sidebar),
            r@[1]@ == switch_label("mode bar"@, self.mode_bar),
            r@[2]@ == switch_label("borders"@, self.borders),
            r@[3]@ == switch_label("wrap"@, self.wrap),
    {
        let mut out: Vec<String> = Vec::new();
        out.push(Self::label("sidebar", self.sidebar));
        out.push(Self::label("mode bar", self.mode_bar));
        out.push(Self::label("borders", self.borders));
        out.push(Self::label("wrap", self.wrap));
        out
    }

    fn label(name: &str, on: bool) -> (r: String)
        ensures
            r@ == switch_label(name@, on),
    {
        let mut s = String::from_str(name);
        if on {
            s.append("[ON]");
        } else {
            s.append("[OFF]");
        }
        s
    }

    /// Handles one key (`bound` is the first UI key the press matches):
    /// exit, or flip one switch of the tab and go back to normal mode (the
    /// mode bar is flipped by the application for every tab, through the
    /// result). Other keys fall through to the global keys.
    pub fn handle_key(&self, bound: Option<UiBinding>, tab: &mut UiFlags) -> (r: (bool, KeyResult))
        ensures
            r.0 == bound is Some,
            match bound {
                Some(UiBinding::ToggleSidebar) => r.1 is Handled && *final(tab) == (UiFlags {
                    sidebar: !old(tab).sidebar,
                    ..*old(tab)
                }),
                Some(UiBinding::ToggleBorders) => r.1 is Handled && *final(tab) == (UiFlags {
                    borders: !old(tab).borders,
                    ..*old(tab)
                }),
                Some(UiBinding::ToggleWrap) => r.1 is Handled && *final(tab) == (UiFlags { wrap: !old(tab).wrap, ..*old(tab) }),
                Some(UiBinding::ToggleModeBar) => r.1 is ToggleModeBar && *final(tab) == *old(tab),
                Some(UiBinding::Exit) => r.1 is Handled && *final(tab) == *old(tab),
                None => r.1 is Ignored && *final(tab) == *old(tab),
            },
    {
        match bound {
            Some(UiBinding::Exit) => (true, KeyResult::Handled),
            Some(UiBinding::ToggleSidebar) => {
                tab.sidebar = !tab.sidebar;
                (true, KeyResult::Handled)
            },
            Some(UiBinding::ToggleModeBar) => (true, KeyResult::ToggleModeBar),
            Some(UiBinding::ToggleBorders) => {
                tab.borders = !tab.borders;
                (true, KeyResult::Handled)
            },
            Some(UiBinding::ToggleWrap) => {
                tab.wrap = !tab.wrap;
                (true, KeyResult::Handled)
            },
            None => (false, KeyResult::Ignored),
        }
    }
}

/// The search prompt.
#[derive(Debug)]
pub struct SearchMode {
    pub input: String,
    /// Searching forward (`/`) or backward (`?`).
    pub forward: bool,
}

/// The configured search-prompt key a press matches, confirm first.
#[derive(Debug, Clone, Copy, PartialEq, Eq, Structural)]
pub enum SearchBinding {
    Confirm,
    Cancel,
}

/// What the application does with the search after a key.
#[derive(Debug, Clone, Copy, PartialEq, Eq, Structural)]
pub enum SearchRequest {
    Nothing,
    /// Run the search for the input, then go to the first match from the
    /// cursor line in the prompt's direction, scrolling to it; normal mode
    /// follows.
    Run,
    /// Drop the search (normal mode follows).
    Clear,
    /// The input changed and is empty: drop the search.
    ClearIncremental,
    /// The input changed: search for it anew and highlight the match
    /// nearest the cursor line without scrolling (see
    /// `seed_incremental_position`).
    Incremental,
}

/// The log line under the cursor: the one at the scroll offset, or 0.
pub open spec fn current_line(visible: Seq<usize>, scroll_offset: int) -> usize {
    if 0 <= scroll_offset < visible.len() {
        visible[scroll_offset]
    } else {
        0
    }
}

/// The search prompt's input after a key: a typed character is added,
/// Backspace takes the last one off; every other key leaves it.
pub open spec fn prompt_after(q: Seq<char>, bound: Option<SearchBinding>, k: KeyInput) -> Seq<char> {
    if k.key == Key::Tab || k.key == Key::BackTab || bound is Some {
        q
    } else {
        match k.key {
            Key::Backspace => if q.len() > 0 {
                q.drop_last()
            } else {
                q
            },
            Key::Char(c) => q.push(c),
            _ => q,
        }
    }
}

/// Typing a character in the search prompt and then pressing Backspace
/// gives back the input there was.
pub proof fn lemma_prompt_type_then_backspace(q: Seq<char>, c: char, k1: KeyInput, k2: KeyInput)
    requires
        k1.key == Key::Char(c),
        k2.key == Key::Backspace,
    ensures
        prompt_after(prompt_after(q, None, k1), None, k2) == q,
{
    assert(q.push(c).drop_last() =~= q);
}

impl SearchMode {
    /// Where an incremental search highlights from: the log line under
    /// the cursor, and the prompt's direction.
    pub fn seed_incremental_position(&self, visible: &Vec<usize>, scroll_offset: usize) -> (r: (usize, bool))
        ensures
            r.0 == current_line(visible@, scroll_offset as int),
            r.1 == self.forward,
    {
        let line = if scroll_offset < visible.len() { visible[scroll_offset] } else { 0 };
        (line, self.forward)
    }

    /// Handles one key (`bound` is the first configured key the press
    /// matches); the input becomes `prompt_after` of the key. Tab and
    /// Shift-Tab fall through to the global keys; the first component of
    /// the result tells whether to leave for normal mode.
    pub fn handle_key(&mut self, bound: Option<SearchBinding>, k: KeyInput) -> (r: (bool, KeyResult, SearchRequest))
        ensures
            final(self).forward == old(self).forward,
            final(self).input@ == prompt_after(old(self).input@, bound, k),
            if k.key == Key::Tab || k.key == Key::BackTab {
                !r.0 && r.1 is Ignored && r.2 == SearchRequest::Nothing && final(self).input == old(self).input
            } else {
                match bound {
                    Some(SearchBinding::Confirm) => r.0 && r.1 is Handled && r.2 == SearchRequest::Run
                        && final(self).input == old(self).input,
                    Some(SearchBinding::Cancel) => r.0 && r.1 is Handled && r.2 == SearchRequest::Clear
                        && final(self).input == old(self).input,
                    None => !r.0 && r.1 is Handled && match k.key {
                        Key::Backspace => {
                            let t = if old(self).input@.len() > 0 {
                                old(self).input@.drop_last()
                            } else {
                                old(self).input@
                            };
                            final(self).input@ == t && r.2 == (if t.len() == 0 {
                                SearchRequest::ClearIncremental
                            } else {
                                SearchRequest::Incremental
                            })
                        },
                        Key::Char(c) => final(self).input@ == old(self).input@.push(c) && r.2
                            == SearchRequest::Incremental,
                        _ => final(self).input == old(self).input && r.2 == SearchRequest::Nothing,
                    },
                }
            },
    {
        if k.key == Key::Tab || k.key == Key::BackTab {
            return (false, KeyResult::Ignored, SearchRequest::Nothing);
        }
        match bound {
            Some(SearchBinding::Confirm) => (true, KeyResult::Handled, SearchRequest::Run),
            Some(SearchBinding::Cancel) => (true, KeyResult::Handled, SearchRequest::Clear),
            None => match k.key {
                Key::Backspace => {
                    let _ = pop_char(&mut self.input);
                    if self.input.as_str().is_empty() {
                        (false, KeyResult::Handled, SearchRequest::ClearIncremental)
                    } else {
                        (false, KeyResult::Handled, SearchRequest::Incremental)
                    }
                },
                Key::Char(c) => {
                    push_char(&mut self.input, c);
                    (false, KeyResult::Handled, SearchRequest::Incremental)
                },
                _ => (false, KeyResult::Handled, SearchRequest::Nothing),
            },
        }
    }
}

} // verus!
