//! The `:` command line: editing the input, walking the command history,
//! and cycling through completions with Tab / Shift-Tab.

use vstd::prelude::*;
use vstd::utf8::*;
use crate::editor::{boundary, byte_len, bytes_of, insert_at, remove_at, string_insert, string_remove};
use crate::key::{Key, KeyInput, KeyResult};
use crate::text::{chars_of, is_whitespace, lemma_trimmed_len, string_from_chars, trim, trimmed, unicode_white_space};

verus! {

broadcast use group_utf8_lib;

/// The whitespace-separated words of `s`, in order (what
/// `str::split_whitespace` yields).
pub open spec fn words(s: Seq<char>) -> Seq<Seq<char>>
    decreases s.len(),
{
    if s.len() == 0 {
        Seq::empty()
    } else {
        let t = words(s.drop_last());
        let c = s.last();
        if unicode_white_space(c) {
            t
        } else if s.len() >= 2 && !unicode_white_space(s[s.len() - 2]) && t.len() > 0 {
            t.update(t.len() - 1, t.last().push(c))
        } else {
            t.push(seq![c])
        }
    }
}

/// The word `export`.
pub open spec fn export_word() -> Seq<char> {
    seq!['e', 'x', 'p', 'o', 'r', 't']
}

/// The short template flag `-t`.
pub open spec fn short_template_flag() -> Seq<char> {
    seq!['-', 't']
}

/// The long template flag `--template`.
pub open spec fn long_template_flag() -> Seq<char> {
    seq!['-', '-', 't', 'e', 'm', 'p', 'l', 'a', 't', 'e']
}

/// Whether `w` is one of the template flags.
pub open spec fn is_template_flag(w: Seq<char>) -> bool {
    w == short_template_flag() || w == long_template_flag()
}

/// The template-name prefix to complete in `input`: when the trimmed input
/// starts with `export` and has at least two words, the last word if the
/// one before it is `-t`/`--template`, or the empty prefix if the last word
/// is such a flag and the input ends with a space; `None` otherwise.
pub open spec fn template_partial(input: Seq<char>) -> Option<Seq<char>> {
    let t = trimmed(input);
    let w = words(t);
    if !(t.len() >= 6 && t.take(6) == export_word()) {
        None
    } else if w.len() < 2 {
        None
    } else if is_template_flag(w[w.len() - 2]) {
        Some(w.last())
    } else if is_template_flag(w.last()) && input.len() > 0 && input.last() == ' ' {
        Some(Seq::empty())
    } else {
        None
    }
}

fn split_words(s: &Vec<char>) -> (r: Vec<Vec<char>>)
    ensures
        r@.map_values(|w: Vec<char>| w@) == words(s@),
{
    let mut out: Vec<Vec<char>> = Vec::new();
    let mut i: usize = 0;
    while i < s.len()
        invariant
            i <= s@.len(),
            out@.map_values(|w: Vec<char>| w@) == words(s@.take(i as int)),
        decreases s@.len() - i,
    {
        let c = s[i];
        let ghost before = out@.map_values(|w: Vec<char>| w@);
        proof {
            assert(s@.take(i + 1).drop_last() =~= s@.take(i as int));
        }
        if !is_whitespace(c) {
            if i >= 1 && !is_whitespace(s[i - 1]) && out.len() > 0 {
                let last = out.len() - 1;
                let mut w = out.remove(last);
                w.push(c);
                out.push(w);
                assert(out@.map_values(|w: Vec<char>| w@) =~= before.update(before.len() - 1, before.last().push(c)));
            } else {
                let mut w: Vec<char> = Vec::new();
                w.push(c);
                out.push(w);
                assert(out@.map_values(|w: Vec<char>| w@) =~= before.push(seq![c]));
            }
        }
        i += 1;
    }
    assert(s@.take(s@.len() as int) =~= s@);
    out
}

fn same_chars(a: &Vec<char>, b: &[char]) -> (r: bool)
    ensures
        r == (a@ == b@),
{
    if a.len() != b.len() {
        return false;
    }
    let mut i: usize = 0;
    while i < a.len()
        invariant
            i <= a@.len(),
            a@.len() == b@.len(),
            forall|j: int| 0 <= j < i ==> a@[j] == b@[j],
        decreases a@.len() - i,
    {
        if a[i] != b[i] {
            return false;
        }
        i += 1;
    }
    assert(a@ =~= b@);
    true
}

fn template_flag(w: &Vec<char>) -> (r: bool)
    ensures
        r == is_template_flag(w@),
{
    let short = ['-', 't'];
    let long = ['-', '-', 't', 'e', 'm', 'p', 'l', 'a', 't', 'e'];
    assert(short@ =~= short_template_flag());
    assert(long@ =~= long_template_flag());
    same_chars(w, &short) || same_chars(w, &long)
}

/// If the input is `export ... -t <partial>` or `export ... --template
/// <partial>`, the partial template name to complete.
pub fn extract_template_partial(input: &str) -> (r: Option<String>)
    ensures
        match template_partial(input@) {
            Some(p) => r matches Some(s) && s@ == p,
            None => r is None,
        },
{
    let t = trim(input);
    let tc = chars_of(t.as_str());
    if tc.len() < 6 {
        return None;
    }
    let head = ['e', 'x', 'p', 'o', 'r', 't'];
    let mut first: Vec<char> = Vec::new();
    let mut i: usize = 0;
    while i < 6
        invariant
            i <= 6,
            tc@.len() >= 6,
            first@ == tc@.take(i as int),
        decreases 6 - i,
    {
        first.push(tc[i]);
        assert(tc@.take(i + 1) =~= tc@.take(i as int).push(tc@[i as int]));
        i += 1;
    }
    assert(head@ =~= export_word());
    if !same_chars(&first, &head) {
        return None;
    }
    let w = split_words(&tc);
    let n = w.len();
    if n < 2 {
        return None;
    }
    proof {
        assert(w@.map_values(|w: Vec<char>| w@)[n - 2] == w@[n - 2]@);
        assert(w@.map_values(|w: Vec<char>| w@)[n - 1] == w@[n - 1]@);
    }
    if template_flag(&w[n - 2]) {
        return Some(string_from_chars(&w[n - 1]));
    }
    let ic = chars_of(input);
    if template_flag(&w[n - 1]) && ic.len() > 0 && ic[ic.len() - 1] == ' ' {
        return Some(String::new());
    }
    None
}

/// The command line.
#[derive(Debug)]
pub struct CommandMode {
    pub input: String,
    /// Cursor, as a byte offset into `input`.
    pub cursor: usize,
    pub history: Vec<String>,
    /// The history entry shown, when walking the history.
    pub history_index: Option<usize>,
    /// The highlighted completion, when cycling completions.
    pub completion_index: Option<usize>,
}

/// The configured command-line key the press matches, confirm first.
#[derive(Debug, Clone, Copy, PartialEq, Eq, Structural)]
pub enum CommandBinding {
    Confirm,
    Cancel,
}

/// Where the command line goes after a key.
#[derive(Debug, Clone, Copy, PartialEq, Eq, Structural)]
pub enum CommandNext {
    Stay,
    Normal,
    /// Back to the filter list, with this filter selected.
    FilterManagement(usize),
}

/// What a key did to the command line, besides the next mode and result.
#[derive(Debug, Clone, Copy, PartialEq, Eq, Structural)]
pub struct CommandEffects {
    /// Clear the last command error (a character was typed).
    pub clear_error: bool,
    /// Forget the filter being edited and the filter-list context (cancel).
    pub clear_filter_context: bool,
}

impl CommandMode {
    /// The command line with `input`, the cursor at byte `cursor`, and the
    /// command `history` to walk with Up/Down.
    pub fn with_history(input: String, cursor: usize, history: Vec<String>) -> (r: Self)
        ensures
            r.input == input,
            r.cursor == cursor,
            r.history == history,
            r.history_index is None,
            r.completion_index is None,
    {
        CommandMode { input, cursor, history, history_index: None, completion_index: None }
    }

    /// Whether the command line can take `k` without panicking: an edit
    /// must start at a character boundary of the input, and the history
    /// position must lie in the history.
    pub open spec fn key_ok(&self, bound: Option<CommandBinding>, k: KeyInput) -> bool {
        let b = bytes_of(self.input);
        bound is None ==> match k.key {
            Key::Backspace => self.cursor > 0 && b.len() > 0 ==> self.cursor - 1 < b.len()
                && is_char_boundary(b, self.cursor - 1),
            Key::Char(c) => !(c == ' ' && self.completion_index is Some) ==> is_char_boundary(b, self.cursor as int),
            Key::Up => self.history@.len() > 0 ==> match self.history_index {
                Some(i) => i == 0 || i - 1 < self.history@.len(),
                None => true,
            },
            _ => true,
        }
    }

    /// Tests `key_ok` for the current state.
    pub fn accepts(&self, bound: Option<CommandBinding>, k: &KeyInput) -> (r: bool)
        ensures
            r == self.key_ok(bound, *k),
    {
        if bound.is_some() {
            return true;
        }
        match k.key {
            Key::Backspace => {
                let len = byte_len(&self.input);
                self.cursor == 0 || len == 0 || (self.cursor - 1 < len && boundary(&self.input, self.cursor - 1))
            },
            Key::Char(c) => (c == ' ' && self.completion_index.is_some()) || boundary(&self.input, self.cursor),
            Key::Up => self.history.len() == 0 || match self.history_index {
                Some(i) => i == 0 || i - 1 < self.history.len(),
                None => true,
            },
            _ => true,
        }
    }

    /// Handles one key. `bound` is the configured key the press matches
    /// (confirm before cancel); `completions` are the completions of the
    /// current input (only read for Tab, Shift-Tab, and Space while a
    /// completion is highlighted); `filter_context` is the filter-list
    /// selection to return to on cancel, if the command was opened there.
    pub fn handle_key(
        &mut self,
        bound: Option<CommandBinding>,
        k: KeyInput,
        completions: &Vec<String>,
        filter_context: Option<usize>,
    ) -> (r: (CommandNext, KeyResult, CommandEffects))
        requires
            old(self).key_ok(bound, k),
        ensures
            final(self).history == old(self).history,
            bound == Some(CommandBinding::Confirm) ==> r.0 == CommandNext::Normal && (r.1 matches KeyResult::ExecuteCommand(
                cmd,
            ) && cmd@ == trimmed(old(self).input@)) && !r.2.clear_error && !r.2.clear_filter_context,
            bound == Some(CommandBinding::Cancel) ==> r.1 is Handled && r.2.clear_filter_context && !r.2.clear_error
                && r.0 == match filter_context {
                Some(idx) => CommandNext::FilterManagement(idx),
                None => CommandNext::Normal,
            },
            bound is None ==> r.0 == CommandNext::Stay && r.1 is Handled && !r.2.clear_filter_context && {
                let o = *old(self);
                let f = *final(self);
                let b = bytes_of(o.input);
                match k.key {
                    Key::Backspace => !r.2.clear_error && f.history_index == o.history_index && if o.cursor > 0
                        && b.len() > 0 {
                        bytes_of(f.input) == remove_at(b, o.cursor - 1) && f.cursor == o.cursor - 1
                            && f.completion_index is None
                    } else {
                        f.input == o.input && f.cursor == o.cursor && f.completion_index == o.completion_index
                    },
                    Key::Char(c) => if c == ' ' && o.completion_index is Some {
                        &&& !r.2.clear_error
                        &&& f.completion_index is None
                        &&& f.history_index == o.history_index
                        &&& if o.completion_index->0 < completions@.len() {
                            f.input@ == completions@[o.completion_index->0 as int]@ && f.cursor == bytes_of(
                                f.input,
                            ).len()
                        } else {
                            f.input == o.input && f.cursor == o.cursor
                        }
                    } else {
                        &&& r.2.clear_error
                        &&& bytes_of(f.input) == insert_at(b, o.cursor as int, c)
                        &&& f.cursor == o.cursor + 1
                        &&& f.completion_index is None
                        &&& f.history_index is None
                    },
                    Key::Left => !r.2.clear_error && f.input == o.input && f.history_index == o.history_index
                        && f.completion_index == o.completion_index && f.cursor == (if o.cursor > 0 {
                        o.cursor - 1
                    } else {
                        0
                    }),
                    Key::Right => !r.2.clear_error && f.input == o.input && f.history_index == o.history_index
                        && f.completion_index == o.completion_index && f.cursor == (if o.cursor < b.len() {
                        o.cursor + 1
                    } else {
                        o.cursor as int
                    }),
                    Key::Up => !r.2.clear_error && f.completion_index == o.completion_index && if o.history@.len()
                        == 0 {
                        f.input == o.input && f.cursor == o.cursor && f.history_index == o.history_index
                    } else {
                        let i = match o.history_index {
                            None => o.history@.len() - 1,
                            Some(j) => if j == 0 { 0 } else { j - 1 },
                        };
                        &&& f.input@ == o.history@[i]@
                        &&& f.cursor == bytes_of(f.input).len()
                        &&& f.history_index == Some(i as usize)
                    },
                    Key::Down => !r.2.clear_error && f.completion_index == o.completion_index && match o.history_index {
                        Some(j) => if o.history@.len() == 0 {
                            f.input == o.input && f.cursor == o.cursor && f.history_index == o.history_index
                        } else if j + 1 >= o.history@.len() {
                            f.input@ == Seq::<char>::empty() && f.cursor == 0 && f.history_index is None
                        } else {
                            f.input@ == o.history@[j + 1]@ && f.cursor == bytes_of(f.input).len() && f.history_index
                                == Some((j + 1) as usize)
                        },
                        None => f.input == o.input && f.cursor == o.cursor && f.history_index is None,
                    },
                    Key::Tab | Key::BackTab => !r.2.clear_error && f.input == o.input && f.cursor == o.cursor
                        && f.history_index == o.history_index && if completions@.len() == 0 {
                        f.completion_index == o.completion_index
                    } else {
                        let n = completions@.len();
                        f.completion_index == Some(
                            (if k.key == Key::Tab {
                                match o.completion_index {
                                    None => 0,
                                    Some(i) => (i + 1) % (n as int),
                                }
                            } else {
                                match o.completion_index {
                                    None => n - 1,
                                    Some(i) => if i == 0 { n - 1 } else { i - 1 },
                                }
                            }) as usize,
                        )
                    },
                    _ => !r.2.clear_error && f == o,
                }
            },
    {
        let quiet = CommandEffects { clear_error: false, clear_filter_context: false };
        match bound {
            Some(CommandBinding::Confirm) => {
                let cmd = trim(self.input.as_str());
                return (CommandNext::Normal, KeyResult::ExecuteCommand(cmd), quiet);
            },
            Some(CommandBinding::Cancel) => {
                let effects = CommandEffects { clear_error: false, clear_filter_context: true };
                let next = match filter_context {
                    Some(idx) => CommandNext::FilterManagement(idx),
                    None => CommandNext::Normal,
                };
                return (next, KeyResult::Handled, effects);
            },
            None => {},
        }
        match k.key {
            Key::Backspace => {
                if self.cursor > 0 && !self.input.as_str().is_empty() {
                    proof {
                        assert(encode_utf8(self.input@).len() > 0 ==> self.input@.len() > 0) by {
                            if self.input@.len() == 0 {
                                assert(encode_utf8(self.input@) =~= Seq::<u8>::empty());
                            }
                        }
                    }
                    string_remove(&mut self.input, self.cursor - 1);
                    self.cursor = self.cursor - 1;
                    self.completion_index = None;
                } else {
                    proof {
                        if self.input@.len() == 0 {
                            assert(encode_utf8(self.input@) =~= Seq::<u8>::empty());
                        }
                    }
                }
                (CommandNext::Stay, KeyResult::Handled, quiet)
            },
            Key::Char(c) => {
                if c == ' ' && self.completion_index.is_some() {
                    let idx = match self.completion_index {
                        Some(i) => i,
                        None => 0,
                    };
                    if idx < completions.len() {
                        self.input = completions[idx].clone();
                        self.cursor = byte_len(&self.input);
                    }
                    self.completion_index = None;
                    return (CommandNext::Stay, KeyResult::Handled, quiet);
                }
                string_insert(&mut self.input, self.cursor, c);
                let len = byte_len(&self.input);
                self.cursor = self.cursor + 1;
                self.completion_index = None;
                self.history_index = None;
                (CommandNext::Stay, KeyResult::Handled, CommandEffects { clear_error: true, clear_filter_context: false })
            },
            Key::Left => {
                if self.cursor > 0 {
                    self.cursor = self.cursor - 1;
                }
                (CommandNext::Stay, KeyResult::Handled, quiet)
            },
            Key::Right => {
                if self.cursor < byte_len(&self.input) {
                    self.cursor = self.cursor + 1;
                }
                (CommandNext::Stay, KeyResult::Handled, quiet)
            },
            Key::Up => {
                let n = self.history.len();
                if n > 0 {
                    let i = match self.history_index {
                        None => n - 1,
                        Some(j) => if j == 0 { 0 } else { j - 1 },
                    };
                    self.input = self.history[i].clone();
                    self.cursor = byte_len(&self.input);
                    self.history_index = Some(i);
                }
                (CommandNext::Stay, KeyResult::Handled, quiet)
            },
            Key::Down => {
                let n = self.history.len();
                if n > 0 {
                    match self.history_index {
                        None => {},
                        Some(j) => {
                            if j >= n - 1 {
                                self.input = String::new();
                                self.cursor = 0;
                                self.history_index = None;
                            } else {
                                self.input = self.history[j + 1].clone();
                                self.cursor = byte_len(&self.input);
                                self.history_index = Some(j + 1);
                            }
                        },
                    }
                }
                (CommandNext::Stay, KeyResult::Handled, quiet)
            },
            Key::Tab | Key::BackTab => {
                let n = completions.len();
                if n > 0 {
                    let idx = if k.key == Key::Tab {
                        match self.completion_index {
                            None => 0,
                            Some(i) => {
                                let j = i % n;
                                proof {
                                    assert((i + 1) % (n as int) == if j + 1 == n { 0 } else { j + 1 }) by (nonlinear_arith)
                                        requires n > 0, j as int == (i as int) % (n as int), i >= 0;
                                }
                                if j + 1 == n { 0 } else { j + 1 }
                            },
                        }
                    } else {
                        match self.completion_index {
                            None => n - 1,
                            Some(i) => if i == 0 { n - 1 } else { i - 1 },
                        }
                    };
                    self.completion_index = Some(idx);
                }
                (CommandNext::Stay, KeyResult::Handled, quiet)
            },
            _ => (CommandNext::Stay, KeyResult::Handled, quiet),
        }
    }
}

/// No word is longer than the text it comes from.
pub proof fn lemma_words_len(s: Seq<char>)
    ensures
        forall|i: int| 0 <= i < words(s).len() ==> #[trigger] words(s)[i].len() <= s.len(),
    decreases s.len(),
{
    if s.len() > 0 {
        let t = words(s.drop_last());
        lemma_words_len(s.drop_last());
        let w = words(s);
        assert forall|i: int| 0 <= i < w.len() implies #[trigger] w[i].len() <= s.len() by {
            if i < t.len() {
                assert(t[i].len() <= s.len() - 1);
            }
        }
    }
}

/// The template partial is no longer than the input.
pub proof fn lemma_template_partial_len(input: Seq<char>)
    ensures
        template_partial(input) matches Some(p) ==> p.len() <= input.len(),
{
    lemma_trimmed_len(input);
    lemma_words_len(trimmed(input));
}

} // verus!
