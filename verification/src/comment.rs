//! The multi-line comment editor, opened on a range of selected log lines.
//!
//! Keys: characters insert at the cursor, Enter splits the line (the
//! configured newline key), Backspace deletes or joins lines, the arrows move
//! within and across lines; the configured save, delete and cancel keys
//! leave the editor.

use vstd::prelude::*;
use vstd::utf8::*;
use crate::editor::{self, after_backspace, after_down, after_insert, after_left, after_newline, after_right, after_up, boundary, byte_len, bytes_of, cursor_ok, lines_bytes};
use crate::key::{Key, KeyInput};
use crate::text::{chars_of, join_with, joined, views};

verus! {

broadcast use group_utf8_lib;

/// The comment editor.
#[derive(Debug)]
pub struct CommentMode {
    pub lines: Vec<String>,
    pub cursor_row: usize,
    pub cursor_col: usize,
    /// The file lines the comment is attached to.
    pub line_indices: Vec<usize>,
    /// When editing an existing comment, its index in the comment list.
    pub editing_index: Option<usize>,
}

/// The configured comment keys, in the order the editor checks them.
#[derive(Debug, Clone, Copy, PartialEq, Eq, Structural)]
pub enum CommentBinding {
    Newline,
    Save,
    Delete,
    Cancel,
}

/// What leaving the editor asks of the comment store.
#[derive(Debug)]
pub enum CommentEffect {
    /// Nothing; the editor stays open or is cancelled.
    Nothing,
    /// Store `text` for `line_indices`: replace comment `index` when
    /// editing one (if it still exists), add a new comment otherwise.
    Save { text: String, line_indices: Vec<usize>, editing_index: Option<usize> },
    /// Remove comment `index` when editing one.
    Delete(Option<usize>),
}

/// Where the comment editor goes after a key.
#[derive(Debug, Clone, Copy, PartialEq, Eq, Structural)]
pub enum CommentNext {
    Stay,
    Normal,
}

/// No line contains a newline.
pub open spec fn no_newlines(ls: Seq<Seq<char>>) -> bool {
    forall|i: int, j: int| 0 <= i < ls.len() && 0 <= j < ls[i].len() ==> ls[i][j] != '\n'
}

/// `text` split at its newlines: the pieces join back to `text` and none
/// holds a newline (an empty text gives one empty line).
pub fn split_newlines(text: &str) -> (r: Vec<String>)
    ensures
        r@.len() > 0,
        joined(views(r@), '\n') == text@,
        no_newlines(views(r@)),
{
    let chars = chars_of(text);
    let mut lines: Vec<String> = Vec::new();
    let mut cur = String::new();
    let mut i: usize = 0;
    while i < chars.len()
        invariant
            i <= chars@.len(),
            chars@ == text@,
            joined(views(lines@.push(cur)), '\n') == text@.take(i as int),
            no_newlines(views(lines@.push(cur))),
        decreases chars@.len() - i,
    {
        let c = chars[i];
        let ghost before = lines@.push(cur);
        if c == '\n' {
            lines.push(cur);
            cur = String::new();
            proof {
                let after = lines@.push(cur);
                assert(views(after).drop_last() =~= views(before));
                assert(views(after).last() =~= Seq::<char>::empty());
                assert(views(after).len() >= 2);
                assert(text@.take(i + 1) =~= text@.take(i as int) + seq!['\n']);
                assert(joined(views(after), '\n') =~= joined(views(before), '\n') + seq!['\n'] + Seq::<char>::empty());
                assert forall|a: int, b: int| 0 <= a < views(after).len() && 0 <= b < views(after)[a].len()
                    implies views(after)[a][b] != '\n' by {
                    if a < views(before).len() {
                        assert(views(after)[a] == views(before)[a]);
                    }
                }
            }
        } else {
            crate::text::push_char(&mut cur, c);
            proof {
                let after = lines@.push(cur);
                assert(views(after).drop_last() =~= views(before).drop_last());
                assert(text@.take(i + 1) =~= text@.take(i as int) + seq![c]);
                if views(before).len() == 1 {
                    assert(joined(views(after), '\n') =~= joined(views(before), '\n') + seq![c]);
                } else {
                    assert(joined(views(after), '\n') =~= joined(views(before), '\n') + seq![c]);
                }
                assert forall|a: int, b: int| 0 <= a < views(after).len() && 0 <= b < views(after)[a].len()
                    implies views(after)[a][b] != '\n' by {
                    if a < views(before).len() - 1 {
                        assert(views(after)[a] == views(before)[a]);
                    } else {
                        assert(views(after)[a] == views(before)[a].push(c));
                        if b < views(before)[a].len() {
                            assert(views(after)[a][b] == views(before)[a][b]);
                        }
                    }
                }
            }
        }
        i += 1;
    }
    lines.push(cur);
    assert(text@.take(chars@.len() as int) =~= text@);
    lines
}

impl CommentMode {
    /// The editor can take keys: the cursor lies in the text.
    pub open spec fn wf(&self) -> bool {
        cursor_ok(self.lines@, self.cursor_row as int, self.cursor_col as int)
    }

    /// A new, empty comment for `line_indices`.
    pub fn new(line_indices: Vec<usize>) -> (r: Self)
        ensures
            r.lines@.len() == 1,
            r.lines@[0]@ == Seq::<char>::empty(),
            r.cursor_row == 0,
            r.cursor_col == 0,
            r.line_indices == line_indices,
            r.editing_index is None,
            r.wf(),
    {
        let mut lines: Vec<String> = Vec::new();
        lines.push(String::new());
        let r = CommentMode { lines, cursor_row: 0, cursor_col: 0, line_indices, editing_index: None };
        assert(encode_utf8(Seq::<char>::empty()) =~= Seq::<u8>::empty());
        r
    }

    /// The editor pre-filled with the text of existing comment `index`,
    /// one line per newline-separated piece, the cursor at the very end.
    pub fn edit(index: usize, text: String, line_indices: Vec<usize>) -> (r: Self)
        ensures
            joined(views(r.lines@), '\n') == text@,
            no_newlines(views(r.lines@)),
            r.cursor_row == r.lines@.len() - 1,
            r.cursor_col == bytes_of(r.lines@.last()).len(),
            r.line_indices == line_indices,
            r.editing_index == Some(index),
            r.wf(),
    {
        let lines = split_newlines(text.as_str());
        let cursor_row = lines.len() - 1;
        let cursor_col = byte_len(&lines[cursor_row]);
        CommentMode { lines, cursor_row, cursor_col, line_indices, editing_index: Some(index) }
    }

    /// Only the text and the cursor changed: the text's bytes are now `nb`
    /// and the cursor is at `rc`.
    pub open spec fn edited(old: &Self, new: &Self, nb: Seq<Seq<u8>>, rc: (usize, usize)) -> bool {
        &&& lines_bytes(new.lines@) == nb
        &&& new.cursor_row == rc.0
        &&& new.cursor_col == rc.1
        &&& new.line_indices == old.line_indices
        &&& new.editing_index == old.editing_index
    }

    /// Only the cursor changed, to `rc`.
    pub open spec fn moved(old: &Self, new: &Self, rc: (usize, usize)) -> bool {
        &&& new.lines == old.lines
        &&& new.cursor_row == rc.0
        &&& new.cursor_col == rc.1
        &&& new.line_indices == old.line_indices
        &&& new.editing_index == old.editing_index
    }

    /// Whether the editor can take the key without panicking: an edit must
    /// start at a character boundary of the cursor line.
    pub open spec fn key_ok(&self, bound: Option<CommentBinding>, k: KeyInput) -> bool {
        let line = bytes_of(self.lines@[self.cursor_row as int]);
        let col = self.cursor_col as int;
        match bound {
            Some(CommentBinding::Newline) => is_char_boundary(line, col),
            Some(_) => true,
            None => match k.key {
                Key::Backspace => col > 0 ==> is_char_boundary(line, col - 1),
                Key::Char(_) => !k.ctrl ==> is_char_boundary(line, col),
                _ => true,
            },
        }
    }

    /// Tests `key_ok` for the current state.
    pub fn accepts(&self, bound: Option<CommentBinding>, k: &KeyInput) -> (r: bool)
        requires
            self.wf(),
        ensures
            r == self.key_ok(bound, *k),
    {
        let line = &self.lines[self.cursor_row];
        let col = self.cursor_col;
        match bound {
            Some(CommentBinding::Newline) => boundary(line, col),
            Some(_) => true,
            None => match k.key {
                Key::Backspace => col == 0 || boundary(line, col - 1),
                Key::Char(_) => k.ctrl || boundary(line, col),
                _ => true,
            },
        }
    }

    /// Handles one key. `bound` is the first configured comment key that
    /// the press matches (newline, save, delete, cancel — in that order),
    /// or `None`; unbound keys edit the text.
    pub fn handle_key(&mut self, bound: Option<CommentBinding>, k: KeyInput) -> (r: (CommentNext, CommentEffect))
        requires
            old(self).wf(),
            old(self).key_ok(bound, k),
        ensures
            final(self).wf(),
            match bound {
                Some(CommentBinding::Newline) => r.0 == CommentNext::Stay && r.1 is Nothing && Self::edited(
                    old(self),
                    final(self),
                    after_newline(old(self).lines@, old(self).cursor_row, old(self).cursor_col).0,
                    after_newline(old(self).lines@, old(self).cursor_row, old(self).cursor_col).1,
                ),
                Some(CommentBinding::Save) => r.0 == CommentNext::Normal && *final(self) == *old(self)
                    && match r.1 {
                    CommentEffect::Save { text, line_indices, editing_index } => {
                        &&& text@ == joined(views(old(self).lines@), '\n')
                        &&& line_indices@ == old(self).line_indices@
                        &&& editing_index == old(self).editing_index
                    },
                    _ => false,
                },
                Some(CommentBinding::Delete) => r.0 == CommentNext::Normal && *final(self) == *old(self)
                    && match r.1 {
                    CommentEffect::Delete(idx) => idx == old(self).editing_index,
                    _ => false,
                },
                Some(CommentBinding::Cancel) => r.0 == CommentNext::Normal && r.1 is Nothing && *final(self)
                    == *old(self),
                None => r.0 == CommentNext::Stay && r.1 is Nothing && {
                    let ls = old(self).lines@;
                    let row = old(self).cursor_row;
                    let col = old(self).cursor_col;
                    match k.key {
                        Key::Backspace => Self::edited(
                            old(self),
                            final(self),
                            after_backspace(ls, row, col).0,
                            after_backspace(ls, row, col).1,
                        ),
                        Key::Char(c) => if k.ctrl {
                            *final(self) == *old(self)
                        } else {
                            Self::edited(old(self), final(self), after_insert(ls, row, col, c).0, after_insert(ls, row, col, c).1)
                        },
                        Key::Left => Self::moved(old(self), final(self), after_left(ls, row, col)),
                        Key::Right => Self::moved(old(self), final(self), after_right(ls, row, col)),
                        Key::Up => Self::moved(old(self), final(self), after_up(ls, row, col)),
                        Key::Down => Self::moved(old(self), final(self), after_down(ls, row, col)),
                        _ => *final(self) == *old(self),
                    }
                },
            },
    {
        match bound {
            Some(CommentBinding::Newline) => {
                let rc = editor::insert_newline(&mut self.lines, self.cursor_row, self.cursor_col);
                self.cursor_row = rc.0;
                self.cursor_col = rc.1;
                return (CommentNext::Stay, CommentEffect::Nothing);
            },
            Some(CommentBinding::Save) => {
                let text = join_with(&self.lines, '\n');
                let line_indices = self.line_indices.clone();
                assert(line_indices@ =~= self.line_indices@);
                return (
                    CommentNext::Normal,
                    CommentEffect::Save { text, line_indices, editing_index: self.editing_index },
                );
            },
            Some(CommentBinding::Delete) => {
                return (CommentNext::Normal, CommentEffect::Delete(self.editing_index));
            },
            Some(CommentBinding::Cancel) => {
                return (CommentNext::Normal, CommentEffect::Nothing);
            },
            None => {},
        }
        let row = self.cursor_row;
        let col = self.cursor_col;
        match k.key {
            Key::Backspace => {
                let rc = editor::backspace(&mut self.lines, row, col);
                self.cursor_row = rc.0;
                self.cursor_col = rc.1;
            },
            Key::Char(c) => {
                if !k.ctrl {
                    let rc = editor::insert_char(&mut self.lines, row, col, c);
                    self.cursor_row = rc.0;
                    self.cursor_col = rc.1;
                }
            },
            Key::Left => {
                let rc = editor::move_left(&self.lines, row, col);
                self.cursor_row = rc.0;
                self.cursor_col = rc.1;
            },
            Key::Right => {
                let rc = editor::move_right(&self.lines, row, col);
                self.cursor_row = rc.0;
                self.cursor_col = rc.1;
            },
            Key::Up => {
                let rc = editor::move_up(&self.lines, row, col);
                self.cursor_row = rc.0;
                self.cursor_col = rc.1;
            },
            Key::Down => {
                let rc = editor::move_down(&self.lines, row, col);
                self.cursor_row = rc.0;
                self.cursor_col = rc.1;
            },
            _ => {},
        }
        (CommentNext::Stay, CommentEffect::Nothing)
    }
}

/// Enter then Backspace gives back the comment: splitting the cursor line
/// at the cursor and joining it again restores every line, and the cursor
/// returns to where it was.
pub proof fn lemma_comment_newline_then_backspace(o: CommentMode, m: CommentMode, f: CommentMode)
    requires
        o.wf(),
        o.lines@.len() <= usize::MAX,
        CommentMode::edited(
            &o,
            &m,
            after_newline(o.lines@, o.cursor_row, o.cursor_col).0,
            after_newline(o.lines@, o.cursor_row, o.cursor_col).1,
        ),
        CommentMode::edited(
            &m,
            &f,
            after_backspace(m.lines@, m.cursor_row, m.cursor_col).0,
            after_backspace(m.lines@, m.cursor_row, m.cursor_col).1,
        ),
    ensures
        views(f.lines@) == views(o.lines@),
        f.cursor_row == o.cursor_row,
        f.cursor_col == o.cursor_col,
        f.line_indices == o.line_indices,
        f.editing_index == o.editing_index,
{
    let b = lines_bytes(o.lines@);
    let row = o.cursor_row as int;
    let col = o.cursor_col as int;
    crate::editor::lemma_newline_then_backspace(b, row, col);
    let mb = lines_bytes(m.lines@);
    assert(mb == crate::editor::split_lines(b, row, col));
    assert(m.cursor_row == row + 1 && m.cursor_col == 0);
    assert(after_backspace(m.lines@, m.cursor_row, m.cursor_col).0 == crate::editor::join_lines(mb, row));
    assert(lines_bytes(f.lines@) == b);
    assert(f.lines@.len() == o.lines@.len());
    assert forall|i: int| 0 <= i < o.lines@.len() implies #[trigger] views(f.lines@)[i] == views(o.lines@)[i] by {
        assert(lines_bytes(f.lines@)[i] == lines_bytes(o.lines@)[i]);
        encode_utf8_decode_utf8(f.lines@[i]@);
        encode_utf8_decode_utf8(o.lines@[i]@);
    }
    assert(views(f.lines@) =~= views(o.lines@));
}

/// Left at the start of a line that is not the first moves the cursor to
/// the end of the line above: the row above, at that line's byte length.
/// The text is left as it is.
pub proof fn lemma_left_at_line_start_wraps(o: CommentMode, f: CommentMode)
    requires
        o.wf(),
        o.cursor_col == 0,
        o.cursor_row > 0,
        bytes_of(o.lines@[o.cursor_row - 1]).len() <= usize::MAX,
        CommentMode::moved(&o, &f, after_left(o.lines@, o.cursor_row, o.cursor_col)),
    ensures
        f.cursor_row == o.cursor_row - 1,
        f.cursor_col == bytes_of(o.lines@[o.cursor_row - 1]).len(),
        f.lines == o.lines,
        f.wf(),
{
}

/// Right undoes Left: anywhere but the very start of the text, Left and
/// then Right put the cursor back where it was, crossing a line break when
/// Left crossed one.
pub proof fn lemma_right_undoes_left(o: CommentMode, m: CommentMode, f: CommentMode)
    requires
        o.wf(),
        o.cursor_row > 0 || o.cursor_col > 0,
        o.cursor_row > 0 ==> bytes_of(o.lines@[o.cursor_row - 1]).len() <= usize::MAX,
        CommentMode::moved(&o, &m, after_left(o.lines@, o.cursor_row, o.cursor_col)),
        CommentMode::moved(&m, &f, after_right(m.lines@, m.cursor_row, m.cursor_col)),
    ensures
        f.cursor_row == o.cursor_row,
        f.cursor_col == o.cursor_col,
        f.lines == o.lines,
{
}

/// Left undoes Right: anywhere but the very end of the text, Right and
/// then Left put the cursor back where it was, crossing a line break when
/// Right crossed one.
pub proof fn lemma_left_undoes_right(o: CommentMode, m: CommentMode, f: CommentMode)
    requires
        o.wf(),
        bytes_of(o.lines@[o.cursor_row as int]).len() <= usize::MAX,
        o.cursor_row + 1 < o.lines@.len() || o.cursor_col < bytes_of(o.lines@[o.cursor_row as int]).len(),
        CommentMode::moved(&o, &m, after_right(o.lines@, o.cursor_row, o.cursor_col)),
        CommentMode::moved(&m, &f, after_left(m.lines@, m.cursor_row, m.cursor_col)),
    ensures
        f.cursor_row == o.cursor_row,
        f.cursor_col == o.cursor_col,
        f.lines == o.lines,
{
    assert(o.lines@.len() == o.lines.len());
}

/// Up undoes Down when the cursor's column fits on the line below: Down
/// moves to the next line at the same column, and Up comes back.
pub proof fn lemma_up_undoes_down(o: CommentMode, m: CommentMode, f: CommentMode)
    requires
        o.wf(),
        o.cursor_row + 1 < o.lines@.len(),
        o.cursor_col <= bytes_of(o.lines@[o.cursor_row + 1]).len(),
        CommentMode::moved(&o, &m, after_down(o.lines@, o.cursor_row, o.cursor_col)),
        CommentMode::moved(&m, &f, after_up(m.lines@, m.cursor_row, m.cursor_col)),
    ensures
        m.cursor_row == o.cursor_row + 1,
        m.cursor_col == o.cursor_col,
        f.cursor_row == o.cursor_row,
        f.cursor_col == o.cursor_col,
        f.lines == o.lines,
{
    assert(o.lines@.len() == o.lines.len());
}

} // verus!
