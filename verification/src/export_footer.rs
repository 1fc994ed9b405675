//! The export-footer editor: before exporting with a template, the user
//! fills in the template's footer placeholders, one multi-line text field
//! each, switching fields with Tab.

use vstd::prelude::*;
use vstd::utf8::*;
use crate::editor::{self, bytes_of, cursor_ok, lines_bytes, byte_len, boundary};
use crate::key::{Key, KeyInput, KeyResult};
use crate::text::{chars_of, join_with, joined, push_char, to_uppercase, unicode_upper, views};

verus! {

/// How the label of the placeholder `s` continues after its first `n`
/// characters: `_` becomes a space, the first character of each
/// `_`-separated word is upper-cased, the rest is kept.
pub open spec fn label_piece(s: Seq<char>, i: int) -> Seq<char> {
    if s[i] == '_' {
        seq![' ']
    } else if i == 0 || s[i - 1] == '_' {
        unicode_upper(s[i])
    } else {
        seq![s[i]]
    }
}

/// The label of the first `n` characters of a placeholder name.
pub open spec fn label_prefix(s: Seq<char>, n: int) -> Seq<char>
    decreases n,
{
    if n <= 0 {
        Seq::empty()
    } else {
        label_prefix(s, n - 1) + label_piece(s, n - 1)
    }
}

/// Turns a template placeholder such as `next_steps` into the label
/// `Next Steps`: words split at `_`, each word's first letter upper-cased,
/// words joined by spaces.
pub fn placeholder_to_label(name: &str) -> (r: String)
    ensures
        r@ == label_prefix(name@, name@.len() as int),
{
    let chars = chars_of(name);
    let mut out = String::new();
    let mut i: usize = 0;
    while i < chars.len()
        invariant
            i <= chars@.len(),
            chars@ == name@,
            out@ == label_prefix(name@, i as int),
        decreases chars@.len() - i,
    {
        let c = chars[i];
        if c == '_' {
            push_char(&mut out, ' ');
        } else if i == 0 || chars[i - 1] == '_' {
            let up = to_uppercase(c);
            out.append(up.as_str());
        } else {
            push_char(&mut out, c);
        }
        i += 1;
    }
    out
}

/// One footer placeholder and the text entered for it, line by line.
#[derive(Debug)]
pub struct FooterField {
    pub name: String,
    pub lines: Vec<String>,
}

/// The footer editor.
#[derive(Debug)]
pub struct ExportFooterMode {
    pub path: String,
    pub template_name: String,
    pub fields: Vec<FooterField>,
    pub active_idx: usize,
    pub cursor_row: usize,
    pub cursor_col: usize,
}

/// Where the footer editor goes after a key.
#[derive(Debug, Clone, Copy, PartialEq, Eq, Structural)]
pub enum FooterNext {
    Stay,
    Normal,
}

impl ExportFooterMode {
    /// The editor can take keys: there is a field, the active one exists,
    /// every field has a line and the cursor lies in the active field's text.
    pub open spec fn wf(&self) -> bool {
        &&& self.fields@.len() > 0
        &&& self.active_idx < self.fields@.len()
        &&& forall|i: int| 0 <= i < self.fields@.len() ==> #[trigger] self.fields@[i].lines@.len() > 0
        &&& cursor_ok(self.active_text(), self.cursor_row as int, self.cursor_col as int)
    }

    /// The lines of the active field.
    pub open spec fn active_text(&self) -> Seq<String> {
        self.fields@[self.active_idx as int].lines@
    }

    /// `new` differs from `old` only in the active field's lines, whose bytes
    /// are now `nb`, and in the cursor, now at `rc`.
    pub open spec fn edited(old: &Self, new: &Self, nb: Seq<Seq<u8>>, rc: (usize, usize)) -> bool {
        &&& new.path == old.path
        &&& new.template_name == old.template_name
        &&& new.active_idx == old.active_idx
        &&& new.fields@.len() == old.fields@.len()
        &&& forall|i: int|
            0 <= i < old.fields@.len() && i != old.active_idx ==> #[trigger] new.fields@[i] == old.fields@[i]
        &&& new.fields@[old.active_idx as int].name == old.fields@[old.active_idx as int].name
        &&& lines_bytes(new.active_text()) == nb
        &&& new.cursor_row == rc.0
        &&& new.cursor_col == rc.1
    }

    /// Text and cursor after Enter.
    pub open spec fn newline_result(&self) -> (Seq<Seq<u8>>, (usize, usize)) {
        (
            editor::split_lines(lines_bytes(self.active_text()), self.cursor_row as int, self.cursor_col as int),
            ((self.cursor_row + 1) as usize, 0usize),
        )
    }

    /// Text and cursor after typing `c`.
    pub open spec fn insert_result(&self, c: char) -> (Seq<Seq<u8>>, (usize, usize)) {
        (
            lines_bytes(self.active_text()).update(
                self.cursor_row as int,
                editor::insert_at(bytes_of(self.active_text()[self.cursor_row as int]), self.cursor_col as int, c),
            ),
            (self.cursor_row, (self.cursor_col + 1) as usize),
        )
    }

    /// Text and cursor after Backspace.
    pub open spec fn backspace_result(&self) -> (Seq<Seq<u8>>, (usize, usize)) {
        let b = lines_bytes(self.active_text());
        let row = self.cursor_row;
        let col = self.cursor_col;
        if col > 0 {
            (b.update(row as int, editor::remove_at(b[row as int], col - 1)), (row, (col - 1) as usize))
        } else if row > 0 {
            (editor::join_lines(b, row - 1), ((row - 1) as usize, b[row - 1].len() as usize))
        } else {
            (b, (row, col))
        }
    }

    /// Text after Delete (the cursor stays).
    pub open spec fn delete_result(&self) -> Seq<Seq<u8>> {
        let b = lines_bytes(self.active_text());
        let row = self.cursor_row;
        let col = self.cursor_col;
        if col < b[row as int].len() {
            b.update(row as int, editor::remove_at(b[row as int], col as int))
        } else if row + 1 < b.len() {
            editor::join_lines(b, row as int)
        } else {
            b
        }
    }

    /// Cursor after Left.
    pub open spec fn left_rc(&self) -> (usize, usize) {
        if self.cursor_col > 0 {
            (self.cursor_row, (self.cursor_col - 1) as usize)
        } else if self.cursor_row > 0 {
            ((self.cursor_row - 1) as usize, bytes_of(self.active_text()[self.cursor_row - 1]).len() as usize)
        } else {
            (self.cursor_row, self.cursor_col)
        }
    }

    /// Cursor after Right.
    pub open spec fn right_rc(&self) -> (usize, usize) {
        if self.cursor_col < bytes_of(self.active_text()[self.cursor_row as int]).len() {
            (self.cursor_row, (self.cursor_col + 1) as usize)
        } else if self.cursor_row + 1 < self.active_text().len() {
            ((self.cursor_row + 1) as usize, 0usize)
        } else {
            (self.cursor_row, self.cursor_col)
        }
    }

    /// Cursor after Up.
    pub open spec fn up_rc(&self) -> (usize, usize) {
        if self.cursor_row > 0 {
            let len = bytes_of(self.active_text()[self.cursor_row - 1]).len();
            ((self.cursor_row - 1) as usize, if self.cursor_col <= len { self.cursor_col } else { len as usize })
        } else {
            (self.cursor_row, self.cursor_col)
        }
    }

    /// Cursor after Down.
    pub open spec fn down_rc(&self) -> (usize, usize) {
        if self.cursor_row + 1 < self.active_text().len() {
            let len = bytes_of(self.active_text()[self.cursor_row + 1]).len();
            ((self.cursor_row + 1) as usize, if self.cursor_col <= len { self.cursor_col } else { len as usize })
        } else {
            (self.cursor_row, self.cursor_col)
        }
    }

    /// Only the cursor changed, to `rc`.
    pub open spec fn moved(old: &Self, new: &Self, rc: (usize, usize)) -> bool {
        &&& new.fields == old.fields
        &&& new.path == old.path
        &&& new.template_name == old.template_name
        &&& new.active_idx == old.active_idx
        &&& new.cursor_row == rc.0
        &&& new.cursor_col == rc.1
    }

    /// Field `idx` became active with the cursor at the end of its text.
    pub open spec fn switched(old: &Self, new: &Self, idx: int) -> bool {
        &&& new.fields == old.fields
        &&& new.path == old.path
        &&& new.template_name == old.template_name
        &&& new.active_idx == idx
        &&& new.cursor_row == old.fields@[idx].lines@.len() - 1
        &&& new.cursor_col == bytes_of(old.fields@[idx].lines@.last()).len()
    }

    /// A fresh editor: one empty line per placeholder, the first one active.
    pub fn new(path: String, template_name: String, field_names: Vec<String>) -> (r: Self)
        ensures
            r.path == path,
            r.template_name == template_name,
            r.fields@.len() == field_names@.len(),
            forall|i: int| #![trigger r.fields@[i]] 0 <= i < field_names@.len() ==> r.fields@[i].name == field_names@[i]
                && r.fields@[i].lines@.len() == 1 && r.fields@[i].lines@[0]@ == Seq::<char>::empty(),
            r.active_idx == 0,
            r.cursor_row == 0,
            r.cursor_col == 0,
            field_names@.len() > 0 ==> r.wf(),
    {
        let mut fields: Vec<FooterField> = Vec::new();
        let names = field_names;
        let ghost all = names@;
        let n = names.len();
        let mut i: usize = 0;
        while i < n
            invariant
                n == all.len(),
                i <= n,
                names@ == all,
                fields@.len() == i,
                forall|j: int| #![trigger fields@[j]] 0 <= j < i ==> fields@[j].name == all[j]
                    && fields@[j].lines@.len() == 1 && fields@[j].lines@[0]@ == Seq::<char>::empty(),
            decreases n - i,
        {
            let name = names[i].clone();
            let mut lines: Vec<String> = Vec::new();
            lines.push(String::new());
            fields.push(FooterField { name, lines });
            i += 1;
        }
        let r = ExportFooterMode {
            path,
            template_name,
            fields,
            active_idx: 0,
            cursor_row: 0,
            cursor_col: 0,
        };
        proof {
            if n > 0 {
                assert(r.fields@[0].lines@[0]@ == Seq::<char>::empty());
                assert forall|i: int| 0 <= i < r.fields@.len() implies #[trigger] r.fields@[i].lines@.len() > 0 by {
                    assert(r.fields@[i].lines@.len() == 1);
                }
                assert(encode_utf8(Seq::<char>::empty()) =~= Seq::<u8>::empty());
            }
        }
        r
    }

    /// The lines of the active field.
    pub fn active_lines(&self) -> (r: &Vec<String>)
        requires
            self.active_idx < self.fields@.len(),
        ensures
            r@ == self.active_text(),
    {
        &self.fields[self.active_idx].lines
    }

    /// Makes field `idx` active with the cursor at the end of its text.
    pub fn switch_to(&mut self, idx: usize)
        requires
            old(self).wf(),
            idx < old(self).fields@.len(),
        ensures
            final(self).wf(),
            final(self).fields == old(self).fields,
            final(self).path == old(self).path,
            final(self).template_name == old(self).template_name,
            final(self).active_idx == idx,
            final(self).cursor_row == old(self).fields@[idx as int].lines@.len() - 1,
            final(self).cursor_col == bytes_of(old(self).fields@[idx as int].lines@.last()).len(),
    {
        self.active_idx = idx;
        let lines = self.active_lines();
        let row = lines.len() - 1;
        let col = byte_len(&lines[row]);
        self.cursor_row = row;
        self.cursor_col = col;
    }

    fn edit_active(&mut self, op: u8, c: char)
        requires
            old(self).wf(),
            op <= 2,
            op == 0 || op == 1 ==> is_char_boundary(
                bytes_of(old(self).active_text()[old(self).cursor_row as int]),
                old(self).cursor_col as int,
            ),
            op == 2 && old(self).cursor_col > 0 ==> is_char_boundary(
                bytes_of(old(self).active_text()[old(self).cursor_row as int]),
                old(self).cursor_col - 1,
            ),
        ensures
            final(self).wf(),
            op == 0 ==> Self::edited(old(self), final(self), old(self).newline_result().0, old(self).newline_result().1),
            op == 1 ==> Self::edited(old(self), final(self), old(self).insert_result(c).0, old(self).insert_result(c).1),
            op == 2 ==> Self::edited(old(self), final(self), old(self).backspace_result().0, old(self).backspace_result().1),
    {
        let idx = self.active_idx;
        let ghost before = *self;
        let mut field = self.fields.remove(idx);
        let rc = if op == 0 {
            editor::insert_newline(&mut field.lines, self.cursor_row, self.cursor_col)
        } else if op == 1 {
            editor::insert_char(&mut field.lines, self.cursor_row, self.cursor_col, c)
        } else {
            editor::backspace(&mut field.lines, self.cursor_row, self.cursor_col)
        };
        self.fields.insert(idx, field);
        self.cursor_row = rc.0;
        self.cursor_col = rc.1;
        proof {
            assert forall|i: int| 0 <= i < self.fields@.len() implies #[trigger] self.fields@[i].lines@.len() > 0 by {
                if i != idx {
                    assert(self.fields@[i] == before.fields@[i]);
                }
            }
        }
    }

    /// Enter: splits the current line at the cursor.
    pub fn insert_newline(&mut self)
        requires
            old(self).wf(),
            is_char_boundary(
                bytes_of(old(self).active_text()[old(self).cursor_row as int]),
                old(self).cursor_col as int,
            ),
        ensures
            final(self).wf(),
            Self::edited(old(self), final(self), old(self).newline_result().0, old(self).newline_result().1),
    {
        self.edit_active(0, ' ');
    }

    /// Inserts `c` at the cursor and advances the cursor by one.
    pub fn insert_char(&mut self, c: char)
        requires
            old(self).wf(),
            is_char_boundary(
                bytes_of(old(self).active_text()[old(self).cursor_row as int]),
                old(self).cursor_col as int,
            ),
        ensures
            final(self).wf(),
            Self::edited(old(self), final(self), old(self).insert_result(c).0, old(self).insert_result(c).1),
    {
        self.edit_active(1, c);
    }

    /// Backspace: removes the character before the cursor, or joins the
    /// line onto the previous one at a line start.
    pub fn backspace(&mut self)
        requires
            old(self).wf(),
            old(self).cursor_col > 0 ==> is_char_boundary(
                bytes_of(old(self).active_text()[old(self).cursor_row as int]),
                old(self).cursor_col - 1,
            ),
        ensures
            final(self).wf(),
            Self::edited(old(self), final(self), old(self).backspace_result().0, old(self).backspace_result().1),
    {
        self.edit_active(2, ' ');
    }

    /// Delete: removes the character under the cursor, or joins the next
    /// line onto this one at a line end.
    pub fn delete_forward(&mut self)
        requires
            old(self).wf(),
            old(self).cursor_col < bytes_of(old(self).active_text()[old(self).cursor_row as int]).len()
                ==> is_char_boundary(
                bytes_of(old(self).active_text()[old(self).cursor_row as int]),
                old(self).cursor_col as int,
            ),
        ensures
            final(self).wf(),
            Self::edited(old(self), final(self), old(self).delete_result(), (old(self).cursor_row, old(self).cursor_col)),
    {
        let idx = self.active_idx;
        let ghost before = *self;
        let mut field = self.fields.remove(idx);
        let rc = editor::delete_forward(&mut field.lines, self.cursor_row, self.cursor_col);
        self.fields.insert(idx, field);
        self.cursor_row = rc.0;
        self.cursor_col = rc.1;
        proof {
            assert forall|i: int| 0 <= i < self.fields@.len() implies #[trigger] self.fields@[i].lines@.len() > 0 by {
                if i != idx {
                    assert(self.fields@[i] == before.fields@[i]);
                }
            }
        }
    }

    /// Left, wrapping to the end of the previous line.
    pub fn move_left(&mut self)
        requires
            old(self).wf(),
        ensures
            final(self).wf(),
            Self::moved(old(self), final(self), old(self).left_rc()),
    {
        let rc = editor::move_left(self.active_lines(), self.cursor_row, self.cursor_col);
        self.cursor_row = rc.0;
        self.cursor_col = rc.1;
    }

    /// Right, wrapping to the start of the next line.
    pub fn move_right(&mut self)
        requires
            old(self).wf(),
        ensures
            final(self).wf(),
            Self::moved(old(self), final(self), old(self).right_rc()),
    {
        let rc = editor::move_right(self.active_lines(), self.cursor_row, self.cursor_col);
        self.cursor_row = rc.0;
        self.cursor_col = rc.1;
    }

    /// Up one line, the column clamped to the line's length.
    pub fn move_up(&mut self)
        requires
            old(self).wf(),
        ensures
            final(self).wf(),
            Self::moved(old(self), final(self), old(self).up_rc()),
    {
        let rc = editor::move_up(self.active_lines(), self.cursor_row, self.cursor_col);
        self.cursor_row = rc.0;
        self.cursor_col = rc.1;
    }

    /// Down one line, the column clamped to the line's length.
    pub fn move_down(&mut self)
        requires
            old(self).wf(),
        ensures
            final(self).wf(),
            Self::moved(old(self), final(self), old(self).down_rc()),
    {
        let rc = editor::move_down(self.active_lines(), self.cursor_row, self.cursor_col);
        self.cursor_row = rc.0;
        self.cursor_col = rc.1;
    }

    /// Whether the editor can take `k` without panicking: the key's edit
    /// must start at a character boundary of the cursor line.
    pub open spec fn key_ok(&self, k: KeyInput) -> bool {
        let line = bytes_of(self.active_text()[self.cursor_row as int]);
        let col = self.cursor_col as int;
        match k.key {
            Key::Enter => is_char_boundary(line, col),
            Key::Backspace => col > 0 ==> is_char_boundary(line, col - 1),
            Key::Delete => col < line.len() ==> is_char_boundary(line, col),
            Key::Char(c) => !k.ctrl ==> is_char_boundary(line, col),
            _ => true,
        }
    }

    /// Tests `key_ok` for the current state.
    pub fn accepts(&self, k: &KeyInput) -> (r: bool)
        requires
            self.wf(),
        ensures
            r == self.key_ok(*k),
    {
        let line = &self.active_lines()[self.cursor_row];
        let col = self.cursor_col;
        match k.key {
            Key::Enter => boundary(line, col),
            Key::Backspace => col == 0 || boundary(line, col - 1),
            Key::Delete => col >= byte_len(line) || boundary(line, col),
            Key::Char(_) => k.ctrl || boundary(line, col),
            _ => true,
        }
    }

    /// The footer fields as (name, text) pairs, lines joined by newlines.
    pub fn footer_fields(&self) -> (r: Vec<(String, String)>)
        ensures
            r@.len() == self.fields@.len(),
            forall|i: int| #![trigger r@[i]] 0 <= i < r@.len() ==> r@[i].0@ == self.fields@[i].name@
                && r@[i].1@ == joined(views(self.fields@[i].lines@), '\n'),
    {
        let mut out: Vec<(String, String)> = Vec::new();
        let mut i: usize = 0;
        while i < self.fields.len()
            invariant
                i <= self.fields@.len(),
                out@.len() == i,
                forall|j: int| #![trigger out@[j]] 0 <= j < i ==> out@[j].0@ == self.fields@[j].name@
                    && out@[j].1@ == joined(views(self.fields@[j].lines@), '\n'),
            decreases self.fields@.len() - i,
        {
            let name = self.fields[i].name.clone();
            let text = join_with(&self.fields[i].lines, '\n');
            out.push((name, text));
            i += 1;
        }
        out
    }

    /// Handles one key: Esc cancels, Ctrl-S exports with the entered
    /// footer, Tab/Shift-Tab cycle the fields, and the editing keys edit
    /// the active field.
    pub fn handle_key(&mut self, k: KeyInput) -> (r: (FooterNext, KeyResult))
        requires
            old(self).wf(),
            old(self).key_ok(k),
        ensures
            final(self).wf(),
            k.key == Key::Esc ==> r.0 == FooterNext::Normal && r.1 is Handled && *final(self) == *old(self),
            k.key == Key::Char('s') && k.ctrl ==> r.0 == FooterNext::Normal && *final(self) == *old(self)
                && match r.1 {
                KeyResult::ExportWithFooter { path, template_name, footer_fields } => {
                    &&& path@ == old(self).path@
                    &&& template_name@ == old(self).template_name@
                    &&& footer_fields@.len() == old(self).fields@.len()
                    &&& forall|i: int| #![trigger footer_fields@[i]] 0 <= i < footer_fields@.len()
                        ==> footer_fields@[i].0@ == old(self).fields@[i].name@
                        && footer_fields@[i].1@ == joined(views(old(self).fields@[i].lines@), '\n')
                },
                _ => false,
            },
            k.key != Key::Esc && !(k.key == Key::Char('s') && k.ctrl) ==> r.0 == FooterNext::Stay
                && r.1 is Handled && match k.key {
                Key::Tab => {
                    let n = old(self).fields@.len();
                    let a = old(self).active_idx;
                    Self::switched(
                        old(self),
                        final(self),
                        if k.shift { (a + n - 1) % n as int } else { (a + 1) % n as int },
                    )
                },
                Key::Enter => Self::edited(old(self), final(self), old(self).newline_result().0, old(self).newline_result().1),
                Key::Backspace => Self::edited(old(self), final(self), old(self).backspace_result().0, old(self).backspace_result().1),
                Key::Delete => Self::edited(old(self), final(self), old(self).delete_result(), (old(self).cursor_row, old(self).cursor_col)),
                Key::Char(c) => if k.ctrl {
                    *final(self) == *old(self)
                } else {
                    Self::edited(old(self), final(self), old(self).insert_result(c).0, old(self).insert_result(c).1)
                },
                Key::Left => Self::moved(old(self), final(self), old(self).left_rc()),
                Key::Right => Self::moved(old(self), final(self), old(self).right_rc()),
                Key::Up => Self::moved(old(self), final(self), old(self).up_rc()),
                Key::Down => Self::moved(old(self), final(self), old(self).down_rc()),
                _ => *final(self) == *old(self),
            },
    {
        if k.key == Key::Esc {
            return (FooterNext::Normal, KeyResult::Handled);
        }
        if k.ctrl && k.key == Key::Char('s') {
            let footer_fields = self.footer_fields();
            return (
                FooterNext::Normal,
                KeyResult::ExportWithFooter {
                    path: self.path.clone(),
                    template_name: self.template_name.clone(),
                    footer_fields,
                },
            );
        }
        if k.key == Key::Tab {
            let n = self.fields.len();
            let next = if k.shift {
                // (active_idx + n - 1) % n, without the intermediate sum
                let a = self.active_idx;
                proof {
                    if a == 0 {
                        assert((a + n - 1) % (n as int) == n - 1) by (nonlinear_arith)
                            requires a == 0, n > 0;
                    } else {
                        assert((a + n - 1) % (n as int) == a - 1) by (nonlinear_arith)
                            requires 0 < a < n;
                    }
                }
                if a == 0 { n - 1 } else { a - 1 }
            } else {
                (self.active_idx + 1) % n
            };
            self.switch_to(next);
            return (FooterNext::Stay, KeyResult::Handled);
        }
        match k.key {
            Key::Enter => self.insert_newline(),
            Key::Backspace => self.backspace(),
            Key::Delete => self.delete_forward(),
            Key::Char(c) => {
                if !k.ctrl {
                    self.insert_char(c);
                }
            },
            Key::Left => self.move_left(),
            Key::Right => self.move_right(),
            Key::Up => self.move_up(),
            Key::Down => self.move_down(),
            _ => {},
        }
        (FooterNext::Stay, KeyResult::Handled)
    }
}

} // verus!
