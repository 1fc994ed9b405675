//! A multi-line text buffer with a byte-offset cursor, shared by the comment
//! editor and the export-footer editor.
//!
//! Lines are `String`s and the cursor column is a byte offset into the
//! cursor's line, exactly as `String::insert`/`String::remove` take it.
//! Contracts speak of each line's UTF-8 bytes.

use vstd::prelude::*;
use vstd::utf8::*;

verus! {

broadcast use group_utf8_lib;

/// The UTF-8 bytes of a string.
pub open spec fn bytes_of(s: String) -> Seq<u8> {
    encode_utf8(s@)
}

/// The UTF-8 bytes of every line.
pub open spec fn lines_bytes(lines: Seq<String>) -> Seq<Seq<u8>> {
    lines.map_values(|s: String| bytes_of(s))
}

/// `b` with the character `c` encoded at byte offset `col`.
pub open spec fn insert_at(b: Seq<u8>, col: int, c: char) -> Seq<u8> {
    b.take(col) + encode_utf8(seq![c]) + b.skip(col)
}

/// `b` without the character whose encoding starts at byte offset `col`.
pub open spec fn remove_at(b: Seq<u8>, col: int) -> Seq<u8> {
    b.take(col) + pop_first_scalar(b.skip(col))
}

/// Encoding distributes over concatenation.
pub proof fn lemma_encode_concat(a: Seq<char>, b: Seq<char>)
    ensures
        encode_utf8(a + b) == encode_utf8(a) + encode_utf8(b),
    decreases a.len(),
{
    if a.len() == 0 {
        assert(a + b =~= b);
    } else {
        assert((a + b).drop_first() =~= a.drop_first() + b);
        lemma_encode_concat(a.drop_first(), b);
        assert((a + b)[0] == a[0]);
    }
}

/// `String::insert`: puts `c` at byte offset `idx`, which must be a
/// character boundary.
#[verifier::external_body]
pub(crate) fn string_insert(s: &mut String, idx: usize, c: char)
    requires
        is_char_boundary(bytes_of(*old(s)), idx as int),
    ensures
        bytes_of(*final(s)) == insert_at(bytes_of(*old(s)), idx as int, c),
{
    s.insert(idx, c);
}

/// `String::remove`: removes and returns the character whose encoding
/// starts at byte offset `idx`, which must be a character boundary before the end.
#[verifier::external_body]
pub(crate) fn string_remove(s: &mut String, idx: usize) -> (r: char)
    requires
        idx < bytes_of(*old(s)).len(),
        is_char_boundary(bytes_of(*old(s)), idx as int),
    ensures
        bytes_of(*final(s)) == remove_at(bytes_of(*old(s)), idx as int),
        r as u32 == decode_first_scalar(bytes_of(*old(s)).skip(idx as int)),
{
    s.remove(idx)
}

/// `String::truncate`: keeps the first `idx` bytes, `idx` being a character
/// boundary.
#[verifier::external_body]
pub(crate) fn string_truncate(s: &mut String, idx: usize)
    requires
        is_char_boundary(bytes_of(*old(s)), idx as int),
    ensures
        bytes_of(*final(s)) == bytes_of(*old(s)).take(idx as int),
{
    s.truncate(idx);
}

/// `&s[idx..]`: the text from byte offset `idx` on, `idx` being a character
/// boundary.
#[verifier::external_body]
pub(crate) fn str_tail(s: &str, idx: usize) -> (r: &str)
    requires
        is_char_boundary(encode_utf8(s@), idx as int),
    ensures
        encode_utf8(r@) == encode_utf8(s@).skip(idx as int),
{
    &s[idx..]
}

/// `String::len`: the byte length of a line.
#[verifier::external_body]
pub(crate) fn byte_len(s: &String) -> (r: usize)
    ensures
        r == bytes_of(*s).len(),
{
    s.len()
}

/// Whether `idx` is a character boundary of `s`.
pub fn boundary(s: &String, idx: usize) -> (r: bool)
    ensures
        r == is_char_boundary(bytes_of(*s), idx as int),
{
    s.as_str().is_char_boundary(idx)
}

/// The buffer is well formed: it has a line, the cursor's row exists and
/// its column lies within that line.
pub open spec fn cursor_ok(lines: Seq<String>, row: int, col: int) -> bool {
    &&& lines.len() > 0
    &&& 0 <= row < lines.len()
    &&& 0 <= col <= bytes_of(lines[row]).len()
}

/// Lines after splitting line `row` at byte `col`.
pub open spec fn split_lines(b: Seq<Seq<u8>>, row: int, col: int) -> Seq<Seq<u8>> {
    b.take(row) + seq![b[row].take(col), b[row].skip(col)] + b.skip(row + 1)
}

/// Lines after appending line `row + 1` to line `row`.
pub open spec fn join_lines(b: Seq<Seq<u8>>, row: int) -> Seq<Seq<u8>> {
    b.take(row) + seq![b[row] + b[row + 1]] + b.skip(row + 2)
}

/// Enter: split the cursor line at the cursor; the cursor moves to the start
/// of the new line.
pub fn insert_newline(lines: &mut Vec<String>, row: usize, col: usize) -> (rc: (usize, usize))
    requires
        cursor_ok(old(lines)@, row as int, col as int),
        is_char_boundary(bytes_of(old(lines)@[row as int]), col as int),
    ensures
        lines_bytes(final(lines)@) == split_lines(lines_bytes(old(lines)@), row as int, col as int),
        rc == ((row + 1) as usize, 0usize),
        cursor_ok(final(lines)@, rc.0 as int, rc.1 as int),
{
    let ghost b = lines_bytes(lines@);
    let line = lines[row].clone();
    let rest = str_tail(line.as_str(), col).to_owned();
    let mut head = line;
    string_truncate(&mut head, col);
    let n = lines.len();
    lines.set(row, head);
    lines.insert(row + 1, rest);
    assert(lines_bytes(lines@) =~= split_lines(b, row as int, col as int));
    (row + 1, 0)
}

/// Typing a character: insert it at the cursor; the column advances by one.
pub fn insert_char(lines: &mut Vec<String>, row: usize, col: usize, c: char) -> (rc: (usize, usize))
    requires
        cursor_ok(old(lines)@, row as int, col as int),
        is_char_boundary(bytes_of(old(lines)@[row as int]), col as int),
    ensures
        lines_bytes(final(lines)@) == lines_bytes(old(lines)@).update(
            row as int,
            insert_at(bytes_of(old(lines)@[row as int]), col as int, c),
        ),
        rc == (row, (col + 1) as usize),
        cursor_ok(final(lines)@, rc.0 as int, rc.1 as int),
{
    let ghost b = lines_bytes(lines@);
    let mut line = lines[row].clone();
    proof {
        assert(encode_utf8(seq![c]).len() > 0) by {
            reveal_with_fuel(encode_utf8, 2);
        }
    }
    string_insert(&mut line, col, c);
    let _new_len = byte_len(&line);
    lines.set(row, line);
    assert(lines_bytes(lines@) =~= b.update(row as int, insert_at(b[row as int], col as int, c)));
    (row, col + 1)
}

/// Backspace: remove the character before the cursor, or, at the start of a
/// line, join the line onto the previous one.
pub fn backspace(lines: &mut Vec<String>, row: usize, col: usize) -> (rc: (usize, usize))
    requires
        cursor_ok(old(lines)@, row as int, col as int),
        col > 0 ==> is_char_boundary(bytes_of(old(lines)@[row as int]), col - 1),
    ensures
        ({
            let b = lines_bytes(old(lines)@);
            let nb = lines_bytes(final(lines)@);
            if col > 0 {
                &&& nb == b.update(row as int, remove_at(b[row as int], col - 1))
                &&& rc == (row, (col - 1) as usize)
            } else if row > 0 {
                &&& nb == join_lines(b, row - 1)
                &&& rc == ((row - 1) as usize, b[row - 1].len() as usize)
            } else {
                &&& nb == b
                &&& rc == (row, col)
            }
        }),
        cursor_ok(final(lines)@, rc.0 as int, rc.1 as int),
{
    let ghost b = lines_bytes(lines@);
    if col > 0 {
        let mut line = lines[row].clone();
        string_remove(&mut line, col - 1);
        lines.set(row, line);
        assert(lines_bytes(lines@) =~= b.update(row as int, remove_at(b[row as int], col - 1)));
        (row, col - 1)
    } else if row > 0 {
        let current = lines.remove(row);
        let prev_len = byte_len(&lines[row - 1]);
        let mut prev = lines[row - 1].clone();
        proof {
            lemma_encode_concat(prev@, current@);
        }
        prev.append(current.as_str());
        lines.set(row - 1, prev);
        assert(lines_bytes(lines@) =~= join_lines(b, row - 1));
        (row - 1, prev_len)
    } else {
        (row, col)
    }
}

/// Delete: remove the character under the cursor, or, at the end of a line,
/// join the next line onto it. The cursor does not move.
pub fn delete_forward(lines: &mut Vec<String>, row: usize, col: usize) -> (rc: (usize, usize))
    requires
        cursor_ok(old(lines)@, row as int, col as int),
        col < bytes_of(old(lines)@[row as int]).len() ==> is_char_boundary(
            bytes_of(old(lines)@[row as int]),
            col as int,
        ),
    ensures
        ({
            let b = lines_bytes(old(lines)@);
            let nb = lines_bytes(final(lines)@);
            if col < b[row as int].len() {
                nb == b.update(row as int, remove_at(b[row as int], col as int))
            } else if row + 1 < b.len() {
                nb == join_lines(b, row as int)
            } else {
                nb == b
            }
        }),
        rc == (row, col),
        cursor_ok(final(lines)@, rc.0 as int, rc.1 as int),
{
    let ghost b = lines_bytes(lines@);
    let len = byte_len(&lines[row]);
    if col < len {
        let mut line = lines[row].clone();
        proof {
            let s = bytes_of(line).skip(col as int);
            assert(valid_utf8(bytes_of(line)));
            assert(bytes_of(line).skip(col as int) =~= bytes_of(line).subrange(col as int, bytes_of(line).len() as int));
            assert(valid_utf8(s));
            assert(valid_first_scalar(s));
        }
        string_remove(&mut line, col);
        lines.set(row, line);
        assert(lines_bytes(lines@) =~= b.update(row as int, remove_at(b[row as int], col as int)));
    } else if row < lines.len() - 1 {
        let next = lines.remove(row + 1);
        let mut cur = lines[row].clone();
        proof {
            lemma_encode_concat(cur@, next@);
        }
        cur.append(next.as_str());
        lines.set(row, cur);
        assert(lines_bytes(lines@) =~= join_lines(b, row as int));
    }
    (row, col)
}

/// Left: one byte left, or to the end of the previous line at a line start.
pub fn move_left(lines: &Vec<String>, row: usize, col: usize) -> (rc: (usize, usize))
    requires
        cursor_ok(lines@, row as int, col as int),
    ensures
        rc == if col > 0 {
            (row, (col - 1) as usize)
        } else if row > 0 {
            ((row - 1) as usize, bytes_of(lines@[row - 1]).len() as usize)
        } else {
            (row, col)
        },
        cursor_ok(lines@, rc.0 as int, rc.1 as int),
{
    if col > 0 {
        (row, col - 1)
    } else if row > 0 {
        (row - 1, byte_len(&lines[row - 1]))
    } else {
        (row, col)
    }
}

/// Right: one byte right, or to the start of the next line at a line end.
pub fn move_right(lines: &Vec<String>, row: usize, col: usize) -> (rc: (usize, usize))
    requires
        cursor_ok(lines@, row as int, col as int),
    ensures
        rc == if col < bytes_of(lines@[row as int]).len() {
            (row, (col + 1) as usize)
        } else if row + 1 < lines@.len() {
            ((row + 1) as usize, 0usize)
        } else {
            (row, col)
        },
        cursor_ok(lines@, rc.0 as int, rc.1 as int),
{
    if col < byte_len(&lines[row]) {
        (row, col + 1)
    } else if row < lines.len() - 1 {
        (row + 1, 0)
    } else {
        (row, col)
    }
}

/// Up: previous line, the column clamped to its length.
pub fn move_up(lines: &Vec<String>, row: usize, col: usize) -> (rc: (usize, usize))
    requires
        cursor_ok(lines@, row as int, col as int),
    ensures
        rc == if row > 0 {
            let len = bytes_of(lines@[row - 1]).len();
            ((row - 1) as usize, if col <= len { col } else { len as usize })
        } else {
            (row, col)
        },
        cursor_ok(lines@, rc.0 as int, rc.1 as int),
{
    if row > 0 {
        let len = byte_len(&lines[row - 1]);
        (row - 1, if col <= len { col } else { len })
    } else {
        (row, col)
    }
}

/// Down: next line, the column clamped to its length.
pub fn move_down(lines: &Vec<String>, row: usize, col: usize) -> (rc: (usize, usize))
    requires
        cursor_ok(lines@, row as int, col as int),
    ensures
        rc == if row + 1 < lines@.len() {
            let len = bytes_of(lines@[row + 1]).len();
            ((row + 1) as usize, if col <= len { col } else { len as usize })
        } else {
            (row, col)
        },
        cursor_ok(lines@, rc.0 as int, rc.1 as int),
{
    if row < lines.len() - 1 {
        let len = byte_len(&lines[row + 1]);
        (row + 1, if col <= len { col } else { len })
    } else {
        (row, col)
    }
}

/// Text and cursor after Enter at (`row`, `col`).
pub open spec fn after_newline(ls: Seq<String>, row: usize, col: usize) -> (Seq<Seq<u8>>, (usize, usize)) {
    (split_lines(lines_bytes(ls), row as int, col as int), ((row + 1) as usize, 0usize))
}

/// Text and cursor after typing `c` at (`row`, `col`).
pub open spec fn after_insert(ls: Seq<String>, row: usize, col: usize, c: char) -> (Seq<Seq<u8>>, (usize, usize)) {
    (
        lines_bytes(ls).update(row as int, insert_at(bytes_of(ls[row as int]), col as int, c)),
        (row, (col + 1) as usize),
    )
}

/// Text and cursor after Backspace at (`row`, `col`).
pub open spec fn after_backspace(ls: Seq<String>, row: usize, col: usize) -> (Seq<Seq<u8>>, (usize, usize)) {
    let b = lines_bytes(ls);
    if col > 0 {
        (b.update(row as int, remove_at(b[row as int], col - 1)), (row, (col - 1) as usize))
    } else if row > 0 {
        (join_lines(b, row - 1), ((row - 1) as usize, b[row - 1].len() as usize))
    } else {
        (b, (row, col))
    }
}

/// Cursor after Left.
pub open spec fn after_left(ls: Seq<String>, row: usize, col: usize) -> (usize, usize) {
    if col > 0 {
        (row, (col - 1) as usize)
    } else if row > 0 {
        ((row - 1) as usize, bytes_of(ls[row - 1]).len() as usize)
    } else {
        (row, col)
    }
}

/// Cursor after Right.
pub open spec fn after_right(ls: Seq<String>, row: usize, col: usize) -> (usize, usize) {
    if col < bytes_of(ls[row as int]).len() {
        (row, (col + 1) as usize)
    } else if row + 1 < ls.len() {
        ((row + 1) as usize, 0usize)
    } else {
        (row, col)
    }
}

/// Cursor after Up.
pub open spec fn after_up(ls: Seq<String>, row: usize, col: usize) -> (usize, usize) {
    if row > 0 {
        let len = bytes_of(ls[row - 1]).len();
        ((row - 1) as usize, if col <= len { col } else { len as usize })
    } else {
        (row, col)
    }
}

/// Cursor after Down.
pub open spec fn after_down(ls: Seq<String>, row: usize, col: usize) -> (usize, usize) {
    if row + 1 < ls.len() {
        let len = bytes_of(ls[row + 1]).len();
        ((row + 1) as usize, if col <= len { col } else { len as usize })
    } else {
        (row, col)
    }
}

/// Splitting a line at the cursor (Enter) and then joining it back
/// (Backspace at the start of the new line) restores every line, and the
/// cursor returns to the split point.
pub proof fn lemma_newline_then_backspace(b: Seq<Seq<u8>>, row: int, col: int)
    requires
        0 <= row < b.len(),
        0 <= col <= b[row].len(),
    ensures
        join_lines(split_lines(b, row, col), row) == b,
        split_lines(b, row, col)[row].len() == col,
{
    let s = split_lines(b, row, col);
    assert(s[row] == b[row].take(col));
    assert(s[row + 1] == b[row].skip(col));
    assert(b[row].take(col) + b[row].skip(col) =~= b[row]);
    assert(join_lines(s, row) =~= b);
}

/// Typing a character and then deleting it with Backspace restores the
/// line, and Backspace is allowed there: the character starts at a boundary.
pub proof fn lemma_insert_then_backspace(line: Seq<u8>, col: int, c: char)
    requires
        valid_utf8(line),
        is_char_boundary(line, col),
    ensures
        is_char_boundary(insert_at(line, col, c), col),
        col < insert_at(line, col, c).len(),
        remove_at(insert_at(line, col, c), col) == line,
{
    let ins = insert_at(line, col, c);
    let head = line.take(col);
    let rest = line.skip(col);
    assert(line.subrange(0, col) =~= head);
    assert(line.subrange(col, line.len() as int) =~= rest);
    assert(valid_utf8(head));
    assert(valid_utf8(rest));
    let d = decode_utf8(rest);
    let h = decode_utf8(head);
    assert(encode_utf8(d) == rest);
    assert(encode_utf8(h) == head);
    lemma_encode_concat(seq![c], d);
    let cd = seq![c] + d;
    assert(cd[0] == c);
    encode_utf8_first_scalar(cd);
    assert(encode_utf8(seq![c]) == encode_scalar(c as u32)) by {
        reveal_with_fuel(encode_utf8, 2);
        assert(seq![c].drop_first() =~= Seq::<char>::empty());
    }
    let tail = encode_utf8(cd);
    assert(tail == encode_utf8(seq![c]) + rest);
    assert(ins.skip(col) =~= tail);
    assert(ins.take(col) =~= head);
    assert(pop_first_scalar(tail) =~= rest);
    assert(remove_at(ins, col) =~= line);
    // The insertion point is a boundary of the new line.
    lemma_encode_concat(h, cd);
    assert(ins =~= encode_utf8(h + cd));
    lemma_boundary_after_prefix(h, cd);
    assert(encode_utf8(h).len() == col);
}

/// The end of an encoded prefix is a character boundary of the whole text.
pub proof fn lemma_boundary_after_prefix(h: Seq<char>, t: Seq<char>)
    ensures
        is_char_boundary(encode_utf8(h + t), encode_utf8(h).len() as int),
    decreases h.len(),
{
    lemma_encode_concat(h, t);
    if h.len() == 0 {
        assert(h + t =~= t);
    } else {
        let all = h + t;
        assert(all.drop_first() =~= h.drop_first() + t);
        lemma_boundary_after_prefix(h.drop_first(), t);
        encode_utf8_first_scalar(all);
        assert(all[0] == h[0]);
        let bytes = encode_utf8(all);
        assert(pop_first_scalar(bytes) =~= encode_utf8(all.drop_first()));
        assert(encode_utf8(h).len() == encode_scalar(h[0] as u32).len() + encode_utf8(h.drop_first()).len());
    }
}

} // verus!
