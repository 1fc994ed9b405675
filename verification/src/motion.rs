//! Vim-style cursor motions over one line of text, measured in characters:
//! `h`/`l`, `w`/`b`/`e`, `W`/`B`/`E`, `^`, and the `f`/`F`/`t`/`T` searches.

use vstd::prelude::*;
use crate::text::{chars_of, is_alphanumeric, is_whitespace, unicode_alphanumeric, unicode_white_space};

verus! {

/// A "word" character: alphanumeric or underscore.
pub open spec fn word_char(c: char) -> bool {
    unicode_alphanumeric(c) || c == '_'
}

/// The class of a character for `w`/`b`/`e`: 0 blank, 1 word, 2 punctuation.
/// For the big-word motions `W`/`B`/`E` only blank (0) and non-blank (1) count.
pub open spec fn class_of(c: char, big: bool) -> int {
    if unicode_white_space(c) {
        0
    } else if big || word_char(c) {
        1
    } else {
        2
    }
}

/// `i` is the first character of a word: it is not blank and either starts
/// the line or follows a character of another class.
pub open spec fn is_word_start(s: Seq<char>, i: int, big: bool) -> bool {
    &&& 0 <= i < s.len()
    &&& !unicode_white_space(s[i])
    &&& (i == 0 || class_of(s[i - 1], big) != class_of(s[i], big))
}

/// `i` is the last character of a word: it is not blank and either ends
/// the line or precedes a character of another class.
pub open spec fn is_word_end(s: Seq<char>, i: int, big: bool) -> bool {
    &&& 0 <= i < s.len()
    &&& !unicode_white_space(s[i])
    &&& (i == s.len() - 1 || class_of(s[i + 1], big) != class_of(s[i], big))
}

/// The last column of a line of `n` characters (0 for an empty line).
pub open spec fn last_col(n: int) -> int {
    if n == 0 { 0 } else { n - 1 }
}

/// The two directions and two landing rules of the `f/F/t/T` searches.
#[derive(Debug, Clone, Copy, PartialEq, Eq, Structural)]
pub enum PendingMotion {
    FindForward,
    FindBackward,
    TillForward,
    TillBackward,
}

/// The same search in the opposite direction (what `,` repeats).
pub open spec fn reversed(m: PendingMotion) -> PendingMotion {
    match m {
        PendingMotion::FindForward => PendingMotion::FindBackward,
        PendingMotion::FindBackward => PendingMotion::FindForward,
        PendingMotion::TillForward => PendingMotion::TillBackward,
        PendingMotion::TillBackward => PendingMotion::TillForward,
    }
}

/// `f<c>` from `col`: `r` is the next occurrence of `c` after `col`, or
/// `col` itself when `c` does not occur after `col`.
pub open spec fn find_forward_result(s: Seq<char>, col: int, c: char, r: int) -> bool {
    ||| (r == col && forall|i: int| col < i < s.len() ==> s[i] != c)
    ||| (col < r < s.len() && s[r] == c && forall|i: int| col < i < r ==> s[i] != c)
}

/// `F<c>` from `col`: `r` is the previous occurrence of `c` before `col`, or
/// `col` itself when `c` does not occur before `col`.
pub open spec fn find_backward_result(s: Seq<char>, col: int, c: char, r: int) -> bool {
    ||| (r == col && forall|i: int| 0 <= i < col ==> s[i] != c)
    ||| (0 <= r < col && s[r] == c && forall|i: int| r < i < col ==> s[i] != c)
}

/// `t<c>` from `col`: one column before the next `c` after `col`, or `col`
/// when there is none.
pub open spec fn till_forward_result(s: Seq<char>, col: int, c: char, r: int) -> bool {
    ||| (r == col && forall|i: int| col < i < s.len() ==> s[i] != c)
    ||| (col <= r && r + 1 < s.len() && s[r + 1] == c && forall|i: int| col < i <= r ==> s[i] != c)
}

/// `T<c>` from `col`: one column after the previous `c` before `col`, or
/// `col` when there is none.
pub open spec fn till_backward_result(s: Seq<char>, col: int, c: char, r: int) -> bool {
    ||| (r == col && forall|i: int| 0 <= i < col ==> s[i] != c)
    ||| (0 < r <= col && s[r - 1] == c && forall|i: int| r <= i < col ==> s[i] != c)
}

/// Where the character search `m` for `c` lands from `col`.
pub open spec fn char_motion_result(s: Seq<char>, col: int, m: PendingMotion, c: char, r: int) -> bool {
    match m {
        PendingMotion::FindForward => find_forward_result(s, col, c, r),
        PendingMotion::FindBackward => find_backward_result(s, col, c, r),
        PendingMotion::TillForward => till_forward_result(s, col, c, r),
        PendingMotion::TillBackward => till_backward_result(s, col, c, r),
    }
}

/// Whether `c` belongs to a word (alphanumeric or `_`).
pub fn is_word_char(c: char) -> (r: bool)
    ensures
        r == word_char(c),
{
    c == '_' || is_alphanumeric(c)
}

fn class_exec(c: char, big: bool) -> (r: u8)
    ensures
        r as int == class_of(c, big),
{
    if is_whitespace(c) {
        0
    } else if big || is_word_char(c) {
        1
    } else {
        2
    }
}

/// `h`: one column left, stopping at column 0.
pub fn char_left(col: usize) -> (r: usize)
    ensures
        r == if col == 0 { 0 } else { col - 1 },
{
    if col == 0 { 0 } else { col - 1 }
}

/// `l`: one column right, stopping at the last character (0 on an empty line).
pub fn char_right(text: &str, col: usize) -> (r: usize)
    ensures
        r == if text@.len() == 0 {
            0
        } else if col + 1 < text@.len() - 1 {
            col + 1
        } else {
            text@.len() - 1
        },
{
    let n = text.unicode_len();
    if n == 0 {
        0
    } else if col < n - 1 {
        // (col + 1).min(n - 1)
        if col + 1 < n - 1 { col + 1 } else { n - 1 }
    } else {
        n - 1
    }
}

/// First word start after `col` in `chars`, or `chars.len()` when there is none.
fn next_word_start(chars: &Vec<char>, col: usize, big: bool) -> (r: usize)
    requires
        col < chars@.len(),
    ensures
        col < r <= chars@.len(),
        r < chars@.len() ==> is_word_start(chars@, r as int, big),
        forall|i: int| col < i < r ==> !is_word_start(chars@, i, big),
{
    let n = chars.len();
    let start_class = class_exec(chars[col], big);
    let mut pos = col + 1;
    // Skip the rest of the run that `col` belongs to (nothing when it is blank).
    if start_class != 0 {
        while pos < n && class_exec(chars[pos], big) == start_class
            invariant
                col < pos <= n,
                n == chars@.len(),
                start_class as int == class_of(chars@[col as int], big),
                forall|i: int| col <= i < pos ==> class_of(#[trigger] chars@[i], big) == start_class,
            decreases n - pos,
        {
            pos += 1;
        }
    }
    // Skip blanks.
    while pos < n && is_whitespace(chars[pos])
        invariant
            col < pos <= n,
            n == chars@.len(),
            forall|i: int| col < i < pos ==> !is_word_start(chars@, i, big),
            pos < n ==> (unicode_white_space(chars@[pos as int]) || class_of(chars@[pos - 1], big)
                != class_of(chars@[pos as int], big)),
        decreases n - pos,
    {
        pos += 1;
    }
    pos
}

/// Last word start before `col` in `chars`, or 0 when there is none.
fn prev_word_start(chars: &Vec<char>, col: usize, big: bool) -> (r: usize)
    requires
        0 < col <= chars@.len(),
    ensures
        r < col,
        r == 0 || is_word_start(chars@, r as int, big),
        forall|i: int| r < i < col ==> !is_word_start(chars@, i, big),
{
    let mut pos = col - 1;
    while pos > 0 && is_whitespace(chars[pos])
        invariant
            pos < col <= chars@.len(),
            forall|i: int| pos < i < col ==> unicode_white_space(#[trigger] chars@[i]),
        decreases pos,
    {
        pos -= 1;
    }
    if is_whitespace(chars[pos]) {
        return 0;
    }
    let cls = class_exec(chars[pos], big);
    let top = pos;
    while pos > 0 && class_exec(chars[pos - 1], big) == cls
        invariant
            pos <= top < col <= chars@.len(),
            cls as int == class_of(chars@[top as int], big),
            cls != 0,
            forall|i: int| top < i < col ==> unicode_white_space(#[trigger] chars@[i]),
            forall|i: int| pos <= i <= top ==> class_of(#[trigger] chars@[i], big) == cls,
        decreases pos,
    {
        pos -= 1;
    }
    assert forall|i: int| pos < i < col implies !is_word_start(chars@, i, big) by {
        if i <= top {
            assert(class_of(chars@[i - 1], big) == cls);
        }
    }
    pos
}

/// First word end after `col` in `chars`, or the last index when there is none.
fn next_word_end(chars: &Vec<char>, col: usize, big: bool) -> (r: usize)
    requires
        col + 1 < chars@.len(),
    ensures
        col < r < chars@.len(),
        r == chars@.len() - 1 || is_word_end(chars@, r as int, big),
        forall|i: int| col < i < r ==> !is_word_end(chars@, i, big),
{
    let n = chars.len();
    let mut pos = col;
    if !is_whitespace(chars[pos]) && class_exec(chars[pos + 1], big) != class_exec(chars[pos], big) {
        pos += 1;
    }
    while pos < n && is_whitespace(chars[pos])
        invariant
            col <= pos <= n,
            n == chars@.len(),
            col + 1 < n,
            forall|i: int| col < i < pos ==> unicode_white_space(#[trigger] chars@[i]),
            pos == col ==> !is_word_end(chars@, col as int, big),
        decreases n - pos,
    {
        pos += 1;
    }
    if pos >= n {
        return n - 1;
    }
    let start = pos;
    let cls = class_exec(chars[pos], big);
    while pos + 1 < n && class_exec(chars[pos + 1], big) == cls
        invariant
            start <= pos < n,
            n == chars@.len(),
            cls as int == class_of(chars@[start as int], big),
            forall|i: int| start <= i <= pos ==> class_of(#[trigger] chars@[i], big) == cls,
        decreases n - pos,
    {
        pos += 1;
    }
    assert forall|i: int| col < i < pos implies !is_word_end(chars@, i, big) by {
        if i >= start {
            assert(class_of(chars@[i + 1], big) == cls);
        }
    }
    pos
}

/// What `w` (or `W` when `big`) does from `col`: the next word start, clamped
/// to the last column.
pub open spec fn forward_start_result(s: Seq<char>, col: int, r: int, big: bool) -> bool {
    if col >= s.len() {
        r == last_col(s.len() as int)
    } else {
        &&& col <= r < s.len()
        &&& forall|i: int| col < i < r ==> !is_word_start(s, i, big)
        &&& (r == s.len() - 1 || (col < r && is_word_start(s, r, big)))
    }
}

/// What `b` (or `B`) does from `col`: the previous word start, or column 0.
pub open spec fn backward_start_result(s: Seq<char>, col: int, r: int, big: bool) -> bool {
    &&& 0 <= r <= col
    &&& (col == 0 ==> r == 0)
    &&& (r == 0 || (r < col && is_word_start(s, r, big)))
    &&& forall|i: int| r < i < col ==> !is_word_start(s, i, big)
}

/// What `e` (or `E`) does from `col`: the next word end, or the last column.
pub open spec fn forward_end_result(s: Seq<char>, col: int, r: int, big: bool) -> bool {
    if col + 1 >= s.len() {
        r == last_col(s.len() as int)
    } else {
        &&& col < r < s.len()
        &&& forall|i: int| col < i < r ==> !is_word_end(s, i, big)
        &&& (r == s.len() - 1 || is_word_end(s, r, big))
    }
}

fn word_forward_impl(text: &str, col: usize, big: bool) -> (r: usize)
    ensures
        forward_start_result(text@, col as int, r as int, big),
{
    let chars = chars_of(text);
    let n = chars.len();
    if col >= n {
        return if n == 0 { 0 } else { n - 1 };
    }
    let p = next_word_start(&chars, col, big);
    if p < n - 1 { p } else { n - 1 }
}

fn word_backward_impl(text: &str, col: usize, big: bool) -> (r: usize)
    requires
        col <= text@.len(),
    ensures
        backward_start_result(text@, col as int, r as int, big),
{
    if col == 0 {
        return 0;
    }
    let chars = chars_of(text);
    prev_word_start(&chars, col, big)
}

fn word_end_impl(text: &str, col: usize, big: bool) -> (r: usize)
    ensures
        forward_end_result(text@, col as int, r as int, big),
{
    let chars = chars_of(text);
    let n = chars.len();
    if n == 0 {
        return 0;
    }
    if col >= n - 1 {
        return n - 1;
    }
    next_word_end(&chars, col, big)
}

/// `w`: start of the next word (word characters and punctuation runs count
/// as separate words), clamped to the last column.
pub fn word_forward(text: &str, col: usize) -> (r: usize)
    ensures
        forward_start_result(text@, col as int, r as int, false),
{
    word_forward_impl(text, col, false)
}

/// `b`: start of the current or previous word, or column 0.
pub fn word_backward(text: &str, col: usize) -> (r: usize)
    requires
        col <= text@.len(),
    ensures
        backward_start_result(text@, col as int, r as int, false),
{
    word_backward_impl(text, col, false)
}

/// `e`: end of the current or next word, or the last column.
pub fn word_end(text: &str, col: usize) -> (r: usize)
    ensures
        forward_end_result(text@, col as int, r as int, false),
{
    word_end_impl(text, col, false)
}

/// `W`: start of the next blank-separated word, clamped to the last column.
pub fn word_forward_big(text: &str, col: usize) -> (r: usize)
    ensures
        forward_start_result(text@, col as int, r as int, true),
{
    word_forward_impl(text, col, true)
}

/// `B`: start of the current or previous blank-separated word, or column 0.
pub fn word_backward_big(text: &str, col: usize) -> (r: usize)
    requires
        col <= text@.len(),
    ensures
        backward_start_result(text@, col as int, r as int, true),
{
    word_backward_impl(text, col, true)
}

/// `E`: end of the current or next blank-separated word, or the last column.
pub fn word_end_big(text: &str, col: usize) -> (r: usize)
    ensures
        forward_end_result(text@, col as int, r as int, true),
{
    word_end_impl(text, col, true)
}

/// `^`: the first non-blank column, or 0 when the line is blank.
pub fn first_nonblank(text: &str) -> (r: usize)
    ensures
        (r < text@.len() && !unicode_white_space(text@[r as int]) && forall|i: int|
            0 <= i < r ==> unicode_white_space(#[trigger] text@[i]))
            || (r == 0 && forall|i: int| 0 <= i < text@.len() ==> unicode_white_space(#[trigger] text@[i])),
{
    let chars = chars_of(text);
    let mut i: usize = 0;
    while i < chars.len()
        invariant
            i <= chars@.len(),
            chars@ == text@,
            forall|j: int| 0 <= j < i ==> unicode_white_space(#[trigger] chars@[j]),
        decreases chars@.len() - i,
    {
        if !is_whitespace(chars[i]) {
            return i;
        }
        i += 1;
    }
    0
}

/// `f<c>`: the next occurrence of `target` after `col`, or `col` when there is none.
pub fn find_char_forward(text: &str, col: usize, target: char) -> (r: usize)
    ensures
        find_forward_result(text@, col as int, target, r as int),
{
    let chars = chars_of(text);
    let n = chars.len();
    if col >= n {
        return col;
    }
    // Look at col + 1, col + 2, ...
    let mut i: usize = col;
    while i < n - 1
        invariant
            col <= i < n,
            n == chars@.len(),
            chars@ == text@,
            forall|j: int| col < j <= i ==> chars@[j] != target,
        decreases n - i,
    {
        i += 1;
        if chars[i] == target {
            return i;
        }
    }
    col
}

/// `F<c>`: the previous occurrence of `target` before `col`, or `col` when
/// there is none.
pub fn find_char_backward(text: &str, col: usize, target: char) -> (r: usize)
    requires
        col <= text@.len(),
    ensures
        find_backward_result(text@, col as int, target, r as int),
{
    if col == 0 {
        return 0;
    }
    let chars = chars_of(text);
    let mut i: usize = col;
    while i > 0
        invariant
            i <= col <= chars@.len(),
            chars@ == text@,
            forall|j: int| i <= j < col ==> chars@[j] != target,
        decreases i,
    {
        if chars[i - 1] == target {
            return i - 1;
        }
        i -= 1;
    }
    col
}

/// `t<c>`: one column before the next `target` after `col`, or `col`.
pub fn till_char_forward(text: &str, col: usize, target: char) -> (r: usize)
    ensures
        till_forward_result(text@, col as int, target, r as int),
{
    let found = find_char_forward(text, col, target);
    if found > col {
        found - 1
    } else {
        col
    }
}

/// `T<c>`: one column after the previous `target` before `col`, or `col`.
pub fn till_char_backward(text: &str, col: usize, target: char) -> (r: usize)
    requires
        col <= text@.len(),
    ensures
        till_backward_result(text@, col as int, target, r as int),
{
    let found = find_char_backward(text, col, target);
    if found < col {
        if found + 1 < col { found + 1 } else { col }
    } else {
        col
    }
}

/// Runs the character search `motion` for `c` from `col`.
pub fn apply_char_motion(text: &str, col: usize, motion: &PendingMotion, c: char) -> (r: usize)
    requires
        col <= text@.len(),
    ensures
        char_motion_result(text@, col as int, *motion, c, r as int),
{
    match motion {
        PendingMotion::FindForward => find_char_forward(text, col, c),
        PendingMotion::FindBackward => find_char_backward(text, col, c),
        PendingMotion::TillForward => till_char_forward(text, col, c),
        PendingMotion::TillBackward => till_char_backward(text, col, c),
    }
}

/// The same character search in the opposite direction (used by `,`).
pub fn reverse_motion(motion: &PendingMotion) -> (r: PendingMotion)
    ensures
        r == reversed(*motion),
{
    match motion {
        PendingMotion::FindForward => PendingMotion::FindBackward,
        PendingMotion::FindBackward => PendingMotion::FindForward,
        PendingMotion::TillForward => PendingMotion::TillBackward,
        PendingMotion::TillBackward => PendingMotion::TillForward,
    }
}

/// Reversing a character search twice gives back the original search.
pub proof fn lemma_reverse_motion_involutive(m: PendingMotion)
    ensures
        reversed(reversed(m)) == m,
{
}

/// Each character search has a single landing column: the result relation
/// determines the column uniquely.
pub proof fn lemma_char_motion_deterministic(s: Seq<char>, col: int, m: PendingMotion, c: char, r1: int, r2: int)
    requires
        0 <= col,
        char_motion_result(s, col, m, c, r1),
        char_motion_result(s, col, m, c, r2),
    ensures
        r1 == r2,
{
    match m {
        PendingMotion::FindForward => {
            if r1 != r2 {
                if r1 != col && r2 != col {
                    if r1 < r2 { assert(s[r1] != c); } else { assert(s[r2] != c); }
                } else if r1 == col { assert(s[r2] != c); } else { assert(s[r1] != c); }
            }
        }
        PendingMotion::FindBackward => {
            if r1 != r2 {
                if r1 != col && r2 != col {
                    if r1 < r2 { assert(s[r2] != c); } else { assert(s[r1] != c); }
                } else if r1 == col { assert(s[r2] != c); } else { assert(s[r1] != c); }
            }
        }
        PendingMotion::TillForward => {
            if r1 != r2 {
                if r1 < r2 {
                    assert(s[r1 + 1] != c);
                } else {
                    assert(s[r2 + 1] != c);
                }
            }
        }
        PendingMotion::TillBackward => {
            if r1 != r2 {
                if r1 < r2 {
                    assert(s[r2 - 1] != c);
                } else {
                    assert(s[r1 - 1] != c);
                }
            }
        }
    }
}

} // verus!
