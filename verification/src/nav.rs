//! Vim-style count prefixes and the saturating scroll arithmetic shared by
//! the log view, the visual modes and the filter list.

use vstd::prelude::*;
use crate::key::{Key, KeyInput};

verus! {

/// The largest count prefix that is kept.
pub const MAX_COUNT: usize = 999_999;

/// `a + b`, or `usize::MAX` when that overflows.
pub open spec fn sat_add(a: int, b: int) -> int {
    if a + b > usize::MAX { usize::MAX as int } else { a + b }
}

/// `a - b`, or 0 when that is negative.
pub open spec fn sat_sub(a: int, b: int) -> int {
    if a - b < 0 { 0 } else { a - b }
}

/// `a * b`, or `usize::MAX` when that overflows.
pub open spec fn sat_mul(a: int, b: int) -> int {
    if a * b > usize::MAX { usize::MAX as int } else { a * b }
}

/// `a.saturating_mul(b)` for `usize`.
pub fn saturating_mul(a: usize, b: usize) -> (r: usize)
    ensures
        r == sat_mul(a as int, b as int),
{
    match a.checked_mul(b) {
        Some(v) => v,
        None => usize::MAX,
    }
}

/// The count after typing decimal digit `d`: ten times the old count (0
/// when there is none) plus `d`, saturating, capped at `MAX_COUNT`.
pub open spec fn count_after_digit(count: Option<usize>, d: int) -> int {
    let base = match count {
        Some(c) => c as int,
        None => 0,
    };
    let v = sat_add(sat_mul(base, 10), d);
    if v > MAX_COUNT { MAX_COUNT as int } else { v }
}

/// Whether the modifiers allow a digit to count: none, or only Shift.
pub open spec fn plain_or_shift(k: KeyInput) -> bool {
    !k.ctrl && !k.alt && !k.meta
}

/// The count prefix after `k`, or `None` when `k` is not part of a count:
/// a digit 1–9 starts or extends a count, `0` extends an existing one.
pub open spec fn count_step(count: Option<usize>, k: KeyInput) -> Option<Option<usize>> {
    match k.key {
        Key::Char(c) => if plain_or_shift(k) && '1' <= c <= '9' {
            Some(Some(count_after_digit(count, c as int - '0' as int) as usize))
        } else if plain_or_shift(k) && c == '0' && count is Some {
            Some(Some(count_after_digit(count, 0) as usize))
        } else {
            None
        },
        _ => None,
    }
}

fn digit_value(c: char) -> (r: usize)
    requires
        '0' <= c <= '9',
    ensures
        r == c as int - '0' as int,
{
    let v = c as u32 - '0' as u32;
    v as usize
}

/// Accumulates a count prefix: returns the new count when `k` is a count
/// digit, `None` when the key is something else.
pub fn push_count_key(count: Option<usize>, k: &KeyInput) -> (r: Option<Option<usize>>)
    ensures
        r == count_step(count, *k),
{
    match k.key {
        Key::Char(c) => {
            let plain = !k.ctrl && !k.alt && !k.meta;
            if plain && '1' <= c && c <= '9' {
                let base = match count {
                    Some(n) => n,
                    None => 0,
                };
                let n = saturating_mul(base, 10).saturating_add(digit_value(c));
                Some(Some(if n > MAX_COUNT { MAX_COUNT } else { n }))
            } else if plain && c == '0' && count.is_some() {
                let base = match count {
                    Some(n) => n,
                    None => 0,
                };
                let n = saturating_mul(base, 10);
                proof {
                    assert(sat_add(n as int, 0) == n);
                }
                Some(Some(if n > MAX_COUNT { MAX_COUNT } else { n }))
            } else {
                None
            }
        },
        _ => None,
    }
}

/// Half a page: half the visible height, at least one line.
pub fn half_page(visible_height: usize) -> (r: usize)
    ensures
        r == if visible_height / 2 > 1 { visible_height / 2 } else { 1 },
{
    let h = visible_height / 2;
    if h > 1 { h } else { 1 }
}

/// A page: the visible height, at least one line.
pub fn full_page(visible_height: usize) -> (r: usize)
    ensures
        r == if visible_height > 1 { visible_height } else { 1 },
{
    if visible_height > 1 { visible_height } else { 1 }
}

/// A count never exceeds `MAX_COUNT`, whatever digits are typed.
pub proof fn lemma_count_bounded(count: Option<usize>, k: KeyInput)
    ensures
        count_step(count, k) matches Some(Some(n)) ==> n <= MAX_COUNT,
{
}

/// Typing a digit into a small count appends it in decimal.
pub proof fn lemma_count_appends_digit(c: usize, d: int)
    requires
        c < 99_999,
        0 <= d <= 9,
    ensures
        count_after_digit(Some(c), d) == 10 * c + d,
{
}

} // verus!
