//! Marking a character selection on a styled line: the spans that the
//! selection crosses are split so that exactly the selected characters can
//! be drawn reversed.

use vstd::prelude::*;
use crate::nav::sat_add;
use crate::text::{chars_of, string_from_chars};

verus! {

/// A piece of a styled line: its text, the style of the span it came from,
/// and whether it is selected (drawn reversed).
#[derive(Debug, Clone)]
pub struct MarkedSpan<S> {
    pub text: String,
    pub style: S,
    pub reversed: bool,
}

/// The smaller of two integers.
pub open spec fn min_int(a: int, b: int) -> int {
    if a < b { a } else { b }
}

/// The pieces of one span of text `t` whose first character is character
/// `pos` of the line, for the selection of characters `lo..=hi`: the span
/// whole when the selection misses it; else the part before the selection
/// (if any), the selected part (reversed), the part after (if any).
pub open spec fn span_pieces(t: Seq<char>, pos: int, lo: int, hi: int) -> Seq<(Seq<char>, bool)> {
    let len = t.len() as int;
    let start = min_int(if lo - pos > 0 { lo - pos } else { 0 }, len);
    let end = min_int(if hi + 1 - pos > 0 { hi + 1 - pos } else { 0 }, len);
    if !(start < end && pos <= hi && pos + len > lo) {
        seq![(t, false)]
    } else {
        (if start > 0 { seq![(t.take(start), false)] } else { Seq::empty() }) + seq![(t.subrange(start, end), true)]
            + (if end < len { seq![(t.skip(end), false)] } else { Seq::empty() })
    }
}

/// The pieces of the first `n` spans, each with the span it came from.
pub open spec fn pieces(texts: Seq<Seq<char>>, lo: int, hi: int, n: int) -> Seq<(Seq<char>, bool, int)>
    decreases n,
{
    if n <= 0 {
        Seq::empty()
    } else {
        let before = pieces(texts, lo, hi, n - 1);
        before + span_pieces(texts[n - 1], start_of(texts, n - 1), lo, hi).map_values(
            |p: (Seq<char>, bool)| (p.0, p.1, n - 1),
        )
    }
}

/// The character position where span `n` starts (saturating).
pub open spec fn start_of(texts: Seq<Seq<char>>, n: int) -> int
    decreases n,
{
    if n <= 0 {
        0
    } else {
        sat_add(start_of(texts, n - 1), texts[n - 1].len() as int)
    }
}

/// The texts of the spans.
pub open spec fn span_texts<S>(spans: Seq<(String, S)>) -> Seq<Seq<char>> {
    spans.map_values(|s: (String, S)| s.0@)
}

/// All the characters of a list of texts, in order.
pub open spec fn flat(ts: Seq<Seq<char>>) -> Seq<char>
    decreases ts.len(),
{
    if ts.len() == 0 {
        Seq::empty()
    } else {
        flat(ts.drop_last()) + ts.last()
    }
}

fn sub_string(chars: &Vec<char>, a: usize, b: usize) -> (r: String)
    requires
        a <= b <= chars@.len(),
    ensures
        r@ == chars@.subrange(a as int, b as int),
{
    let mut out: Vec<char> = Vec::new();
    let mut i: usize = a;
    while i < b
        invariant
            a <= i <= b <= chars@.len(),
            out@ == chars@.subrange(a as int, i as int),
        decreases b - i,
    {
        out.push(chars[i]);
        assert(chars@.subrange(a as int, i + 1) =~= chars@.subrange(a as int, i as int).push(chars@[i as int]));
        i += 1;
    }
    string_from_chars(&out)
}

/// Splits the spans of a line so that the characters `lo..=hi` (counted
/// over the whole line) form pieces of their own, marked reversed; every
/// piece keeps the style of the span it came from.
pub fn apply_char_selection<S: Copy>(spans: &Vec<(String, S)>, lo: usize, hi: usize) -> (r: Vec<MarkedSpan<S>>)
    requires
        hi < usize::MAX,
    ensures
        r@.len() == pieces(span_texts(spans@), lo as int, hi as int, spans@.len() as int).len(),
        forall|i: int|
            0 <= i < r@.len() ==> {
                let p = #[trigger] pieces(span_texts(spans@), lo as int, hi as int, spans@.len() as int)[i];
                &&& r@[i].text@ == p.0
                &&& r@[i].reversed == p.1
                &&& 0 <= p.2 < spans@.len()
                &&& r@[i].style == spans@[p.2].1
            },
{
    let ghost texts = span_texts(spans@);
    let mut out: Vec<MarkedSpan<S>> = Vec::new();
    let mut pos: usize = 0;
    let mut k: usize = 0;
    while k < spans.len()
        invariant
            k <= spans@.len(),
            texts == span_texts(spans@),
            hi < usize::MAX,
            pos == start_of(texts, k as int),
            out@.len() == pieces(texts, lo as int, hi as int, k as int).len(),
            forall|i: int|
                0 <= i < out@.len() ==> {
                    let p = #[trigger] pieces(texts, lo as int, hi as int, k as int)[i];
                    &&& out@[i].text@ == p.0
                    &&& out@[i].reversed == p.1
                    &&& 0 <= p.2 < k
                    &&& out@[i].style == spans@[p.2].1
                },
        decreases spans@.len() - k,
    {
        let chars = chars_of(spans[k].0.as_str());
        let style = spans[k].1;
        let len = chars.len();
        let span_end = pos.saturating_add(len);
        let start = if lo > pos { if lo - pos < len { lo - pos } else { len } } else { 0 };
        let end = if hi + 1 > pos { if hi + 1 - pos < len { hi + 1 - pos } else { len } } else { 0 };
        let ghost t = texts[k as int];
        let ghost sp = span_pieces(t, pos as int, lo as int, hi as int);
        let ghost before = out@;
        let ghost prev = pieces(texts, lo as int, hi as int, k as int);
        proof {
            assert(t == chars@);
            assert(pieces(texts, lo as int, hi as int, k + 1) == prev + sp.map_values(
                |p: (Seq<char>, bool)| (p.0, p.1, k as int),
            ));
        }
        let reaches_lo = if lo >= pos { len > lo - pos } else { true };
        let overlap = start < end && pos <= hi && reaches_lo;
        if !overlap {
            out.push(MarkedSpan { text: string_from_chars(&chars), style, reversed: false });
        } else {
            if start > 0 {
                out.push(MarkedSpan { text: sub_string(&chars, 0, start), style, reversed: false });
                assert(chars@.subrange(0, start as int) =~= chars@.take(start as int));
            }
            out.push(MarkedSpan { text: sub_string(&chars, start, end), style, reversed: true });
            if end < len {
                out.push(MarkedSpan { text: sub_string(&chars, end, len), style, reversed: false });
                assert(chars@.subrange(end as int, len as int) =~= chars@.skip(end as int));
            }
        }
        proof {
            let next = pieces(texts, lo as int, hi as int, k + 1);
            assert(out@.len() == next.len());
            assert forall|i: int| 0 <= i < out@.len() implies {
                let p = #[trigger] next[i];
                &&& out@[i].text@ == p.0
                &&& out@[i].reversed == p.1
                &&& 0 <= p.2 < k + 1
                &&& out@[i].style == spans@[p.2].1
            } by {
                if i < before.len() {
                    assert(next[i] == prev[i]);
                    assert(out@[i] == before[i]);
                } else {
                    assert(next[i] == (sp[i - before.len()].0, sp[i - before.len()].1, k as int));
                }
            }
        }
        pos = span_end;
        k += 1;
    }
    out
}

/// Splitting keeps the text: the pieces of a span, put together, are the
/// span.
pub proof fn lemma_span_pieces_keep_text(t: Seq<char>, pos: int, lo: int, hi: int)
    ensures
        flat(span_pieces(t, pos, lo, hi).map_values(|p: (Seq<char>, bool)| p.0)) == t,
{
    let ps = span_pieces(t, pos, lo, hi);
    let ts = ps.map_values(|p: (Seq<char>, bool)| p.0);
    let len = t.len() as int;
    let start = min_int(if lo - pos > 0 { lo - pos } else { 0 }, len);
    let end = min_int(if hi + 1 - pos > 0 { hi + 1 - pos } else { 0 }, len);
    reveal_with_fuel(flat, 4);
    if !(start < end && pos <= hi && pos + len > lo) {
        assert(ts =~= seq![t]);
        assert(ts.drop_last() =~= Seq::<Seq<char>>::empty());
        assert(flat(ts) =~= t);
    } else {
        let a = t.take(start);
        let m = t.subrange(start, end);
        let z = t.skip(end);
        if start > 0 && end < len {
            assert(ts =~= seq![a, m, z]);
            assert(ts.drop_last() =~= seq![a, m]);
            assert(ts.drop_last().drop_last() =~= seq![a]);
            assert(ts.drop_last().drop_last().drop_last() =~= Seq::<Seq<char>>::empty());
            assert(flat(ts) =~= a + m + z);
        } else if start > 0 {
            assert(ts =~= seq![a, m]);
            assert(ts.drop_last() =~= seq![a]);
            assert(ts.drop_last().drop_last() =~= Seq::<Seq<char>>::empty());
            assert(flat(ts) =~= a + m);
        } else if end < len {
            assert(ts =~= seq![m, z]);
            assert(ts.drop_last() =~= seq![m]);
            assert(ts.drop_last().drop_last() =~= Seq::<Seq<char>>::empty());
            assert(flat(ts) =~= m + z);
        } else {
            assert(ts =~= seq![m]);
            assert(ts.drop_last() =~= Seq::<Seq<char>>::empty());
            assert(flat(ts) =~= m);
        }
    }
}


/// Joining two lists of texts joins their characters.
proof fn lemma_flat_concat(a: Seq<Seq<char>>, b: Seq<Seq<char>>)
    ensures
        flat(a + b) == flat(a) + flat(b),
    decreases b.len(),
{
    if b.len() == 0 {
        assert(a + b =~= a);
        assert(flat(a) + flat(b) =~= flat(a));
    } else {
        lemma_flat_concat(a, b.drop_last());
        assert((a + b).drop_last() =~= a + b.drop_last());
        assert((a + b).last() == b.last());
        assert(flat(a) + flat(b) =~= flat(a) + flat(b.drop_last()) + b.last());
    }
}

/// Marking a selection changes no character of the line: the pieces of the
/// first `n` spans, put together, are the characters of those spans.
proof fn lemma_selection_keeps_text(texts: Seq<Seq<char>>, lo: int, hi: int, n: int)
    requires
        0 <= n <= texts.len(),
    ensures
        flat(pieces(texts, lo, hi, n).map_values(|p: (Seq<char>, bool, int)| p.0)) == flat(texts.take(n)),
    decreases n,
{
    if n == 0 {
        assert(pieces(texts, lo, hi, n).map_values(|p: (Seq<char>, bool, int)| p.0) =~= Seq::<Seq<char>>::empty());
        assert(texts.take(n) =~= Seq::<Seq<char>>::empty());
    } else {
        lemma_selection_keeps_text(texts, lo, hi, n - 1);
        let prev = pieces(texts, lo, hi, n - 1);
        let sp = span_pieces(texts[n - 1], start_of(texts, n - 1), lo, hi);
        let tagged = sp.map_values(|p: (Seq<char>, bool)| (p.0, p.1, n - 1));
        let prev_t = prev.map_values(|p: (Seq<char>, bool, int)| p.0);
        let sp_t = sp.map_values(|p: (Seq<char>, bool)| p.0);
        assert(pieces(texts, lo, hi, n) == prev + tagged);
        assert((prev + tagged).map_values(|p: (Seq<char>, bool, int)| p.0) =~= prev_t + sp_t);
        lemma_flat_concat(prev_t, sp_t);
        lemma_span_pieces_keep_text(texts[n - 1], start_of(texts, n - 1), lo, hi);
        assert(texts.take(n).drop_last() =~= texts.take(n - 1));
        assert(texts.take(n).last() == texts[n - 1]);
    }
}

/// Marking a selection over a whole line changes no character of it.
pub proof fn lemma_line_text_unchanged(texts: Seq<Seq<char>>, lo: int, hi: int)
    ensures
        flat(pieces(texts, lo, hi, texts.len() as int).map_values(|p: (Seq<char>, bool, int)| p.0)) == flat(texts),
{
    lemma_selection_keeps_text(texts, lo, hi, texts.len() as int);
    assert(texts.take(texts.len() as int) =~= texts);
}

/// For each character of some pieces, in order: whether it is drawn
/// reversed.
pub open spec fn piece_marks(ps: Seq<(Seq<char>, bool)>) -> Seq<bool>
    decreases ps.len(),
{
    if ps.len() == 0 {
        Seq::empty()
    } else {
        piece_marks(ps.drop_last()) + Seq::new(ps.last().0.len(), |k: int| ps.last().1)
    }
}

/// The pieces of a line without the spans they came from.
pub open spec fn untagged(ps: Seq<(Seq<char>, bool, int)>) -> Seq<(Seq<char>, bool)> {
    ps.map_values(|p: (Seq<char>, bool, int)| (p.0, p.1))
}

proof fn lemma_piece_marks_concat(a: Seq<(Seq<char>, bool)>, b: Seq<(Seq<char>, bool)>)
    ensures
        piece_marks(a + b) == piece_marks(a) + piece_marks(b),
    decreases b.len(),
{
    if b.len() == 0 {
        assert(a + b =~= a);
        assert(piece_marks(a) + piece_marks(b) =~= piece_marks(a));
    } else {
        lemma_piece_marks_concat(a, b.drop_last());
        assert((a + b).drop_last() =~= a + b.drop_last());
        assert((a + b).last() == b.last());
        assert(piece_marks(a) + piece_marks(b) =~= piece_marks(a) + piece_marks(b.drop_last()) + Seq::new(
            b.last().0.len(),
            |k: int| b.last().1,
        ));
    }
}

/// Within one span, exactly the characters whose line positions lie in
/// `lo..=hi` are marked.
proof fn lemma_span_marks(t: Seq<char>, pos: int, lo: int, hi: int)
    ensures
        piece_marks(span_pieces(t, pos, lo, hi)) =~= Seq::new(t.len(), |k: int| lo <= pos + k <= hi),
{
    let len = t.len() as int;
    let start = min_int(if lo - pos > 0 { lo - pos } else { 0 }, len);
    let end = min_int(if hi + 1 - pos > 0 { hi + 1 - pos } else { 0 }, len);
    let ps = span_pieces(t, pos, lo, hi);
    let want = Seq::new(t.len(), |k: int| lo <= pos + k <= hi);
    reveal_with_fuel(piece_marks, 4);
    if !(start < end && pos <= hi && pos + len > lo) {
        assert(ps =~= seq![(t, false)]);
        assert(ps.drop_last() =~= Seq::<(Seq<char>, bool)>::empty());
        assert forall|k: int| 0 <= k < len implies !(#[trigger] want[k]) by {}
        assert(piece_marks(ps) =~= Seq::new(len as nat, |k: int| false));
    } else {
        let a = seq![(t.take(start), false)];
        let m = seq![(t.subrange(start, end), true)];
        let z = seq![(t.skip(end), false)];
        let ma = Seq::new(start as nat, |k: int| false);
        let mm = Seq::new((end - start) as nat, |k: int| true);
        let mz = Seq::new((len - end) as nat, |k: int| false);
        assert(piece_marks(a) =~= ma);
        assert(piece_marks(m) =~= mm);
        assert(piece_marks(z) =~= mz);
        assert(ma + mm + mz =~= want);
        if start > 0 && end < len {
            assert(ps =~= a + m + z);
            lemma_piece_marks_concat(a + m, z);
            lemma_piece_marks_concat(a, m);
        } else if start > 0 {
            assert(ps =~= a + m);
            lemma_piece_marks_concat(a, m);
            assert(ma + mm =~= want);
        } else if end < len {
            assert(ps =~= m + z);
            lemma_piece_marks_concat(m, z);
            assert(mm + mz =~= want);
        } else {
            assert(ps =~= m);
            assert(mm =~= want);
        }
    }
}

/// The character position where span `n` starts is the number of
/// characters of the spans before it, while that fits.
proof fn lemma_start_of_counts(texts: Seq<Seq<char>>, n: int)
    requires
        0 <= n <= texts.len(),
        flat(texts.take(n)).len() <= usize::MAX,
    ensures
        start_of(texts, n) == flat(texts.take(n)).len(),
    decreases n,
{
    if n > 0 {
        assert(texts.take(n).drop_last() =~= texts.take(n - 1));
        assert(texts.take(n).last() == texts[n - 1]);
        lemma_start_of_counts(texts, n - 1);
    } else {
        assert(texts.take(n) =~= Seq::<Seq<char>>::empty());
    }
}

/// The marks of the pieces of the first `n` spans.
proof fn lemma_selection_marks_prefix(texts: Seq<Seq<char>>, lo: int, hi: int, n: int)
    requires
        0 <= n <= texts.len(),
        flat(texts.take(n)).len() <= usize::MAX,
    ensures
        piece_marks(untagged(pieces(texts, lo, hi, n))) =~= Seq::new(
            flat(texts.take(n)).len(),
            |p: int| lo <= p <= hi,
        ),
    decreases n,
{
    if n == 0 {
        assert(texts.take(n) =~= Seq::<Seq<char>>::empty());
        assert(untagged(pieces(texts, lo, hi, n)) =~= Seq::<(Seq<char>, bool)>::empty());
    } else {
        assert(texts.take(n).drop_last() =~= texts.take(n - 1));
        assert(texts.take(n).last() == texts[n - 1]);
        lemma_selection_marks_prefix(texts, lo, hi, n - 1);
        lemma_start_of_counts(texts, n - 1);
        let prev = pieces(texts, lo, hi, n - 1);
        let pos = start_of(texts, n - 1);
        let sp = span_pieces(texts[n - 1], pos, lo, hi);
        let tagged = sp.map_values(|p: (Seq<char>, bool)| (p.0, p.1, n - 1));
        assert(pieces(texts, lo, hi, n) == prev + tagged);
        assert(untagged(prev + tagged) =~= untagged(prev) + sp);
        lemma_piece_marks_concat(untagged(prev), sp);
        lemma_span_marks(texts[n - 1], pos, lo, hi);
    }
}

/// Marking a selection reverses exactly the characters of the line whose
/// positions lie in `lo..=hi`: character `p` of the line is drawn
/// reversed if and only if `lo <= p <= hi`.
pub proof fn lemma_selection_marks_exactly_the_range(texts: Seq<Seq<char>>, lo: int, hi: int)
    requires
        flat(texts).len() <= usize::MAX,
    ensures
        piece_marks(untagged(pieces(texts, lo, hi, texts.len() as int))) =~= Seq::new(
            flat(texts).len(),
            |p: int| lo <= p <= hi,
        ),
{
    assert(texts.take(texts.len() as int) =~= texts);
    lemma_selection_marks_prefix(texts, lo, hi, texts.len() as int);
}

} // verus!
