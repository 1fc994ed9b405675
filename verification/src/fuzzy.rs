//! Fuzzy matching for the pickers' typeahead: a query matches a candidate
//! when its characters occur in the candidate in order, ignoring case.

use vstd::prelude::*;
use crate::text::{chars_of, lemma_map_chars_step, map_chars};

verus! {

/// The lower-case form of `c` (possibly several characters), as
/// `char::to_lowercase` yields it.
pub uninterp spec fn unicode_lower(c: char) -> Seq<char>;

/// `char::to_lowercase`, collected. The contract names the result
/// `unicode_lower(c)`; the case tables are the standard library's.
#[verifier::external_body]
pub(crate) fn to_lowercase(c: char) -> (r: Vec<char>)
    ensures
        r@ == unicode_lower(c),
{
    c.to_lowercase().collect()
}

/// `s` with every character lower-cased.
pub open spec fn lowered(s: Seq<char>) -> Seq<char> {
    map_chars(s, |c: char| unicode_lower(c))
}

/// `q` occurs in `t` as a (not necessarily contiguous) subsequence.
pub open spec fn is_subsequence(q: Seq<char>, t: Seq<char>) -> bool
    decreases t.len(),
{
    if q.len() == 0 {
        true
    } else if t.len() == 0 {
        false
    } else if q[0] == t[0] {
        is_subsequence(q.drop_first(), t.drop_first())
    } else {
        is_subsequence(q, t.drop_first())
    }
}

/// The query matches the candidate: lower-cased, its characters occur in
/// the lower-cased candidate in order.
pub open spec fn fuzzy(query: Seq<char>, candidate: Seq<char>) -> bool {
    is_subsequence(lowered(query), lowered(candidate))
}

/// The characters of `s`, each lower-cased.
pub fn lower_chars(s: &str) -> (r: Vec<char>)
    ensures
        r@ == lowered(s@),
{
    let chars = chars_of(s);
    let mut out: Vec<char> = Vec::new();
    let mut i: usize = 0;
    while i < chars.len()
        invariant
            i <= chars@.len(),
            chars@ == s@,
            out@ == map_chars(chars@.take(i as int), |c: char| unicode_lower(c)),
        decreases chars@.len() - i,
    {
        let mut low = to_lowercase(chars[i]);
        proof {
            lemma_map_chars_step(chars@, i as int, |c: char| unicode_lower(c));
        }
        out.append(&mut low);
        i += 1;
    }
    assert(chars@.take(chars@.len() as int) =~= chars@);
    out
}

proof fn lemma_subsequence_suffix(q: Seq<char>, t: Seq<char>, i: int, j: int)
    requires
        0 <= i <= q.len(),
        0 <= j <= t.len(),
    ensures
        is_subsequence(q.skip(i), t.skip(j)) == if i == q.len() {
            true
        } else if j == t.len() {
            false
        } else if q[i] == t[j] {
            is_subsequence(q.skip(i + 1), t.skip(j + 1))
        } else {
            is_subsequence(q.skip(i), t.skip(j + 1))
        },
{
    if i < q.len() && j < t.len() {
        assert(q.skip(i).drop_first() =~= q.skip(i + 1));
        assert(t.skip(j).drop_first() =~= t.skip(j + 1));
    }
}

/// Whether `query` fuzzily matches `candidate`.
pub fn fuzzy_match(query: &str, candidate: &str) -> (r: bool)
    ensures
        r == fuzzy(query@, candidate@),
{
    let q = lower_chars(query);
    let t = lower_chars(candidate);
    let mut i: usize = 0;
    let mut j: usize = 0;
    assert(q@.skip(0) =~= q@);
    assert(t@.skip(0) =~= t@);
    while i < q.len() && j < t.len()
        invariant
            i <= q@.len(),
            j <= t@.len(),
            is_subsequence(q@.skip(i as int), t@.skip(j as int)) == is_subsequence(q@, t@),
        decreases t@.len() - j,
    {
        proof {
            lemma_subsequence_suffix(q@, t@, i as int, j as int);
        }
        if q[i] == t[j] {
            i += 1;
        }
        j += 1;
    }
    proof {
        lemma_subsequence_suffix(q@, t@, i as int, j as int);
        assert(q@.skip(0) =~= q@);
        assert(t@.skip(0) =~= t@);
    }
    i == q.len()
}

/// The empty query matches every candidate.
pub proof fn lemma_empty_query_matches(candidate: Seq<char>)
    ensures
        fuzzy(Seq::empty(), candidate),
{
    assert(lowered(Seq::<char>::empty()) =~= Seq::<char>::empty());
}

} // verus!
