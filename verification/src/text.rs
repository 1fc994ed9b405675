//! Character-level helpers shared by the modes: conversions between `str`
//! and `Vec<char>`, and the character classes that motions and quoting use.

use vstd::prelude::*;

verus! {

/// Whether `c` has the Unicode `White_Space` property (what
/// `char::is_whitespace` reports): tab, line feed, vertical tab, form feed,
/// carriage return, space, next line, no-break space, ogham space mark, the
/// spaces from en quad to hair space, line and paragraph separator, narrow
/// no-break space, medium mathematical space and ideographic space.
pub open spec fn unicode_white_space(c: char) -> bool {
    let u = c as u32;
    ||| 0x09 <= u <= 0x0D
    ||| u == 0x20
    ||| u == 0x85
    ||| u == 0xA0
    ||| u == 0x1680
    ||| 0x2000 <= u <= 0x200A
    ||| u == 0x2028
    ||| u == 0x2029
    ||| u == 0x202F
    ||| u == 0x205F
    ||| u == 0x3000
}

/// Whether `c` is alphabetic or numeric in the Unicode sense (what
/// `char::is_alphanumeric` reports).
pub uninterp spec fn unicode_alphanumeric(c: char) -> bool;

/// Whether `c` is whitespace: one of the code points with the Unicode
/// `White_Space` property (what `char::is_whitespace` answers).
pub fn is_whitespace(c: char) -> (r: bool)
    ensures
        r == unicode_white_space(c),
{
    let u = c as u32;
    (0x09 <= u && u <= 0x0D) || u == 0x20 || u == 0x85 || u == 0xA0 || u == 0x1680 || (0x2000 <= u && u <= 0x200A)
        || u == 0x2028 || u == 0x2029 || u == 0x202F || u == 0x205F || u == 0x3000
}

/// `char::is_alphanumeric`: the contract names the answer
/// `unicode_alphanumeric(c)`; the Unicode tables are the standard library's.
#[verifier::external_body]
pub(crate) fn is_alphanumeric(c: char) -> (r: bool)
    ensures
        r == unicode_alphanumeric(c),
{
    c.is_alphanumeric()
}

/// `String::push`: appends one character.
#[verifier::external_body]
pub(crate) fn push_char(s: &mut String, c: char)
    ensures
        final(s)@ == old(s)@.push(c),
{
    s.push(c);
}

/// `map_chars(s, f)` replaces every character `c` of `s` by `f(c)`.
pub open spec fn map_chars(s: Seq<char>, f: spec_fn(char) -> Seq<char>) -> Seq<char>
    decreases s.len(),
{
    if s.len() == 0 {
        Seq::empty()
    } else {
        map_chars(s.drop_last(), f) + f(s.last())
    }
}

/// Whether `s` holds a whitespace character.
pub open spec fn has_white_space(s: Seq<char>) -> bool {
    exists|i: int| 0 <= i < s.len() && unicode_white_space(#[trigger] s[i])
}

/// Mapping a prefix one character longer appends that character's image.
pub proof fn lemma_map_chars_step(s: Seq<char>, i: int, f: spec_fn(char) -> Seq<char>)
    requires
        0 <= i < s.len(),
    ensures
        map_chars(s.take(i + 1), f) == map_chars(s.take(i), f) + f(s[i]),
{
    assert(s.take(i + 1).drop_last() =~= s.take(i));
}

/// Whether `s` contains a whitespace character.
pub fn contains_whitespace(s: &str) -> (r: bool)
    ensures
        r == has_white_space(s@),
{
    let chars = chars_of(s);
    let mut i: usize = 0;
    while i < chars.len()
        invariant
            i <= chars@.len(),
            chars@ == s@,
            forall|j: int| 0 <= j < i ==> !unicode_white_space(#[trigger] chars@[j]),
        decreases chars@.len() - i,
    {
        if is_whitespace(chars[i]) {
            return true;
        }
        i += 1;
    }
    false
}

/// A string holding exactly the characters of `v`.
pub fn string_from_chars(v: &Vec<char>) -> (s: String)
    ensures
        s@ == v@,
{
    let mut s = String::new();
    let mut i: usize = 0;
    while i < v.len()
        invariant
            i <= v@.len(),
            s@ == v@.take(i as int),
        decreases v@.len() - i,
    {
        push_char(&mut s, v[i]);
        assert(v@.take(i + 1) =~= v@.take(i as int).push(v@[i as int]));
        i += 1;
    }
    assert(v@.take(v@.len() as int) =~= v@);
    s
}

/// `String::pop`: removes and returns the last character, if any.
#[verifier::external_body]
pub(crate) fn pop_char(s: &mut String) -> (r: Option<char>)
    ensures
        old(s)@.len() == 0 ==> r is None && final(s)@ == old(s)@,
        old(s)@.len() > 0 ==> r == Some(old(s)@.last()) && final(s)@ == old(s)@.drop_last(),
{
    s.pop()
}

/// The characters of `s`, in order.
pub fn chars_of(s: &str) -> (v: Vec<char>)
    ensures
        v@ == s@,
{
    let mut v: Vec<char> = Vec::new();
    for c in it: s.chars()
        invariant
            v@ == it.seq().take(it.index() as int),
    {
        v.push(c);
    }
    v
}

/// The upper-case form of `c` (possibly several characters), as
/// `char::to_uppercase` yields it.
pub uninterp spec fn unicode_upper(c: char) -> Seq<char>;

/// `char::to_uppercase`, collected into a string. The contract names the
/// result `unicode_upper(c)`; the case tables are the standard library's.
#[verifier::external_body]
pub(crate) fn to_uppercase(c: char) -> (r: String)
    ensures
        r@ == unicode_upper(c),
{
    c.to_uppercase().collect()
}

/// The lines joined with `sep` between consecutive ones.
pub open spec fn joined(ls: Seq<Seq<char>>, sep: char) -> Seq<char>
    decreases ls.len(),
{
    if ls.len() == 0 {
        Seq::empty()
    } else if ls.len() == 1 {
        ls[0]
    } else {
        joined(ls.drop_last(), sep) + seq![sep] + ls.last()
    }
}

/// The text views of a list of strings.
pub open spec fn views(ls: Seq<String>) -> Seq<Seq<char>> {
    ls.map_values(|s: String| s@)
}

/// `lines.join(sep)`.
pub fn join_with(lines: &Vec<String>, sep: char) -> (r: String)
    ensures
        r@ == joined(views(lines@), sep),
{
    let mut out = String::new();
    let mut i: usize = 0;
    while i < lines.len()
        invariant
            i <= lines@.len(),
            out@ == joined(views(lines@.take(i as int)), sep),
        decreases lines@.len() - i,
    {
        if i > 0 {
            push_char(&mut out, sep);
        }
        out.append(lines[i].as_str());
        proof {
            let t = views(lines@.take(i + 1));
            assert(views(lines@.take(i + 1)).drop_last() =~= views(lines@.take(i as int)));
            if i == 0 {
                assert(t =~= seq![lines@[0]@]);
            }
        }
        i += 1;
    }
    assert(lines@.take(lines@.len() as int) =~= lines@);
    out
}

/// The characters that `regex::escape` prefixes with a backslash.
pub open spec fn regex_meta(c: char) -> bool {
    c == '\\' || c == '.' || c == '+' || c == '*' || c == '?' || c == '(' || c == ')' || c == '|'
        || c == '[' || c == ']' || c == '{' || c == '}' || c == '^' || c == '$' || c == '#' || c == '&'
        || c == '-' || c == '~'
}

/// `s` with a backslash before every regex meta character.
pub open spec fn regex_escaped(s: Seq<char>) -> Seq<char> {
    map_chars(s, |c: char| if regex_meta(c) { seq!['\\', c] } else { seq![c] })
}

/// `regex::escape`: every meta character of `s` (`\ . + * ? ( ) | [ ] { } ^ $ # & - ~`)
/// gets a backslash in front, other characters are copied.
#[verifier::external_body]
pub(crate) fn regex_escape(s: &str) -> (r: String)
    ensures
        r@ == regex_escaped(s@),
{
    regex::escape(s)
}

/// Index of the first non-whitespace character of `s` (its length if none).
pub open spec fn trim_start_index(s: Seq<char>) -> int
    decreases s.len(),
{
    if s.len() == 0 {
        0
    } else if unicode_white_space(s[0]) {
        1 + trim_start_index(s.drop_first())
    } else {
        0
    }
}

/// One past the last non-whitespace character of `s` (0 if none).
pub open spec fn trim_end_index(s: Seq<char>) -> int
    decreases s.len(),
{
    if s.len() == 0 {
        0
    } else if unicode_white_space(s.last()) {
        trim_end_index(s.drop_last())
    } else {
        s.len() as int
    }
}

/// `s` without leading and trailing whitespace (what `str::trim` returns).
pub open spec fn trimmed(s: Seq<char>) -> Seq<char> {
    let a = trim_start_index(s);
    let b = trim_end_index(s);
    if a < b { s.subrange(a, b) } else { Seq::empty() }
}

proof fn lemma_trim_start_bounds(s: Seq<char>)
    ensures
        0 <= trim_start_index(s) <= s.len(),
        forall|i: int| 0 <= i < trim_start_index(s) ==> unicode_white_space(#[trigger] s[i]),
        trim_start_index(s) < s.len() ==> !unicode_white_space(s[trim_start_index(s)]),
    decreases s.len(),
{
    if s.len() > 0 && unicode_white_space(s[0]) {
        lemma_trim_start_bounds(s.drop_first());
        assert forall|i: int| 0 <= i < trim_start_index(s) implies unicode_white_space(#[trigger] s[i]) by {
            if i > 0 {
                assert(s[i] == s.drop_first()[i - 1]);
            }
        }
    }
}

proof fn lemma_trim_end_bounds(s: Seq<char>)
    ensures
        0 <= trim_end_index(s) <= s.len(),
        forall|i: int| trim_end_index(s) <= i < s.len() ==> unicode_white_space(#[trigger] s[i]),
        trim_end_index(s) > 0 ==> !unicode_white_space(s[trim_end_index(s) - 1]),
    decreases s.len(),
{
    if s.len() > 0 && unicode_white_space(s.last()) {
        lemma_trim_end_bounds(s.drop_last());
        assert forall|i: int| trim_end_index(s) <= i < s.len() implies unicode_white_space(#[trigger] s[i]) by {
            if i < s.len() - 1 {
                assert(s[i] == s.drop_last()[i]);
            }
        }
    }
}

proof fn lemma_trim_start_char(s: Seq<char>, a: int)
    requires
        0 <= a <= s.len(),
        forall|i: int| 0 <= i < a ==> unicode_white_space(#[trigger] s[i]),
        a < s.len() ==> !unicode_white_space(s[a]),
    ensures
        trim_start_index(s) == a,
    decreases s.len(),
{
    if s.len() > 0 && a > 0 {
        assert(unicode_white_space(s[0]));
        assert forall|i: int| 0 <= i < a - 1 implies unicode_white_space(#[trigger] s.drop_first()[i]) by {
            assert(s.drop_first()[i] == s[i + 1]);
        }
        lemma_trim_start_char(s.drop_first(), a - 1);
    }
}

proof fn lemma_trim_end_char(s: Seq<char>, b: int)
    requires
        0 <= b <= s.len(),
        forall|i: int| b <= i < s.len() ==> unicode_white_space(#[trigger] s[i]),
        b > 0 ==> !unicode_white_space(s[b - 1]),
    ensures
        trim_end_index(s) == b,
    decreases s.len(),
{
    if s.len() > 0 && b < s.len() {
        assert(unicode_white_space(s.last()));
        assert forall|i: int| b <= i < s.len() - 1 implies unicode_white_space(#[trigger] s.drop_last()[i]) by {
            assert(s.drop_last()[i] == s[i]);
        }
        lemma_trim_end_char(s.drop_last(), b);
    }
}

/// Trimming never lengthens a text.
pub proof fn lemma_trimmed_len(s: Seq<char>)
    ensures
        trimmed(s).len() <= s.len(),
{
    lemma_trim_start_bounds(s);
    lemma_trim_end_bounds(s);
}

/// `s.trim()` as an owned string.
pub fn trim(s: &str) -> (r: String)
    ensures
        r@ == trimmed(s@),
{
    let chars = chars_of(s);
    let n = chars.len();
    let mut a: usize = 0;
    while a < n && is_whitespace(chars[a])
        invariant
            a <= n,
            n == chars@.len(),
            chars@ == s@,
            forall|i: int| 0 <= i < a ==> unicode_white_space(#[trigger] s@[i]),
        decreases n - a,
    {
        a += 1;
    }
    let mut b: usize = n;
    while b > a && is_whitespace(chars[b - 1])
        invariant
            a <= b <= n,
            n == chars@.len(),
            chars@ == s@,
            forall|i: int| b <= i < n ==> unicode_white_space(#[trigger] s@[i]),
        decreases b,
    {
        b -= 1;
    }
    proof {
        lemma_trim_start_char(s@, a as int);
        if b > a {
            lemma_trim_end_char(s@, b as int);
        } else {
            lemma_trim_end_bounds(s@);
            if trim_end_index(s@) > a {
                assert(unicode_white_space(s@[trim_end_index(s@) - 1]));
            }
        }
    }
    let mut out: Vec<char> = Vec::new();
    let mut i = a;
    while i < b
        invariant
            a <= i <= b <= n,
            n == chars@.len(),
            chars@ == s@,
            out@ == s@.subrange(a as int, i as int),
        decreases b - i,
    {
        out.push(chars[i]);
        assert(s@.subrange(a as int, i + 1) =~= s@.subrange(a as int, i as int).push(s@[i as int]));
        i += 1;
    }
    string_from_chars(&out)
}

/// `s` without leading whitespace (what `str::trim_start` returns).
pub open spec fn trimmed_start(s: Seq<char>) -> Seq<char> {
    s.skip(trim_start_index(s))
}

/// `s.trim_start()` as an owned string.
pub fn trim_start(s: &str) -> (r: String)
    ensures
        r@ == trimmed_start(s@),
{
    let chars = chars_of(s);
    let n = chars.len();
    let mut a: usize = 0;
    while a < n && is_whitespace(chars[a])
        invariant
            a <= n,
            n == chars@.len(),
            chars@ == s@,
            forall|i: int| 0 <= i < a ==> unicode_white_space(#[trigger] s@[i]),
        decreases n - a,
    {
        a += 1;
    }
    proof {
        lemma_trim_start_char(s@, a as int);
    }
    let mut out: Vec<char> = Vec::new();
    let mut i = a;
    while i < n
        invariant
            a <= i <= n,
            n == chars@.len(),
            chars@ == s@,
            out@ == s@.subrange(a as int, i as int),
        decreases n - i,
    {
        out.push(chars[i]);
        assert(s@.subrange(a as int, i + 1) =~= s@.subrange(a as int, i as int).push(s@[i as int]));
        i += 1;
    }
    assert(s@.subrange(a as int, n as int) =~= s@.skip(a as int));
    string_from_chars(&out)
}

/// `s` with `c` inserted before character `k` (appended when `k` is past
/// the end).
pub open spec fn insert_char_at(s: Seq<char>, k: int, c: char) -> Seq<char> {
    let p = if k <= s.len() { k } else { s.len() as int };
    s.take(p).push(c) + s.skip(p)
}

/// `s` without character `k - 1` when it exists; an empty string when the
/// cursor `k` lies more than one past the end.
pub open spec fn remove_char_before(s: Seq<char>, k: int) -> Seq<char> {
    if k - 1 < s.len() {
        s.take(k - 1) + s.skip(k)
    } else {
        Seq::empty()
    }
}

/// Inserts `c` before the `k`-th character of `s` (at the end when `k` is
/// past it), as the path and device editors do.
pub fn insert_at_char(s: &String, k: usize, c: char) -> (r: String)
    ensures
        r@ == insert_char_at(s@, k as int, c),
{
    let chars = chars_of(s.as_str());
    let n = chars.len();
    let p = if k <= n { k } else { n };
    let mut out: Vec<char> = Vec::new();
    let mut i: usize = 0;
    while i < n
        invariant
            i <= n,
            n == chars@.len(),
            chars@ == s@,
            p <= n,
            out@ == (if i <= p { s@.take(i as int) } else { s@.take(p as int).push(c) + s@.subrange(p as int, i as int) }),
        decreases n - i,
    {
        if i == p {
            out.push(c);
            assert(s@.take(p as int).push(c) + s@.subrange(p as int, p as int) =~= s@.take(p as int).push(c));
        }
        out.push(chars[i]);
        proof {
            if i < p {
                assert(s@.take(i + 1) =~= s@.take(i as int).push(s@[i as int]));
            } else {
                assert(s@.take(p as int).push(c) + s@.subrange(p as int, i + 1) =~= (s@.take(p as int).push(c)
                    + s@.subrange(p as int, i as int)).push(s@[i as int]));
            }
        }
        i += 1;
    }
    if p == n {
        out.push(c);
    }
    assert(out@ =~= insert_char_at(s@, k as int, c));
    string_from_chars(&out)
}

/// Removes the character before cursor `k` (`k > 0`) the way the path and
/// device editors do: the character at `k - 1`, or everything when `k - 1`
/// lies past the end.
pub fn remove_before_char(s: &String, k: usize) -> (r: String)
    requires
        k > 0,
    ensures
        r@ == remove_char_before(s@, k as int),
{
    let chars = chars_of(s.as_str());
    let n = chars.len();
    if k - 1 >= n {
        return String::new();
    }
    let mut out: Vec<char> = Vec::new();
    let mut i: usize = 0;
    while i < n
        invariant
            i <= n,
            n == chars@.len(),
            chars@ == s@,
            0 < k,
            k - 1 < n,
            out@ == (if i < k { s@.take(if i <= k - 1 { i as int } else { k - 1 }) } else { s@.take(k - 1) + s@.subrange(k as int, i as int) }),
        decreases n - i,
    {
        if i != k - 1 {
            out.push(chars[i]);
        }
        proof {
            if i < k - 1 {
                assert(s@.take(i + 1) =~= s@.take(i as int).push(s@[i as int]));
            } else if i == k - 1 {
                assert(s@.take(k - 1) + s@.subrange(k as int, k as int) =~= s@.take(k - 1));
            } else {
                assert(s@.take(k - 1) + s@.subrange(k as int, i + 1) =~= (s@.take(k - 1) + s@.subrange(k as int, i as int)).push(s@[i as int]));
            }
        }
        i += 1;
    }
    assert(out@ =~= remove_char_before(s@, k as int));
    string_from_chars(&out)
}


/// The lower-case form of the whole string `s`, as `str::to_lowercase`
/// gives it (which, unlike lower-casing character by character, takes the
/// context of a final sigma into account).
pub uninterp spec fn str_lowercase(s: Seq<char>) -> Seq<char>;

/// `str::to_lowercase`: the contract names the result `str_lowercase(s)`;
/// the case tables and rules are the standard library's.
#[verifier::external_body]
pub(crate) fn to_lowercase_str(s: &str) -> (r: String)
    ensures
        r@ == str_lowercase(s@),
{
    s.to_lowercase()
}

/// `needle` occurs in `hay` as a contiguous run of characters.
pub open spec fn occurs_in(needle: Seq<char>, hay: Seq<char>) -> bool {
    exists|i: int| 0 <= i <= hay.len() - needle.len() && #[trigger] hay.subrange(i, i + needle.len()) == needle
}

/// Whether `needle` occurs in `hay` (what `str::contains` with a string
/// pattern answers).
pub fn contains_str(hay: &str, needle: &str) -> (r: bool)
    ensures
        r == occurs_in(needle@, hay@),
{
    let h = chars_of(hay);
    let n = chars_of(needle);
    if n.len() > h.len() {
        assert forall|i: int| 0 <= i <= h@.len() - n@.len() implies #[trigger] h@.subrange(i, i + n@.len()) != n@ by {}
        return false;
    }
    let last = h.len() - n.len();
    let mut i: usize = 0;
    while i <= last
        invariant
            h@ == hay@,
            n@ == needle@,
            last == h@.len() - n@.len(),
            n@.len() <= h@.len(),
            h@.len() <= usize::MAX,
            forall|k: int| 0 <= k < i ==> #[trigger] h@.subrange(k, k + n@.len()) != n@,
        decreases last + 1 - i,
    {
        let mut j: usize = 0;
        let mut same = true;
        while same && j < n.len()
            invariant
                i <= last,
                i + n@.len() <= h@.len(),
                h@.len() <= usize::MAX,
                j <= n@.len(),
                forall|t: int| 0 <= t < j ==> h@[i + t] == n@[t],
                !same ==> j < n@.len() && h@[i + j] != n@[j as int],
            decreases n@.len() - j + (if same { 1int } else { 0int }),
        {
            if h[i + j] == n[j] {
                j += 1;
            } else {
                same = false;
            }
        }
        if j == n.len() {
            assert(h@.subrange(i as int, i + n@.len()) =~= n@);
            return true;
        }
        assert(h@.subrange(i as int, i + n@.len())[j as int] != n@[j as int]);
        if i == last {
            assert forall|k: int| 0 <= k <= h@.len() - n@.len() implies #[trigger] h@.subrange(k, k + n@.len()) != n@ by {
                if k == i {
                    assert(h@.subrange(i as int, i + n@.len())[j as int] != n@[j as int]);
                }
            }
            return false;
        }
        i += 1;
    }
    false
}

/// The text of `bytes` read as UTF-8, each invalid sequence replaced by
/// U+FFFD, as `String::from_utf8_lossy` gives it.
pub uninterp spec fn utf8_lossy(bytes: Seq<u8>) -> Seq<char>;

/// `String::from_utf8_lossy(bytes).into_owned()`: the contract names the
/// result `utf8_lossy(bytes)` and states what the documentation promises
/// of valid input: it is decoded unchanged.
#[verifier::external_body]
pub(crate) fn from_utf8_lossy(bytes: &[u8]) -> (r: String)
    ensures
        r@ == utf8_lossy(bytes@),
        vstd::utf8::valid_utf8(bytes@) ==> r@ == vstd::utf8::decode_utf8(bytes@),
{
    String::from_utf8_lossy(bytes).into_owned()
}

} // verus!
