//! Parts of command-line completion that do not depend on where the
//! candidates come from: theme names for `set-theme`, the command and path
//! a file-path completion works on, replacing the partial word being
//! completed by each candidate, and choosing the first completer that
//! offers anything.

use vstd::prelude::*;
use crate::fuzzy::{fuzzy, fuzzy_match};
use crate::command::{extract_template_partial, lemma_template_partial_len, template_partial};
use crate::text::{chars_of, string_from_chars, trim, trim_start, trimmed, trimmed_start};

verus! {

/// `s` starts with `p`.
pub open spec fn starts_with(s: Seq<char>, p: Seq<char>) -> bool {
    p.len() <= s.len() && s.take(p.len() as int) == p
}

/// The strings, as text.
pub open spec fn texts(v: Seq<String>) -> Seq<Seq<char>> {
    v.map_values(|s: String| s@)
}

/// The theme completions of the trimmed input: when it starts with
/// `set-theme`, `set-theme <name>` for every theme the rest of the input
/// (without leading whitespace) fuzzily matches, every theme when the rest
/// is empty; `None` for any other input.
pub open spec fn theme_choices(trimmed: Seq<char>, themes: Seq<Seq<char>>) -> Option<Seq<Seq<char>>> {
    if starts_with(trimmed, "set-theme"@) {
        let partial = trimmed_start(trimmed.skip(9));
        let kept = if partial.len() == 0 {
            themes
        } else {
            themes.filter(|t: Seq<char>| fuzzy(partial, t))
        };
        Some(kept.map_values(|t: Seq<char>| "set-theme "@ + t))
    } else {
        None
    }
}

/// The themes to offer for `set-theme`: see `theme_choices`. An empty
/// list (not `None`) means the input was a `set-theme` with no match.
pub fn theme_completions(trimmed: &str, themes: &Vec<String>) -> (r: Option<Vec<String>>)
    ensures
        match theme_choices(trimmed@, texts(themes@)) {
            Some(c) => r matches Some(v) && texts(v@) == c,
            None => r is None,
        },
{
    let chars = chars_of(trimmed);
    let word = ['s', 'e', 't', '-', 't', 'h', 'e', 'm', 'e'];
    proof {
        reveal_strlit("set-theme");
        reveal_strlit("set-theme ");
    }
    assert(word@ =~= "set-theme"@);
    if chars.len() < 9 {
        return None;
    }
    let mut i: usize = 0;
    while i < 9
        invariant
            i <= 9,
            chars@.len() >= 9,
            chars@ == trimmed@,
            word@ == "set-theme"@,
            forall|j: int| 0 <= j < i ==> chars@[j] == word@[j],
        decreases 9 - i,
    {
        if chars[i] != word[i] {
            assert(trimmed@.take(9)[i as int] != "set-theme"@[i as int]);
            return None;
        }
        i += 1;
    }
    assert(trimmed@.take(9) =~= "set-theme"@);
    let mut rest: Vec<char> = Vec::new();
    let mut j: usize = 9;
    while j < chars.len()
        invariant
            9 <= j <= chars@.len(),
            chars@ == trimmed@,
            rest@ == trimmed@.subrange(9, j as int),
        decreases chars@.len() - j,
    {
        rest.push(chars[j]);
        assert(trimmed@.subrange(9, j + 1) =~= trimmed@.subrange(9, j as int).push(trimmed@[j as int]));
        j += 1;
    }
    assert(trimmed@.subrange(9, trimmed@.len() as int) =~= trimmed@.skip(9));
    let rest_s = string_from_chars(&rest);
    let partial = trim_start(rest_s.as_str());
    let empty = partial.as_str().is_empty();
    let ghost tv = texts(themes@);
    let ghost pred = |t: Seq<char>| fuzzy(partial@, t);
    let mut out: Vec<String> = Vec::new();
    let mut k: usize = 0;
    while k < themes.len()
        invariant
            k <= themes@.len(),
            tv == texts(themes@),
            empty == (partial@.len() == 0),
            pred == (|t: Seq<char>| fuzzy(partial@, t)),
            texts(out@) == (if empty { tv.take(k as int) } else { tv.take(k as int).filter(pred) }).map_values(
                |t: Seq<char>| "set-theme "@ + t,
            ),
        decreases themes@.len() - k,
    {
        let ghost before = texts(out@);
        let keep = empty || fuzzy_match(partial.as_str(), themes[k].as_str());
        proof {
            reveal(Seq::filter);
            assert(tv.take(k + 1).drop_last() =~= tv.take(k as int));
            assert(tv.take(k + 1) =~= tv.take(k as int).push(tv[k as int]));
        }
        if keep {
            let mut line = String::from_str("set-theme ");
            line.append(themes[k].as_str());
            out.push(line);
            assert(texts(out@) =~= before.push("set-theme "@ + tv[k as int]));
        }
        k += 1;
    }
    assert(tv.take(themes@.len() as int) =~= tv);
    Some(out)
}

/// Each completion written over the trailing `partial_len` characters of
/// the trimmed input (the partial word being completed).
pub open spec fn replaced(trimmed: Seq<char>, partial_len: int, completions: Seq<Seq<char>>) -> Seq<Seq<char>> {
    completions.map_values(|c: Seq<char>| trimmed.take(trimmed.len() - partial_len) + c)
}

/// Replaces the partial word at the end of the trimmed input by each
/// completion (an empty partial keeps the whole input as the prefix).
pub fn replace_partial(trimmed: &str, partial: &str, completions: &Vec<String>) -> (r: Vec<String>)
    requires
        partial@.len() <= trimmed@.len(),
    ensures
        texts(r@) == replaced(trimmed@, partial@.len() as int, texts(completions@)),
{
    let chars = chars_of(trimmed);
    let keep = chars.len() - partial.unicode_len();
    let mut head: Vec<char> = Vec::new();
    let mut i: usize = 0;
    while i < keep
        invariant
            i <= keep <= chars@.len(),
            chars@ == trimmed@,
            head@ == trimmed@.take(i as int),
        decreases keep - i,
    {
        head.push(chars[i]);
        assert(trimmed@.take(i + 1) =~= trimmed@.take(i as int).push(trimmed@[i as int]));
        i += 1;
    }
    let prefix = string_from_chars(&head);
    let ghost cv = texts(completions@);
    let mut out: Vec<String> = Vec::new();
    let mut k: usize = 0;
    while k < completions.len()
        invariant
            k <= completions@.len(),
            cv == texts(completions@),
            prefix@ == trimmed@.take(keep as int),
            keep == trimmed@.len() - partial@.len(),
            texts(out@) == replaced(trimmed@, partial@.len() as int, cv.take(k as int)),
        decreases completions@.len() - k,
    {
        let ghost before = texts(out@);
        let mut line = prefix.clone();
        line.append(completions[k].as_str());
        out.push(line);
        assert(texts(out@) =~= before.push(trimmed@.take(keep as int) + cv[k as int]));
        assert(cv.take(k + 1) =~= cv.take(k as int).push(cv[k as int]));
        assert(replaced(trimmed@, partial@.len() as int, cv.take(k + 1)) =~= replaced(
            trimmed@,
            partial@.len() as int,
            cv.take(k as int),
        ).push(trimmed@.take(keep as int) + cv[k as int]));
        k += 1;
    }
    assert(cv.take(completions@.len() as int) =~= cv);
    out
}

/// What the field completer found to complete: a field name, or the
/// value of a named field.
#[derive(Debug, Clone)]
pub enum FieldPartial {
    Name(String),
    Value { field: String, partial: String },
}

/// The partial word of a field completion.
pub open spec fn field_partial_text(f: FieldPartial) -> Seq<char> {
    match f {
        FieldPartial::Name(p) => p@,
        FieldPartial::Value { partial, .. } => partial@,
    }
}

/// What each completer offers for the current input, in the order they
/// are tried.
#[derive(Debug)]
pub struct CompletionTiers {
    /// For `filter --field` / `exclude --field`: the partial name or value
    /// found in the input without leading whitespace, and the names or
    /// values that complete it.
    pub field: Option<(FieldPartial, Vec<String>)>,
    /// For `--fg` / `--bg`: the partial colour found in the trimmed input,
    /// and the colours that complete it.
    pub color: Option<(String, Vec<String>)>,
    /// The templates completing the partial of `extract_template_partial`.
    pub templates: Vec<String>,
    /// For a command taking a file path: the command, and the paths that
    /// complete its argument.
    pub file: Option<(String, Vec<String>)>,
    /// The themes there are.
    pub themes: Vec<String>,
    /// The command names completing the trimmed input.
    pub commands: Vec<String>,
}

/// The replacement strings for the input, from the first tier that offers
/// any: field names (followed by `=`) or values, colours, templates, file
/// paths (`<command> <path>`, even none), themes (even none), command names.
pub open spec fn completions_for(input: Seq<char>, t: CompletionTiers) -> Seq<Seq<char>> {
    let ls = trimmed_start(input);
    let tr = trimmed(input);
    match t.field {
        Some((fp, c)) if c@.len() > 0 => {
            let p = field_partial_text(fp);
            let tail = if fp is Name { "="@ } else { Seq::empty() };
            texts(c@).map_values(|x: Seq<char>| ls.take(ls.len() - p.len()) + x + tail)
        },
        _ => match t.color {
            Some((p, c)) if c@.len() > 0 => replaced(tr, p@.len() as int, texts(c@)),
            _ => match template_partial(tr) {
                Some(p) if t.templates@.len() > 0 => replaced(tr, p.len() as int, texts(t.templates@)),
                _ => match t.file {
                    Some((cmd, c)) => texts(c@).map_values(|x: Seq<char>| cmd@ + " "@ + x),
                    None => match theme_choices(tr, texts(t.themes@)) {
                        Some(v) => v,
                        None => texts(t.commands@),
                    },
                },
            },
        },
    }
}

/// The partials the completers report are the ends of the text they were
/// taken from.
pub open spec fn tiers_ok(input: Seq<char>, t: CompletionTiers) -> bool {
    &&& (t.field matches Some((fp, _)) ==> field_partial_text(fp).len() <= trimmed_start(input).len())
    &&& (t.color matches Some((p, _)) ==> p@.len() <= trimmed(input).len())
}

fn suffixed(prefix: &String, items: &Vec<String>, tail: &str) -> (r: Vec<String>)
    ensures
        texts(r@) == texts(items@).map_values(|x: Seq<char>| prefix@ + x + tail@),
{
    let mut out: Vec<String> = Vec::new();
    let mut k: usize = 0;
    while k < items.len()
        invariant
            k <= items@.len(),
            texts(out@) == texts(items@.take(k as int)).map_values(|x: Seq<char>| prefix@ + x + tail@),
        decreases items@.len() - k,
    {
        let ghost before = texts(out@);
        let mut line = prefix.clone();
        line.append(items[k].as_str());
        line.append(tail);
        out.push(line);
        assert(texts(out@) =~= before.push(prefix@ + items@[k as int]@ + tail@));
        assert(items@.take(k + 1) =~= items@.take(k as int).push(items@[k as int]));
        assert(texts(items@.take(k + 1)) =~= texts(items@.take(k as int)).push(items@[k as int]@));
        assert(texts(out@) =~= texts(items@.take(k + 1)).map_values(|x: Seq<char>| prefix@ + x + tail@));
        k += 1;
    }
    assert(items@.take(items@.len() as int) =~= items@);
    out
}

fn take_chars(s: &str, n: usize) -> (r: String)
    requires
        n <= s@.len(),
    ensures
        r@ == s@.take(n as int),
{
    let chars = chars_of(s);
    let mut head: Vec<char> = Vec::new();
    let mut i: usize = 0;
    while i < n
        invariant
            i <= n <= chars@.len(),
            chars@ == s@,
            head@ == s@.take(i as int),
        decreases n - i,
    {
        head.push(chars[i]);
        assert(s@.take(i + 1) =~= s@.take(i as int).push(s@[i as int]));
        i += 1;
    }
    string_from_chars(&head)
}

/// The full replacement strings for the input, from the first completer
/// that offers any (see `completions_for`).
pub fn compute_completions(input: &str, tiers: &CompletionTiers) -> (r: Vec<String>)
    requires
        tiers_ok(input@, *tiers),
    ensures
        texts(r@) == completions_for(input@, *tiers),
{
    let ls = trim_start(input);
    let tr = trim(input);
    match &tiers.field {
        Some((fp, c)) => {
            if c.len() > 0 {
                let p = match fp {
                    FieldPartial::Name(p) => p,
                    FieldPartial::Value { partial, .. } => partial,
                };
                let keep = ls.as_str().unicode_len() - p.as_str().unicode_len();
                let prefix = take_chars(ls.as_str(), keep);
                let tail = match fp {
                    FieldPartial::Name(_) => "=",
                    FieldPartial::Value { .. } => "",
                };
                proof {
                    reveal_strlit("");
                    assert(tail@ == (if fp is Name { "="@ } else { Seq::<char>::empty() }));
                }
                let out = suffixed(&prefix, c, tail);
                proof {
                    assert(texts(c@).map_values(|x: Seq<char>| prefix@ + x + tail@) =~= texts(c@).map_values(
                        |x: Seq<char>| ls@.take(ls@.len() - field_partial_text(*fp).len()) + x + (if fp is Name {
                            "="@
                        } else {
                            Seq::<char>::empty()
                        }),
                    ));
                }
                return out;
            }
        },
        None => {},
    }
    match &tiers.color {
        Some((p, c)) => {
            if c.len() > 0 {
                return replace_partial(tr.as_str(), p.as_str(), c);
            }
        },
        None => {},
    }
    match extract_template_partial(tr.as_str()) {
        Some(p) => {
            if tiers.templates.len() > 0 {
                proof {
                    lemma_template_partial_len(tr@);
                }
                return replace_partial(tr.as_str(), p.as_str(), &tiers.templates);
            }
        },
        None => {},
    }
    match &tiers.file {
        Some((cmd, c)) => {
            let mut head = cmd.clone();
            head.append(" ");
            let out = suffixed(&head, c, "");
            proof {
                reveal_strlit("");
                assert(texts(c@).map_values(|x: Seq<char>| head@ + x + ""@) =~= texts(c@).map_values(
                    |x: Seq<char>| cmd@ + " "@ + x,
                ));
            }
            return out;
        },
        None => {},
    }
    match theme_completions(tr.as_str(), &tiers.themes) {
        Some(v) => v,
        None => {
            let mut out: Vec<String> = Vec::new();
            let mut k: usize = 0;
            while k < tiers.commands.len()
                invariant
                    k <= tiers.commands@.len(),
                    texts(out@) == texts(tiers.commands@.take(k as int)),
                decreases tiers.commands@.len() - k,
            {
                let ghost before = texts(out@);
                out.push(tiers.commands[k].clone());
                assert(texts(out@) =~= before.push(tiers.commands@[k as int]@));
                assert(tiers.commands@.take(k + 1) =~= tiers.commands@.take(k as int).push(tiers.commands@[k as int]));
                assert(texts(out@) =~= texts(tiers.commands@.take(k + 1)));
                k += 1;
            }
            assert(tiers.commands@.take(tiers.commands@.len() as int) =~= tiers.commands@);
            out
        },
    }
}

/// The folder part of a file path, as `Path::parent` gives it (`None` for
/// a root or an empty path).
pub uninterp spec fn path_parent(path: Seq<char>) -> Option<Seq<char>>;

/// `Path::new(path).parent()`, as text: the contract names the result
/// `path_parent(path)` (the folder of a path given as text is text too).
#[verifier::external_body]
fn parent_dir(path: &str) -> (r: Option<String>)
    ensures
        match r {
            Some(d) => path_parent(path@) == Some(d@),
            None => path_parent(path@) is None,
        },
{
    match std::path::Path::new(path).parent() {
        Some(d) => match d.to_str() {
            Some(t) => Some(t.to_string()),
            None => None,
        },
        None => None,
    }
}

/// The input (without leading blanks) `ls` starts with the command `cmd`
/// and a space.
pub open spec fn starts_with_command(ls: Seq<char>, cmd: Seq<char>) -> bool {
    starts_with(ls, cmd + seq![' '])
}

/// The first of `cmds` from `i` on that the input starts with.
pub open spec fn first_command_from(ls: Seq<char>, cmds: Seq<Seq<char>>, i: int) -> Option<int>
    decreases cmds.len() - i,
{
    if i < 0 || i >= cmds.len() {
        None
    } else if starts_with_command(ls, cmds[i]) {
        Some(i)
    } else {
        first_command_from(ls, cmds, i + 1)
    }
}

/// The path typed after the command: the rest of the input without
/// leading blanks; when nothing is typed yet, the source file's folder and
/// a `/` (nothing when the source has no folder).
pub open spec fn path_query(ls: Seq<char>, cmd: Seq<char>, source: Option<Seq<char>>) -> Seq<char> {
    let partial = trimmed_start(ls.skip(cmd.len() as int));
    if partial.len() > 0 {
        partial
    } else {
        match source {
            Some(p) => match path_parent(p) {
                Some(d) => d + "/"@,
                None => Seq::empty(),
            },
            None => Seq::empty(),
        }
    }
}

/// For a command that takes a file path: the first of `commands` that the
/// input (without leading blanks) starts with, followed by a space, and the
/// path to complete (`path_query`, with `source` the file the tab shows);
/// `None` when the input starts with none of them.
pub fn file_path_query(input: &str, commands: &Vec<String>, source: Option<&str>) -> (r: Option<(String, String)>)
    ensures
        match first_command_from(trimmed_start(input@), texts(commands@), 0) {
            Some(i) => r matches Some((cmd, q)) && cmd@ == commands@[i]@ && q@ == path_query(
                trimmed_start(input@),
                commands@[i]@,
                match source {
                    Some(p) => Some(p@),
                    None => None,
                },
            ),
            None => r is None,
        },
{
    let ls = trim_start(input);
    let chars = chars_of(ls.as_str());
    let ghost cv = texts(commands@);
    let mut i: usize = 0;
    while i < commands.len()
        invariant
            i <= commands@.len(),
            cv == texts(commands@),
            chars@ == ls@,
            ls@ == trimmed_start(input@),
            first_command_from(ls@, cv, 0) == first_command_from(ls@, cv, i as int),
        decreases commands@.len() - i,
    {
        let cmd = chars_of(commands[i].as_str());
        let n = cmd.len();
        let mut hit = n < chars.len() && chars[n] == ' ';
        proof {
            if !hit && n + 1 <= chars@.len() {
                assert(chars@.take(n + 1)[n as int] != (cmd@ + seq![' '])[n as int]);
            }
        }
        let mut j: usize = 0;
        while hit && j < n
            invariant
                j <= n,
                n == cmd@.len(),
                hit ==> n < chars@.len() && chars@[n as int] == ' ',
                hit ==> forall|t: int| 0 <= t < j ==> chars@[t] == cmd@[t],
                !hit ==> !starts_with(chars@, cmd@ + seq![' ']),
            decreases n - j + (if hit { 1int } else { 0int }),
        {
            if chars[j] != cmd[j] {
                hit = false;
                assert(chars@.take(n + 1)[j as int] != (cmd@ + seq![' '])[j as int]);
            } else {
                j += 1;
            }
        }
        proof {
            assert(cmd@ == cv[i as int]);
            if hit {
                assert(chars@.take(n + 1) =~= cmd@ + seq![' ']);
            }
        }
        if hit {
            let mut rest: Vec<char> = Vec::new();
            let mut k: usize = n;
            while k < chars.len()
                invariant
                    n <= k <= chars@.len(),
                    rest@ == chars@.subrange(n as int, k as int),
                decreases chars@.len() - k,
            {
                rest.push(chars[k]);
                assert(chars@.subrange(n as int, k + 1) =~= chars@.subrange(n as int, k as int).push(chars@[k as int]));
                k += 1;
            }
            assert(chars@.subrange(n as int, chars@.len() as int) =~= chars@.skip(n as int));
            let rest_s = string_from_chars(&rest);
            let partial = trim_start(rest_s.as_str());
            let q = if partial.as_str().is_empty() {
                match source {
                    Some(p) => match parent_dir(p) {
                        Some(d) => {
                            let mut t = d;
                            t.append("/");
                            t
                        },
                        None => String::new(),
                    },
                    None => String::new(),
                }
            } else {
                partial
            };
            return Some((commands[i].clone(), q));
        }
        i += 1;
    }
    None
}

} // verus!
