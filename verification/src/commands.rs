//! Building the command-line text that the filter and group editors prefill:
//! quoting of user-chosen names and patterns, the `--fg/--bg/-l` colour
//! flags, `--group`, and the full `filter`/`exclude`/`highlight`/`date-filter`
//! commands.

use vstd::prelude::*;
use crate::text::{chars_of, contains_whitespace, has_white_space, lemma_map_chars_step, map_chars, push_char};

verus! {

/// `\"` for a double quote, the character itself otherwise.
pub open spec fn quote_escape(c: char) -> Seq<char> {
    if c == '"' { seq!['\\', '"'] } else { seq![c] }
}

/// `\\` for a backslash, `\"` for a double quote, the character itself otherwise.
pub open spec fn arg_escape(c: char) -> Seq<char> {
    if c == '\\' {
        seq!['\\', '\\']
    } else if c == '"' {
        seq!['\\', '"']
    } else {
        seq![c]
    }
}

/// A pattern as it is embedded in a command: wrapped in double quotes with
/// embedded quotes escaped when it holds whitespace, unchanged otherwise.
pub open spec fn quoted_pattern(p: Seq<char>) -> Seq<char> {
    if has_white_space(p) {
        seq!['"'] + map_chars(p, |c: char| quote_escape(c)) + seq!['"']
    } else {
        p
    }
}

/// A name as it is embedded in a command: wrapped in double quotes with
/// backslashes and quotes escaped when it holds whitespace, unchanged otherwise.
pub open spec fn quoted_arg(p: Seq<char>) -> Seq<char> {
    if has_white_space(p) {
        seq!['"'] + map_chars(p, |c: char| arg_escape(c)) + seq!['"']
    } else {
        p
    }
}

fn push_escaped(out: &mut String, src: &Vec<char>, backslashes: bool)
    ensures
        final(out)@ == old(out)@ + if backslashes {
            map_chars(src@, |c: char| arg_escape(c))
        } else {
            map_chars(src@, |c: char| quote_escape(c))
        },
{
    let ghost f = if backslashes {
        |c: char| arg_escape(c)
    } else {
        |c: char| quote_escape(c)
    };
    let ghost start = out@;
    let mut i: usize = 0;
    while i < src.len()
        invariant
            i <= src@.len(),
            out@ == start + map_chars(src@.take(i as int), f),
            f == (if backslashes {
                |c: char| arg_escape(c)
            } else {
                |c: char| quote_escape(c)
            }),
        decreases src@.len() - i,
    {
        let c = src[i];
        proof {
            lemma_map_chars_step(src@, i as int, f);
        }
        if backslashes && c == '\\' {
            push_char(out, '\\');
            push_char(out, '\\');
        } else if c == '"' {
            push_char(out, '\\');
            push_char(out, '"');
        } else {
            push_char(out, c);
        }
        assert(out@ =~= start + map_chars(src@.take(i + 1), f));
        i += 1;
    }
    assert(src@.take(src@.len() as int) =~= src@);
}

/// Wraps `pattern` in double quotes when it contains whitespace, escaping
/// embedded `"` as `\"`, so that the command line splits it back into one
/// argument; returns it unchanged otherwise.
pub fn quote_for_command(pattern: &str) -> (r: String)
    ensures
        r@ == quoted_pattern(pattern@),
{
    if contains_whitespace(pattern) {
        let chars = chars_of(pattern);
        let mut out = String::new();
        push_char(&mut out, '"');
        push_escaped(&mut out, &chars, false);
        push_char(&mut out, '"');
        out
    } else {
        pattern.to_owned()
    }
}

/// Quotes `name` (escaping backslashes and quotes) if it contains
/// whitespace, so it stays a single argument of a command; returns it as-is
/// otherwise.
pub fn quote_command_arg(name: &str) -> (r: String)
    ensures
        r@ == quoted_arg(name@),
{
    if contains_whitespace(name) {
        let chars = chars_of(name);
        let mut out = String::new();
        push_char(&mut out, '"');
        push_escaped(&mut out, &chars, true);
        push_char(&mut out, '"');
        out
    } else {
        name.to_owned()
    }
}

/// The three kinds of line filter.
#[derive(Debug, Clone, Copy, PartialEq, Eq, Structural)]
pub enum FilterType {
    Include,
    Exclude,
    Highlight,
}

/// A filter's colours: the foreground and background colour names (as the
/// theme writes them) and whether only the matched text is coloured.
#[derive(Debug, Clone)]
pub struct ColorConfig {
    pub fg: Option<String>,
    pub bg: Option<String>,
    pub match_only: bool,
}

/// A field-filter expression already split into `key=value` conditions and
/// an optional trailing text pattern.
#[derive(Debug, Clone)]
pub struct ParsedFieldFilter {
    pub conditions: Vec<(String, String)>,
    pub text: Option<String>,
}

/// A stored filter pattern by kind: a date expression, a field expression
/// (with its parse, `None` when it did not parse), or plain text.
#[derive(Debug, Clone)]
pub enum FilterPattern {
    Date(String),
    Field(String, Option<ParsedFieldFilter>),
    Text(String),
}

/// The command word of a filter type.
pub open spec fn prefix_text(ft: FilterType) -> Seq<char> {
    match ft {
        FilterType::Include => "filter"@,
        FilterType::Exclude => "exclude"@,
        FilterType::Highlight => "highlight"@,
    }
}

/// ` --fg <fg>`, ` --bg <bg>` and, when `include_line_flag` holds and the
/// colour is not match-only, ` -l`; nothing without a colour configuration.
pub open spec fn color_flags(cc: Option<ColorConfig>, include_line_flag: bool) -> Seq<char> {
    match cc {
        None => Seq::empty(),
        Some(cfg) => {
            (match cfg.fg {
                Some(fg) => " --fg "@ + fg@,
                None => Seq::empty(),
            }) + (match cfg.bg {
                Some(bg) => " --bg "@ + bg@,
                None => Seq::empty(),
            }) + (if include_line_flag && !cfg.match_only {
                " -l"@
            } else {
                Seq::empty()
            })
        },
    }
}

/// ` --group <name>` with the name quoted, or nothing without a group.
pub open spec fn group_flag(group: Option<String>) -> Seq<char> {
    match group {
        Some(name) => " --group "@ + quoted_arg(name@),
        None => Seq::empty(),
    }
}

/// Whether a filter type takes colour flags.
pub open spec fn colored(ft: FilterType) -> bool {
    ft == FilterType::Include || ft == FilterType::Highlight
}

/// The command that recreates a plain-text filter.
pub open spec fn text_filter_command(
    ft: FilterType,
    cc: Option<ColorConfig>,
    pattern: Seq<char>,
    use_regex: bool,
    ignore_case: bool,
    group: Option<String>,
) -> Seq<char> {
    prefix_text(ft) + (if use_regex { " --regex"@ } else { Seq::empty() }) + (if ignore_case {
        " --ignore-case"@
    } else {
        Seq::empty()
    }) + (if colored(ft) { color_flags(cc, true) } else { Seq::empty() }) + group_flag(group)
        + seq![' '] + pattern
}

/// The command that recreates a date filter.
pub open spec fn date_filter_command(cc: Option<ColorConfig>, expr: Seq<char>) -> Seq<char> {
    "date-filter"@ + color_flags(cc, true) + seq![' '] + expr
}

/// ` --field k=v` for every condition, in order.
pub open spec fn field_conditions(conds: Seq<(String, String)>) -> Seq<char>
    decreases conds.len(),
{
    if conds.len() == 0 {
        Seq::empty()
    } else {
        field_conditions(conds.drop_last()) + " --field "@ + conds.last().0@ + seq!['=']
            + conds.last().1@
    }
}

/// The command that recreates a field filter: the parsed conditions and
/// trailing text, or the raw expression after ` --field ` when it did not parse.
pub open spec fn field_filter_command(
    ft: FilterType,
    cc: Option<ColorConfig>,
    expr: Seq<char>,
    group: Option<String>,
    parsed: Option<ParsedFieldFilter>,
) -> Seq<char> {
    prefix_text(ft) + (if colored(ft) { color_flags(cc, true) } else { Seq::empty() }) + group_flag(
        group,
    ) + match parsed {
        Some(p) => field_conditions(p.conditions@) + match p.text {
            Some(t) => seq![' '] + t@,
            None => Seq::empty(),
        },
        None => " --field "@ + expr,
    }
}

/// The command word of a filter type.
pub fn filter_command_prefix(ft: &FilterType) -> (r: String)
    ensures
        r@ == prefix_text(*ft),
{
    match ft {
        FilterType::Include => String::from_str("filter"),
        FilterType::Exclude => String::from_str("exclude"),
        FilterType::Highlight => String::from_str("highlight"),
    }
}

/// Appends the colour flags of `cc` to `cmd`.
pub fn append_color_flags(cmd: &mut String, cc: &Option<ColorConfig>, include_line_flag: bool)
    ensures
        final(cmd)@ == old(cmd)@ + color_flags(*cc, include_line_flag),
{
    if let Some(cfg) = cc {
        append_config_flags(cmd, cfg, include_line_flag);
    }
}

fn append_config_flags(cmd: &mut String, cfg: &ColorConfig, include_line_flag: bool)
    ensures
        final(cmd)@ == old(cmd)@ + color_flags(Some(*cfg), include_line_flag),
{
    if let Some(fg) = &cfg.fg {
        cmd.append(" --fg ");
        cmd.append(fg.as_str());
    }
    if let Some(bg) = &cfg.bg {
        cmd.append(" --bg ");
        cmd.append(bg.as_str());
    }
    if include_line_flag && !cfg.match_only {
        cmd.append(" -l");
    }
}

/// Appends `--group <name>` to `cmd`, quoting the name if it contains
/// whitespace so it stays one argument.
pub fn append_group_flag(cmd: &mut String, group: &Option<String>)
    ensures
        final(cmd)@ == old(cmd)@ + group_flag(*group),
{
    if let Some(name) = group {
        cmd.append(" --group ");
        let q = quote_command_arg(name.as_str());
        cmd.append(q.as_str());
    }
}

/// The `filter`/`exclude`/`highlight` command that recreates a text filter.
pub fn build_text_filter_command(
    ft: &FilterType,
    cc: &Option<ColorConfig>,
    pattern: &str,
    use_regex: bool,
    ignore_case: bool,
    group: &Option<String>,
) -> (r: String)
    ensures
        r@ == text_filter_command(*ft, *cc, pattern@, use_regex, ignore_case, *group),
{
    let mut c = filter_command_prefix(ft);
    if use_regex {
        c.append(" --regex");
    }
    if ignore_case {
        c.append(" --ignore-case");
    }
    if matches!(ft, FilterType::Include | FilterType::Highlight) {
        append_color_flags(&mut c, cc, true);
    }
    append_group_flag(&mut c, group);
    push_char(&mut c, ' ');
    c.append(pattern);
    c
}

/// The `date-filter` command that recreates a date filter.
pub fn build_date_filter_command(cc: &Option<ColorConfig>, expr: &str) -> (r: String)
    ensures
        r@ == date_filter_command(*cc, expr@),
{
    let mut c = String::from_str("date-filter");
    append_color_flags(&mut c, cc, true);
    push_char(&mut c, ' ');
    c.append(expr);
    c
}

/// The command that recreates a field filter from its parsed expression.
pub fn build_field_filter_command(
    ft: &FilterType,
    cc: &Option<ColorConfig>,
    expr: &str,
    group: &Option<String>,
    parsed: &Option<ParsedFieldFilter>,
) -> (r: String)
    ensures
        r@ == field_filter_command(*ft, *cc, expr@, *group, *parsed),
{
    let mut c = filter_command_prefix(ft);
    if matches!(ft, FilterType::Include | FilterType::Highlight) {
        append_color_flags(&mut c, cc, true);
    }
    append_group_flag(&mut c, group);
    match parsed {
        Some(p) => {
            let ghost base = c@;
            let mut i: usize = 0;
            while i < p.conditions.len()
                invariant
                    i <= p.conditions@.len(),
                    c@ == base + field_conditions(p.conditions@.take(i as int)),
                decreases p.conditions@.len() - i,
            {
                let (key, value) = &p.conditions[i];
                c.append(" --field ");
                c.append(key.as_str());
                push_char(&mut c, '=');
                c.append(value.as_str());
                assert(p.conditions@.take(i + 1).drop_last() =~= p.conditions@.take(i as int));
                i += 1;
            }
            assert(p.conditions@.take(p.conditions@.len() as int) =~= p.conditions@);
            if let Some(t) = &p.text {
                push_char(&mut c, ' ');
                c.append(t.as_str());
            }
        },
        None => {
            c.append(" --field ");
            c.append(expr);
        },
    }
    c
}

/// The command that recreates a filter of any kind, for editing it.
pub fn build_edit_command(
    ft: &FilterType,
    cc: &Option<ColorConfig>,
    pattern: &FilterPattern,
    use_regex: bool,
    ignore_case: bool,
    group: &Option<String>,
) -> (r: String)
    ensures
        r@ == match *pattern {
            FilterPattern::Date(expr) => date_filter_command(*cc, expr@),
            FilterPattern::Field(expr, parsed) => field_filter_command(*ft, *cc, expr@, *group, parsed),
            FilterPattern::Text(p) => text_filter_command(*ft, *cc, p@, use_regex, ignore_case, *group),
        },
{
    match pattern {
        FilterPattern::Date(expr) => build_date_filter_command(cc, expr.as_str()),
        FilterPattern::Field(expr, parsed) => build_field_filter_command(ft, cc, expr.as_str(), group, parsed),
        FilterPattern::Text(p) => build_text_filter_command(ft, cc, p.as_str(), use_regex, ignore_case, group),
    }
}

/// The `set-color` command prefilled with a filter's current colours.
pub fn build_color_command(cc: Option<ColorConfig>) -> (r: String)
    ensures
        r@ == "set-color"@ + color_flags(cc, true),
{
    let mut cmd = String::from_str("set-color");
    if cc.is_some() {
        append_color_flags(&mut cmd, &cc, true);
    }
    cmd
}

/// The `group <name> ...` command prefilled with a group's current style.
pub fn build_group_style_command(name: &str, cc: Option<&ColorConfig>) -> (r: String)
    ensures
        r@ == "group "@ + quoted_arg(name@) + match cc {
            Some(cfg) => color_flags(Some(*cfg), true),
            None => Seq::empty(),
        },
{
    let mut cmd = String::from_str("group ");
    let q = quote_command_arg(name);
    cmd.append(q.as_str());
    if let Some(cfg) = cc {
        append_config_flags(&mut cmd, cfg, true);
    }
    cmd
}

} // verus!
