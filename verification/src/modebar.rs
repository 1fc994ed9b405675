//! The mode bar: a label naming the mode, then the mode's keys, each as
//! `<key> action`. The bar is a list of pieces of text, each drawn either
//! strong (the label and the keys) or plain (everything else); the terminal
//! side gives the two their colours.
//!
//! Each mode's `mode_bar_content` takes the display strings of the keys it
//! shows, in the order its documentation lists them.

use vstd::prelude::*;
use crate::archive_picker::ArchivePickerMode;
use crate::command::CommandMode;
use crate::comment::CommentMode;
use crate::confirm::{ConfirmRestoreMode, ConfirmRestoreSessionMode};
use crate::default_filters::DefaultFiltersMode;
use crate::dlt::DltSelectMode;
use crate::export_footer::{label_prefix, placeholder_to_label, ExportFooterMode};
use crate::filter_manage::{FilterEditMode, FilterManagementMode};
use crate::group::GroupManagementMode;
use crate::help::KeybindingsHelpMode;
use crate::normal::NormalMode;
use crate::picker::{FileSwitcherMode, ThemePickerMode};
use crate::select::{DockerSelectMode, MergeSelectMode, SelectFieldsMode};
use crate::text::push_char;
use crate::ui::{SearchMode, UiMode};
use crate::value_colors::ValueColorsMode;
use crate::visual_char::VisualMode;
use crate::visual_line::VisualLineMode;

verus! {

/// How a piece of the mode bar is drawn.
#[derive(Debug, Clone, Copy, PartialEq, Eq, Structural)]
pub enum BarStyle {
    /// The label and the keys: highlighted and bold.
    Strong,
    /// Everything else: the plain text colour.
    Plain,
}

/// One piece of the mode bar.
#[derive(Debug, Clone)]
pub struct BarSpan {
    pub text: String,
    pub style: BarStyle,
}

/// The pieces of a bar as text and style.
pub open spec fn bar_view(v: Seq<BarSpan>) -> Seq<(Seq<char>, BarStyle)> {
    v.map_values(|s: BarSpan| (s.text@, s.style))
}

/// A strong piece.
pub open spec fn strong(t: Seq<char>) -> Seq<(Seq<char>, BarStyle)> {
    seq![(t, BarStyle::Strong)]
}

/// A plain piece.
pub open spec fn plain(t: Seq<char>) -> Seq<(Seq<char>, BarStyle)> {
    seq![(t, BarStyle::Plain)]
}

/// The pieces of one `<key> action` entry.
pub open spec fn entry(key: Seq<char>, action: Seq<char>) -> Seq<(Seq<char>, BarStyle)> {
    plain("<"@) + strong(key) + plain(">"@) + plain(" "@ + action + "  "@)
}

/// The pieces of a `<up/down> what` entry for two keys; `tail` is the text
/// after the second key (`"> move  "`, say).
pub open spec fn pair(k1: Seq<char>, k2: Seq<char>, tail: Seq<char>) -> Seq<(Seq<char>, BarStyle)> {
    plain("<"@) + strong(k1) + plain("/"@) + strong(k2) + plain(tail)
}

/// Appends one piece.
fn push_span(spans: &mut Vec<BarSpan>, text: String, style: BarStyle)
    ensures
        bar_view(final(spans)@) == bar_view(old(spans)@) + seq![(text@, style)],
{
    let ghost before = spans@;
    spans.push(BarSpan { text, style });
    assert(bar_view(spans@) =~= bar_view(before) + seq![(text@, style)]);
}

/// A bar holding just its label.
fn bar_start(label: String) -> (r: Vec<BarSpan>)
    ensures
        bar_view(r@) == strong(label@),
{
    let mut spans: Vec<BarSpan> = Vec::new();
    push_span(&mut spans, label, BarStyle::Strong);
    assert(bar_view(Seq::<BarSpan>::empty()) =~= Seq::<(Seq<char>, BarStyle)>::empty());
    spans
}

/// Appends a plain piece of fixed text.
fn push_plain(spans: &mut Vec<BarSpan>, text: &str)
    ensures
        bar_view(final(spans)@) == bar_view(old(spans)@) + plain(text@),
{
    push_span(spans, String::from_str(text), BarStyle::Plain);
}

/// Appends a `<key> action` entry whose action is computed.
pub fn status_entry_dyn(spans: &mut Vec<BarSpan>, key: String, action: String)
    ensures
        bar_view(final(spans)@) == bar_view(old(spans)@) + entry(key@, action@),
{
    let ghost before = bar_view(spans@);
    let ghost k = key@;
    push_plain(spans, "<");
    push_span(spans, key, BarStyle::Strong);
    push_plain(spans, ">");
    let mut text = String::from_str(" ");
    text.append(action.as_str());
    text.append("  ");
    push_span(spans, text, BarStyle::Plain);
    assert(bar_view(spans@) =~= before + entry(k, action@));
}

/// Appends a `<key> action` entry.
pub fn status_entry(spans: &mut Vec<BarSpan>, key: String, action: &str)
    ensures
        bar_view(final(spans)@) == bar_view(old(spans)@) + entry(key@, action@),
{
    status_entry_dyn(spans, key, String::from_str(action));
}

/// Appends a `<k1/k2> what` entry.
fn push_pair(spans: &mut Vec<BarSpan>, k1: String, k2: String, tail: &str)
    ensures
        bar_view(final(spans)@) == bar_view(old(spans)@) + pair(k1@, k2@, tail@),
{
    let ghost before = bar_view(spans@);
    let ghost (a, b) = (k1@, k2@);
    push_plain(spans, "<");
    push_span(spans, k1, BarStyle::Strong);
    push_plain(spans, "/");
    push_span(spans, k2, BarStyle::Strong);
    push_plain(spans, tail);
    assert(bar_view(spans@) =~= before + pair(a, b, tail@));
}

/// The character of the decimal digit `d`.
pub open spec fn digit_char(d: nat) -> char {
    if d == 0 {
        '0'
    } else if d == 1 {
        '1'
    } else if d == 2 {
        '2'
    } else if d == 3 {
        '3'
    } else if d == 4 {
        '4'
    } else if d == 5 {
        '5'
    } else if d == 6 {
        '6'
    } else if d == 7 {
        '7'
    } else if d == 8 {
        '8'
    } else {
        '9'
    }
}

/// `n` written in decimal, without leading zeros.
pub open spec fn decimal(n: nat) -> Seq<char>
    decreases n,
{
    if n < 10 {
        seq![digit_char(n)]
    } else {
        decimal(n / 10).push(digit_char(n % 10))
    }
}

fn digit(d: usize) -> (c: char)
    requires
        d < 10,
    ensures
        c == digit_char(d as nat),
{
    match d {
        0 => '0',
        1 => '1',
        2 => '2',
        3 => '3',
        4 => '4',
        5 => '5',
        6 => '6',
        7 => '7',
        8 => '8',
        _ => '9',
    }
}

/// Appends `n` in decimal.
pub fn push_decimal(s: &mut String, n: usize)
    ensures
        final(s)@ == old(s)@ + decimal(n as nat),
    decreases n,
{
    if n >= 10 {
        push_decimal(s, n / 10);
    }
    push_char(s, digit(n % 10));
    assert(old(s)@ + decimal(n as nat) =~= (if n >= 10 { old(s)@ + decimal((n / 10) as nat) } else { old(s)@ }).push(
        digit_char((n % 10) as nat),
    ));
}

/// A label with a count: `[NAME] n  ` when there is a count, else `[NAME]  `.
pub open spec fn counted_label(name: Seq<char>, count: Option<usize>) -> Seq<char> {
    match count {
        Some(n) => "["@ + name + "] "@ + decimal(n as nat) + "  "@,
        None => "["@ + name + "]  "@,
    }
}

fn make_counted_label(name: &str, count: Option<usize>) -> (r: String)
    ensures
        r@ == counted_label(name@, count),
{
    let mut label = String::from_str("[");
    label.append(name);
    match count {
        Some(n) => {
            label.append("] ");
            push_decimal(&mut label, n);
            label.append("  ");
        },
        None => {
            label.append("]  ");
        },
    }
    label
}

/// The display of key `i`.
fn key(keys: &Vec<String>, i: usize) -> (r: String)
    requires
        i < keys@.len(),
    ensures
        r@ == keys@[i as int]@,
{
    keys[i].clone()
}

/// The bar of a yes/no/always/never question.
pub open spec fn question_bar(label: Seq<char>, question: Seq<char>, k: Seq<String>) -> Seq<(Seq<char>, BarStyle)> {
    strong(label) + plain(question) + entry(k[0]@, "yes"@) + entry(k[1]@, "no"@) + entry(k[2]@, "always"@) + entry(
        k[3]@,
        "never"@,
    )
}

fn make_question_bar(label: &str, question: &str, keys: &Vec<String>) -> (r: Vec<BarSpan>)
    requires
        keys@.len() == 4,
    ensures
        bar_view(r@) == question_bar(label@, question@, keys@),
{
    let mut spans = bar_start(String::from_str(label));
    push_plain(&mut spans, question);
    status_entry(&mut spans, key(keys, 0), "yes");
    status_entry(&mut spans, key(keys, 1), "no");
    status_entry(&mut spans, key(keys, 2), "always");
    status_entry(&mut spans, key(keys, 3), "never");
    spans
}

impl<C> ConfirmRestoreMode<C> {
    /// The bar: `[RESTORE]`, the question, then the yes, no, always and
    /// never keys (`keys`, in that order).
    pub fn mode_bar_content(&self, keys: &Vec<String>) -> (r: Vec<BarSpan>)
        requires
            keys@.len() == 4,
        ensures
            bar_view(r@) == question_bar("[RESTORE]  "@, "Restore previous session?  "@, keys@),
    {
        make_question_bar("[RESTORE]  ", "Restore previous session?  ", keys)
    }
}

impl ConfirmRestoreSessionMode {
    /// The bar: `[RESTORE SESSION]`, the question, then the yes, no, always
    /// and never keys (`keys`, in that order).
    pub fn mode_bar_content(&self, keys: &Vec<String>) -> (r: Vec<BarSpan>)
        requires
            keys@.len() == 4,
        ensures
            bar_view(r@) == question_bar("[RESTORE SESSION]  "@, "Restore last session?  "@, keys@),
    {
        make_question_bar("[RESTORE SESSION]  ", "Restore last session?  ", keys)
    }
}

/// The bar of a checkbox list: label, then the toggle, apply, cancel, all
/// and none keys, `apply` naming what apply does.
pub open spec fn checklist_bar(label: Seq<char>, apply: Seq<char>, k: Seq<String>) -> Seq<(Seq<char>, BarStyle)> {
    strong(label) + entry(k[0]@, "toggle"@) + entry(k[1]@, apply) + entry(k[2]@, "cancel"@) + entry(k[3]@, "all"@)
        + entry(k[4]@, "none"@)
}

fn make_checklist_bar(label: &str, apply: &str, keys: &Vec<String>) -> (r: Vec<BarSpan>)
    requires
        keys@.len() == 5,
    ensures
        bar_view(r@) == checklist_bar(label@, apply@, keys@),
{
    let mut spans = bar_start(String::from_str(label));
    status_entry(&mut spans, key(keys, 0), "toggle");
    status_entry(&mut spans, key(keys, 1), apply);
    status_entry(&mut spans, key(keys, 2), "cancel");
    status_entry(&mut spans, key(keys, 3), "all");
    status_entry(&mut spans, key(keys, 4), "none");
    spans
}

impl ArchivePickerMode {
    /// The bar: `[ARCHIVE]`, then the toggle, apply (extract), cancel, all
    /// and none keys (`keys`, in that order).
    pub fn mode_bar_content(&self, keys: &Vec<String>) -> (r: Vec<BarSpan>)
        requires
            keys@.len() == 5,
        ensures
            bar_view(r@) == checklist_bar("[ARCHIVE]  "@, "extract"@, keys@),
    {
        make_checklist_bar("[ARCHIVE]  ", "extract", keys)
    }
}

impl MergeSelectMode {
    /// The bar: `[MERGE SELECT]`, then the toggle, apply (merge), cancel,
    /// all and none keys (`keys`, in that order).
    pub fn mode_bar_content(&self, keys: &Vec<String>) -> (r: Vec<BarSpan>)
        requires
            keys@.len() == 5,
        ensures
            bar_view(r@) == checklist_bar("[MERGE SELECT]  "@, "merge"@, keys@),
    {
        make_checklist_bar("[MERGE SELECT]  ", "merge", keys)
    }
}

impl<L, H> SelectFieldsMode<L, H> {
    /// The bar: `[SELECT FIELDS]`, then the toggle key, the move-up and
    /// move-down keys, and the apply, cancel, all and none keys (`keys`, in
    /// that order).
    pub fn mode_bar_content(&self, keys: &Vec<String>) -> (r: Vec<BarSpan>)
        requires
            keys@.len() == 7,
        ensures
            bar_view(r@) == strong("[SELECT FIELDS]  "@) + entry(keys@[0]@, "toggle"@) + pair(
                keys@[1]@,
                keys@[2]@,
                "> reorder  "@,
            ) + entry(keys@[3]@, "apply"@) + entry(keys@[4]@, "cancel"@) + entry(keys@[5]@, "all"@) + entry(
                keys@[6]@,
                "none"@,
            ),
    {
        let mut spans = bar_start(String::from_str("[SELECT FIELDS]  "));
        status_entry(&mut spans, key(keys, 0), "toggle");
        push_pair(&mut spans, key(keys, 1), key(keys, 2), "> reorder  ");
        status_entry(&mut spans, key(keys, 3), "apply");
        status_entry(&mut spans, key(keys, 4), "cancel");
        status_entry(&mut spans, key(keys, 5), "all");
        status_entry(&mut spans, key(keys, 6), "none");
        spans
    }
}

/// The bar of a prompt: label, then the cancel key and the confirm key,
/// `confirm` naming what confirming does.
pub open spec fn prompt_bar(label: Seq<char>, confirm: Seq<char>, k: Seq<String>) -> Seq<(Seq<char>, BarStyle)> {
    strong(label) + entry(k[0]@, "cancel"@) + entry(k[1]@, confirm)
}

fn make_prompt_bar(label: &str, confirm: &str, keys: &Vec<String>) -> (r: Vec<BarSpan>)
    requires
        keys@.len() >= 2,
    ensures
        bar_view(r@) == prompt_bar(label@, confirm@, keys@),
{
    let mut spans = bar_start(String::from_str(label));
    status_entry(&mut spans, key(keys, 0), "cancel");
    status_entry(&mut spans, key(keys, 1), confirm);
    spans
}

impl SearchMode {
    /// The bar: `[SEARCH]`, then the cancel and confirm keys (`keys`, in
    /// that order).
    pub fn mode_bar_content(&self, keys: &Vec<String>) -> (r: Vec<BarSpan>)
        requires
            keys@.len() == 2,
        ensures
            bar_view(r@) == prompt_bar("[SEARCH]  "@, "search"@, keys@),
    {
        make_prompt_bar("[SEARCH]  ", "search", keys)
    }
}

impl FilterEditMode {
    /// The bar: `[FILTER EDIT]`, then the cancel and confirm keys (`keys`,
    /// in that order).
    pub fn mode_bar_content(&self, keys: &Vec<String>) -> (r: Vec<BarSpan>)
        requires
            keys@.len() == 2,
        ensures
            bar_view(r@) == prompt_bar("[FILTER EDIT]  "@, "save"@, keys@),
    {
        make_prompt_bar("[FILTER EDIT]  ", "save", keys)
    }
}

impl CommandMode {
    /// The bar: `[COMMAND]`, then the cancel and confirm keys (`keys`, in
    /// that order), then Tab to complete.
    pub fn mode_bar_content(&self, keys: &Vec<String>) -> (r: Vec<BarSpan>)
        requires
            keys@.len() == 2,
        ensures
            bar_view(r@) == prompt_bar("[COMMAND]  "@, "execute"@, keys@) + entry("Tab"@, "complete"@),
    {
        let mut spans = make_prompt_bar("[COMMAND]  ", "execute", keys);
        status_entry(&mut spans, String::from_str("Tab"), "complete");
        spans
    }
}

/// The bar of a popup with fixed keys: label, then Enter and Esc.
pub open spec fn popup_bar(label: Seq<char>, enter: Seq<char>) -> Seq<(Seq<char>, BarStyle)> {
    strong(label) + entry("Enter"@, enter) + entry("Esc"@, "cancel"@)
}

fn make_popup_bar(label: &str, enter: &str) -> (r: Vec<BarSpan>)
    ensures
        bar_view(r@) == popup_bar(label@, enter@),
{
    let mut spans = bar_start(String::from_str(label));
    status_entry(&mut spans, String::from_str("Enter"), enter);
    status_entry(&mut spans, String::from_str("Esc"), "cancel");
    spans
}

impl FileSwitcherMode {
    /// The bar: `[SWITCH FILE]`, Enter to switch, Esc to cancel.
    pub fn mode_bar_content(&self) -> (r: Vec<BarSpan>)
        ensures
            bar_view(r@) == popup_bar("[SWITCH FILE]  "@, "switch"@),
    {
        make_popup_bar("[SWITCH FILE]  ", "switch")
    }
}

impl<T> ThemePickerMode<T> {
    /// The bar: `[THEME]`, Enter to apply, Esc to cancel.
    pub fn mode_bar_content(&self) -> (r: Vec<BarSpan>)
        ensures
            bar_view(r@) == popup_bar("[THEME]  "@, "apply"@),
    {
        make_popup_bar("[THEME]  ", "apply")
    }
}



impl DockerSelectMode {
    /// The one-line key summary of the container picker.
    pub fn status_line(&self) -> (r: &'static str)
        ensures
            r@ == "[DOCKER] j/k=navigate | Enter=attach | Esc=cancel"@,
    {
        "[DOCKER] j/k=navigate | Enter=attach | Esc=cancel"
    }
}

impl<H> ValueColorsMode<H> {
    /// The one-line key summary of the value colour picker.
    pub fn status_line(&self) -> (r: &'static str)
        ensures
            r@ == "[VALUE COLORS] Space=toggle | a=all | n=none | Enter=apply | Esc=cancel | type to search"@,
    {
        "[VALUE COLORS] Space=toggle | a=all | n=none | Enter=apply | Esc=cancel | type to search"
    }
}

impl CommentMode {
    /// The bar: `[COMMENT EDIT]` when editing an existing comment, else
    /// `[COMMENT]`; a reminder to type; then the newline, save, delete (only
    /// when editing) and cancel keys (`keys`, in that order).
    pub fn mode_bar_content(&self, keys: &Vec<String>) -> (r: Vec<BarSpan>)
        requires
            keys@.len() == 4,
        ensures
            bar_view(r@) == strong(
                if self.editing_index is Some {
                    "[COMMENT EDIT]  "@
                } else {
                    "[COMMENT]  "@
                },
            ) + plain("type text  "@) + entry(keys@[0]@, "newline"@) + entry(keys@[1]@, "save"@) + (if self.editing_index is Some {
                entry(keys@[2]@, "delete"@)
            } else {
                Seq::empty()
            }) + entry(keys@[3]@, "cancel"@),
    {
        let label = if self.editing_index.is_some() {
            "[COMMENT EDIT]  "
        } else {
            "[COMMENT]  "
        };
        let mut spans = bar_start(String::from_str(label));
        push_plain(&mut spans, "type text  ");
        status_entry(&mut spans, key(keys, 0), "newline");
        status_entry(&mut spans, key(keys, 1), "save");
        let ghost mid = bar_view(spans@);
        if self.editing_index.is_some() {
            status_entry(&mut spans, key(keys, 2), "delete");
        } else {
            assert(mid + Seq::empty() =~= mid);
        }
        status_entry(&mut spans, key(keys, 3), "cancel");
        spans
    }
}

impl DefaultFiltersMode {
    /// The bar, whose keys are fixed: while a path is edited,
    /// `[DEFAULT FILTERS: EDIT]` with Tab, Enter and Esc; otherwise
    /// `[DEFAULT FILTERS]` with Enter, d and Esc.
    pub fn mode_bar_content(&self) -> (r: Vec<BarSpan>)
        ensures
            bar_view(r@) == if self.editing is Some {
                strong("[DEFAULT FILTERS: EDIT]  "@) + entry("Tab"@, "complete"@) + entry("Enter"@, "save"@) + entry(
                    "Esc"@,
                    "cancel"@,
                )
            } else {
                strong("[DEFAULT FILTERS]  "@) + entry("Enter"@, "edit"@) + entry("d"@, "clear"@) + entry(
                    "Esc"@,
                    "close"@,
                )
            },
    {
        if self.editing.is_some() {
            let mut spans = bar_start(String::from_str("[DEFAULT FILTERS: EDIT]  "));
            status_entry(&mut spans, String::from_str("Tab"), "complete");
            status_entry(&mut spans, String::from_str("Enter"), "save");
            status_entry(&mut spans, String::from_str("Esc"), "cancel");
            spans
        } else {
            let mut spans = bar_start(String::from_str("[DEFAULT FILTERS]  "));
            status_entry(&mut spans, String::from_str("Enter"), "edit");
            status_entry(&mut spans, String::from_str("d"), "clear");
            status_entry(&mut spans, String::from_str("Esc"), "close");
            spans
        }
    }
}

impl DltSelectMode {
    /// The bar: while a device is added, `[DLT ADD]` with the next-field,
    /// confirm (save) and cancel keys; otherwise `[DLT]` with the up/down
    /// keys, then the confirm (connect), delete and cancel keys. `keys` are
    /// the next-field, confirm, cancel, up, down and delete keys, in that
    /// order.
    pub fn mode_bar_content(&self, keys: &Vec<String>) -> (r: Vec<BarSpan>)
        requires
            keys@.len() == 6,
        ensures
            bar_view(r@) == if self.adding is Some {
                strong("[DLT ADD]  "@) + entry(keys@[0]@, "next field"@) + entry(keys@[1]@, "save"@) + entry(
                    keys@[2]@,
                    "cancel"@,
                )
            } else {
                strong("[DLT]  "@) + pair(keys@[3]@, keys@[4]@, "> navigate  "@) + entry(keys@[1]@, "connect"@) + entry(
                    keys@[5]@,
                    "delete"@,
                ) + entry(keys@[2]@, "cancel"@)
            },
    {
        if self.adding.is_some() {
            let mut spans = bar_start(String::from_str("[DLT ADD]  "));
            status_entry(&mut spans, key(keys, 0), "next field");
            status_entry(&mut spans, key(keys, 1), "save");
            status_entry(&mut spans, key(keys, 2), "cancel");
            spans
        } else {
            let mut spans = bar_start(String::from_str("[DLT]  "));
            push_pair(&mut spans, key(keys, 3), key(keys, 4), "> navigate  ");
            status_entry(&mut spans, key(keys, 1), "connect");
            status_entry(&mut spans, key(keys, 5), "delete");
            status_entry(&mut spans, key(keys, 2), "cancel");
            spans
        }
    }
}

impl ExportFooterMode {
    /// The bar, whose keys are fixed: `[EXPORT — <field>]` naming the
    /// active field (as a label), then Tab, Ctrl-S and Esc.
    pub fn mode_bar_content(&self) -> (r: Vec<BarSpan>)
        ensures
            bar_view(r@) == strong(
                "[EXPORT — "@ + (if self.active_idx < self.fields@.len() {
                    let n = self.fields@[self.active_idx as int].name@;
                    label_prefix(n, n.len() as int)
                } else {
                    Seq::empty()
                }) + "]  "@,
            ) + entry("Tab"@, "switch field"@) + entry("Ctrl-S"@, "export"@) + entry("Esc"@, "cancel"@),
    {
        let active_name = if self.active_idx < self.fields.len() {
            placeholder_to_label(self.fields[self.active_idx].name.as_str())
        } else {
            String::new()
        };
        let mut label = String::from_str("[EXPORT — ");
        label.append(active_name.as_str());
        label.append("]  ");
        let mut spans = bar_start(label);
        status_entry(&mut spans, String::from_str("Tab"), "switch field");
        status_entry(&mut spans, String::from_str("Ctrl-S"), "export");
        status_entry(&mut spans, String::from_str("Esc"), "cancel");
        spans
    }
}

impl KeybindingsHelpMode {
    /// The bar: `[HELP]`, a reminder that typing searches, the up/down keys,
    /// then the close key (`keys`: up, down, close).
    pub fn mode_bar_content(&self, keys: &Vec<String>) -> (r: Vec<BarSpan>)
        requires
            keys@.len() == 3,
        ensures
            bar_view(r@) == strong("[HELP]  "@) + plain("type to search  "@) + pair(keys@[0]@, keys@[1]@, "> scroll  "@)
                + entry(keys@[2]@, "close"@),
    {
        let mut spans = bar_start(String::from_str("[HELP]  "));
        push_plain(&mut spans, "type to search  ");
        push_pair(&mut spans, key(keys, 0), key(keys, 1), "> scroll  ");
        status_entry(&mut spans, key(keys, 2), "close");
        spans
    }
}

/// `[ON]` or `[OFF]`.
pub open spec fn on_off(on: bool) -> Seq<char> {
    if on {
        "[ON]"@
    } else {
        "[OFF]"@
    }
}

fn flagged(name: &str, on: bool) -> (r: String)
    ensures
        r@ == name@ + on_off(on),
{
    let mut s = String::from_str(name);
    if on {
        s.append("[ON]");
    } else {
        s.append("[OFF]");
    }
    s
}

impl UiMode {
    /// The bar: `[UI]`, then the sidebar, mode bar, borders and wrap toggles,
    /// each with whether it is on, and the exit key (`keys`, in that order).
    pub fn mode_bar_content(&self, keys: &Vec<String>) -> (r: Vec<BarSpan>)
        requires
            keys@.len() == 5,
        ensures
            bar_view(r@) == strong("[UI]  "@) + entry(keys@[0]@, "sidebar"@ + on_off(self.sidebar)) + entry(
                keys@[1]@,
                "mode bar"@ + on_off(self.mode_bar),
            ) + entry(keys@[2]@, "borders"@ + on_off(self.borders)) + entry(keys@[3]@, "wrap"@ + on_off(self.wrap))
                + entry(keys@[4]@, "back"@),
    {
        let mut spans = bar_start(String::from_str("[UI]  "));
        status_entry_dyn(&mut spans, key(keys, 0), flagged("sidebar", self.sidebar));
        status_entry_dyn(&mut spans, key(keys, 1), flagged("mode bar", self.mode_bar));
        status_entry_dyn(&mut spans, key(keys, 2), flagged("borders", self.borders));
        status_entry_dyn(&mut spans, key(keys, 3), flagged("wrap", self.wrap));
        status_entry(&mut spans, key(keys, 4), "back");
        spans
    }
}

impl FilterManagementMode {
    /// The bar: `[FILTER]`, then the add-include, add-include-auto,
    /// add-exclude, add-date, add-highlight, toggle, delete, edit and colour
    /// keys, the move-up/move-down keys, the toggle-filtering, toggle-all
    /// and clear keys, the shrink/grow keys, and the search and exit keys
    /// (`keys`, in that order).
    pub fn mode_bar_content(&self, keys: &Vec<String>) -> (r: Vec<BarSpan>)
        requires
            keys@.len() == 18,
        ensures
            bar_view(r@) == strong("[FILTER]  "@) + entry(keys@[0]@, "filter in"@) + entry(
                keys@[1]@,
                "filter in (auto)"@,
            ) + entry(keys@[2]@, "filter out"@) + entry(keys@[3]@, "date"@) + entry(keys@[4]@, "highlight"@) + entry(
                keys@[5]@,
                "toggle"@,
            ) + entry(keys@[6]@, "delete"@) + entry(keys@[7]@, "edit"@) + entry(keys@[8]@, "color"@) + pair(
                keys@[9]@,
                keys@[10]@,
                "> move  "@,
            ) + entry(keys@[11]@, "tog.filtering"@) + entry(keys@[12]@, "tog.all"@) + entry(keys@[13]@, "clear"@)
                + pair(keys@[14]@, keys@[15]@, "> resize  "@) + entry(keys@[16]@, "search"@) + entry(
                keys@[17]@,
                "exit"@,
            ),
    {
        let mut spans = bar_start(String::from_str("[FILTER]  "));
        status_entry(&mut spans, key(keys, 0), "filter in");
        status_entry(&mut spans, key(keys, 1), "filter in (auto)");
        status_entry(&mut spans, key(keys, 2), "filter out");
        status_entry(&mut spans, key(keys, 3), "date");
        status_entry(&mut spans, key(keys, 4), "highlight");
        status_entry(&mut spans, key(keys, 5), "toggle");
        status_entry(&mut spans, key(keys, 6), "delete");
        status_entry(&mut spans, key(keys, 7), "edit");
        status_entry(&mut spans, key(keys, 8), "color");
        push_pair(&mut spans, key(keys, 9), key(keys, 10), "> move  ");
        status_entry(&mut spans, key(keys, 11), "tog.filtering");
        status_entry(&mut spans, key(keys, 12), "tog.all");
        status_entry(&mut spans, key(keys, 13), "clear");
        push_pair(&mut spans, key(keys, 14), key(keys, 15), "> resize  ");
        status_entry(&mut spans, key(keys, 16), "search");
        status_entry(&mut spans, key(keys, 17), "exit");
        spans
    }
}

/// Two key displays as one, `a/b`.
fn slash_keys(a: String, b: String) -> (r: String)
    ensures
        r@ == a@ + "/"@ + b@,
{
    let mut s = a;
    s.append("/");
    s.append(b.as_str());
    s
}

impl GroupManagementMode {
    /// The bar: `[GROUP]`, then the up/down keys as one entry, the toggle
    /// and toggle-all keys as one entry, then the delete, edit, clear-style,
    /// add, search and exit keys (`keys`: up, down, toggle, toggle-all,
    /// delete, edit, clear-style, add, search, exit).
    pub fn mode_bar_content(&self, keys: &Vec<String>) -> (r: Vec<BarSpan>)
        requires
            keys@.len() == 10,
        ensures
            bar_view(r@) == strong("[GROUP]  "@) + entry(keys@[0]@ + "/"@ + keys@[1]@, "nav"@) + entry(
                keys@[2]@ + "/"@ + keys@[3]@,
                "toggle"@,
            ) + entry(keys@[4]@, "delete"@) + entry(keys@[5]@, "edit"@) + entry(keys@[6]@, "clear style"@) + entry(
                keys@[7]@,
                "add"@,
            ) + entry(keys@[8]@, "search"@) + entry(keys@[9]@, "exit"@),
    {
        let mut spans = bar_start(String::from_str("[GROUP]  "));
        status_entry(&mut spans, slash_keys(key(keys, 0), key(keys, 1)), "nav");
        status_entry(&mut spans, slash_keys(key(keys, 2), key(keys, 3)), "toggle");
        status_entry(&mut spans, key(keys, 4), "delete");
        status_entry(&mut spans, key(keys, 5), "edit");
        status_entry(&mut spans, key(keys, 6), "clear style");
        status_entry(&mut spans, key(keys, 7), "add");
        status_entry(&mut spans, key(keys, 8), "search");
        status_entry(&mut spans, key(keys, 9), "exit");
        spans
    }
}

impl NormalMode {
    /// The bar: `[NORMAL]` with the pending count, if any, then the quit,
    /// filter-include, filter-include-auto, filter-exclude, filter-mode,
    /// group-mode, toggle-filtering, toggle-highlight, mark, marks-only, ui,
    /// visual, comment and help keys (`keys`, in that order).
    pub fn mode_bar_content(&self, keys: &Vec<String>) -> (r: Vec<BarSpan>)
        requires
            keys@.len() == 14,
        ensures
            bar_view(r@) == strong(counted_label("NORMAL"@, self.count)) + entry(keys@[0]@, "quit"@) + entry(
                keys@[1]@,
                "filter in"@,
            ) + entry(keys@[2]@, "filter in (auto)"@) + entry(keys@[3]@, "filter out"@) + entry(keys@[4]@, "filters"@)
                + entry(keys@[5]@, "groups"@) + entry(keys@[6]@, "tog.filter"@) + entry(keys@[7]@, "tog.highlight"@)
                + entry(keys@[8]@, "mark"@) + entry(keys@[9]@, "marks only"@) + entry(keys@[10]@, "ui"@) + entry(
                keys@[11]@,
                "visual"@,
            ) + entry(keys@[12]@, "comment"@) + entry(keys@[13]@, "help"@),
    {
        let mut spans = bar_start(make_counted_label("NORMAL", self.count));
        status_entry(&mut spans, key(keys, 0), "quit");
        status_entry(&mut spans, key(keys, 1), "filter in");
        status_entry(&mut spans, key(keys, 2), "filter in (auto)");
        status_entry(&mut spans, key(keys, 3), "filter out");
        status_entry(&mut spans, key(keys, 4), "filters");
        status_entry(&mut spans, key(keys, 5), "groups");
        status_entry(&mut spans, key(keys, 6), "tog.filter");
        status_entry(&mut spans, key(keys, 7), "tog.highlight");
        status_entry(&mut spans, key(keys, 8), "mark");
        status_entry(&mut spans, key(keys, 9), "marks only");
        status_entry(&mut spans, key(keys, 10), "ui");
        status_entry(&mut spans, key(keys, 11), "visual");
        status_entry(&mut spans, key(keys, 12), "comment");
        status_entry(&mut spans, key(keys, 13), "help");
        spans
    }
}

impl VisualLineMode {
    /// The bar: `[VISUAL]` with the pending count, if any, then the up/down
    /// keys, and the comment, yank, mark, filter-include, filter-exclude,
    /// search and exit keys (`keys`: up, down, then those, in that order).
    pub fn mode_bar_content(&self, keys: &Vec<String>) -> (r: Vec<BarSpan>)
        requires
            keys@.len() == 9,
        ensures
            bar_view(r@) == strong(counted_label("VISUAL"@, self.count)) + pair(keys@[0]@, keys@[1]@, "> extend  "@)
                + entry(keys@[2]@, "comment"@) + entry(keys@[3]@, "yank"@) + entry(keys@[4]@, "mark"@) + entry(
                keys@[5]@,
                "filter"@,
            ) + entry(keys@[6]@, "exclude"@) + entry(keys@[7]@, "search"@) + entry(keys@[8]@, "cancel"@),
    {
        let mut spans = bar_start(make_counted_label("VISUAL", self.count));
        push_pair(&mut spans, key(keys, 0), key(keys, 1), "> extend  ");
        status_entry(&mut spans, key(keys, 2), "comment");
        status_entry(&mut spans, key(keys, 3), "yank");
        status_entry(&mut spans, key(keys, 4), "mark");
        status_entry(&mut spans, key(keys, 5), "filter");
        status_entry(&mut spans, key(keys, 6), "exclude");
        status_entry(&mut spans, key(keys, 7), "search");
        status_entry(&mut spans, key(keys, 8), "cancel");
        spans
    }
}

impl VisualMode {
    /// The bar: while a find motion waits for its character,
    /// `[VISUAL-CHAR]` and a reminder to type one; otherwise
    /// `[VISUAL-CHAR SELECT]` once a selection is anchored (else
    /// `[VISUAL-CHAR]`), then the down, up, left, right, word-forward,
    /// word-end, word-backward, line-start, line-end, find, select,
    /// filter-include, filter-exclude, search, yank and exit keys (`keys`,
    /// in that order).
    pub fn mode_bar_content(&self, keys: &Vec<String>) -> (r: Vec<BarSpan>)
        requires
            keys@.len() == 16,
        ensures
            bar_view(r@) == if self.pending_motion is Some {
                strong("[VISUAL-CHAR]  "@) + plain("pending — type a character"@)
            } else {
                strong(
                    if self.anchor_col is Some {
                        "[VISUAL-CHAR SELECT]  "@
                    } else {
                        "[VISUAL-CHAR]  "@
                    },
                ) + entry(keys@[0]@, "line↓"@) + entry(keys@[1]@, "line↑"@) + entry(keys@[2]@, "char←"@) + entry(
                    keys@[3]@,
                    "char→"@,
                ) + entry(keys@[4]@, "word→"@) + entry(keys@[5]@, "end→"@) + entry(keys@[6]@, "word←"@) + entry(
                    keys@[7]@,
                    "line-start"@,
                ) + entry(keys@[8]@, "line-end"@) + entry(keys@[9]@, "find→"@) + entry(keys@[10]@, "select"@)
                    + entry(keys@[11]@, "filter"@) + entry(keys@[12]@, "exclude"@) + entry(keys@[13]@, "search"@)
                    + entry(keys@[14]@, "yank"@) + entry(keys@[15]@, "cancel"@)
            },
    {
        if self.pending_motion.is_some() {
            let mut spans = bar_start(String::from_str("[VISUAL-CHAR]  "));
            push_plain(&mut spans, "pending — type a character");
            return spans;
        }
        let label = if self.anchor_col.is_some() {
            "[VISUAL-CHAR SELECT]  "
        } else {
            "[VISUAL-CHAR]  "
        };
        let mut spans = bar_start(String::from_str(label));
        status_entry(&mut spans, key(keys, 0), "line↓");
        status_entry(&mut spans, key(keys, 1), "line↑");
        status_entry(&mut spans, key(keys, 2), "char←");
        status_entry(&mut spans, key(keys, 3), "char→");
        status_entry(&mut spans, key(keys, 4), "word→");
        status_entry(&mut spans, key(keys, 5), "end→");
        status_entry(&mut spans, key(keys, 6), "word←");
        status_entry(&mut spans, key(keys, 7), "line-start");
        status_entry(&mut spans, key(keys, 8), "line-end");
        status_entry(&mut spans, key(keys, 9), "find→");
        status_entry(&mut spans, key(keys, 10), "select");
        status_entry(&mut spans, key(keys, 11), "filter");
        status_entry(&mut spans, key(keys, 12), "exclude");
        status_entry(&mut spans, key(keys, 13), "search");
        status_entry(&mut spans, key(keys, 14), "yank");
        status_entry(&mut spans, key(keys, 15), "cancel");
        spans
    }
}

} // verus!
