//! Picking a DLT device to stream from: the saved devices, and a small
//! form to add one (name, host, port).

use vstd::prelude::*;
use crate::editor::{byte_len, bytes_of};
use crate::key::{Key, KeyInput, KeyResult};
use crate::picker::{down_index, step_down, step_up, PickerNext};
use crate::text::{chars_of, insert_at_char, insert_char_at, remove_before_char, remove_char_before, trim, trimmed};

verus! {

/// A saved DLT device.
#[derive(Debug, Clone)]
pub struct DltDevice {
    pub name: String,
    pub host: String,
    pub port: u16,
}

/// The value of a string of decimal digits.
pub open spec fn digits_value(s: Seq<char>) -> int
    decreases s.len(),
{
    if s.len() == 0 {
        0
    } else {
        digits_value(s.drop_last()) * 10 + (s.last() as int - '0' as int)
    }
}

/// Every character of `t` is a decimal digit.
pub open spec fn all_digits(t: Seq<char>) -> bool {
    forall|i: int| 0 <= i < t.len() ==> '0' <= #[trigger] t[i] <= '9'
}

/// The port `s` spells: an optional `+`, then one or more decimal digits
/// whose value fits in 16 bits; `None` for anything else.
pub open spec fn parsed_port(s: Seq<char>) -> Option<u16> {
    let body = if s.len() > 0 && s[0] == '+' { s.drop_first() } else { s };
    if body.len() > 0 && all_digits(body) && digits_value(body) <= 65535 {
        Some(digits_value(body) as u16)
    } else {
        None
    }
}

/// A string of digits is worth at least any of its prefixes.
proof fn lemma_digits_prefix_le(t: Seq<char>, k: int)
    requires
        all_digits(t),
        0 <= k <= t.len(),
    ensures
        0 <= digits_value(t.take(k)) <= digits_value(t),
    decreases t.len(),
{
    if t.len() > 0 {
        assert(all_digits(t.drop_last()));
        if k == t.len() {
            assert(t.take(k) =~= t);
            lemma_digits_prefix_le(t.drop_last(), k - 1);
        } else {
            assert(t.drop_last().take(k) =~= t.take(k));
            lemma_digits_prefix_le(t.drop_last(), k);
        }
        assert(t[t.len() - 1] == t.last());
        lemma_digits_prefix_le(t.drop_last(), t.len() - 1);
        assert(t.drop_last().take(t.len() - 1) =~= t.drop_last());
    } else {
        assert(t.take(k) =~= t);
    }
}

/// The port `s` spells (what `str::parse::<u16>` gives): an optional `+`,
/// then one or more decimal digits whose value fits in 16 bits; `None` for
/// anything else.
fn parse_port(s: &str) -> (r: Option<u16>)
    ensures
        r == parsed_port(s@),
{
    let chars = chars_of(s);
    let n = chars.len();
    let start: usize = if n > 0 && chars[0] == '+' { 1 } else { 0 };
    let ghost body = if s@.len() > 0 && s@[0] == '+' { s@.drop_first() } else { s@ };
    assert(body =~= chars@.skip(start as int));
    if start == n {
        assert(body.len() == 0);
        return None;
    }
    assert(body.take(0) =~= Seq::<char>::empty());
    let mut v: u32 = 0;
    let mut i: usize = start;
    while i < n
        invariant
            start <= i <= n,
            n == chars@.len(),
            chars@ == s@,
            body =~= chars@.skip(start as int),
            body == (if s@.len() > 0 && s@[0] == '+' { s@.drop_first() } else { s@ }),
            all_digits(body.take(i - start)),
            v as int == digits_value(body.take(i - start)),
            v <= 65535,
        decreases n - i,
    {
        let c = chars[i];
        let ghost k = i - start;
        assert(body[k] == c);
        if !('0' <= c && c <= '9') {
            assert(!all_digits(body));
            assert(parsed_port(s@) is None);
            return None;
        }
        assert(body.take(k + 1).drop_last() =~= body.take(k));
        assert(body.take(k + 1).last() == c);
        assert(all_digits(body.take(k + 1)));
        let d = (c as u32) - ('0' as u32);
        let w = v * 10 + d;
        assert(w as int == digits_value(body.take(k + 1)));
        if w > 65535 {
            proof {
                if all_digits(body) {
                    lemma_digits_prefix_le(body, k + 1);
                }
                assert(parsed_port(s@) is None);
            }
            return None;
        }
        v = w;
        i += 1;
    }
    assert(body.take(n - start) =~= body);
    Some(v as u16)
}

/// The add-device form: name, host and port fields, the field being
/// edited, and the cursor in it (a character index).
#[derive(Debug, Clone)]
pub struct AddDeviceState {
    pub fields: [String; 3],
    /// 0 = name, 1 = host, 2 = port.
    pub active_field: usize,
    pub cursor: usize,
}

/// What the form shows.
#[derive(Debug, Clone)]
pub struct AddDeviceRenderState {
    pub fields: [String; 3],
    pub active_field: usize,
    pub cursor: usize,
}

impl AddDeviceState {
    /// An empty form on the name field, the port prefilled with 3490.
    pub fn new() -> (r: Self)
        ensures
            r.fields@[0]@.len() == 0,
            r.fields@[1]@.len() == 0,
            r.fields@[2]@ == "3490"@,
            r.active_field == 0,
            r.cursor == 0,
    {
        AddDeviceState { fields: [String::new(), String::new(), String::from_str("3490")], active_field: 0, cursor: 0 }
    }

    /// What the form shows.
    pub fn render_state(&self) -> (r: AddDeviceRenderState)
        ensures
            r.fields@ == self.fields@,
            r.active_field == self.active_field,
            r.cursor == self.cursor,
    {
        let fields = [self.fields[0].clone(), self.fields[1].clone(), self.fields[2].clone()];
        assert(fields@ =~= self.fields@);
        AddDeviceRenderState { fields, active_field: self.active_field, cursor: self.cursor }
    }
}

/// The configured key a press matches, in the order they are tried (the
/// list tries scroll down, scroll up, confirm, delete, cancel; the form
/// tries confirm, cancel, next field, previous field).
#[derive(Debug, Clone, Copy, PartialEq, Eq, Structural)]
pub enum DltBinding {
    ScrollDown,
    ScrollUp,
    Confirm,
    Delete,
    Cancel,
    NextField,
    PrevField,
}

/// What the application does after a key.
#[derive(Debug)]
pub enum DltRequest {
    Nothing,
    /// Forget the saved device with this name (it has left the list).
    Remove(String),
    /// Save this device; then call `device_saved`, or `set_error` with
    /// why it could not be saved.
    Save(DltDevice),
}

/// The DLT device picker.
#[derive(Debug)]
pub struct DltSelectMode {
    pub devices: Vec<DltDevice>,
    /// The selected entry; one past the devices is "add a device".
    pub selected: usize,
    pub error: Option<String>,
    /// The add-device form, while it is open.
    pub adding: Option<AddDeviceState>,
}

/// The name, host and port fields of the form, trimmed.
pub open spec fn form_name(a: AddDeviceState) -> Seq<char> {
    trimmed(a.fields@[0]@)
}

pub open spec fn form_host(a: AddDeviceState) -> Seq<char> {
    trimmed(a.fields@[1]@)
}

pub open spec fn form_port(a: AddDeviceState) -> Option<u16> {
    parsed_port(trimmed(a.fields@[2]@))
}

impl DltSelectMode {
    /// The picker over `devices`, the first entry selected.
    pub fn new(devices: Vec<DltDevice>) -> (r: Self)
        ensures
            r.devices == devices,
            r.selected == 0,
            r.error is None,
            r.adding is None,
    {
        DltSelectMode { devices, selected: 0, error: None, adding: None }
    }

    /// The entries: every device, then "add a device".
    pub fn total_entries(&self) -> (r: usize)
        requires
            self.devices@.len() < usize::MAX,
        ensures
            r == self.devices@.len() + 1,
    {
        self.devices.len() + 1
    }

    /// Shows `e` as the error.
    pub fn set_error(&mut self, e: String)
        ensures
            final(self).error == Some(e),
            final(self).devices == old(self).devices,
            final(self).selected == old(self).selected,
            final(self).adding == old(self).adding,
    {
        self.error = Some(e);
    }

    /// The device was saved: list it, select it, close the form.
    pub fn device_saved(&mut self, device: DltDevice)
        ensures
            final(self).devices@ == old(self).devices@.push(device),
            final(self).selected == old(self).devices@.len(),
            final(self).adding is None,
            final(self).error is None,
    {
        self.devices.push(device);
        self.selected = self.devices.len() - 1;
        self.adding = None;
        self.error = None;
    }

    /// Handles one key on the list (`bound` is the first configured key
    /// the press matches): move, connect to the selected device (or open
    /// the form on "add a device"), delete the selected device, or leave.
    pub fn handle_list_key(&mut self, bound: Option<DltBinding>) -> (r: (PickerNext, KeyResult, DltRequest))
        requires
            old(self).adding is None,
            old(self).devices@.len() < usize::MAX,
        ensures
            final(self).devices@.len() < usize::MAX,
            ({
                let o = *old(self);
                let f = *final(self);
                let n = o.devices@.len() as int;
                match bound {
                    Some(DltBinding::ScrollDown) => r.0 == PickerNext::Stay && r.1 is Handled && r.2 is Nothing
                        && f.devices == o.devices && f.adding is None && f.error == o.error && f.selected
                        == step_down(o.selected, n + 1 as int),
                    Some(DltBinding::ScrollUp) => r.0 == PickerNext::Stay && r.1 is Handled && r.2 is Nothing
                        && f.devices == o.devices && f.adding is None && f.error == o.error && f.selected
                        == step_up(o.selected),
                    Some(DltBinding::Confirm) => r.2 is Nothing && f.devices == o.devices && f.error == o.error
                        && f.selected == o.selected && if o.selected < n {
                        let d = o.devices@[o.selected as int];
                        r.0 == PickerNext::Normal && f.adding is None && (r.1 matches KeyResult::DltAttach(host, port, name)
                            && host@ == d.host@ && port == d.port && name@ == d.name@)
                    } else {
                        r.0 == PickerNext::Stay && r.1 is Handled && (f.adding matches Some(a) && a.fields@[0]@.len()
                            == 0 && a.fields@[1]@.len() == 0 && a.fields@[2]@ == "3490"@ && a.active_field == 0
                            && a.cursor == 0)
                    },
                    Some(DltBinding::Delete) => r.0 == PickerNext::Stay && r.1 is Handled && f.adding is None
                        && f.error == o.error && f.selected == o.selected && if o.selected < n {
                        f.devices@ == o.devices@.remove(o.selected as int) && (r.2 matches DltRequest::Remove(name)
                            && name@ == o.devices@[o.selected as int].name@)
                    } else {
                        f.devices == o.devices && r.2 is Nothing
                    },
                    Some(DltBinding::Cancel) => r.0 == PickerNext::Normal && r.1 is Handled && r.2 is Nothing
                        && f.devices == o.devices && f.adding is None,
                    _ => r.0 == PickerNext::Stay && r.1 is Ignored && r.2 is Nothing && f.devices == o.devices
                        && f.selected == o.selected && f.adding is None && f.error == o.error,
                }
            }),
    {
        let n = self.devices.len();
        match bound {
            Some(DltBinding::ScrollDown) => {
                self.selected = down_index(self.selected, n + 1);
                (PickerNext::Stay, KeyResult::Handled, DltRequest::Nothing)
            },
            Some(DltBinding::ScrollUp) => {
                self.selected = self.selected.saturating_sub(1);
                (PickerNext::Stay, KeyResult::Handled, DltRequest::Nothing)
            },
            Some(DltBinding::Confirm) => {
                if self.selected < n {
                    let d = &self.devices[self.selected];
                    let r = KeyResult::DltAttach(d.host.clone(), d.port, d.name.clone());
                    (PickerNext::Normal, r, DltRequest::Nothing)
                } else {
                    self.adding = Some(AddDeviceState::new());
                    (PickerNext::Stay, KeyResult::Handled, DltRequest::Nothing)
                }
            },
            Some(DltBinding::Delete) => {
                if self.selected < n {
                    let name = self.devices[self.selected].name.clone();
                    self.devices.remove(self.selected);
                    if self.selected >= self.devices.len() + 1 && self.selected > 0 {
                        self.selected = self.selected - 1;
                    }
                    (PickerNext::Stay, KeyResult::Handled, DltRequest::Remove(name))
                } else {
                    (PickerNext::Stay, KeyResult::Handled, DltRequest::Nothing)
                }
            },
            Some(DltBinding::Cancel) => (PickerNext::Normal, KeyResult::Handled, DltRequest::Nothing),
            _ => (PickerNext::Stay, KeyResult::Ignored, DltRequest::Nothing),
        }
    }

    /// Handles one key in the form (`bound` is the first configured key
    /// the press matches). Confirm checks the fields and asks to save the
    /// device; cancel closes the form; next/previous field cycle through
    /// the fields, the cursor going to the field's byte length; Backspace,
    /// Left, Right and plain characters edit the active field.
    pub fn handle_add_key(&mut self, bound: Option<DltBinding>, k: KeyInput) -> (r: (KeyResult, DltRequest))
        requires
            old(self).adding is Some,
            old(self).adding->0.active_field < 3,
            old(self).adding->0.cursor < usize::MAX,
        ensures
            r.0 is Handled,
            final(self).devices == old(self).devices,
            final(self).selected == old(self).selected,
            final(self).adding is Some ==> final(self).adding->0.active_field < 3,
            ({
                let o = *old(self);
                let f = *final(self);
                let a = o.adding->0;
                match bound {
                    Some(DltBinding::Confirm) => if form_name(a).len() == 0 || form_host(a).len() == 0 {
                        r.1 is Nothing && f.adding == o.adding && (f.error matches Some(e) && e@
                            == "Name and host are required"@)
                    } else if form_port(a) is None {
                        r.1 is Nothing && f.adding == o.adding && (f.error matches Some(e) && e@
                            == "Port must be a number (0-65535)"@)
                    } else {
                        f.adding == o.adding && f.error == o.error && (r.1 matches DltRequest::Save(d) && d.name@
                            == form_name(a) && d.host@ == form_host(a) && Some(d.port) == form_port(a))
                    },
                    Some(DltBinding::Cancel) => r.1 is Nothing && f.adding is None && f.error is None,
                    Some(DltBinding::NextField) | Some(DltBinding::PrevField) => {
                        let af = if bound == Some(DltBinding::NextField) {
                            (a.active_field + 1) % 3
                        } else {
                            (a.active_field + 2) % 3
                        };
                        r.1 is Nothing && f.error == o.error && (f.adding matches Some(b) && b.fields == a.fields
                            && b.active_field == af && b.cursor == bytes_of(a.fields@[af]).len())
                    },
                    _ => r.1 is Nothing && f.error == o.error && (f.adding matches Some(b) && b.active_field
                        == a.active_field && {
                        let i = a.active_field as int;
                        let t = a.fields@[i]@;
                        let same_others = forall|j: int| 0 <= j < 3 && j != i ==> #[trigger] b.fields@[j] == a.fields@[j];
                        match k.key {
                            Key::Backspace => if a.cursor > 0 {
                                same_others && b.fields@[i]@ == remove_char_before(t, a.cursor as int) && b.cursor
                                    == a.cursor - 1
                            } else {
                                b.fields == a.fields && b.cursor == a.cursor
                            },
                            Key::Left => b.fields == a.fields && b.cursor == (if a.cursor > 0 {
                                a.cursor - 1
                            } else {
                                0
                            }),
                            Key::Right => b.fields == a.fields && b.cursor == (if a.cursor + 1 < t.len() {
                                a.cursor + 1
                            } else {
                                t.len() as int
                            }),
                            Key::Char(c) => if !k.ctrl && !k.alt {
                                same_others && b.fields@[i]@ == insert_char_at(t, a.cursor as int, c) && b.cursor
                                    == a.cursor + 1
                            } else {
                                b.fields == a.fields && b.cursor == a.cursor
                            },
                            _ => b.fields == a.fields && b.cursor == a.cursor,
                        }
                    }),
                }
            }),
    {
        let mut a = match self.adding.take() {
            Some(a) => a,
            None => {
                return (KeyResult::Handled, DltRequest::Nothing);
            },
        };
        let i = a.active_field;
        match bound {
            Some(DltBinding::Confirm) => {
                let name = trim(a.fields[0].as_str());
                let host = trim(a.fields[1].as_str());
                let port_text = trim(a.fields[2].as_str());
                self.adding = Some(a);
                if name.as_str().is_empty() || host.as_str().is_empty() {
                    self.error = Some(String::from_str("Name and host are required"));
                    return (KeyResult::Handled, DltRequest::Nothing);
                }
                let port = match parse_port(port_text.as_str()) {
                    Some(p) => p,
                    None => {
                        self.error = Some(String::from_str("Port must be a number (0-65535)"));
                        return (KeyResult::Handled, DltRequest::Nothing);
                    },
                };
                return (KeyResult::Handled, DltRequest::Save(DltDevice { name, host, port }));
            },
            Some(DltBinding::Cancel) => {
                self.error = None;
                return (KeyResult::Handled, DltRequest::Nothing);
            },
            Some(DltBinding::NextField) | Some(DltBinding::PrevField) => {
                let af = if bound == Some(DltBinding::NextField) { (i + 1) % 3 } else { (i + 2) % 3 };
                a.active_field = af;
                a.cursor = byte_len(&a.fields[af]);
                self.adding = Some(a);
                return (KeyResult::Handled, DltRequest::Nothing);
            },
            _ => {},
        }
        match k.key {
            Key::Backspace => {
                if a.cursor > 0 {
                    let t = remove_before_char(&a.fields[i], a.cursor);
                    a.fields[i] = t;
                    a.cursor = a.cursor - 1;
                }
            },
            Key::Left => {
                a.cursor = a.cursor.saturating_sub(1);
            },
            Key::Right => {
                let max = a.fields[i].as_str().unicode_len();
                a.cursor = if a.cursor < max && a.cursor + 1 < max { a.cursor + 1 } else { max };
            },
            Key::Char(c) => {
                if !k.ctrl && !k.alt {
                    let t = insert_at_char(&a.fields[i], a.cursor, c);
                    a.fields[i] = t;
                    a.cursor = a.cursor + 1;
                }
            },
            _ => {},
        }
        self.adding = Some(a);
        (KeyResult::Handled, DltRequest::Nothing)
    }
}

} // verus!
