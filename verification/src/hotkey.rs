//! The row of the settings window that binds the toggle key.
use vstd::prelude::*;
use vstd::string::*;

use crate::text::{decimal, digits, numbers_read_back_as_themselves};

verus! {

/// The largest key code that Linux has.
pub const MAX_KEY_CODE: u32 = 767;

/// The Linux key code of a hardware code: the window system's codes are 8 above it.
pub open spec fn key_code(hardware: u32) -> Option<u32> {
    if 8 < hardware <= MAX_KEY_CODE + 8 {
        Some((hardware - 8) as u32)
    } else {
        None
    }
}

/// The text on the button for a bound key; 0 is no key.
pub open spec fn key_label(code: u32) -> Seq<char> {
    if code == 0 {
        "Unbound"@
    } else {
        "Key "@ + digits(code as int)
    }
}

/// The row: the key bound, and whether the next key pressed will be bound.
#[derive(Clone, Copy, Debug, PartialEq, Eq, Structural)]
pub struct HotkeyRow {
    pub value: u32,
    pub capturing: bool,
}

/// What a key press does.
#[derive(Debug)]
pub struct KeyPress {
    /// The key is not handed on to anything else.
    pub consumed: bool,
    /// The key code to store.
    pub store: Option<u32>,
    /// The button's new text.
    pub label: Option<String>,
}

/// The contents of an optional text.
pub open spec fn text_of(text: Option<String>) -> Option<Seq<char>> {
    match text {
        Some(text) => Some(text@),
        None => None,
    }
}

impl HotkeyRow {
    /// The value is no key, or one that Linux has.
    pub open spec fn wf(self) -> bool {
        self.value <= MAX_KEY_CODE
    }

    /// The key that a press binds.
    pub open spec fn bound_by(self, escape: bool, hardware: u32) -> Option<u32> {
        if self.capturing && !escape {
            key_code(hardware)
        } else {
            None
        }
    }

    /// The row after a key press.
    pub open spec fn pressed(self, escape: bool, hardware: u32) -> HotkeyRow {
        HotkeyRow {
            value: match self.bound_by(escape, hardware) {
                Some(code) => code,
                None => self.value,
            },
            capturing: false,
        }
    }

    /// A row that shows a stored key.
    pub fn new(value: u32) -> (r: HotkeyRow)
        ensures
            r == (HotkeyRow { value, capturing: false }),
    {
        HotkeyRow { value, capturing: false }
    }

    /// The text on the button for the key bound.
    pub fn label(&self) -> (r: String)
        ensures
            r@ == key_label(self.value),
    {
        hotkey_label(self.value)
    }

    /// The button was clicked: the next key pressed is bound.
    pub fn click(&mut self) -> (r: String)
        ensures
            *final(self) == (HotkeyRow { capturing: true, ..*old(self) }),
            r@ == "Press a key (Esc cancels)"@,
    {
        self.capturing = true;
        "Press a key (Esc cancels)".to_owned()
    }

    /// A key was pressed. Unless one is awaited it is handed on; Escape, and a key without
    /// a code, end the waiting and leave the binding as it is.
    pub fn key_pressed(&mut self, escape: bool, hardware: u32) -> (r: KeyPress)
        ensures
            *final(self) == (if old(self).capturing {
                old(self).pressed(escape, hardware)
            } else {
                *old(self)
            }),
            r.consumed == old(self).capturing,
            r.store == old(self).bound_by(escape, hardware),
            text_of(r.label) == (if old(self).capturing {
                Some(key_label(final(self).value))
            } else {
                None
            }),
    {
        if !self.capturing {
            return KeyPress { consumed: false, store: None, label: None };
        }
        let mut store: Option<u32> = None;
        if !escape {
            if let Some(code) = evdev_keycode(hardware) {
                store = Some(code);
                self.value = code;
            }
        }
        self.capturing = false;
        KeyPress { consumed: true, store, label: Some(hotkey_label(self.value)) }
    }

    /// The button lost the focus: no key is awaited any more.
    pub fn focus_lost(&mut self) -> (r: Option<String>)
        ensures
            *final(self) == (HotkeyRow { capturing: false, ..*old(self) }),
            text_of(r) == (if old(self).capturing {
                Some(key_label(old(self).value))
            } else {
                None
            }),
    {
        if self.capturing {
            self.capturing = false;
            Some(hotkey_label(self.value))
        } else {
            None
        }
    }

    /// The binding was cleared: 0 is stored.
    pub fn clear(&mut self) -> (r: KeyPress)
        ensures
            *final(self) == (HotkeyRow { value: 0, capturing: false }),
            r.consumed,
            r.store == Some(0u32),
            text_of(r.label) == Some("Unbound"@),
    {
        self.capturing = false;
        self.value = 0;
        KeyPress { consumed: true, store: Some(0), label: Some("Unbound".to_owned()) }
    }
}

/// The Linux key code of a hardware code, if it is one.
pub fn evdev_keycode(hardware: u32) -> (r: Option<u32>)
    ensures
        r == key_code(hardware),
{
    match hardware.checked_sub(8) {
        Some(code) => if code > 0 && code <= MAX_KEY_CODE {
            Some(code)
        } else {
            None
        },
        None => None,
    }
}

/// The text on the button for a bound key.
pub fn hotkey_label(code: u32) -> (r: String)
    ensures
        r@ == key_label(code),
{
    if code == 0 {
        "Unbound".to_owned()
    } else {
        let mut text = "Key ".to_owned();
        text.append(decimal(code as u64).as_str());
        text
    }
}

/// Only a key that Linux has is ever bound, and each binding change is stored: whatever is
/// pressed, the row stays well formed, and what it shows differs from before only if it was
/// waiting and the press was stored.
pub proof fn only_real_keys_are_bound(row: HotkeyRow, escape: bool, hardware: u32)
    requires
        row.wf(),
    ensures
        row.pressed(escape, hardware).wf(),
        row.bound_by(escape, hardware) matches Some(code) ==> 0 < code <= MAX_KEY_CODE
            && row.pressed(escape, hardware).value == code,
        row.bound_by(escape, hardware) is None ==> row.pressed(escape, hardware).value
            == row.value,
        escape ==> row.pressed(escape, hardware).value == row.value,
{
}

/// The key that is bound is the one that was pressed: the codes the window system uses are
/// eight above Linux's own, each key that Linux has can be bound, and different keys are bound
/// as different ones. Nothing is bound while no key is awaited, and Escape never is.
pub proof fn the_key_pressed_is_bound(row: HotkeyRow, escape: bool, hardware: u32, other: u32)
    ensures
        row.bound_by(escape, hardware) matches Some(code) ==> code + 8 == hardware,
        row.bound_by(escape, hardware) is Some <==> row.capturing && !escape && 9 <= hardware
            <= 775,
        hardware != other && row.bound_by(escape, hardware) is Some && row.bound_by(
            escape,
            other,
        ) is Some ==> row.bound_by(escape, hardware) != row.bound_by(escape, other),
        !row.pressed(escape, hardware).capturing,
{
}

/// A label tells which key is bound: different keys have different labels, and none has that
/// of no key.
pub proof fn labels_tell_keys_apart(a: u32, b: u32)
    requires
        a != b,
    ensures
        key_label(a) != key_label(b),
        key_label(0) == "Unbound"@,
        a != 0 ==> key_label(a) == "Key "@ + digits(a as int),
{
    reveal_strlit("Unbound");
    reveal_strlit("Key ");
    numbers_read_back_as_themselves(a as int);
    numbers_read_back_as_themselves(b as int);
    if a == 0 || b == 0 {
        assert("Unbound"@[0] != "Key "@[0]);
        assert(("Key "@ + digits(a as int))[0] == "Key "@[0]);
        assert(("Key "@ + digits(b as int))[0] == "Key "@[0]);
    } else if key_label(a) == key_label(b) {
        assert(key_label(a).skip(4) =~= digits(a as int));
        assert(key_label(b).skip(4) =~= digits(b as int));
    }
}

} // verus!
