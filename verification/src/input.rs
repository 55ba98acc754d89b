//! Input events delivered to the overlay and the keys that confirm.

use vstd::prelude::*;

verus! {

/// Key value of the main Enter key.
pub const KEY_RETURN: u32 = 0xff0d;

/// Key value of the Enter key on the numeric keypad.
pub const KEY_KP_ENTER: u32 = 0xff8d;

/// Key value of the ISO-level Enter key.
pub const KEY_ISO_ENTER: u32 = 0xfe34;

/// The button number with which a click listener hears every button.
pub const ANY_BUTTON: u32 = 0;

/// One event that the input system delivers to the overlay.
#[derive(Clone, Copy, Debug, PartialEq, Eq, Structural)]
pub enum InputEvent {
    /// A key was pressed; `keyval` is the key's symbol value.
    KeyPress { keyval: u32 },
    /// A pointer button was pressed somewhere on the surface.
    PointerClick { button: u32 },
}

/// Whether a key value belongs to the accept set: Enter, keypad Enter or
/// ISO-level Enter.
pub open spec fn is_accept_key(keyval: u32) -> bool {
    keyval == KEY_RETURN || keyval == KEY_KP_ENTER || keyval == KEY_ISO_ENTER
}

/// Tests a key value against the accept set.
pub fn accepts(keyval: u32) -> (r: bool)
    ensures
        r == is_accept_key(keyval),
{
    keyval == KEY_RETURN || keyval == KEY_KP_ENTER || keyval == KEY_ISO_ENTER
}

} // verus!
