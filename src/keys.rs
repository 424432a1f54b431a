use vstd::prelude::*;

verus! {

/// Linux input code of the left mouse button.
pub const BTN_LEFT: u16 = 0x110;

/// Linux input code of the right mouse button.
pub const BTN_RIGHT: u16 = 0x111;

/// Linux input code reported for a scroll-up step.
pub const KEY_SCROLLUP: u16 = 177;

/// Linux input code reported for a scroll-down step.
pub const KEY_SCROLLDOWN: u16 = 178;

/// A physical key or button, identified by its input event code.
#[derive(Clone, Copy, Debug, PartialEq, Eq, Structural, Hash, PartialOrd, Ord)]
pub struct KeyCode(pub u16);

/// Whether `code` is a pointer button or a scroll step rather than a key.
pub open spec fn spec_is_pointer(code: KeyCode) -> bool {
    code.0 == BTN_LEFT || code.0 == BTN_RIGHT || code.0 == KEY_SCROLLUP || code.0 == KEY_SCROLLDOWN
}

/// Pointer buttons and scroll steps never take part in combos.
#[verifier::when_used_as_spec(spec_is_pointer)]
pub fn is_pointer(code: KeyCode) -> (r: bool)
    ensures
        r == spec_is_pointer(code),
{
    code.0 == BTN_LEFT || code.0 == BTN_RIGHT || code.0 == KEY_SCROLLUP || code.0 == KEY_SCROLLDOWN
}

/// What happened to a key in one raw event.
#[derive(Clone, Copy, Debug, PartialEq, Eq, Structural)]
pub enum KeyAction {
    Release,
    Press,
}

impl KeyAction {
    /// Reads the value of a key event: 1 is a press, 0 a release; anything
    /// else (auto-repeat reports 2) is no action.
    pub fn from_value(value: i32) -> (r: Option<KeyAction>)
        ensures
            r == (if value == 1 {
                Some(KeyAction::Press)
            } else if value == 0 {
                Some(KeyAction::Release)
            } else {
                None::<KeyAction>
            }),
    {
        if value == 1 {
            Some(KeyAction::Press)
        } else if value == 0 {
            Some(KeyAction::Release)
        } else {
            None
        }
    }
}

} // verus!
