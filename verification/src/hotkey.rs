//! The global hotkey: key combinations, the one combination the coordinator
//! is bound to, and the press and release events delivered for it.

use vstd::prelude::*;

verus! {

/// The modifier keys held down as part of a key combination.
#[derive(Clone, Copy, Debug, PartialEq, Eq, Structural)]
pub struct Modifiers {
    /// Alt, labelled Option on Apple keyboards.
    pub alt: bool,
    pub control: bool,
    pub shift: bool,
    /// The Meta key, labelled Super, Windows or Command on other keyboards.
    pub meta: bool,
}

/// The non-modifier key of a key combination.
#[derive(Clone, Copy, Debug, PartialEq, Eq, Structural)]
pub enum Key {
    Space,
    /// Any key but the ones named above. The coordinator binds none of them,
    /// so it has no need to tell them apart.
    Other,
}

/// A key combination: a set of modifiers and one key.
#[derive(Clone, Copy, Debug, PartialEq, Eq, Structural)]
pub struct Hotkey {
    pub modifiers: Modifiers,
    pub key: Key,
}

/// Whether a hotkey event reports the combination going down or coming up.
#[derive(Clone, Copy, Debug, PartialEq, Eq, Structural)]
pub enum ShortcutState {
    Pressed,
    Released,
}

/// One event from the hotkey source.
#[derive(Clone, Copy, Debug, PartialEq, Eq, Structural)]
pub struct HotkeyEvent {
    pub hotkey: Hotkey,
    pub state: ShortcutState,
}

/// The combination that toggles the window: Alt and Space, nothing else held.
pub open spec fn toggle_binding() -> Hotkey {
    Hotkey {
        modifiers: Modifiers { alt: true, control: false, shift: false, meta: false },
        key: Key::Space,
    }
}

/// The combination to register with the hotkey source.
pub fn toggle_hotkey() -> (hotkey: Hotkey)
    ensures
        hotkey == toggle_binding(),
{
    Hotkey {
        modifiers: Modifiers { alt: true, control: false, shift: false, meta: false },
        key: Key::Space,
    }
}

impl HotkeyEvent {
    /// An event asks for a toggle when it is a press of exactly the bound
    /// combination. Releases, and presses of any other combination, do not.
    pub open spec fn is_toggle_request(self) -> bool {
        self.state == ShortcutState::Pressed && self.hotkey == toggle_binding()
    }

    /// Decides whether the event asks for a toggle. Only then does the window
    /// have to be looked up and its visibility queried.
    pub fn requests_toggle(&self) -> (requested: bool)
        ensures
            requested == self.is_toggle_request(),
    {
        self.state == ShortcutState::Pressed && self.hotkey == toggle_hotkey()
    }
}

} // verus!
