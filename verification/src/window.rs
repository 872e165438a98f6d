//! The window as the coordinator sees it: three flags, and the fail-safe
//! reading of its visibility.

use vstd::prelude::*;
use crate::command::Command;

verus! {

/// The label of the one window the coordinator acts on.
pub fn main_window_label() -> (label: &'static str)
    ensures
        label@ == "main"@,
{
    "main"
}

/// The state of the window that the coordinator's policy is stated against.
///
/// This is a model, not a handle: the real window belongs to the
/// operating system. In the model an operation always takes effect. A hidden
/// window holds no focus, and focus lands only on a visible window.
#[derive(Clone, Copy, Debug, PartialEq, Eq, Structural)]
pub struct Window {
    pub visible: bool,
    pub focused: bool,
    pub always_on_top: bool,
}

impl Window {
    /// No hidden window is focused.
    pub open spec fn consistent(self) -> bool {
        self.focused ==> self.visible
    }

    /// The window after one window operation took effect. Commands that are
    /// no window operations leave it as it is.
    pub open spec fn after(self, command: Command) -> Window {
        match command {
            Command::Show => Window { visible: true, ..self },
            Command::Hide => Window { visible: false, focused: false, ..self },
            Command::SetFocus => Window { focused: self.visible, ..self },
            Command::SetAlwaysOnTop(on_top) => Window { always_on_top: on_top, ..self },
            Command::Emit(_) | Command::Exit(_) => self,
        }
    }

    /// A window that was created and never shown.
    pub fn hidden() -> (window: Window)
        ensures
            window == (Window { visible: false, focused: false, always_on_top: false }),
            window.consistent(),
    {
        Window { visible: false, focused: false, always_on_top: false }
    }

    /// A window on screen, with or without the input focus.
    pub fn shown(focused: bool) -> (window: Window)
        ensures
            window == (Window { visible: true, focused, always_on_top: false }),
            window.consistent(),
    {
        Window { visible: true, focused, always_on_top: false }
    }

    /// Carries out one window operation on the model.
    pub fn apply(&mut self, command: Command)
        ensures
            *final(self) == old(self).after(command),
    {
        match command {
            Command::Show => {
                self.visible = true;
            },
            Command::Hide => {
                self.visible = false;
                self.focused = false;
            },
            Command::SetFocus => {
                self.focused = self.visible;
            },
            Command::SetAlwaysOnTop(on_top) => {
                self.always_on_top = on_top;
            },
            Command::Emit(_) => {},
            Command::Exit(_) => {},
        }
    }
}

/// What the coordinator knows of the window when an event arrives.
#[derive(Clone, Copy, Debug, PartialEq, Eq, Structural)]
pub enum WindowStatus {
    /// No window carries the label: it was closed, or not created yet.
    Missing,
    /// The window exists and is taken to be hidden.
    Hidden,
    /// The window exists and reported itself visible.
    Visible,
}

/// The fail-safe reading of a visibility query: visible only if the query
/// succeeded and said so.
pub open spec fn reads_visible<E>(query: Result<bool, E>) -> bool {
    query matches Ok(visible) && visible
}

/// The status that a window lookup and a visibility query amount to.
pub open spec fn status_of<E>(lookup: Option<Result<bool, E>>) -> WindowStatus {
    match lookup {
        None => WindowStatus::Missing,
        Some(query) => if reads_visible(query) {
            WindowStatus::Visible
        } else {
            WindowStatus::Hidden
        },
    }
}

/// Reads the answer to "is the window visible?" so that it never fails: a
/// query that errs counts as "not visible". A hotkey press then shows the
/// window rather than leaving it hidden out of reach.
pub fn window_is_visible<E>(query: Result<bool, E>) -> (visible: bool)
    ensures
        visible == reads_visible(query),
        query is Err ==> !visible,
{
    match query {
        Ok(visible) => visible,
        Err(_) => false,
    }
}

impl WindowStatus {
    /// Sums up a window lookup: `None` where no window was found, otherwise
    /// the answer to the visibility query made on the window that was.
    pub fn observe<E>(lookup: Option<Result<bool, E>>) -> (status: WindowStatus)
        ensures
            status == status_of(lookup),
    {
        match lookup {
            None => WindowStatus::Missing,
            Some(query) => if window_is_visible(query) {
                WindowStatus::Visible
            } else {
                WindowStatus::Hidden
            },
        }
    }

    /// Whether a window was found at all.
    pub open spec fn spec_is_present(self) -> bool {
        self != WindowStatus::Missing
    }

    /// Whether a window was found at all.
    pub fn is_present(&self) -> (present: bool)
        ensures
            present == self.spec_is_present(),
    {
        match self {
            WindowStatus::Missing => false,
            _ => true,
        }
    }
}

} // verus!
