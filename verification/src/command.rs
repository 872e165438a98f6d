//! What a handler asks the embedding application to do.

use vstd::prelude::*;

verus! {

/// A process-wide notification for the window's content layer.
#[derive(Clone, Copy, Debug, PartialEq, Eq, Structural)]
pub enum Notification {
    /// The window was brought up from the tray icon. It carries no payload
    /// and is the one signal that tells such a show from a hotkey show.
    TrayOpened,
}

impl Notification {
    /// The name under which the notification is broadcast.
    pub open spec fn spec_name(self) -> Seq<char> {
        match self {
            Notification::TrayOpened => "tray-opened"@,
        }
    }

    /// The name under which the notification is broadcast.
    pub fn name(&self) -> (name: &'static str)
        ensures
            name@ == self.spec_name(),
    {
        match self {
            Notification::TrayOpened => "tray-opened",
        }
    }
}

/// One step of a plan. A plan is carried out front to back, and a step that
/// fails is dropped without holding up the steps behind it.
#[derive(Clone, Copy, Debug, PartialEq, Eq, Structural)]
pub enum Command {
    /// Make the window visible.
    Show,
    /// Make the window invisible.
    Hide,
    /// Give the window the input focus.
    SetFocus,
    /// Pin the window above all others, or release it.
    SetAlwaysOnTop(bool),
    /// Broadcast a notification. Nobody waits for an acknowledgement.
    Emit(Notification),
    /// End the process with the given status code.
    Exit(i32),
}

impl Command {
    /// Whether the command changes the state of the window, as opposed to
    /// notifying or exiting.
    pub open spec fn is_window_op(self) -> bool {
        match self {
            Command::Show | Command::Hide | Command::SetFocus | Command::SetAlwaysOnTop(_) => true,
            Command::Emit(_) | Command::Exit(_) => false,
        }
    }
}

} // verus!
