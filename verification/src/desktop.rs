//! A model of the desktop: everything a plan can act on, as plain data.
//!
//! The coordinator's guarantees are stated against this model, and it stands
//! in for the operating system wherever no real window is at hand.

use vstd::prelude::*;
use crate::command::{Command, Notification};
use crate::coordinator::{
    hotkey_plan, menu_plan, on_hotkey_event, on_menu_event, on_tray_icon_event, tray_plan,
};
use crate::hotkey::HotkeyEvent;
use crate::tray::TrayIconEvent;
use crate::window::{Window, WindowStatus};

verus! {

/// The window, the notifications broadcast so far, and the exit request, if
/// one was made.
#[derive(Debug, PartialEq, Eq)]
pub struct Desktop {
    /// The main window, or `None` while no window carries its label.
    pub window: Option<Window>,
    /// The notifications broadcast so far, oldest first.
    pub emitted: Vec<Notification>,
    /// The status code of the exit that was asked for, if any.
    pub exit_code: Option<i32>,
}

/// The mathematical content of a [`Desktop`].
pub struct DesktopView {
    pub window: Option<Window>,
    pub emitted: Seq<Notification>,
    pub exit_code: Option<i32>,
}

impl View for Desktop {
    type V = DesktopView;

    open spec fn view(&self) -> DesktopView {
        DesktopView { window: self.window, emitted: self.emitted@, exit_code: self.exit_code }
    }
}

/// Why the model desktop could not carry out a command.
#[derive(Clone, Copy, Debug, PartialEq, Eq, Structural)]
pub enum Failure {
    /// A window operation found no window to act on.
    WindowMissing,
}

impl DesktopView {
    /// The desktop after one command was attempted. A window operation
    /// without a window fails and changes nothing.
    pub open spec fn after(self, command: Command) -> DesktopView {
        match command {
            Command::Emit(notification) => DesktopView {
                emitted: self.emitted.push(notification),
                ..self
            },
            Command::Exit(code) => DesktopView { exit_code: Some(code), ..self },
            _ => match self.window {
                Some(window) => DesktopView { window: Some(window.after(command)), ..self },
                None => self,
            },
        }
    }

    /// Whether an attempt at the command fails on this desktop.
    pub open spec fn fails(self, command: Command) -> bool {
        command.is_window_op() && self.window is None
    }

    /// The desktop after every command of a plan was attempted, front to
    /// back, failures passed over.
    pub open spec fn after_all(self, plan: Seq<Command>) -> DesktopView
        decreases plan.len(),
    {
        if plan.len() == 0 {
            self
        } else {
            self.after_all(plan.drop_last()).after(plan.last())
        }
    }

    /// What a truthful lookup and visibility query report of this desktop.
    pub open spec fn status(self) -> WindowStatus {
        match self.window {
            None => WindowStatus::Missing,
            Some(window) => if window.visible {
                WindowStatus::Visible
            } else {
                WindowStatus::Hidden
            },
        }
    }

    /// The desktop after a hotkey event was handled and its plan carried out.
    pub open spec fn on_hotkey(self, event: HotkeyEvent) -> DesktopView {
        self.after_all(hotkey_plan(event, self.status()))
    }

    /// The desktop after a menu event was handled and its plan carried out.
    pub open spec fn on_menu(self, id: Seq<char>) -> DesktopView {
        self.after_all(menu_plan(id, self.window is Some))
    }

    /// The desktop after a tray icon event was handled and its plan carried
    /// out.
    pub open spec fn on_tray_icon(self, event: TrayIconEvent) -> DesktopView {
        self.after_all(tray_plan(event, self.window is Some))
    }
}

/// Attempting one more command at the end of a plan is attempting it on the
/// desktop that the plan left behind.
pub proof fn lemma_after_all_push(desktop: DesktopView, plan: Seq<Command>, command: Command)
    ensures
        desktop.after_all(plan.push(command)) == desktop.after_all(plan).after(command),
{
    assert(plan.push(command).drop_last() =~= plan);
}

impl Desktop {
    /// A desktop with the given window, on which nothing has happened yet.
    pub fn new(window: Option<Window>) -> (desktop: Desktop)
        ensures
            desktop@ == (DesktopView { window, emitted: Seq::empty(), exit_code: None }),
    {
        Desktop { window, emitted: Vec::new(), exit_code: None }
    }

    /// Looks the window up and queries its visibility, truthfully.
    pub fn status(&self) -> (status: WindowStatus)
        ensures
            status == self@.status(),
    {
        match self.window {
            None => WindowStatus::Missing,
            Some(window) => if window.visible {
                WindowStatus::Visible
            } else {
                WindowStatus::Hidden
            },
        }
    }

    /// Attempts one command. A window operation fails when there is no
    /// window; nothing else fails.
    pub fn perform(&mut self, command: Command) -> (outcome: Result<(), Failure>)
        ensures
            final(self)@ == old(self)@.after(command),
            outcome is Err <==> old(self)@.fails(command),
    {
        match command {
            Command::Emit(notification) => {
                self.emitted.push(notification);
                Ok(())
            },
            Command::Exit(code) => {
                self.exit_code = Some(code);
                Ok(())
            },
            _ => match self.window {
                Some(window) => {
                    let mut changed = window;
                    changed.apply(command);
                    self.window = Some(changed);
                    Ok(())
                },
                None => Err(Failure::WindowMissing),
            },
        }
    }

    /// Attempts every command of a plan, front to back. A command that fails
    /// is passed over and the rest is still attempted.
    pub fn carry_out(&mut self, plan: &Vec<Command>)
        ensures
            final(self)@ == old(self)@.after_all(plan@),
    {
        let mut i: usize = 0;
        while i < plan.len()
            invariant
                i <= plan@.len(),
                self@ == old(self)@.after_all(plan@.take(i as int)),
            decreases plan@.len() - i,
        {
            proof {
                assert(plan@.take(i + 1).drop_last() =~= plan@.take(i as int));
            }
            let _ = self.perform(plan[i]);
            i += 1;
        }
        proof {
            assert(plan@.take(plan@.len() as int) =~= plan@);
        }
    }

    /// Delivers a hotkey event: the status is read off the desktop, the
    /// event handled, and the plan carried out.
    pub fn deliver_hotkey(&mut self, event: &HotkeyEvent)
        ensures
            final(self)@ == old(self)@.on_hotkey(*event),
    {
        let plan = on_hotkey_event(event, self.status());
        self.carry_out(&plan);
    }

    /// Delivers the activation of the menu entry with the given identifier.
    pub fn deliver_menu(&mut self, id: &str)
        ensures
            final(self)@ == old(self)@.on_menu(id@),
    {
        let plan = on_menu_event(id, self.status().is_present());
        self.carry_out(&plan);
    }

    /// Delivers an event on the tray icon.
    pub fn deliver_tray_icon(&mut self, event: &TrayIconEvent)
        ensures
            final(self)@ == old(self)@.on_tray_icon(*event),
    {
        let plan = on_tray_icon_event(event, self.status().is_present());
        self.carry_out(&plan);
    }
}

} // verus!
