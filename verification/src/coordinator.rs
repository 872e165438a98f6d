//! The policy: which plan answers which event.
//!
//! Every handler is a function of the event and of what is known about the
//! window when the event arrives. None of them keeps state between events;
//! the state being toggled lives in the window alone. A handler whose window
//! is missing plans nothing, with one exception: quitting needs no window.

use vstd::prelude::*;
use crate::command::{Command, Notification};
use crate::hotkey::HotkeyEvent;
use crate::tray::{lemma_menu_ids_round_trip, MenuItem, TrayIconEvent};
use crate::window::WindowStatus;

verus! {

/// Shows the window and hands it the input focus.
pub open spec fn surface_plan() -> Seq<Command> {
    seq![Command::Show, Command::SetFocus]
}

/// Flips the window: a visible window is hidden, a hidden one is shown and
/// focused, a missing one is left alone.
pub open spec fn toggle_plan(status: WindowStatus) -> Seq<Command> {
    match status {
        WindowStatus::Missing => Seq::empty(),
        WindowStatus::Visible => seq![Command::Hide],
        WindowStatus::Hidden => surface_plan(),
    }
}

/// The answer to a hotkey event: a toggle for a press of the bound
/// combination, nothing for any other event.
pub open spec fn hotkey_plan(event: HotkeyEvent, status: WindowStatus) -> Seq<Command> {
    if event.is_toggle_request() {
        toggle_plan(status)
    } else {
        Seq::empty()
    }
}

/// The answer to the activation of a menu entry. Showing does not look at
/// the window's visibility; quitting does not look at the window at all.
pub open spec fn menu_item_plan(item: MenuItem, window_present: bool) -> Seq<Command> {
    match item {
        MenuItem::Show => if window_present {
            surface_plan()
        } else {
            Seq::empty()
        },
        MenuItem::Quit => seq![Command::Exit(0)],
    }
}

/// The answer to a menu event, by the identifier it carries. An identifier
/// that names no entry is answered with nothing.
pub open spec fn menu_plan(id: Seq<char>, window_present: bool) -> Seq<Command> {
    match MenuItem::named_by(id) {
        Some(item) => menu_item_plan(item, window_present),
        None => Seq::empty(),
    }
}

/// Shows and focuses the window, pins it above all others, and tells the
/// content layer that the tray brought it up.
pub open spec fn tray_open_plan() -> Seq<Command> {
    seq![
        Command::Show,
        Command::SetFocus,
        Command::SetAlwaysOnTop(true),
        Command::Emit(Notification::TrayOpened),
    ]
}

/// The answer to an event on the tray icon: a single left click brings the
/// window up, every other event is passed over.
pub open spec fn tray_plan(event: TrayIconEvent, window_present: bool) -> Seq<Command> {
    if event.is_left_click() && window_present {
        tray_open_plan()
    } else {
        Seq::empty()
    }
}

/// Plans the toggle of the window. `status` is the status observed for this
/// very event, a failed visibility query counting as hidden.
pub fn toggle(status: WindowStatus) -> (plan: Vec<Command>)
    ensures
        plan@ == toggle_plan(status),
{
    match status {
        WindowStatus::Missing => Vec::new(),
        WindowStatus::Visible => vec![Command::Hide],
        WindowStatus::Hidden => vec![Command::Show, Command::SetFocus],
    }
}

/// Handles one event from the hotkey source.
///
/// The plan is empty for a release and for any combination but the bound
/// one. Otherwise it holds a single change of the window: hide it, or show
/// and focus it.
pub fn on_hotkey_event(event: &HotkeyEvent, status: WindowStatus) -> (plan: Vec<Command>)
    ensures
        plan@ == hotkey_plan(*event, status),
        event.is_toggle_request() ==> plan@ == toggle_plan(status),
        !event.is_toggle_request() ==> plan@.len() == 0,
{
    if event.requests_toggle() {
        toggle(status)
    } else {
        Vec::new()
    }
}

/// Handles the activation of a tray menu entry, named by its identifier.
///
/// "show" shows and focuses the window, whether or not it is visible already.
/// "quit" ends the process with status 0, whatever the state of the window.
/// Any other identifier is passed over.
pub fn on_menu_event(id: &str, window_present: bool) -> (plan: Vec<Command>)
    ensures
        plan@ == menu_plan(id@, window_present),
        id@ == "quit"@ ==> plan@ == seq![Command::Exit(0)],
        id@ == "show"@ && window_present ==> plan@ == surface_plan(),
        id@ == "show"@ && !window_present ==> plan@.len() == 0,
        id@ != "show"@ && id@ != "quit"@ ==> plan@.len() == 0,
{
    proof {
        lemma_menu_ids_round_trip(MenuItem::Show);
        lemma_menu_ids_round_trip(MenuItem::Quit);
    }
    match MenuItem::from_id(id) {
        Some(MenuItem::Show) => if window_present {
            vec![Command::Show, Command::SetFocus]
        } else {
            Vec::new()
        },
        Some(MenuItem::Quit) => vec![Command::Exit(0)],
        None => Vec::new(),
    }
}

/// Handles one event on the tray icon.
///
/// A single left click shows and focuses the window, pins it above all
/// others and announces that the tray opened it. Other buttons and other
/// kinds of event are no error; they are answered with an empty plan.
pub fn on_tray_icon_event(event: &TrayIconEvent, window_present: bool) -> (plan: Vec<Command>)
    ensures
        plan@ == tray_plan(*event, window_present),
        event.is_left_click() && window_present ==> plan@ == tray_open_plan(),
        !event.is_left_click() ==> plan@.len() == 0,
{
    if event.surfaces_window() && window_present {
        vec![
            Command::Show,
            Command::SetFocus,
            Command::SetAlwaysOnTop(true),
            Command::Emit(Notification::TrayOpened),
        ]
    } else {
        Vec::new()
    }
}

} // verus!
