//! What the coordinator guarantees, stated over the model desktop and
//! proved from the plans the handlers are bound to.

use vstd::prelude::*;
use crate::command::{Command, Notification};
use crate::coordinator::{hotkey_plan, menu_plan, surface_plan, tray_open_plan, tray_plan};
use crate::desktop::{lemma_after_all_push, DesktopView};
use crate::hotkey::{toggle_binding, HotkeyEvent, ShortcutState};
use crate::tray::{lemma_menu_ids_round_trip, MenuItem, TrayIconEvent};
use crate::window::{status_of, Window, WindowStatus};

verus! {

/// A plan of one command leaves what that command leaves.
proof fn lemma_after_one(desktop: DesktopView, first: Command)
    ensures
        desktop.after_all(seq![first]) == desktop.after(first),
{
    lemma_after_all_push(desktop, Seq::empty(), first);
    assert(seq![first] =~= Seq::<Command>::empty().push(first));
}

/// Showing and focusing leaves an existing window visible and focused and
/// touches nothing else.
proof fn lemma_surface(desktop: DesktopView)
    requires
        desktop.window is Some,
    ensures
        desktop.after_all(surface_plan()) == (DesktopView {
            window: Some(Window { visible: true, focused: true, ..desktop.window.unwrap() }),
            ..desktop
        }),
{
    let shown = desktop.after(Command::Show);
    lemma_after_one(desktop, Command::Show);
    lemma_after_all_push(desktop, seq![Command::Show], Command::SetFocus);
    assert(surface_plan() =~= seq![Command::Show].push(Command::SetFocus));
}

/// No command makes a hidden window focused.
pub proof fn lemma_commands_keep_window_consistent(window: Window, command: Command)
    requires
        window.consistent(),
    ensures
        window.after(command).consistent(),
{
}

/// A press of the bound combination flips the visibility of an existing
/// window, by a single change: a visible window is hidden, a hidden one is
/// shown and focused. Nothing is broadcast and no exit is asked for.
pub proof fn lemma_press_flips_visibility(desktop: DesktopView, event: HotkeyEvent)
    requires
        event.is_toggle_request(),
        desktop.window is Some,
    ensures
        desktop.on_hotkey(event).window is Some,
        desktop.on_hotkey(event).window.unwrap().visible != desktop.window.unwrap().visible,
        desktop.on_hotkey(event).window.unwrap().focused == !desktop.window.unwrap().visible,
        desktop.on_hotkey(event).window.unwrap().always_on_top
            == desktop.window.unwrap().always_on_top,
        desktop.on_hotkey(event).emitted == desktop.emitted,
        desktop.on_hotkey(event).exit_code == desktop.exit_code,
        desktop.window.unwrap().visible ==> hotkey_plan(event, desktop.status()) == seq![
            Command::Hide,
        ],
        !desktop.window.unwrap().visible ==> hotkey_plan(event, desktop.status())
            == surface_plan(),
{
    if desktop.window.unwrap().visible {
        lemma_after_one(desktop, Command::Hide);
    } else {
        lemma_surface(desktop);
    }
}

/// A release of the bound combination is answered with an empty plan,
/// whatever is known of the window, and so changes nothing.
pub proof fn lemma_release_changes_nothing(
    desktop: DesktopView,
    event: HotkeyEvent,
    status: WindowStatus,
)
    requires
        event.state == ShortcutState::Released,
    ensures
        hotkey_plan(event, status) == Seq::<Command>::empty(),
        desktop.on_hotkey(event) == desktop,
{
}

/// An event for any combination but the bound one, pressed or released, is
/// answered with an empty plan and so changes nothing.
pub proof fn lemma_other_combination_changes_nothing(
    desktop: DesktopView,
    event: HotkeyEvent,
    status: WindowStatus,
)
    requires
        event.hotkey != toggle_binding(),
    ensures
        hotkey_plan(event, status) == Seq::<Command>::empty(),
        desktop.on_hotkey(event) == desktop,
{
}

/// The number of toggle requests among a run of hotkey events.
pub open spec fn toggle_requests(events: Seq<HotkeyEvent>) -> nat
    decreases events.len(),
{
    if events.len() == 0 {
        0
    } else {
        toggle_requests(events.drop_last()) + if events.last().is_toggle_request() {
            1nat
        } else {
            0nat
        }
    }
}

/// The desktop after a run of hotkey events, each handled against the
/// desktop that the events before it left, with nothing else acting on the
/// window in between.
pub open spec fn after_hotkeys(desktop: DesktopView, events: Seq<HotkeyEvent>) -> DesktopView
    decreases events.len(),
{
    if events.len() == 0 {
        desktop
    } else {
        after_hotkeys(desktop, events.drop_last()).on_hotkey(events.last())
    }
}

/// Over any run of hotkey events an existing window alternates: it ends up
/// as it began after an even number of toggle requests, and flipped after an
/// odd number. Events that are no toggle requests do not count.
pub proof fn lemma_hotkeys_alternate(desktop: DesktopView, events: Seq<HotkeyEvent>)
    requires
        desktop.window is Some,
    ensures
        after_hotkeys(desktop, events).window is Some,
        after_hotkeys(desktop, events).window.unwrap().visible == (
        desktop.window.unwrap().visible == (toggle_requests(events) % 2 == 0)),
        after_hotkeys(desktop, events).emitted == desktop.emitted,
        after_hotkeys(desktop, events).exit_code == desktop.exit_code,
    decreases events.len(),
{
    if events.len() > 0 {
        lemma_hotkeys_alternate(desktop, events.drop_last());
        let before = after_hotkeys(desktop, events.drop_last());
        if events.last().is_toggle_request() {
            lemma_press_flips_visibility(before, events.last());
        }
    }
}

/// Over a run of presses of the bound combination an existing window goes
/// hidden, shown, hidden, and so on: after the run it is as it began if the
/// run is of even length, and flipped if it is of odd length.
pub proof fn lemma_presses_alternate(desktop: DesktopView, presses: Seq<HotkeyEvent>)
    requires
        desktop.window is Some,
        forall|i: int| 0 <= i < presses.len() ==> (#[trigger] presses[i]).is_toggle_request(),
    ensures
        after_hotkeys(desktop, presses).window is Some,
        after_hotkeys(desktop, presses).window.unwrap().visible == (
        desktop.window.unwrap().visible == (presses.len() % 2 == 0)),
{
    lemma_hotkeys_alternate(desktop, presses);
    lemma_all_presses_count(presses);
}

/// In a run of toggle requests every event counts.
proof fn lemma_all_presses_count(presses: Seq<HotkeyEvent>)
    requires
        forall|i: int| 0 <= i < presses.len() ==> (#[trigger] presses[i]).is_toggle_request(),
    ensures
        toggle_requests(presses) == presses.len(),
    decreases presses.len(),
{
    if presses.len() > 0 {
        lemma_all_presses_count(presses.drop_last());
    }
}

/// Activating "show" leaves an existing window visible and focused, whether
/// or not it was so before; doing it again changes nothing more, and it
/// changes nothing at all on a window that is visible and focused already.
pub proof fn lemma_show_is_idempotent(desktop: DesktopView)
    requires
        desktop.window is Some,
    ensures
        desktop.on_menu(MenuItem::Show.spec_id()).window is Some,
        desktop.on_menu(MenuItem::Show.spec_id()).window.unwrap().visible,
        desktop.on_menu(MenuItem::Show.spec_id()).window.unwrap().focused,
        desktop.on_menu(MenuItem::Show.spec_id()).on_menu(MenuItem::Show.spec_id())
            == desktop.on_menu(MenuItem::Show.spec_id()),
        desktop.window.unwrap().visible && desktop.window.unwrap().focused ==> desktop.on_menu(
            MenuItem::Show.spec_id(),
        ) == desktop,
{
    lemma_menu_ids_round_trip(MenuItem::Show);
    lemma_surface(desktop);
    lemma_surface(desktop.on_menu(MenuItem::Show.spec_id()));
}

/// Activating "quit" asks for an exit with status 0, whether the window is
/// visible, hidden or missing, and does nothing else.
pub proof fn lemma_quit_exits_with_zero(desktop: DesktopView, window_present: bool)
    ensures
        menu_plan(MenuItem::Quit.spec_id(), window_present) == seq![Command::Exit(0)],
        desktop.on_menu(MenuItem::Quit.spec_id()) == (DesktopView {
            exit_code: Some(0i32),
            ..desktop
        }),
{
    lemma_menu_ids_round_trip(MenuItem::Quit);
    lemma_after_one(desktop, Command::Exit(0));
}

/// An identifier that names no menu entry is answered with an empty plan and
/// so changes nothing.
pub proof fn lemma_unknown_menu_id_changes_nothing(
    desktop: DesktopView,
    id: Seq<char>,
    window_present: bool,
)
    requires
        id != MenuItem::Show.spec_id(),
        id != MenuItem::Quit.spec_id(),
    ensures
        menu_plan(id, window_present) == Seq::<Command>::empty(),
        desktop.on_menu(id) == desktop,
{
}

/// A single left click on the tray icon leaves an existing window visible,
/// focused and above all others, whatever it was before, and broadcasts
/// "tray-opened" exactly once.
pub proof fn lemma_left_click_surfaces(desktop: DesktopView, event: TrayIconEvent)
    requires
        event.is_left_click(),
        desktop.window is Some,
    ensures
        desktop.on_tray_icon(event).window == Some(
            Window { visible: true, focused: true, always_on_top: true },
        ),
        desktop.on_tray_icon(event).emitted == desktop.emitted.push(Notification::TrayOpened),
        desktop.on_tray_icon(event).exit_code == desktop.exit_code,
{
    lemma_surface(desktop);
    let surfaced = desktop.after_all(surface_plan());
    lemma_after_all_push(desktop, surface_plan(), Command::SetAlwaysOnTop(true));
    let pinned = surface_plan().push(Command::SetAlwaysOnTop(true));
    lemma_after_all_push(desktop, pinned, Command::Emit(Notification::TrayOpened));
    assert(tray_open_plan() =~= pinned.push(Command::Emit(Notification::TrayOpened)));
}

/// Any event on the tray icon but a single left click (another button, a
/// double click, a pointer movement) is answered with an empty plan: the
/// window stays as it is and nothing is broadcast.
pub proof fn lemma_other_tray_events_change_nothing(
    desktop: DesktopView,
    event: TrayIconEvent,
    window_present: bool,
)
    requires
        !event.is_left_click(),
    ensures
        tray_plan(event, window_present) == Seq::<Command>::empty(),
        desktop.on_tray_icon(event) == desktop,
{
}

/// A visibility query that fails reads as "hidden": the press that follows
/// is answered exactly as on a hidden window, by showing and focusing, and
/// leaves an existing window visible and focused whatever it really was.
pub proof fn lemma_failed_query_reads_as_hidden<E>(
    desktop: DesktopView,
    event: HotkeyEvent,
    error: E,
)
    requires
        event.is_toggle_request(),
    ensures
        status_of(Some(Err::<bool, E>(error))) == WindowStatus::Hidden,
        hotkey_plan(event, status_of(Some(Err::<bool, E>(error)))) == hotkey_plan(
            event,
            status_of(Some(Ok::<bool, E>(false))),
        ),
        hotkey_plan(event, status_of(Some(Err::<bool, E>(error)))) == surface_plan(),
        desktop.window is Some ==> desktop.after_all(
            hotkey_plan(event, status_of(Some(Err::<bool, E>(error)))),
        ).window == Some(Window { visible: true, focused: true, ..desktop.window.unwrap() }),
{
    if desktop.window is Some {
        lemma_surface(desktop);
    }
}

/// While no window carries the label, only "quit" is answered with a plan:
/// hotkey events, tray icon events and "show" all change nothing.
pub proof fn lemma_missing_window_changes_nothing(
    desktop: DesktopView,
    hotkey: HotkeyEvent,
    click: TrayIconEvent,
)
    requires
        desktop.window is None,
    ensures
        desktop.on_hotkey(hotkey) == desktop,
        desktop.on_tray_icon(click) == desktop,
        desktop.on_menu(MenuItem::Show.spec_id()) == desktop,
{
    lemma_menu_ids_round_trip(MenuItem::Show);
}

} // verus!
