use tsuchi::{
    main_window_label, menu_opens_on_left_click, on_menu_event, on_tray_icon_event,
    tray_icon_style, tray_menu, Command, Desktop, IconAsset, MenuItem, MouseButton, Notification,
    Platform, TrayIconEvent, TrayIconStyle, Window,
};

fn left_click() -> TrayIconEvent {
    TrayIconEvent::Click { button: MouseButton::Left }
}

fn windows() -> Vec<Window> {
    let mut all = Vec::new();
    for visible in [false, true] {
        for focused in [false, true] {
            for always_on_top in [false, true] {
                if visible || !focused {
                    all.push(Window { visible, focused, always_on_top });
                }
            }
        }
    }
    all
}

#[test]
fn menu_has_show_then_quit() {
    assert_eq!(tray_menu(), vec![MenuItem::Show, MenuItem::Quit]);
    assert_eq!(MenuItem::Show.id(), "show");
    assert_eq!(MenuItem::Quit.id(), "quit");
    assert_eq!(MenuItem::Show.label(), "Show Tsuchi");
    assert_eq!(MenuItem::Quit.label(), "Quit");
    assert!(MenuItem::Show.is_enabled());
    assert!(MenuItem::Quit.is_enabled());
}

#[test]
fn menu_ids_round_trip() {
    for item in tray_menu() {
        assert_eq!(MenuItem::from_id(item.id()), Some(item));
    }
}

#[test]
fn menu_ids_are_matched_exactly() {
    assert_eq!(MenuItem::from_id("show"), Some(MenuItem::Show));
    assert_eq!(MenuItem::from_id("quit"), Some(MenuItem::Quit));
    for id in ["", "Show", "SHOW", "Quit", " show", "show ", "sho", "showw", "quit\n", "exit",
        "qu\u{00ed}t", "\u{ff53}how", "show\0"]
    {
        assert_eq!(MenuItem::from_id(id), None, "{:?}", id);
    }
}

#[test]
fn menu_show_shows_and_focuses() {
    assert_eq!(on_menu_event("show", true), vec![Command::Show, Command::SetFocus]);
}

#[test]
fn menu_show_is_idempotent() {
    for window in windows() {
        let mut once = Desktop::new(Some(window));
        once.deliver_menu("show");
        let shown = once.window.expect("the window is still there");
        assert!(shown.visible);
        assert!(shown.focused);
        assert_eq!(shown.always_on_top, window.always_on_top);

        let mut twice = Desktop::new(Some(window));
        twice.deliver_menu("show");
        twice.deliver_menu("show");
        assert_eq!(twice, once);
    }
    let mut desktop = Desktop::new(Some(Window::shown(true)));
    desktop.deliver_menu("show");
    assert_eq!(desktop, Desktop::new(Some(Window::shown(true))));
}

#[test]
fn menu_show_without_a_window_plans_nothing() {
    assert_eq!(on_menu_event("show", false), Vec::<Command>::new());
    let mut desktop = Desktop::new(None);
    desktop.deliver_menu("show");
    assert_eq!(desktop, Desktop::new(None));
}

#[test]
fn menu_quit_exits_with_code_zero() {
    assert_eq!(on_menu_event("quit", true), vec![Command::Exit(0)]);
    let mut desktop = Desktop::new(Some(Window::shown(true)));
    desktop.deliver_menu("quit");
    assert_eq!(desktop.exit_code, Some(0));
}

#[test]
fn menu_quit_does_not_depend_on_the_window() {
    assert_eq!(on_menu_event("quit", false), vec![Command::Exit(0)]);
    let mut without = Desktop::new(None);
    without.deliver_menu("quit");
    assert_eq!(without.exit_code, Some(0));
    assert_eq!(without.window, None);
    for window in windows() {
        let mut desktop = Desktop::new(Some(window));
        desktop.deliver_menu("quit");
        assert_eq!(desktop.exit_code, Some(0));
        assert_eq!(desktop.window, Some(window));
        assert!(desktop.emitted.is_empty());
    }
}

#[test]
fn unknown_menu_ids_are_passed_over() {
    for id in ["", "settings", "Show", "QUIT", "show-window", "about"] {
        for present in [false, true] {
            assert_eq!(on_menu_event(id, present), Vec::<Command>::new(), "{:?}", id);
        }
        let mut desktop = Desktop::new(Some(Window::hidden()));
        desktop.deliver_menu(id);
        assert_eq!(desktop, Desktop::new(Some(Window::hidden())), "{:?}", id);
    }
}

#[test]
fn tray_left_click_plan() {
    assert_eq!(
        on_tray_icon_event(&left_click(), true),
        vec![
            Command::Show,
            Command::SetFocus,
            Command::SetAlwaysOnTop(true),
            Command::Emit(Notification::TrayOpened),
        ]
    );
}

#[test]
fn tray_left_click_surfaces_from_any_state() {
    for window in windows() {
        let mut desktop = Desktop::new(Some(window));
        desktop.deliver_tray_icon(&left_click());
        assert_eq!(
            desktop.window,
            Some(Window { visible: true, focused: true, always_on_top: true })
        );
        assert_eq!(desktop.emitted, vec![Notification::TrayOpened]);
        assert_eq!(desktop.exit_code, None);
    }
}

#[test]
fn every_left_click_announces_itself_once() {
    let mut desktop = Desktop::new(Some(Window::hidden()));
    for clicks in 1..=3 {
        desktop.deliver_tray_icon(&left_click());
        assert_eq!(desktop.emitted.len(), clicks);
    }
}

#[test]
fn tray_left_click_without_a_window_plans_nothing() {
    assert_eq!(on_tray_icon_event(&left_click(), false), Vec::<Command>::new());
    let mut desktop = Desktop::new(None);
    desktop.deliver_tray_icon(&left_click());
    assert_eq!(desktop, Desktop::new(None));
}

#[test]
fn other_tray_events_change_nothing() {
    let others = [
        TrayIconEvent::Click { button: MouseButton::Right },
        TrayIconEvent::Click { button: MouseButton::Middle },
        TrayIconEvent::DoubleClick { button: MouseButton::Left },
        TrayIconEvent::DoubleClick { button: MouseButton::Right },
        TrayIconEvent::DoubleClick { button: MouseButton::Middle },
        TrayIconEvent::Enter,
        TrayIconEvent::Move,
        TrayIconEvent::Leave,
    ];
    for event in others.iter() {
        assert!(!event.surfaces_window());
        for present in [false, true] {
            assert_eq!(on_tray_icon_event(event, present), Vec::<Command>::new());
        }
        for window in windows() {
            let mut desktop = Desktop::new(Some(window));
            desktop.deliver_tray_icon(event);
            assert_eq!(desktop, Desktop::new(Some(window)));
        }
    }
    assert!(left_click().surfaces_window());
}

#[test]
fn tray_opened_is_the_name_of_the_notification() {
    assert_eq!(Notification::TrayOpened.name(), "tray-opened");
}

#[test]
fn the_window_is_labelled_main() {
    assert_eq!(main_window_label(), "main");
}

#[test]
fn icon_is_a_template_only_where_the_system_tints_it() {
    assert_eq!(
        tray_icon_style(Platform::MacOs),
        TrayIconStyle { asset: IconAsset::Template, as_template: true }
    );
    assert_eq!(
        tray_icon_style(Platform::Other),
        TrayIconStyle { asset: IconAsset::Standard, as_template: false }
    );
}

#[test]
fn a_left_click_does_not_open_the_menu() {
    assert!(!menu_opens_on_left_click());
}

#[test]
fn tray_click_after_hotkey_hide_brings_the_window_back() {
    let mut desktop = Desktop::new(Some(Window::shown(true)));
    let press = tsuchi::HotkeyEvent {
        hotkey: tsuchi::toggle_hotkey(),
        state: tsuchi::ShortcutState::Pressed,
    };
    desktop.deliver_hotkey(&press);
    assert_eq!(desktop.window, Some(Window::hidden()));
    assert!(desktop.emitted.is_empty());

    desktop.deliver_tray_icon(&left_click());
    assert_eq!(
        desktop.window,
        Some(Window { visible: true, focused: true, always_on_top: true })
    );
    assert_eq!(desktop.emitted, vec![Notification::TrayOpened]);

    // The hotkey still toggles a window that the tray pinned on top.
    desktop.deliver_hotkey(&press);
    assert_eq!(
        desktop.window,
        Some(Window { visible: false, focused: false, always_on_top: true })
    );
    assert_eq!(desktop.emitted, vec![Notification::TrayOpened]);
}
