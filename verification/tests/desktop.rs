use std::cell::RefCell;

use tsuchi::text::same_text;
use tsuchi::{
    execute, on_tray_icon_event, Command, Desktop, Failure, MouseButton, Notification,
    TrayIconEvent, Window,
};

#[test]
fn window_operations_on_the_model() {
    let mut window = Window::hidden();
    assert_eq!(window, Window { visible: false, focused: false, always_on_top: false });

    window.apply(Command::SetFocus);
    assert_eq!(window, Window::hidden(), "focus does not land on a hidden window");

    window.apply(Command::Show);
    assert_eq!(window, Window { visible: true, focused: false, always_on_top: false });
    window.apply(Command::Show);
    assert_eq!(window, Window::shown(false), "showing a visible window changes nothing");

    window.apply(Command::SetFocus);
    assert_eq!(window, Window::shown(true));

    window.apply(Command::SetAlwaysOnTop(true));
    assert_eq!(window, Window { visible: true, focused: true, always_on_top: true });

    window.apply(Command::Emit(Notification::TrayOpened));
    window.apply(Command::Exit(0));
    assert_eq!(window, Window { visible: true, focused: true, always_on_top: true });

    window.apply(Command::Hide);
    assert_eq!(window, Window { visible: false, focused: false, always_on_top: true });

    window.apply(Command::SetAlwaysOnTop(false));
    assert_eq!(window, Window::hidden());
}

#[test]
fn a_new_desktop_is_untouched() {
    let desktop = Desktop::new(Some(Window::hidden()));
    assert_eq!(desktop.window, Some(Window::hidden()));
    assert!(desktop.emitted.is_empty());
    assert_eq!(desktop.exit_code, None);
}

#[test]
fn window_operations_fail_without_a_window() {
    let mut desktop = Desktop::new(None);
    for command in
        [Command::Show, Command::Hide, Command::SetFocus, Command::SetAlwaysOnTop(true)]
    {
        assert_eq!(desktop.perform(command), Err(Failure::WindowMissing));
    }
    assert_eq!(desktop, Desktop::new(None));
    assert_eq!(desktop.perform(Command::Emit(Notification::TrayOpened)), Ok(()));
    assert_eq!(desktop.perform(Command::Exit(3)), Ok(()));
    assert_eq!(desktop.emitted, vec![Notification::TrayOpened]);
    assert_eq!(desktop.exit_code, Some(3));
}

#[test]
fn window_operations_succeed_with_a_window() {
    let mut desktop = Desktop::new(Some(Window::hidden()));
    assert_eq!(desktop.perform(Command::Show), Ok(()));
    assert_eq!(desktop.perform(Command::SetFocus), Ok(()));
    assert_eq!(desktop.window, Some(Window::shown(true)));
    assert_eq!(desktop.perform(Command::Hide), Ok(()));
    assert_eq!(desktop.window, Some(Window::hidden()));
}

#[test]
fn a_plan_is_carried_out_past_failures() {
    let plan = vec![
        Command::Show,
        Command::SetFocus,
        Command::SetAlwaysOnTop(true),
        Command::Emit(Notification::TrayOpened),
    ];
    let mut desktop = Desktop::new(None);
    desktop.carry_out(&plan);
    assert_eq!(desktop.window, None);
    assert_eq!(desktop.emitted, vec![Notification::TrayOpened]);
}

#[test]
fn execute_attempts_every_command_in_order() {
    let plan = vec![
        Command::Show,
        Command::SetFocus,
        Command::SetAlwaysOnTop(true),
        Command::Emit(Notification::TrayOpened),
    ];
    let attempted = RefCell::new(Vec::new());
    let outcomes = execute(&plan, |command| {
        attempted.borrow_mut().push(command);
        match command {
            Command::Show | Command::SetFocus => Err(format!("{:?} failed", command)),
            _ => Ok(()),
        }
    });
    assert_eq!(attempted.into_inner(), plan);
    assert_eq!(
        outcomes,
        vec![Err("Show failed".to_string()), Err("SetFocus failed".to_string()), Ok(()), Ok(())]
    );
}

#[test]
fn execute_survives_a_plan_that_fails_throughout() {
    let plan = vec![Command::Hide, Command::Exit(0)];
    let attempts = RefCell::new(0usize);
    let outcomes = execute(&plan, |_| {
        *attempts.borrow_mut() += 1;
        Err::<(), u8>(7)
    });
    assert_eq!(attempts.into_inner(), 2);
    assert_eq!(outcomes, vec![Err(7), Err(7)]);
}

#[test]
fn execute_on_an_empty_plan_attempts_nothing() {
    let attempts = RefCell::new(0usize);
    let outcomes = execute(&Vec::new(), |_| {
        *attempts.borrow_mut() += 1;
        Ok::<(), ()>(())
    });
    assert_eq!(attempts.into_inner(), 0);
    assert!(outcomes.is_empty());
}

#[test]
fn execute_and_the_model_agree() {
    let plan = on_tray_icon_event(&TrayIconEvent::Click { button: MouseButton::Left }, true);

    let driven = RefCell::new(Desktop::new(Some(Window::hidden())));
    let outcomes = execute(&plan, |command| driven.borrow_mut().perform(command));
    assert_eq!(outcomes, vec![Ok(()), Ok(()), Ok(()), Ok(())]);

    let mut direct = Desktop::new(Some(Window::hidden()));
    direct.carry_out(&plan);
    assert_eq!(driven.into_inner(), direct);

    let lost = RefCell::new(Desktop::new(None));
    let outcomes = execute(&plan, |command| lost.borrow_mut().perform(command));
    assert_eq!(
        outcomes,
        vec![
            Err(Failure::WindowMissing),
            Err(Failure::WindowMissing),
            Err(Failure::WindowMissing),
            Ok(()),
        ]
    );
}

#[test]
fn same_text_compares_characters() {
    assert!(same_text("", ""));
    assert!(same_text("show", "show"));
    assert!(!same_text("show", "quit"));
    assert!(!same_text("show", "shoW"));
    assert!(!same_text("show", "sho"));
    assert!(!same_text("", "q"));
    assert!(same_text("t\u{00e4}st \u{1f600}", "t\u{00e4}st \u{1f600}"));
    assert!(!same_text("t\u{00e4}st", "t\u{00e5}st"));
    assert!(!same_text("\u{00e4}", "ab"));
    let owned = String::from("qu") + "it";
    assert!(same_text(&owned, "quit"));
}
