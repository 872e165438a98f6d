//! Visibility coordinator for a single desktop window that is toggled from a
//! global hotkey and from a system-tray icon with a two-entry menu.
//!
//! The coordinator never touches the operating system. Each handler turns an
//! event, together with what is known about the window, into a plan: the
//! window operations, notifications and exit requests to carry out, in order.
//! The embedding application performs the plan and discards every failure.

pub mod command;
pub mod coordinator;
pub mod desktop;
pub mod executor;
pub mod hotkey;
pub mod laws;
pub mod text;
pub mod tray;
pub mod window;

pub use command::{Command, Notification};
pub use coordinator::{on_hotkey_event, on_menu_event, on_tray_icon_event, toggle};
pub use desktop::{Desktop, Failure};
pub use executor::execute;
pub use hotkey::{toggle_hotkey, Hotkey, HotkeyEvent, Key, Modifiers, ShortcutState};
pub use tray::{
    menu_opens_on_left_click, tray_icon_style, tray_menu, IconAsset, MenuItem, MouseButton,
    Platform, TrayIconEvent, TrayIconStyle,
};
pub use window::{main_window_label, window_is_visible, Window, WindowStatus};
