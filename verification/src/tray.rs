//! The system tray: the events its icon delivers, the two entries of its
//! menu, and the icon picked for a platform.

use vstd::prelude::*;
use crate::text::same_text;

verus! {

/// The mouse button behind a click on the tray icon.
#[derive(Clone, Copy, Debug, PartialEq, Eq, Structural)]
pub enum MouseButton {
    Left,
    Right,
    Middle,
}

/// One pointer event on the tray icon.
#[derive(Clone, Copy, Debug, PartialEq, Eq, Structural)]
pub enum TrayIconEvent {
    Click { button: MouseButton },
    DoubleClick { button: MouseButton },
    /// The pointer entered the icon's area.
    Enter,
    /// The pointer moved within the icon's area.
    Move,
    /// The pointer left the icon's area.
    Leave,
}

impl TrayIconEvent {
    /// The one event that surfaces the window: a single click with the left
    /// button.
    pub open spec fn is_left_click(self) -> bool {
        self == (TrayIconEvent::Click { button: MouseButton::Left })
    }

    /// Tells a single left click from every other event on the icon.
    pub fn surfaces_window(&self) -> (surfaces: bool)
        ensures
            surfaces == self.is_left_click(),
    {
        match self {
            TrayIconEvent::Click { button: MouseButton::Left } => true,
            _ => false,
        }
    }
}

/// An entry of the tray menu.
#[derive(Clone, Copy, Debug, PartialEq, Eq, Structural)]
pub enum MenuItem {
    Show,
    Quit,
}

impl MenuItem {
    /// The stable identifier under which activations of the entry arrive.
    pub open spec fn spec_id(self) -> Seq<char> {
        match self {
            MenuItem::Show => "show"@,
            MenuItem::Quit => "quit"@,
        }
    }

    /// The entry, if any, that an identifier names. Identifiers are matched
    /// exactly, with no regard for case or surrounding blanks.
    pub open spec fn named_by(id: Seq<char>) -> Option<MenuItem> {
        if id == MenuItem::Show.spec_id() {
            Some(MenuItem::Show)
        } else if id == MenuItem::Quit.spec_id() {
            Some(MenuItem::Quit)
        } else {
            None
        }
    }

    /// The text shown for the entry.
    pub open spec fn spec_label(self) -> Seq<char> {
        match self {
            MenuItem::Show => "Show Tsuchi"@,
            MenuItem::Quit => "Quit"@,
        }
    }

    /// The stable identifier under which activations of the entry arrive.
    pub fn id(&self) -> (id: &'static str)
        ensures
            id@ == self.spec_id(),
    {
        match self {
            MenuItem::Show => "show",
            MenuItem::Quit => "quit",
        }
    }

    /// The text shown for the entry.
    pub fn label(&self) -> (label: &'static str)
        ensures
            label@ == self.spec_label(),
    {
        match self {
            MenuItem::Show => "Show Tsuchi",
            MenuItem::Quit => "Quit",
        }
    }

    /// Whether the entry can be activated. Both entries always can.
    pub fn is_enabled(&self) -> (enabled: bool)
        ensures
            enabled,
    {
        true
    }

    /// Finds the entry that an identifier names. An identifier that names
    /// none, such as that of an entry added later, gives `None`.
    pub fn from_id(id: &str) -> (item: Option<MenuItem>)
        ensures
            item == MenuItem::named_by(id@),
    {
        if same_text(id, MenuItem::Show.id()) {
            Some(MenuItem::Show)
        } else if same_text(id, MenuItem::Quit.id()) {
            Some(MenuItem::Quit)
        } else {
            None
        }
    }
}

/// The entries of the tray menu, top to bottom.
pub open spec fn menu_entries() -> Seq<MenuItem> {
    seq![MenuItem::Show, MenuItem::Quit]
}

/// The entries of the tray menu, top to bottom.
pub fn tray_menu() -> (items: Vec<MenuItem>)
    ensures
        items@ == menu_entries(),
{
    vec![MenuItem::Show, MenuItem::Quit]
}

/// Whether a left click on the icon opens the menu. It does not: the left
/// button brings the window up, and the menu is left to the other buttons.
pub fn menu_opens_on_left_click() -> (opens: bool)
    ensures
        !opens,
{
    false
}

/// The two identifiers differ, so each names its own entry.
pub proof fn lemma_menu_ids_round_trip(item: MenuItem)
    ensures
        MenuItem::named_by(item.spec_id()) == Some(item),
{
    reveal_strlit("show");
    reveal_strlit("quit");
    assert("show"@[0] != "quit"@[0]);
}

/// The platforms that differ in how a tray icon is drawn.
#[derive(Clone, Copy, Debug, PartialEq, Eq, Structural)]
pub enum Platform {
    /// Tints tray icons itself to match the menu bar.
    MacOs,
    Other,
}

/// The image asset behind the tray icon.
#[derive(Clone, Copy, Debug, PartialEq, Eq, Structural)]
pub enum IconAsset {
    /// The full-colour icon.
    Standard,
    /// The monochrome icon meant to be tinted by the system.
    Template,
}

/// How the tray icon is set up on a platform.
#[derive(Clone, Copy, Debug, PartialEq, Eq, Structural)]
pub struct TrayIconStyle {
    pub asset: IconAsset,
    /// Whether the icon is handed to the system as a template to tint.
    pub as_template: bool,
}

/// The tray icon of a platform: the monochrome asset in template mode where
/// the system tints tray icons, the standard asset as it is elsewhere.
pub open spec fn icon_style(platform: Platform) -> TrayIconStyle {
    match platform {
        Platform::MacOs => TrayIconStyle { asset: IconAsset::Template, as_template: true },
        Platform::Other => TrayIconStyle { asset: IconAsset::Standard, as_template: false },
    }
}

/// Picks the tray icon for a platform. It is picked once, before the tray is
/// built, and no event handler looks at the platform again.
pub fn tray_icon_style(platform: Platform) -> (style: TrayIconStyle)
    ensures
        style == icon_style(platform),
        style.as_template == (style.asset == IconAsset::Template),
{
    match platform {
        Platform::MacOs => TrayIconStyle { asset: IconAsset::Template, as_template: true },
        Platform::Other => TrayIconStyle { asset: IconAsset::Standard, as_template: false },
    }
}

} // verus!
