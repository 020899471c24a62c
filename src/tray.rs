//! What the tray icon and its menu do with the events they receive.
use vstd::prelude::*;
use crate::path::same_chars;

verus! {

/// Identifier of the tray icon.
pub const TRAY_ID: &'static str = "tray-1";

/// Tooltip of the tray icon.
pub const TRAY_TOOLTIP: &'static str = "Yeeet";

/// Identifier of the menu item that ends the process.
pub const QUIT_ID: &'static str = "quit";

/// Label of the menu item that ends the process.
pub const QUIT_LABEL: &'static str = "Quit";

#[derive(PartialEq, Eq, Structural, Clone, Copy, Debug)]
pub enum MouseButton {
    Left,
    Right,
    Middle,
}

#[derive(PartialEq, Eq, Structural, Clone, Copy, Debug)]
pub enum MouseButtonState {
    Up,
    Down,
}

/// An event of the tray icon: a click, with its button and whether the
/// button went down or up, or anything else (hover, double click, ...).
#[derive(PartialEq, Eq, Structural, Clone, Copy, Debug)]
pub enum TrayEvent {
    Click { button: MouseButton, button_state: MouseButtonState },
    Other,
}

#[derive(PartialEq, Eq, Structural, Clone, Copy, Debug)]
pub enum TrayAction {
    TogglePopover,
    Ignore,
}

#[derive(PartialEq, Eq, Structural, Clone, Copy, Debug)]
pub enum MenuAction {
    /// End the process with this exit code.
    Exit(i32),
    Ignore,
}

/// Only the release of the primary button on the icon toggles the popover.
pub open spec fn tray_action_spec(e: TrayEvent) -> TrayAction {
    if e == (TrayEvent::Click { button: MouseButton::Left, button_state: MouseButtonState::Up }) {
        TrayAction::TogglePopover
    } else {
        TrayAction::Ignore
    }
}

pub fn tray_action(e: TrayEvent) -> (r: TrayAction)
    ensures
        r == tray_action_spec(e),
{
    match e {
        TrayEvent::Click { button: MouseButton::Left, button_state: MouseButtonState::Up } => {
            TrayAction::TogglePopover
        },
        _ => TrayAction::Ignore,
    }
}

/// The `quit` item ends the process with exit code 0, whatever the popover's
/// state; any other menu item does nothing.
pub fn menu_action(id: &str) -> (r: MenuAction)
    ensures
        id@ == "quit"@ ==> r == MenuAction::Exit(0),
        id@ != "quit"@ ==> r == MenuAction::Ignore,
{
    if same_chars(id, "quit") {
        MenuAction::Exit(0)
    } else {
        MenuAction::Ignore
    }
}

} // verus!
