//! Events the host dispatches, and commands the handlers hand back.
use vstd::prelude::*;
use crate::placement::TrayRect;

verus! {

/// Mouse button that triggered a tray event.
#[derive(Clone, Copy, Debug, PartialEq, Eq, Structural)]
pub enum MouseButton {
    Left,
    Right,
    Middle,
}

/// Whether the button went down or came back up.
#[derive(Clone, Copy, Debug, PartialEq, Eq, Structural)]
pub enum MouseButtonState {
    Up,
    Down,
}

/// An event on the tray icon.
#[derive(Clone, Copy, Debug, PartialEq, Eq, Structural)]
pub enum TrayEvent {
    /// A click, with the icon's bounds at the time of the click.
    Click { button: MouseButton, button_state: MouseButtonState, rect: TrayRect },
    /// Any other pointer activity over the icon (double click, hover, ...).
    Other,
}

/// An event on the popover window.
#[derive(Clone, Copy, Debug, PartialEq, Eq, Structural)]
pub enum WindowEvent {
    /// The window gained (`true`) or lost (`false`) the input focus.
    Focused(bool),
    /// The user asked to close the window.
    CloseRequested,
    /// Anything else (moved, resized, ...).
    Other,
}

/// What a handler asks the host to do, in the order given.
#[derive(Clone, Copy, Debug, PartialEq, Eq, Structural)]
pub enum Command {
    /// Move the window's top-left corner to `(x, y)`.
    SetPosition { x: i32, y: i32 },
    Show,
    Hide,
    SetFocus,
    /// Cancel the pending close of the window.
    PreventClose,
    /// End the process with the given status.
    Exit { code: i32 },
}

} // verus!
