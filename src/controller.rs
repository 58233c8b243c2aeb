//! The event handlers of the tray controller.
use vstd::prelude::*;
use crate::events::{Command, MouseButton, MouseButtonState, TrayEvent, WindowEvent};
use crate::placement::{popover_position, popover_x, popover_y, TrayRect};

verus! {

/// Id of the menu item that quits the application.
pub const QUIT_ID: &'static str = "quit";

/// The event is a release of the left button over the tray icon.
pub open spec fn is_toggle_click(event: TrayEvent) -> bool {
    match event {
        TrayEvent::Click { button, button_state, .. } => button == MouseButton::Left
            && button_state == MouseButtonState::Up,
        TrayEvent::Other => false,
    }
}

/// Commands that open the window below the tray icon `rect`.
pub open spec fn show_below(rect: TrayRect) -> Seq<Command> {
    seq![
        Command::SetPosition { x: popover_x(rect), y: popover_y(rect) },
        Command::Show,
        Command::SetFocus,
    ]
}

/// Commands for a tray event. `window_found` tells whether the host has the
/// window; `visible` is its visibility, `None` when the host could not tell.
pub open spec fn tray_commands(event: TrayEvent, window_found: bool, visible: Option<bool>) -> Seq<
    Command,
> {
    if !(window_found && is_toggle_click(event)) {
        Seq::empty()
    } else if visible == Some(true) {
        seq![Command::Hide]
    } else {
        show_below(event->rect)
    }
}

/// Commands for a window event.
pub open spec fn window_commands(event: WindowEvent) -> Seq<Command> {
    match event {
        WindowEvent::Focused(focused) => if focused {
            Seq::empty()
        } else {
            seq![Command::Hide]
        },
        WindowEvent::CloseRequested => seq![Command::Hide, Command::PreventClose],
        WindowEvent::Other => Seq::empty(),
    }
}

/// Commands for the menu item `id`.
pub open spec fn menu_commands(id: Seq<char>) -> Seq<Command> {
    if id == QUIT_ID@ {
        seq![Command::Exit { code: 0 }]
    } else {
        Seq::empty()
    }
}

/// Handles a tray event. A left-button release toggles the window: a visible
/// window is hidden; otherwise (hidden, or of unknown visibility) it is placed
/// below the icon, shown and focused, in that order. Other events, or a
/// missing window, give no command.
pub fn on_tray_icon_event(event: &TrayEvent, window_found: bool, visible: Option<bool>) -> (r: Vec<
    Command,
>)
    ensures
        r@ == tray_commands(*event, window_found, visible),
{
    let mut commands: Vec<Command> = Vec::new();
    if let TrayEvent::Click { button: MouseButton::Left, button_state: MouseButtonState::Up, rect } =
        event {
        if window_found {
            let shown = match visible {
                Some(v) => v,
                None => false,
            };
            if shown {
                commands.push(Command::Hide);
            } else {
                let (x, y) = popover_position(rect);
                commands.push(Command::SetPosition { x, y });
                commands.push(Command::Show);
                commands.push(Command::SetFocus);
            }
        }
    }
    assert(commands@ =~= tray_commands(*event, window_found, visible));
    commands
}

/// Handles a window event: losing the focus hides the window; a close request
/// hides it and cancels the close, so the process and its tray icon stay.
pub fn on_window_event(event: &WindowEvent) -> (r: Vec<Command>)
    ensures
        r@ == window_commands(*event),
{
    let mut commands: Vec<Command> = Vec::new();
    match event {
        WindowEvent::Focused(false) => {
            commands.push(Command::Hide);
        },
        WindowEvent::CloseRequested => {
            commands.push(Command::Hide);
            commands.push(Command::PreventClose);
        },
        _ => {},
    }
    assert(commands@ =~= window_commands(*event));
    commands
}

fn same_text(a: &str, b: &str) -> (r: bool)
    ensures
        r == (a@ == b@),
{
    let n = a.unicode_len();
    if n != b.unicode_len() {
        return false;
    }
    let mut i: usize = 0;
    while i < n
        invariant
            n == a@.len(),
            n == b@.len(),
            i <= n,
            forall|j: int| 0 <= j < i ==> a@[j] == b@[j],
        decreases n - i,
    {
        if a.get_char(i) != b.get_char(i) {
            return false;
        }
        i = i + 1;
    }
    assert(a@ =~= b@);
    true
}

/// Handles the menu item `id`: `QUIT_ID` ends the process with status 0; any
/// other id gives no command.
pub fn on_menu_event(id: &str) -> (r: Vec<Command>)
    ensures
        r@ == menu_commands(id@),
{
    let mut commands: Vec<Command> = Vec::new();
    if same_text(id, QUIT_ID) {
        commands.push(Command::Exit { code: 0 });
    }
    assert(commands@ =~= menu_commands(id@));
    commands
}

} // verus!
