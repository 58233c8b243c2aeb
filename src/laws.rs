//! Properties of the tray controller, stated over the handlers' contracts.
use vstd::prelude::*;
use crate::controller::{menu_commands, tray_commands, window_commands, QUIT_ID};
use crate::events::{Command, MouseButton, MouseButtonState, TrayEvent, WindowEvent};
use crate::placement::TrayRect;
use crate::visibility::{occurrences, visibility_after};

verus! {

/// A left-button release over the tray icon `rect`, while the window is hidden
/// (or its visibility is unknown), asks for the window at
/// `(rect.x - 200, rect.y + rect.height + 5)`, whenever both fit in `i32`.
pub proof fn lemma_hidden_click_position(rect: TrayRect, visible: Option<bool>)
    requires
        visible != Some(true),
        rect.x - 200 >= i32::MIN,
        rect.y + rect.height + 5 <= i32::MAX,
    ensures
        ({
            let event = TrayEvent::Click {
                button: MouseButton::Left,
                button_state: MouseButtonState::Up,
                rect,
            };
            let commands = tray_commands(event, true, visible);
            &&& commands[0] == Command::SetPosition {
                x: (rect.x - 200) as i32,
                y: (rect.y + rect.height + 5) as i32,
            }
            &&& forall|i: int|
                1 <= i < commands.len() ==> !(#[trigger] commands[i] is SetPosition)
        }),
{
}

/// A left-button release over the tray icon while the window is visible
/// hides it, and asks for no move and no focus.
pub proof fn lemma_visible_click_hides(rect: TrayRect)
    ensures
        ({
            let event = TrayEvent::Click {
                button: MouseButton::Left,
                button_state: MouseButtonState::Up,
                rect,
            };
            let commands = tray_commands(event, true, Some(true));
            &&& commands == seq![Command::Hide]
            &&& forall|i: int|
                0 <= i < commands.len() ==> !(#[trigger] commands[i] is SetPosition)
                    && commands[i] != Command::SetFocus
            &&& !visibility_after(true, commands)
        }),
{
    reveal_with_fuel(visibility_after, 2);
}

/// A left-button release over the tray icon while the window is hidden (or of
/// unknown visibility) moves, shows and focuses the window, each once and in
/// that order, and leaves it visible.
pub proof fn lemma_hidden_click_shows(rect: TrayRect, visible: Option<bool>)
    requires
        visible != Some(true),
    ensures
        ({
            let event = TrayEvent::Click {
                button: MouseButton::Left,
                button_state: MouseButtonState::Up,
                rect,
            };
            let commands = tray_commands(event, true, visible);
            &&& commands.len() == 3
            &&& commands[0] is SetPosition
            &&& commands[1] == Command::Show
            &&& commands[2] == Command::SetFocus
            &&& visibility_after(false, commands)
        }),
{
    let event = TrayEvent::Click {
        button: MouseButton::Left,
        button_state: MouseButtonState::Up,
        rect,
    };
    let commands = tray_commands(event, true, visible);
    assert(commands.drop_last() =~= commands.subrange(0, 2));
    assert(commands.drop_last().drop_last() =~= commands.subrange(0, 1));
    reveal_with_fuel(visibility_after, 2);
}

/// Losing the focus hides the window exactly once, whatever its visibility was.
pub proof fn lemma_focus_loss_hides(prior: bool)
    ensures
        ({
            let commands = window_commands(WindowEvent::Focused(false));
            &&& occurrences(commands, Command::Hide) == 1
            &&& commands.len() == 1
            &&& !visibility_after(prior, commands)
        }),
{
    let commands = window_commands(WindowEvent::Focused(false));
    assert(commands.drop_last() =~= Seq::<Command>::empty());
    reveal_with_fuel(occurrences, 2);
    reveal_with_fuel(visibility_after, 2);
}

/// A close request hides the window exactly once and never ends the process.
pub proof fn lemma_close_request_hides(prior: bool)
    ensures
        ({
            let commands = window_commands(WindowEvent::CloseRequested);
            &&& occurrences(commands, Command::Hide) == 1
            &&& forall|i: int| 0 <= i < commands.len() ==> !(#[trigger] commands[i] is Exit)
            &&& !visibility_after(prior, commands)
        }),
{
    let commands = window_commands(WindowEvent::CloseRequested);
    assert(commands.drop_last() =~= seq![Command::Hide]);
    assert(commands.drop_last().drop_last() =~= Seq::<Command>::empty());
    reveal_with_fuel(occurrences, 3);
    reveal_with_fuel(visibility_after, 3);
}

/// The menu item `"quit"` ends the process with status 0; any other item
/// gives no command at all.
pub proof fn lemma_menu_quit_only(id: Seq<char>)
    ensures
        id == "quit"@ ==> menu_commands(id) == seq![Command::Exit { code: 0 }],
        id != "quit"@ ==> menu_commands(id).len() == 0,
{
    assert(QUIT_ID@ == "quit"@);
}

} // verus!
