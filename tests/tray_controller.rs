use moodverter::controller::{on_menu_event, on_tray_icon_event, on_window_event, QUIT_ID};
use moodverter::events::{Command, MouseButton, MouseButtonState, TrayEvent, WindowEvent};
use moodverter::placement::{popover_position, TrayRect};
use moodverter::visibility::apply_commands;

fn rect(x: i32, y: i32, height: u32) -> TrayRect {
    TrayRect { x, y, width: 22, height }
}

fn left_release(r: TrayRect) -> TrayEvent {
    TrayEvent::Click { button: MouseButton::Left, button_state: MouseButtonState::Up, rect: r }
}

#[test]
fn hidden_click_places_window_below_icon() {
    for &(x, y, h) in &[(100, 50, 20u32), (0, 0, 0), (1920, 0, 24), (-300, -10, 7)] {
        let cmds = on_tray_icon_event(&left_release(rect(x, y, h)), true, Some(false));
        assert_eq!(cmds[0], Command::SetPosition { x: x - 200, y: y + h as i32 + 5 });
    }
}

#[test]
fn position_is_centred_and_below() {
    assert_eq!(popover_position(&rect(100, 50, 20)), (-100, 75));
    assert_eq!(popover_position(&rect(1500, 0, 32)), (1300, 37));
}

#[test]
fn position_saturates_at_i32_bounds() {
    assert_eq!(popover_position(&rect(i32::MIN, i32::MAX, u32::MAX)), (i32::MIN, i32::MAX));
    assert_eq!(popover_position(&rect(i32::MIN + 200, i32::MAX - 5, 0)), (i32::MIN, i32::MAX));
    assert_eq!(popover_position(&rect(i32::MIN + 199, 0, 0)), (i32::MIN, 5));
}

#[test]
fn visible_click_hides_only() {
    let cmds = on_tray_icon_event(&left_release(rect(100, 50, 20)), true, Some(true));
    assert_eq!(cmds, vec![Command::Hide]);
    assert!(!apply_commands(true, &cmds));
}

#[test]
fn hidden_click_moves_shows_focuses_in_order() {
    let cmds = on_tray_icon_event(&left_release(rect(10, 20, 30)), true, Some(false));
    assert_eq!(
        cmds,
        vec![Command::SetPosition { x: -190, y: 55 }, Command::Show, Command::SetFocus]
    );
    assert!(apply_commands(false, &cmds));
}

#[test]
fn unknown_visibility_counts_as_hidden() {
    let cmds = on_tray_icon_event(&left_release(rect(10, 20, 30)), true, None);
    assert_eq!(
        cmds,
        vec![Command::SetPosition { x: -190, y: 55 }, Command::Show, Command::SetFocus]
    );
}

#[test]
fn missing_window_gives_no_command() {
    assert!(on_tray_icon_event(&left_release(rect(10, 20, 30)), false, Some(false)).is_empty());
    assert!(on_tray_icon_event(&left_release(rect(10, 20, 30)), false, Some(true)).is_empty());
}

#[test]
fn other_tray_events_are_ignored() {
    let r = rect(10, 20, 30);
    let events = [
        TrayEvent::Click { button: MouseButton::Left, button_state: MouseButtonState::Down, rect: r },
        TrayEvent::Click { button: MouseButton::Right, button_state: MouseButtonState::Up, rect: r },
        TrayEvent::Click { button: MouseButton::Middle, button_state: MouseButtonState::Up, rect: r },
        TrayEvent::Other,
    ];
    for e in &events {
        assert!(on_tray_icon_event(e, true, Some(false)).is_empty());
        assert!(on_tray_icon_event(e, true, Some(true)).is_empty());
    }
}

#[test]
fn focus_loss_hides_once_whatever_the_visibility() {
    let cmds = on_window_event(&WindowEvent::Focused(false));
    assert_eq!(cmds, vec![Command::Hide]);
    assert!(!apply_commands(true, &cmds));
    assert!(!apply_commands(false, &cmds));
}

#[test]
fn focus_gain_and_other_window_events_are_ignored() {
    assert!(on_window_event(&WindowEvent::Focused(true)).is_empty());
    assert!(on_window_event(&WindowEvent::Other).is_empty());
}

#[test]
fn close_request_hides_and_keeps_running() {
    let cmds = on_window_event(&WindowEvent::CloseRequested);
    assert_eq!(cmds, vec![Command::Hide, Command::PreventClose]);
    assert_eq!(cmds.iter().filter(|c| **c == Command::Hide).count(), 1);
    assert!(!cmds.iter().any(|c| matches!(c, Command::Exit { .. })));
    assert!(!apply_commands(true, &cmds));
}

#[test]
fn quit_menu_item_exits_with_zero() {
    assert_eq!(QUIT_ID, "quit");
    assert_eq!(on_menu_event("quit"), vec![Command::Exit { code: 0 }]);
}

#[test]
fn other_menu_items_give_no_command() {
    for id in ["", "qui", "quit ", "Quit", "quiT", "settings", "quitting"] {
        assert!(on_menu_event(id).is_empty(), "{id}");
    }
}

#[test]
fn apply_commands_tracks_last_show_or_hide() {
    assert!(apply_commands(true, &vec![]));
    assert!(!apply_commands(false, &vec![Command::SetFocus, Command::PreventClose]));
    assert!(apply_commands(false, &vec![Command::Hide, Command::Show, Command::SetFocus]));
    assert!(!apply_commands(true, &vec![Command::Show, Command::Hide, Command::Exit { code: 0 }]));
}

#[test]
fn end_to_end_click_show_then_click_hide() {
    let click = TrayEvent::Click {
        button: MouseButton::Left,
        button_state: MouseButtonState::Up,
        rect: TrayRect { x: 100, y: 50, width: 20, height: 20 },
    };
    let mut visible = false;
    let first = on_tray_icon_event(&click, true, Some(visible));
    assert_eq!(
        first,
        vec![Command::SetPosition { x: -100, y: 75 }, Command::Show, Command::SetFocus]
    );
    visible = apply_commands(visible, &first);
    assert!(visible);
    let second = on_tray_icon_event(&click, true, Some(visible));
    assert_eq!(second, vec![Command::Hide]);
    visible = apply_commands(visible, &second);
    assert!(!visible);
}
