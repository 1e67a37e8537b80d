use qmem::lifecycle::{
    holds_back_close, reopen_action, shortcut_in_force, shows_window_when_ready, tray_action,
    ReopenAction, TrayAction,
};

#[test]
fn close_is_held_back_only_when_ready_and_not_exiting() {
    assert!(holds_back_close(true, false));
    assert!(!holds_back_close(true, true));
    assert!(!holds_back_close(false, false));
    assert!(!holds_back_close(false, true));
}

#[test]
fn tray_menu_items() {
    assert_eq!(tray_action("new-note", true), TrayAction::OpenNewNote);
    assert_eq!(tray_action("new-note", false), TrayAction::OpenNewNote);
    assert_eq!(tray_action("quit", true), TrayAction::RequestQuit);
    assert_eq!(tray_action("quit", false), TrayAction::Exit);
    assert_eq!(tray_action("settings", true), TrayAction::Ignore);
    assert_eq!(tray_action("Quit", true), TrayAction::Ignore);
}

#[test]
fn dock_click() {
    assert_eq!(reopen_action(true, true), ReopenAction::ShowEditor);
    assert_eq!(reopen_action(true, false), ReopenAction::OpenNewNote);
    assert_eq!(reopen_action(false, true), ReopenAction::Nothing);
}

#[test]
fn window_hidden_when_started_at_login() {
    let args = vec!["qmem".to_string(), "--autostart".to_string()];
    assert!(!shows_window_when_ready(&args));
    let args = vec!["qmem".to_string()];
    assert!(shows_window_when_ready(&args));
    let args = vec!["qmem".to_string(), "--autostarted".to_string()];
    assert!(shows_window_when_ready(&args));
}

#[test]
fn shortcut_recorded_only_when_registered() {
    assert_eq!(shortcut_in_force("Option+Space".into(), &None), Some("Option+Space".into()));
    assert_eq!(shortcut_in_force("Option+Space".into(), &Some("taken".into())), None);
}
