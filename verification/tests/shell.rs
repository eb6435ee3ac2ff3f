use gotify_client::shell::{menu_action, MenuAction};

#[test]
fn settings_entry_shows_settings() {
    assert_eq!(menu_action("settings"), MenuAction::ShowSettings);
}

#[test]
fn quit_entry_quits() {
    assert_eq!(menu_action("quit"), MenuAction::Quit);
}

#[test]
fn other_entries_do_nothing() {
    assert_eq!(menu_action(""), MenuAction::Nothing);
    assert_eq!(menu_action("Settings"), MenuAction::Nothing);
    assert_eq!(menu_action("quit "), MenuAction::Nothing);
    assert_eq!(menu_action("setting"), MenuAction::Nothing);
}
