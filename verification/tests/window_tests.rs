use crab_launcher::consts::{KEY_DOWN_ARROW, KEY_ENTER, KEY_ESC, KEY_LEFT_SHIFT, KEY_TAB, KEY_UP_ARROW};
use crab_launcher::window::{hide_or_close, key_action, set_song_data, Dismissal, KeyAction};

#[test]
fn arrows_move_selection_within_list() {
    assert_eq!(key_action(KEY_UP_ARROW, 3, 10, false, None), KeyAction::Select(2));
    assert_eq!(key_action(KEY_UP_ARROW, 0, 10, false, None), KeyAction::Select(0));
    assert_eq!(key_action(KEY_DOWN_ARROW, 3, 10, false, None), KeyAction::Select(4));
    assert_eq!(key_action(KEY_DOWN_ARROW, 9, 10, false, None), KeyAction::Select(9));
    assert_eq!(key_action(KEY_DOWN_ARROW, 0, 0, false, None), KeyAction::Select(0));
}

#[test]
fn special_keys() {
    assert_eq!(key_action(KEY_ESC, 0, 1, false, None), KeyAction::Dismiss);
    assert!(KeyAction::Dismiss.stops_propagation());
    assert_eq!(key_action(KEY_ENTER, 0, 1, false, None), KeyAction::OpenSelected);
    assert!(!KeyAction::OpenSelected.stops_propagation());
    assert_eq!(key_action(KEY_TAB, 0, 1, false, None), KeyAction::SwitchTab);
    assert_eq!(key_action(KEY_TAB, 0, 1, false, Some("")), KeyAction::SwitchTab);
    assert_eq!(key_action(10, 0, 1, true, Some("")), KeyAction::Type { grab_focus: true, typed: None });
}

#[test]
fn typing_goes_to_search() {
    assert_eq!(
        key_action(38, 0, 1, false, Some("a")),
        KeyAction::Type { grab_focus: true, typed: Some('a') }
    );
    assert_eq!(
        key_action(KEY_LEFT_SHIFT, 0, 1, false, Some("Shift_L")),
        KeyAction::Type { grab_focus: false, typed: Some('S') }
    );
    assert_eq!(key_action(10, 0, 1, true, Some("1")), KeyAction::Type { grab_focus: true, typed: None });
    assert_eq!(key_action(10, 0, 1, false, None), KeyAction::Type { grab_focus: true, typed: None });
}

#[test]
fn dismissal_depends_on_daemon() {
    assert_eq!(hide_or_close(true), Dismissal::Hide);
    assert_eq!(hide_or_close(false), Dismissal::Close);
}

#[test]
fn song_panel_needs_title_and_artist() {
    assert_eq!(
        set_song_data(Some("Song".to_string()), Some("Band".to_string())),
        Some(("Song".to_string(), "Band".to_string()))
    );
    assert_eq!(set_song_data(Some("Song".to_string()), None), None);
    assert_eq!(set_song_data(None, Some("Band".to_string())), None);
}
