use hotkey_shell::bridge::{hide_window, open_url_result, BridgeError};
use hotkey_shell::shortcut::{Key, Modifier, ShortcutSpec};
use hotkey_shell::visibility::{Visibility, VisibilityController, WindowAction};

fn controller(visibility: Visibility) -> VisibilityController {
    VisibilityController::new(ShortcutSpec::new(Some(Modifier::Control), Key::Space), visibility)
}

#[test]
fn hide_window_without_primary_window_fails() {
    let mut window: Option<VisibilityController> = None;
    assert_eq!(hide_window(&mut window), Err(BridgeError::NoPrimaryWindow));
    assert_eq!(window, None);
}

#[test]
fn hide_window_hides_shown_window() {
    let mut window = Some(controller(Visibility::Shown));
    assert_eq!(hide_window(&mut window), Ok(WindowAction::Hide));
    assert_eq!(window, Some(controller(Visibility::Hidden)));
}

#[test]
fn hide_window_succeeds_on_hidden_window() {
    let mut window = Some(controller(Visibility::Hidden));
    assert_eq!(hide_window(&mut window), Ok(WindowAction::Hide));
    assert_eq!(window, Some(controller(Visibility::Hidden)));
}

#[test]
fn hide_window_may_be_repeated() {
    let mut window = Some(controller(Visibility::Shown));
    for _ in 0..3 {
        assert_eq!(hide_window(&mut window), Ok(WindowAction::Hide));
        assert_eq!(window.as_ref().unwrap().visibility(), Visibility::Hidden);
    }
}

#[test]
fn open_url_success_is_handed_on() {
    assert_eq!(open_url_result(Ok(())), Ok(()));
}

#[test]
fn open_url_failure_carries_the_system_message() {
    let failed = open_url_result(Err(String::from("no handler for scheme")));
    assert_eq!(failed, Err(BridgeError::OpenFailed(String::from("no handler for scheme"))));
    assert_eq!(failed.unwrap_err().message(), "no handler for scheme");
}

#[test]
fn open_url_failure_with_empty_message() {
    let failed = open_url_result(Err(String::new()));
    assert_eq!(failed, Err(BridgeError::OpenFailed(String::new())));
    assert_eq!(failed.unwrap_err().message(), "");
}

#[test]
fn missing_window_has_a_fixed_message() {
    assert_eq!(BridgeError::NoPrimaryWindow.message(), "no primary window");
}
