use glazewm_debug::input::{apply_action, DEBOUNCE_MILLIS};
use glazewm_debug::{
    AppState, DisplayMode, InputAction, InputHandler, KeyCode, KeyInput, ToggleDebounce,
};

fn key_event(code: KeyCode) -> KeyInput {
    KeyInput::new(code, false)
}

fn key_event_with_ctrl(code: KeyCode) -> KeyInput {
    KeyInput::new(code, true)
}

#[test]
fn should_define_input_actions() {
    assert_eq!(InputAction::Quit, InputAction::Quit);
    assert_ne!(InputAction::Quit, InputAction::Refresh);
    assert_ne!(InputAction::Refresh, InputAction::NoOp);
}

#[test]
fn should_handle_quit_keys() {
    let handler = InputHandler::new();

    assert_eq!(handler.handle_key(key_event(KeyCode::Char('q'))), InputAction::Quit);
    assert_eq!(handler.handle_key(key_event(KeyCode::Char('Q'))), InputAction::Quit);
    assert_eq!(handler.handle_key(key_event(KeyCode::Esc)), InputAction::Quit);
    assert_eq!(handler.handle_key(key_event_with_ctrl(KeyCode::Char('c'))), InputAction::Quit);
}

#[test]
fn should_handle_refresh_keys() {
    let handler = InputHandler::new();

    assert_eq!(handler.handle_key(key_event(KeyCode::Char('r'))), InputAction::Refresh);
    assert_eq!(handler.handle_key(key_event(KeyCode::Char('R'))), InputAction::Refresh);
}

#[test]
fn should_handle_unknown_keys() {
    let handler = InputHandler::new();

    assert_eq!(handler.handle_key(key_event(KeyCode::Char('x'))), InputAction::NoOp);
    assert_eq!(handler.handle_key(key_event(KeyCode::Enter)), InputAction::NoOp);
}

#[test]
fn plain_c_without_control_does_nothing() {
    let handler = InputHandler::new();
    assert_eq!(handler.handle_key(key_event(KeyCode::Char('c'))), InputAction::NoOp);
}

#[test]
fn quit_action_stops_the_application() {
    let mut state = AppState::new();
    let mut debounce = ToggleDebounce::new();

    apply_action(&mut state, &mut debounce, InputAction::Quit, 0);
    assert!(!state.is_running());
}

#[test]
fn refresh_and_noop_leave_the_state_alone() {
    let mut state = AppState::new();
    let mut debounce = ToggleDebounce::new();

    apply_action(&mut state, &mut debounce, InputAction::Refresh, 0);
    apply_action(&mut state, &mut debounce, InputAction::NoOp, 1);
    assert!(state.is_running());
    assert_eq!(state.get_display_mode(), DisplayMode::Detailed);
}

#[test]
fn double_toggle_within_debounce_window_applies_once() {
    let mut state = AppState::new();
    let mut debounce = ToggleDebounce::new();

    // The first toggle is applied immediately.
    apply_action(&mut state, &mut debounce, InputAction::ToggleMode, 1000);
    assert_eq!(state.get_display_mode(), DisplayMode::Compact);

    // A second toggle inside the debounce window is ignored: the state after
    // both events equals the state after exactly one toggle.
    apply_action(&mut state, &mut debounce, InputAction::ToggleMode, 1000 + DEBOUNCE_MILLIS - 1);
    assert_eq!(state.get_display_mode(), DisplayMode::Compact);
}

#[test]
fn toggle_after_the_debounce_window_is_applied() {
    let mut state = AppState::new();
    let mut debounce = ToggleDebounce::new();

    apply_action(&mut state, &mut debounce, InputAction::ToggleMode, 1000);
    assert_eq!(state.get_display_mode(), DisplayMode::Compact);

    apply_action(&mut state, &mut debounce, InputAction::ToggleMode, 1000 + DEBOUNCE_MILLIS);
    assert_eq!(state.get_display_mode(), DisplayMode::Detailed);
}
