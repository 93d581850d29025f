//! Input interpretation: mapping key presses to abstract actions, and the
//! debounce rule that absorbs key-repeat bursts of the display-mode toggle.
//! The process boundary polls the terminal, converts its raw key events into
//! [`KeyInput`] values, and applies the resulting action here.

use vstd::prelude::*;

use crate::state::{toggled, AppState, AppStateV, DisplayMode};

verus! {

/// Repeated toggles within this many milliseconds after an applied toggle
/// are ignored.
pub const DEBOUNCE_MILLIS: u64 = 200;

/// A key, reduced to what the dashboard distinguishes.
#[derive(Debug, Clone, Copy, PartialEq, Eq, Structural)]
pub enum KeyCode {
    /// A character key.
    Char(char),
    /// The escape key.
    Esc,
    /// The enter key.
    Enter,
    /// Any other key.
    Other,
}

/// One key press: the key and whether the control modifier was held.
#[derive(Debug, Clone, Copy, PartialEq, Eq, Structural)]
pub struct KeyInput {
    pub code: KeyCode,
    pub ctrl: bool,
}

impl KeyInput {
    pub fn new(code: KeyCode, ctrl: bool) -> (r: Self)
        ensures
            r == (KeyInput { code, ctrl }),
    {
        Self { code, ctrl }
    }
}

/// Actions that user input can trigger.
#[derive(Debug, Clone, Copy, PartialEq, Eq, Structural)]
pub enum InputAction {
    /// Exit the application.
    Quit,
    /// Force a data refresh (the update loop handles it on its own).
    Refresh,
    /// Toggle the display mode between detailed and compact.
    ToggleMode,
    /// No action.
    NoOp,
}

/// The action a key press maps to: `q`, `Q`, escape, and control-`c` quit;
/// `r` and `R` refresh; everything else does nothing.
pub open spec fn action_for(key: KeyInput) -> InputAction {
    match key.code {
        KeyCode::Char(c) => if c == 'q' || c == 'Q' {
            InputAction::Quit
        } else if c == 'c' && key.ctrl {
            InputAction::Quit
        } else if c == 'r' || c == 'R' {
            InputAction::Refresh
        } else {
            InputAction::NoOp
        },
        KeyCode::Esc => InputAction::Quit,
        _ => InputAction::NoOp,
    }
}

/// Interprets key presses as application actions.
#[derive(Debug)]
pub struct InputHandler;

impl InputHandler {
    pub fn new() -> (r: Self) {
        Self
    }

    /// Maps one key press to its action.
    pub fn handle_key(&self, key: KeyInput) -> (r: InputAction)
        ensures
            r == action_for(key),
    {
        match key.code {
            KeyCode::Char(c) => {
                if c == 'q' || c == 'Q' {
                    InputAction::Quit
                } else if c == 'c' && key.ctrl {
                    InputAction::Quit
                } else if c == 'r' || c == 'R' {
                    InputAction::Refresh
                } else {
                    InputAction::NoOp
                }
            },
            KeyCode::Esc => InputAction::Quit,
            _ => InputAction::NoOp,
        }
    }
}

impl Default for InputHandler {
    fn default() -> (r: Self) {
        Self::new()
    }
}

/// Whether a toggle at `now` is applied, given when the last applied toggle
/// happened: always for the first toggle, else only after the debounce
/// window has passed.
pub open spec fn debounce_allows(last: Option<u64>, now: u64) -> bool {
    match last {
        None => true,
        Some(t) => now >= t + DEBOUNCE_MILLIS,
    }
}

/// What one toggle event does to the display mode and the debounce clock.
pub open spec fn spec_toggle_step(mode: DisplayMode, last: Option<u64>, now: u64) -> (
    DisplayMode,
    Option<u64>,
) {
    if debounce_allows(last, now) {
        (toggled(mode), Some(now))
    } else {
        (mode, last)
    }
}

/// Law: a second toggle within the debounce window after an applied toggle
/// is ignored — the state after both events equals the state after the
/// first alone.
pub proof fn lemma_debounce_absorbs_second_toggle(
    mode: DisplayMode,
    last: Option<u64>,
    t1: u64,
    t2: u64,
)
    requires
        debounce_allows(last, t1),
        t1 <= t2 < t1 + DEBOUNCE_MILLIS,
    ensures
        ({
            let (mode1, last1) = spec_toggle_step(mode, last, t1);
            spec_toggle_step(mode1, last1, t2) == (mode1, last1)
        }),
{
}

/// The debounce clock for the display-mode toggle.
#[derive(Debug)]
pub struct ToggleDebounce {
    last_toggle_millis: Option<u64>,
}

impl View for ToggleDebounce {
    type V = Option<u64>;

    closed spec fn view(&self) -> Option<u64> {
        self.last_toggle_millis
    }
}

impl ToggleDebounce {
    /// A fresh clock: the first toggle is applied immediately.
    pub fn new() -> (r: Self)
        ensures
            r@ == None::<u64>,
    {
        Self { last_toggle_millis: None }
    }
}

/// Applies one interpreted action to the state: quit stops the application;
/// refresh and unrecognized keys do nothing here; a display-mode toggle is
/// applied only when the debounce window allows it.
pub fn apply_action(
    state: &mut AppState,
    debounce: &mut ToggleDebounce,
    action: InputAction,
    now_millis: u64,
)
    ensures
        action == InputAction::Quit ==> final(state)@ == (AppStateV {
            running: false,
            ..old(state)@
        }) && final(debounce)@ == old(debounce)@,
        action == InputAction::Refresh || action == InputAction::NoOp ==> final(state)@ == old(
            state,
        )@ && final(debounce)@ == old(debounce)@,
        action == InputAction::ToggleMode ==> ({
            let (mode, last) = spec_toggle_step(
                old(state)@.display_mode,
                old(debounce)@,
                now_millis,
            );
            final(state)@ == (AppStateV { display_mode: mode, ..old(state)@ }) && final(debounce)@
                == last
        }),
{
    match action {
        InputAction::Quit => {
            state.stop();
        },
        InputAction::Refresh => {},
        InputAction::ToggleMode => {
            let allowed = match debounce.last_toggle_millis {
                None => true,
                Some(t) => now_millis >= t && now_millis - t >= DEBOUNCE_MILLIS,
            };
            if allowed {
                state.toggle_display_mode();
                debounce.last_toggle_millis = Some(now_millis);
            }
        },
        InputAction::NoOp => {},
    }
}

} // verus!
