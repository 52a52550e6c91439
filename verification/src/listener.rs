//! The global key listener's decisions.
//!
//! A dedicated platform thread watches keyboard events for the life of
//! the process. What it does with each event is pure state-machine
//! logic and lives here: it tracks whether Shift is held, clears the
//! session's cancellation flag on Shift+Q, and triggers the two debug
//! button actions. The platform loop feeds events in and performs the
//! returned action.

use vstd::prelude::*;

verus! {

/// The keys the listener distinguishes; every other key is `Other`.
#[derive(Clone, Copy, Debug, PartialEq, Eq, Structural)]
pub enum ListenKey {
    Shift,
    KeyQ,
    F9,
    F10,
    Escape,
    Other,
}

/// What the listener asks the platform to do after one event.
#[derive(Clone, Copy, Debug, PartialEq, Eq, Structural)]
pub enum ListenerAction {
    /// Nothing to do.
    Nothing,
    /// Clear the active session's cancellation flag: the loop stops.
    ClearFlag,
    /// Post a left-button-down to the debug target window.
    LeftButtonDown,
    /// Post a right-button-down to the debug target window.
    RightButtonDown,
}

/// The listener's whole state: whether Shift is currently held.
#[derive(Clone, Copy, Debug, PartialEq, Eq, Structural)]
pub struct ListenerState {
    pub shift_held: bool,
}

/// Whether Shift is held after an event.
pub open spec fn shift_after(st: ListenerState, key: ListenKey, pressed: bool) -> bool {
    if key is Shift {
        pressed
    } else {
        st.shift_held
    }
}

/// The action one event triggers: Shift+Q clears the flag, F9 and F10
/// fire the debug buttons, releases and other keys do nothing.
pub open spec fn action_of(st: ListenerState, key: ListenKey, pressed: bool) -> ListenerAction {
    if pressed && key is KeyQ && st.shift_held {
        ListenerAction::ClearFlag
    } else if pressed && key is F9 {
        ListenerAction::LeftButtonDown
    } else if pressed && key is F10 {
        ListenerAction::RightButtonDown
    } else {
        ListenerAction::Nothing
    }
}

/// Feeds one keyboard event to the listener: the new state and the
/// action to perform, exactly as `shift_after` and `action_of` say.
pub fn listener_step(st: ListenerState, key: ListenKey, pressed: bool) -> (r: (
    ListenerState,
    ListenerAction,
))
    ensures
        r.0.shift_held == shift_after(st, key, pressed),
        r.1 == action_of(st, key, pressed),
{
    let held: bool = match key {
        ListenKey::Shift => pressed,
        _ => st.shift_held,
    };
    let action: ListenerAction = if pressed {
        match key {
            ListenKey::KeyQ => if st.shift_held {
                ListenerAction::ClearFlag
            } else {
                ListenerAction::Nothing
            },
            ListenKey::F9 => ListenerAction::LeftButtonDown,
            ListenKey::F10 => ListenerAction::RightButtonDown,
            _ => ListenerAction::Nothing,
        }
    } else {
        ListenerAction::Nothing
    };
    (ListenerState { shift_held: held }, action)
}

/// Whether a key pressed at the console while a session loops clears
/// the cancellation flag: only Escape does.
pub fn console_key_clears_flag(key: ListenKey) -> (r: bool)
    ensures
        r == (key is Escape),
{
    match key {
        ListenKey::Escape => true,
        _ => false,
    }
}

} // verus!
