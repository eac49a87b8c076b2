//! The modifier-state decision behind the global show hotkey.

use vstd::prelude::*;

verus! {

/// The modifier keys currently held, as the global key listener tracks
/// them.
#[derive(Clone, Copy, Debug, PartialEq, Eq)]
pub struct KeyState {
    pub ctrl: bool,
    pub shift: bool,
    pub alt: bool,
    pub meta: bool,
    pub r_down: bool,
}

impl Default for KeyState {
    /// No key held.
    fn default() -> (r: Self)
        ensures
            r == (KeyState { ctrl: false, shift: false, alt: false, meta: false, r_down: false }),
    {
        KeyState { ctrl: false, shift: false, alt: false, meta: false, r_down: false }
    }
}

/// Whether the primary chord modifier is held. On platforms whose
/// convention is the Command key, Command is expected and Control allowed
/// too; elsewhere it is Control.
pub fn primary_modifier_down(state: KeyState, platform_uses_command: bool) -> (r: bool)
    ensures
        platform_uses_command ==> r == (state.meta || state.ctrl),
        !platform_uses_command ==> r == state.ctrl,
{
    if platform_uses_command {
        state.meta || state.ctrl
    } else {
        state.ctrl
    }
}

/// Whether a fresh press of the hotkey letter triggers the show chord: the
/// letter must not already be held (debouncing key repeat), and Alt plus
/// the primary modifier must be down.
pub fn hotkey_chord_hit(state: KeyState, platform_uses_command: bool) -> (r: bool)
    ensures
        r == (!state.r_down && state.alt && (if platform_uses_command {
            state.meta || state.ctrl
        } else {
            state.ctrl
        })),
{
    !state.r_down && state.alt && primary_modifier_down(state, platform_uses_command)
}

} // verus!
