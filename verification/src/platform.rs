//! Keyboard activity, used to suppress typing noise.
use vstd::prelude::*;

verus! {

/// Highest key code scanned for a pressed key.
pub const MAX_KEY_CODE: u16 = 0x5D;

/// Whether any of the key codes `0..=MAX_KEY_CODE` is pressed, given the state of
/// each code in order (`key_states[k]` for code `k`); codes beyond the list are not
/// pressed.
pub fn key_pressed(key_states: &[bool]) -> (pressed: bool)
    ensures
        pressed == exists|k: int| 0 <= k <= MAX_KEY_CODE && k < key_states@.len() && #[trigger] key_states@[k],
{
    let mut key_code: usize = 0;
    while key_code <= MAX_KEY_CODE as usize && key_code < key_states.len()
        invariant
            key_code <= MAX_KEY_CODE + 1,
            forall|k: int| 0 <= k < key_code && k < key_states@.len() ==> !#[trigger] key_states@[k],
        decreases MAX_KEY_CODE + 1 - key_code,
    {
        if key_states[key_code] {
            return true;
        }
        key_code = key_code + 1;
    }
    false
}

} // verus!
