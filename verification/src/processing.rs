//! Audio processing settings: echo and noise suppression levels from the user's
//! settings, and the stream delay handed to the echo canceller.
use vstd::prelude::*;
use crate::text::str_equals;

verus! {

/// Echo suppression strength.
#[derive(Clone, Copy, Debug, PartialEq, Eq, Structural)]
pub enum EchoCancelLevel {
    Lowest,
    Lower,
    Low,
    Moderate,
    High,
}

/// Noise suppression strength.
#[derive(Clone, Copy, Debug, PartialEq, Eq, Structural)]
pub enum NoiseCancelLevel {
    Moderate,
    High,
    VeryHigh,
}

/// The echo suppression level a setting names; moderate for anything else.
pub fn echo_cancel_level(setting: &str) -> (l: EchoCancelLevel)
    ensures
        l == (if setting@ == "lowest"@ {
            EchoCancelLevel::Lowest
        } else if setting@ == "lower"@ {
            EchoCancelLevel::Lower
        } else if setting@ == "low"@ {
            EchoCancelLevel::Low
        } else if setting@ == "high"@ {
            EchoCancelLevel::High
        } else {
            EchoCancelLevel::Moderate
        }),
{
    proof {
        reveal_strlit("lowest");
        reveal_strlit("lower");
        reveal_strlit("low");
        reveal_strlit("moderate");
        reveal_strlit("high");
        assert("lowest"@.len() == 6 && "lower"@.len() == 5 && "low"@.len() == 3);
        assert("moderate"@.len() == 8 && "high"@.len() == 4);
    }
    if str_equals(setting, "lowest") {
        EchoCancelLevel::Lowest
    } else if str_equals(setting, "lower") {
        EchoCancelLevel::Lower
    } else if str_equals(setting, "low") {
        EchoCancelLevel::Low
    } else if str_equals(setting, "moderate") {
        EchoCancelLevel::Moderate
    } else if str_equals(setting, "high") {
        EchoCancelLevel::High
    } else {
        EchoCancelLevel::Moderate
    }
}

/// The noise suppression level a setting names; very high for anything else.
pub fn noise_cancel_level(setting: &str) -> (l: NoiseCancelLevel)
    ensures
        l == (if setting@ == "moderate"@ {
            NoiseCancelLevel::Moderate
        } else if setting@ == "high"@ {
            NoiseCancelLevel::High
        } else {
            NoiseCancelLevel::VeryHigh
        }),
{
    proof {
        reveal_strlit("moderate");
        reveal_strlit("high");
        reveal_strlit("very_high");
    }
    if str_equals(setting, "moderate") {
        NoiseCancelLevel::Moderate
    } else if str_equals(setting, "high") {
        NoiseCancelLevel::High
    } else if str_equals(setting, "very_high") {
        NoiseCancelLevel::VeryHigh
    } else {
        NoiseCancelLevel::VeryHigh
    }
}

/// The stream delay configured in the echo canceller for a playback delay: twice
/// the playback delay, as a 32-bit value.
pub fn stream_delay_ms(render_delay_ms: u64) -> (d: i32)
    requires
        2 * render_delay_ms <= u64::MAX,
    ensures
        d == ((2 * render_delay_ms) as u64) as i32,
{
    let total_delay_ms = render_delay_ms + render_delay_ms;
    total_delay_ms as i32
}

} // verus!
