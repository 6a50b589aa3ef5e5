//! Visual attributes derived from an entry's age.
//!
//! The renderer maps these to its own units; the shapes are contractual:
//! opacity is full through the display duration and falls linearly to zero
//! over the fade-out tail, and a fresh entry gets a short pop-in emphasis,
//! 1.2x at age zero settling to 1.0x. Both are given in integer scales
//! (0..=255 for opacity, thousandths for the pop-in factor).

use vstd::prelude::*;

use crate::buffer::{DISPLAY_LIFETIME_MS, FADE_OUT_DURATION_MS, KEY_DISPLAY_DURATION_MS};

verus! {

/// How long the pop-in emphasis lasts, in milliseconds.
pub const POP_IN_DURATION_MS: u64 = 100;

/// Opacity at `age_ms` on a 0..=255 scale: 255 while the age is within the
/// display duration, 0 past the total lifetime, and the linear interpolation
/// between the two across the fade-out tail.
pub open spec fn alpha_of(age_ms: u64) -> u8 {
    if age_ms <= KEY_DISPLAY_DURATION_MS {
        255
    } else if age_ms >= DISPLAY_LIFETIME_MS {
        0
    } else {
        (((DISPLAY_LIFETIME_MS - age_ms) * 255) / (FADE_OUT_DURATION_MS as int)) as u8
    }
}

/// Pop-in scale factor at `age_ms`, in thousandths: 1200 at age zero,
/// falling linearly to 1000 at `POP_IN_DURATION_MS`, then constant.
pub open spec fn scale_of(age_ms: u64) -> u64 {
    if age_ms < POP_IN_DURATION_MS {
        (1000 + 2 * (POP_IN_DURATION_MS - age_ms)) as u64
    } else {
        1000
    }
}

pub fn alpha_255(age_ms: u64) -> (r: u8)
    ensures
        r == alpha_of(age_ms),
{
    if age_ms <= KEY_DISPLAY_DURATION_MS {
        255
    } else if age_ms >= DISPLAY_LIFETIME_MS {
        0
    } else {
        let remaining = DISPLAY_LIFETIME_MS - age_ms;
        assert(remaining < FADE_OUT_DURATION_MS);
        let num = remaining * 255;
        assert(num / FADE_OUT_DURATION_MS < 256);
        (num / FADE_OUT_DURATION_MS) as u8
    }
}

pub fn scale_permille(age_ms: u64) -> (r: u64)
    ensures
        r == scale_of(age_ms),
{
    if age_ms < POP_IN_DURATION_MS {
        1000 + 2 * (POP_IN_DURATION_MS - age_ms)
    } else {
        1000
    }
}

} // verus!
