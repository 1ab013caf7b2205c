//! An integer sine wave for the time-driven patterns.
//!
//! Angles are measured in 1/1536 of a full turn, so a third of a turn (the
//! 120-degree phase shift between colour channels) and a quarter turn are
//! both whole numbers of units.  The wave value is computed with Bhaskara's
//! rational approximation of the sine on a half turn, entirely in integer
//! arithmetic, and is returned already amplitude-scaled to the channel
//! range: `(sin + 1) * 127`, truncated, so results lie in 0..=254.

use vstd::prelude::*;

verus! {

/// Phase units in a full turn.
pub const TURN: u32 = 1536;

/// Phase units in a half turn.
pub const HALF_TURN: u32 = 768;

/// Phase units in a third of a turn: the phase shift between the three
/// colour channels of the rainbow pattern.
pub const THIRD_TURN: u32 = 512;

/// Bhaskara's numerator/denominator quotient scaled by 127: the value of
/// `127 * sin(pi * h / 768)` for `h` in `0..=768`, truncated.
pub open spec fn spec_sin_half(h: int) -> int {
    let prod = h * (768 - h);
    127 * (16 * prod) / (2949120 - 4 * prod)
}

/// The scaled sine of a phase given in 1/1536 of a turn: rises from 127 at
/// phase zero to 254 at a quarter turn, falls back through 127 at a half
/// turn to 0 at three quarters, and returns to 127 at a full turn.
pub open spec fn spec_sin_scaled(phase: int) -> int {
    let p = phase % 1536;
    if p < 768 {
        127 + spec_sin_half(p)
    } else {
        127 - spec_sin_half(p - 768)
    }
}

/// The product `h * (768 - h)` is largest at the midpoint of the half turn.
proof fn lemma_prod_bounds(h: int)
    requires
        0 <= h <= 768,
    ensures
        0 <= h * (768 - h) <= 147456,
{
    assert(0 <= h * (768 - h) <= 147456) by (nonlinear_arith)
        requires
            0 <= h <= 768,
    ;
}

/// On a half turn the quotient stays within 0..=127.
pub proof fn lemma_sin_half_range(h: int)
    requires
        0 <= h <= 768,
    ensures
        0 <= spec_sin_half(h) <= 127,
{
    lemma_prod_bounds(h);
    let prod = h * (768 - h);
    assert(16 * prod <= 2949120 - 4 * prod);
    assert(0 <= 127 * (16 * prod) / (2949120 - 4 * prod) <= 127) by (nonlinear_arith)
        requires
            0 <= 16 * prod <= 2949120 - 4 * prod,
            2949120 - 4 * prod >= 1,
    ;
}

/// The scaled sine of a phase in 1/1536 of a turn.
pub fn sin_scaled(phase: u32) -> (r: u8)
    ensures
        r == spec_sin_scaled(phase as int),
        r <= 254,
{
    let p: u32 = phase % 1536;

    let (h, up) = if p < 768 {
        (p, true)
    } else {
        (p - 768, false)
    };

    proof {
        lemma_prod_bounds(h as int);
        lemma_sin_half_range(h as int);
    }

    let prod: u32 = h * (768 - h);
    let num: u32 = 16 * prod;
    let den: u32 = 2949120 - 4 * prod;

    let q: u32 = 127 * num / den;

    if up {
        (127 + q) as u8
    } else {
        (127 - q) as u8
    }
}

} // verus!
