//! Shared colour-cycling primitives used by several patterns.
//!
//! Each wheel maps a single byte position to a colour by dividing the 0-255
//! domain into three 85-wide arcs with linear ramps between hues.

use vstd::prelude::*;

use crate::apa106led::{spec_christmas_wheel, spec_fade, Apa106Led};
use crate::ratio::Ratio;

verus! {

/// Red-green-blue colour wheel: the 0-255 input is divided into three
/// 85-wide arcs with linear ramps between the primary hues.
pub open spec fn spec_rgb_wheel(wheelpos: u8) -> Apa106Led {
    if wheelpos < 85 {
        Apa106Led {
            red: (wheelpos * 3) as u8,
            green: (255 - wheelpos * 3) as u8,
            blue: 0,
        }
    } else if wheelpos < 170 {
        Apa106Led {
            red: (255 - (wheelpos - 85) * 3) as u8,
            green: 0,
            blue: ((wheelpos - 85) * 3) as u8,
        }
    } else {
        Apa106Led {
            red: 0,
            green: ((wheelpos - 170) * 3) as u8,
            blue: (255 - (wheelpos - 170) * 3) as u8,
        }
    }
}

/// Red - green - blue colour wheel.
pub fn rgb_wheel(wheelpos: u8) -> (c: Apa106Led)
    ensures
        c == spec_rgb_wheel(wheelpos),
{
    let mut thingy = wheelpos;

    if thingy < 85 {
        Apa106Led { red: thingy * 3, green: 255 - thingy * 3, blue: 0 }
    } else if thingy < 170 {
        thingy -= 85;

        Apa106Led { red: 255 - thingy * 3, green: 0, blue: thingy * 3 }
    } else {
        thingy -= 170;

        Apa106Led { red: 0, green: thingy * 3, blue: 255 - thingy * 3 }
    }
}

/// Red - green - white colour wheel.
pub fn christmas_wheel(wheelpos: u8) -> (c: Apa106Led)
    ensures
        c == spec_christmas_wheel(wheelpos),
{
    crate::apa106led::christmas_wheel(wheelpos)
}

/// Scale all three channels of a colour by the multiplier, truncating.
pub fn fade(colour: Apa106Led, multiplier: Ratio) -> (c: Apa106Led)
    requires
        multiplier.den >= 1,
    ensures
        c == spec_fade(colour, multiplier.num as int, multiplier.den as int),
{
    colour.fade(multiplier)
}

} // verus!
