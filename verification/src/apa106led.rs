//! The colour value of a single APA106 LED and its arithmetic.
//!
//! A colour is three independent 8-bit channels.  Scaling (`fade`) and
//! interpolation (`lerp`) run on rational multipliers and truncate to the
//! channel range; addition saturates so overlapping colours never wrap
//! around into a different hue.  `as_bitbang_data` expands a colour into
//! the 24 protocol bytes the wire encoder emits for one LED.

use vstd::prelude::*;

use crate::ratio::Ratio;

verus! {

/// Wire byte that encodes a logical one bit of the LED protocol.
pub const ON_BYTE: u8 = 0b1111_1100;

/// Wire byte that encodes a logical zero bit of the LED protocol.
pub const OFF_BYTE: u8 = 0b1100_0000;

/// The colour of one LED: three independent 8-bit channels.
#[derive(Copy, Clone, Debug, Default, PartialEq, Eq, Structural)]
pub struct Apa106Led {
    pub red: u8,
    pub green: u8,
    pub blue: u8,
}

/// The warm white used by the rain pattern.
pub open spec fn spec_warm_white() -> Apa106Led {
    Apa106Led { red: 255, green: 183, blue: 76 }
}

/// All channels off.
pub open spec fn spec_off() -> Apa106Led {
    Apa106Led { red: 0, green: 0, blue: 0 }
}

/// The warm white used by the rain pattern.
pub fn warm_white() -> (c: Apa106Led)
    ensures
        c == spec_warm_white(),
{
    Apa106Led { red: 255, green: 183, blue: 76 }
}

/// All channels off.
pub fn off() -> (c: Apa106Led)
    ensures
        c == spec_off(),
{
    Apa106Led { red: 0, green: 0, blue: 0 }
}

/// One channel scaled by `num / den`, truncated, clamped to the channel
/// range.
pub open spec fn spec_scaled(c: int, num: int, den: int) -> int {
    let v = c * num / den;
    if v > 255 {
        255
    } else {
        v
    }
}

/// A whole colour scaled by `num / den`.
pub open spec fn spec_fade(c: Apa106Led, num: int, den: int) -> Apa106Led {
    Apa106Led {
        red: spec_scaled(c.red as int, num, den) as u8,
        green: spec_scaled(c.green as int, num, den) as u8,
        blue: spec_scaled(c.blue as int, num, den) as u8,
    }
}

/// One channel interpolated from `a` towards `b` by `num / den`, truncated.
pub open spec fn spec_lerped(a: int, b: int, num: int, den: int) -> int {
    (a * (den - num) + b * num) / den
}

/// A whole colour interpolated from `a` towards `b` by `num / den`.
pub open spec fn spec_lerp(a: Apa106Led, b: Apa106Led, num: int, den: int) -> Apa106Led {
    Apa106Led {
        red: spec_lerped(a.red as int, b.red as int, num, den) as u8,
        green: spec_lerped(a.green as int, b.green as int, num, den) as u8,
        blue: spec_lerped(a.blue as int, b.blue as int, num, den) as u8,
    }
}

/// Per-channel saturating sum of two colours.
pub open spec fn spec_add(a: Apa106Led, b: Apa106Led) -> Apa106Led {
    Apa106Led {
        red: if a.red + b.red > 255 {
            255u8
        } else {
            (a.red + b.red) as u8
        },
        green: if a.green + b.green > 255 {
            255u8
        } else {
            (a.green + b.green) as u8
        },
        blue: if a.blue + b.blue > 255 {
            255u8
        } else {
            (a.blue + b.blue) as u8
        },
    }
}

/// Scale one channel by `num / den` with truncating division, clamping the
/// quotient to the channel range.
fn scale_channel(c: u8, m: Ratio) -> (r: u8)
    requires
        m.den >= 1,
    ensures
        r == spec_scaled(c as int, m.num as int, m.den as int),
{
    assert((c as int) * (m.num as int) <= 255 * 0xffff_ffffu64) by (nonlinear_arith)
        requires
            c <= 255,
            m.num <= 0xffff_ffffu64,
    ;
    let v: u64 = (c as u64) * (m.num as u64) / (m.den as u64);
    if v > 255 {
        255
    } else {
        v as u8
    }
}

/// Interpolate one channel from `a` towards `b` by `num / den`, truncating.
fn lerp_channel(a: u8, b: u8, m: Ratio) -> (r: u8)
    requires
        m.den >= 1,
        m.num <= m.den,
    ensures
        r == spec_lerped(a as int, b as int, m.num as int, m.den as int),
{
    assert((a as int) * (m.den - m.num) + (b as int) * (m.num as int) <= 255 * (m.den as int))
        by (nonlinear_arith)
        requires
            a <= 255,
            b <= 255,
            0 <= m.num <= m.den,
    ;
    assert(255 * (m.den as int) <= 255 * 0xffff_ffffu64) by (nonlinear_arith)
        requires
            m.den <= 0xffff_ffffu64,
    ;
    let t: u64 = (a as u64) * ((m.den - m.num) as u64) + (b as u64) * (m.num as u64);
    let r: u64 = t / (m.den as u64);
    assert(t as int / (m.den as int) <= 255) by (nonlinear_arith)
        requires
            m.den >= 1,
            t <= 255 * (m.den as int),
    ;
    r as u8
}

impl Apa106Led {
    /// Scale all three channels by the multiplier, truncating.
    pub fn fade(self, multiplier: Ratio) -> (r: Apa106Led)
        requires
            multiplier.den >= 1,
        ensures
            r == spec_fade(self, multiplier.num as int, multiplier.den as int),
    {
        Apa106Led {
            red: scale_channel(self.red, multiplier),
            green: scale_channel(self.green, multiplier),
            blue: scale_channel(self.blue, multiplier),
        }
    }

    /// Interpolate each channel from `self` towards `other`; a ratio of
    /// zero gives `self`, a ratio of one gives `other`.
    pub fn lerp(&self, other: Self, ratio: Ratio) -> (r: Self)
        requires
            ratio.den >= 1,
            ratio.num <= ratio.den,
        ensures
            r == spec_lerp(*self, other, ratio.num as int, ratio.den as int),
    {
        Apa106Led {
            red: lerp_channel(self.red, other.red, ratio),
            green: lerp_channel(self.green, other.green, ratio),
            blue: lerp_channel(self.blue, other.blue, ratio),
        }
    }

    /// Per-channel sum, saturating at the channel maximum instead of
    /// wrapping.
    pub fn saturating_add(self, rhs: Apa106Led) -> (r: Apa106Led)
        ensures
            r == spec_add(self, rhs),
    {
        Apa106Led {
            red: self.red.saturating_add(rhs.red),
            green: self.green.saturating_add(rhs.green),
            blue: self.blue.saturating_add(rhs.blue),
        }
    }
}

/// Scaling by zero turns any colour off.
pub proof fn lemma_fade_zero(c: Apa106Led, den: int)
    requires
        den >= 1,
    ensures
        spec_fade(c, 0, den) == spec_off(),
{
}

/// Scaling by one returns any colour unchanged.
pub proof fn lemma_fade_one(c: Apa106Led, den: int)
    requires
        den >= 1,
    ensures
        spec_fade(c, den, den) == c,
{
    assert(c.red as int * den / den == c.red as int) by (nonlinear_arith)
        requires
            den >= 1,
    ;
    assert(c.green as int * den / den == c.green as int) by (nonlinear_arith)
        requires
            den >= 1,
    ;
    assert(c.blue as int * den / den == c.blue as int) by (nonlinear_arith)
        requires
            den >= 1,
    ;
}

/// Interpolating by zero gives the first colour.
pub proof fn lemma_lerp_zero(a: Apa106Led, b: Apa106Led, den: int)
    requires
        den >= 1,
    ensures
        spec_lerp(a, b, 0, den) == a,
{
    assert(a.red as int * den / den == a.red as int) by (nonlinear_arith)
        requires
            den >= 1,
    ;
    assert(a.green as int * den / den == a.green as int) by (nonlinear_arith)
        requires
            den >= 1,
    ;
    assert(a.blue as int * den / den == a.blue as int) by (nonlinear_arith)
        requires
            den >= 1,
    ;
}

/// Interpolating by one gives the second colour.
pub proof fn lemma_lerp_one(a: Apa106Led, b: Apa106Led, den: int)
    requires
        den >= 1,
    ensures
        spec_lerp(a, b, den, den) == b,
{
    assert(b.red as int * den / den == b.red as int) by (nonlinear_arith)
        requires
            den >= 1,
    ;
    assert(b.green as int * den / den == b.green as int) by (nonlinear_arith)
        requires
            den >= 1,
    ;
    assert(b.blue as int * den / den == b.blue as int) by (nonlinear_arith)
        requires
            den >= 1,
    ;
}

/// Whether bit `bit_index` (counting from the least significant end) of
/// `byte` is set.
pub open spec fn spec_bit_is_set(byte: u8, bit_index: u8) -> bool {
    byte & (1u8 << bit_index) != 0
}

/// Whether bit `bit_index` of `byte` is set.
pub fn bit_is_set(byte: u8, bit_index: u8) -> (r: bool)
    requires
        bit_index < 8,
    ensures
        r == spec_bit_is_set(byte, bit_index),
{
    (byte & (1u8 << bit_index)) != 0
}

/// The wire byte for one bit of a channel: `ON_BYTE` where the bit is set,
/// `OFF_BYTE` where it is clear.
pub open spec fn spec_bit_byte(byte: u8, bit_index: u8) -> u8 {
    if spec_bit_is_set(byte, bit_index) {
        ON_BYTE
    } else {
        OFF_BYTE
    }
}

/// The 24 wire bytes for one colour: 8 per channel, most significant bit
/// first, red then green then blue.
pub open spec fn spec_colour_bytes(c: Apa106Led, j: int) -> u8 {
    if j < 8 {
        spec_bit_byte(c.red, (7 - j) as u8)
    } else if j < 16 {
        spec_bit_byte(c.green, (15 - j) as u8)
    } else {
        spec_bit_byte(c.blue, (23 - j) as u8)
    }
}

/// Expand a colour into its 24 wire bytes, most significant bit first.
fn colour_to_raw(input: &Apa106Led) -> (bytes: [u8; 24])
    ensures
        forall|j: int| 0 <= j < 24 ==> bytes[j] == spec_colour_bytes(*input, j),
{
    let mut bytes: [u8; 24] = [0; 24];

    for pos in 0..8usize
        invariant
            forall|j: int| 8 - pos <= j < 8 ==> bytes[j] == spec_colour_bytes(*input, j),
            forall|j: int| 16 - pos <= j < 16 ==> bytes[j] == spec_colour_bytes(*input, j),
            forall|j: int| 24 - pos <= j < 24 ==> bytes[j] == spec_colour_bytes(*input, j),
    {
        bytes[7 - pos] = if bit_is_set(input.red, pos as u8) {
            ON_BYTE
        } else {
            OFF_BYTE
        };

        bytes[8 + (7 - pos)] = if bit_is_set(input.green, pos as u8) {
            ON_BYTE
        } else {
            OFF_BYTE
        };

        bytes[16 + (7 - pos)] = if bit_is_set(input.blue, pos as u8) {
            ON_BYTE
        } else {
            OFF_BYTE
        };
    }

    bytes
}

impl Apa106Led {
    /// The 24 protocol bytes that reproduce this colour on the wire.
    pub fn as_bitbang_data(&self) -> (bytes: [u8; 24])
        ensures
            forall|j: int| 0 <= j < 24 ==> bytes[j] == spec_colour_bytes(*self, j),
    {
        colour_to_raw(self)
    }
}

/// Red-green-white colour wheel: the 0-255 input is divided into three
/// 85-wide arcs with linear ramps between red, green and white.
pub open spec fn spec_christmas_wheel(wheelpos: u8) -> Apa106Led {
    if wheelpos < 85 {
        Apa106Led {
            red: (255 - wheelpos * 3) as u8,
            green: (wheelpos * 3) as u8,
            blue: 0,
        }
    } else if wheelpos < 170 {
        Apa106Led {
            red: ((wheelpos - 85) * 3) as u8,
            green: 255,
            blue: ((wheelpos - 85) * 3) as u8,
        }
    } else {
        Apa106Led {
            red: 255,
            green: (255 - (wheelpos - 170) * 3) as u8,
            blue: (255 - (wheelpos - 170) * 3) as u8,
        }
    }
}

/// Red - green - white colour wheel.
pub fn christmas_wheel(wheelpos: u8) -> (c: Apa106Led)
    ensures
        c == spec_christmas_wheel(wheelpos),
{
    let mut thingy = wheelpos;

    // Ramp red down to 0, green up to 255
    if thingy < 85 {
        Apa106Led { red: 255 - thingy * 3, green: thingy * 3, blue: 0 }
    } else if thingy < 170 {
        // Ramp red and blue up, leave green at 255
        thingy -= 85;

        Apa106Led { red: thingy * 3, green: 255, blue: thingy * 3 }
    } else {
        // Ramp green and blue down, leave red at 255
        thingy -= 170;

        Apa106Led { red: 255, green: 255 - thingy * 3, blue: 255 - thingy * 3 }
    }
}

} // verus!
