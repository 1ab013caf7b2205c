//! Rational blend factors.
//!
//! Every multiplier the animation code uses is a quotient of two integers
//! already at hand (elapsed time over a duration, a brightness step over the
//! fade time), so a colour multiplier is carried as an explicit
//! numerator/denominator pair and applied with truncating integer division.

use vstd::prelude::*;

verus! {

/// A non-negative rational multiplier `num / den`.
///
/// The denominator must be positive wherever the ratio is applied; callers
/// that need a multiplier in `[0, 1]` clamp the numerator themselves (see
/// [`Ratio::of_elapsed`]).
#[derive(Copy, Clone, Debug, PartialEq, Eq, Structural)]
pub struct Ratio {
    pub num: u32,
    pub den: u32,
}

impl Ratio {
    /// The multiplier `num / den`.
    pub fn new(num: u32, den: u32) -> (r: Ratio)
        requires
            den >= 1,
        ensures
            r.num == num,
            r.den == den,
    {
        Ratio { num, den }
    }

    /// The multiplier zero.
    pub fn zero() -> (r: Ratio)
        ensures
            r.num == 0,
            r.den == 1,
    {
        Ratio { num: 0, den: 1 }
    }

    /// The multiplier one.
    pub fn one() -> (r: Ratio)
        ensures
            r.num == 1,
            r.den == 1,
    {
        Ratio { num: 1, den: 1 }
    }

    /// The fraction of `duration` that has elapsed at `time`, clamped to one
    /// once `time` passes `duration`.
    pub fn of_elapsed(time: u32, duration: u32) -> (r: Ratio)
        requires
            duration >= 1,
        ensures
            r.den == duration,
            r.num == if time > duration { duration as int } else { time as int },
            r.num <= r.den,
    {
        if time > duration {
            Ratio { num: duration, den: duration }
        } else {
            Ratio { num: time, den: duration }
        }
    }

    /// The multiplier `1 - num / den`, for a ratio no greater than one.
    pub fn complement(self) -> (r: Ratio)
        requires
            self.den >= 1,
            self.num <= self.den,
        ensures
            r.num == self.den - self.num,
            r.den == self.den,
            r.num <= r.den,
    {
        Ratio { num: self.den - self.num, den: self.den }
    }
}

} // verus!
