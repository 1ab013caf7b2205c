//! Blends between an outgoing frame and the incoming pattern's frame.
//!
//! Each transition runs over a fixed duration in milliseconds.
//! `next_start_offset` says when the incoming pattern's own clock starts:
//! zero means it already animates underneath the blend, a positive offset
//! means it stays frozen at its first frame until the transition finishes.
//! Completion is strictly `elapsed > duration`, a deliberate off-by-one
//! kept for timing compatibility.

use vstd::prelude::*;

use crate::apa106led::{spec_fade, spec_lerp, Apa106Led};
use crate::ratio::Ratio;

verus! {

/// The elapsed share of a duration, capped at the full duration.
pub open spec fn spec_capped(time: int, duration: int) -> int {
    if time > duration {
        duration
    } else {
        time
    }
}

/// Fade the outgoing frame down to black; the incoming pattern starts its
/// clock only once the fade is done.
#[derive(Debug, Copy, Clone)]
pub struct FadeToBlack {
    duration: u32,
}

/// Fade the incoming pattern up from black while its clock already runs.
#[derive(Debug, Copy, Clone)]
pub struct FadeFromBlack {
    duration: u32,
}

/// Interpolate from the outgoing frame to the incoming pattern's frame
/// while both clocks run.
#[derive(Debug, Copy, Clone)]
pub struct CrossFade {
    duration: u32,
}

impl FadeToBlack {
    /// Durations are positive and small enough that no tick arithmetic
    /// overflows.
    #[verifier::type_invariant]
    pub closed spec fn wf(self) -> bool {
        1 <= self.duration <= 1000000
    }

    /// The fixed length of the blend, in milliseconds.
    pub closed spec fn spec_duration(self) -> u32 {
        self.duration
    }

    /// The blend of one pixel: the outgoing colour scaled by the share of
    /// the duration still to run; the incoming colour is ignored.
    pub open spec fn spec_pixel(self, time: int, current: Apa106Led, next: Apa106Led) -> Apa106Led {
        spec_fade(
            current,
            self.spec_duration() - spec_capped(time, self.spec_duration() as int),
            self.spec_duration() as int,
        )
    }
}

impl Default for FadeToBlack {
    /// A two-second fade out.
    fn default() -> (r: Self)
        ensures
            r.spec_duration() == 2000,
    {
        Self { duration: 2000 }
    }
}

impl FadeFromBlack {
    /// Durations are positive and small enough that no tick arithmetic
    /// overflows.
    #[verifier::type_invariant]
    pub closed spec fn wf(self) -> bool {
        1 <= self.duration <= 1000000
    }

    /// The fixed length of the blend, in milliseconds.
    pub closed spec fn spec_duration(self) -> u32 {
        self.duration
    }

    /// The blend of one pixel: the incoming colour scaled by the elapsed
    /// share of the duration; the outgoing colour is ignored.
    pub open spec fn spec_pixel(self, time: int, current: Apa106Led, next: Apa106Led) -> Apa106Led {
        spec_fade(
            next,
            spec_capped(time, self.spec_duration() as int),
            self.spec_duration() as int,
        )
    }
}

impl Default for FadeFromBlack {
    /// A one-second fade in.
    fn default() -> (r: Self)
        ensures
            r.spec_duration() == 1000,
    {
        Self { duration: 1000 }
    }
}

impl CrossFade {
    /// Durations are positive and small enough that no tick arithmetic
    /// overflows.
    #[verifier::type_invariant]
    pub closed spec fn wf(self) -> bool {
        1 <= self.duration <= 1000000
    }

    /// The fixed length of the blend, in milliseconds.
    pub closed spec fn spec_duration(self) -> u32 {
        self.duration
    }

    /// The blend of one pixel: the interpolation from the outgoing to the
    /// incoming colour by the elapsed share of the duration, clamped to
    /// one past completion.
    pub open spec fn spec_pixel(self, time: int, current: Apa106Led, next: Apa106Led) -> Apa106Led {
        spec_lerp(
            current,
            next,
            spec_capped(time, self.spec_duration() as int),
            self.spec_duration() as int,
        )
    }
}

impl Default for CrossFade {
    /// A four-second cross fade.
    fn default() -> (r: Self)
        ensures
            r.spec_duration() == 4000,
    {
        Self { duration: 4000 }
    }
}

/// The closed set of scene transitions.
#[derive(Debug, Copy, Clone)]
pub enum Transition {
    FadeToBlack(FadeToBlack),
    FadeFromBlack(FadeFromBlack),
    CrossFade(CrossFade),
}

impl Transition {
    /// The fixed length of the blend, in milliseconds.
    pub open spec fn spec_duration(self) -> u32 {
        match self {
            Transition::FadeToBlack(t) => t.spec_duration(),
            Transition::FadeFromBlack(t) => t.spec_duration(),
            Transition::CrossFade(t) => t.spec_duration(),
        }
    }

    /// When the incoming pattern's own clock starts, relative to the start
    /// of the transition.
    pub open spec fn spec_next_start_offset(self) -> u32 {
        match self {
            Transition::FadeToBlack(t) => t.spec_duration(),
            Transition::FadeFromBlack(_) => 0,
            Transition::CrossFade(_) => 0,
        }
    }

    /// The blend of one pixel at `time` milliseconds into the transition.
    pub open spec fn spec_pixel_at(self, time: int, current: Apa106Led, next: Apa106Led) -> Apa106Led {
        match self {
            Transition::FadeToBlack(t) => t.spec_pixel(time, current, next),
            Transition::FadeFromBlack(t) => t.spec_pixel(time, current, next),
            Transition::CrossFade(t) => t.spec_pixel(time, current, next),
        }
    }

    /// Whether the transition is over: strictly after `duration`, never at
    /// it.
    pub open spec fn spec_is_complete(self, time: int) -> bool {
        time > self.spec_duration()
    }

    /// Blend one pixel of the outgoing frame with the incoming pattern's
    /// colour for the same voxel.
    pub fn transition_pixel(&self, time: u32, current: Apa106Led, next: Apa106Led) -> (c:
        Apa106Led)
        ensures
            c == self.spec_pixel_at(time as int, current, next),
    {
        match self {
            Transition::FadeToBlack(t) => {
                proof {
                    use_type_invariant(t);
                }
                let m = Ratio::of_elapsed(time, t.duration);
                current.fade(m.complement())
            },
            Transition::FadeFromBlack(t) => {
                proof {
                    use_type_invariant(t);
                }
                let m = Ratio::of_elapsed(time, t.duration);
                next.fade(m)
            },
            Transition::CrossFade(t) => {
                proof {
                    use_type_invariant(t);
                }
                let m = Ratio::of_elapsed(time, t.duration);
                current.lerp(next, m)
            },
        }
    }

    /// When the incoming pattern's own clock starts, relative to the start
    /// of the transition.
    pub fn next_start_offset(&self) -> (offset: u32)
        ensures
            offset == self.spec_next_start_offset(),
    {
        match self {
            Transition::FadeToBlack(t) => t.duration,
            Transition::FadeFromBlack(_) => 0,
            Transition::CrossFade(_) => 0,
        }
    }

    /// The fixed length of the blend, in milliseconds.
    pub fn duration(&self) -> (d: u32)
        ensures
            d == self.spec_duration(),
    {
        match self {
            Transition::FadeToBlack(t) => t.duration,
            Transition::FadeFromBlack(t) => t.duration,
            Transition::CrossFade(t) => t.duration,
        }
    }

    /// Whether the transition is over: false at `duration` exactly, true
    /// one millisecond later.
    pub fn is_complete(&self, time: u32) -> (r: bool)
        ensures
            r == self.spec_is_complete(time as int),
    {
        time > self.duration()
    }
}

} // verus!
