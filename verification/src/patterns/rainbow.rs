//! A rotating rainbow spread spatially across the cube.
//!
//! The three channels are three sine waves a third of a turn apart in
//! phase, amplitude-scaled to the channel range.  Each voxel adds a phase
//! offset proportional to its wiring index, spreading the rainbow through
//! the cube; one cycle of the pattern takes the configured duration.

use vstd::prelude::*;

use crate::apa106led::Apa106Led;
use crate::wave::{sin_scaled, spec_sin_scaled};

verus! {

/// The rainbow pattern: a pure function of (index, elapsed time) with a
/// fixed cycle duration.
#[derive(Debug, Copy, Clone)]
pub struct Rainbow {
    duration: u32,
}

impl Rainbow {
    /// The cycle duration is positive, so elapsed time divides by it.
    #[verifier::type_invariant]
    pub closed spec fn wf(self) -> bool {
        self.duration >= 1
    }

    /// The configured cycle duration in milliseconds.
    pub closed spec fn spec_duration(self) -> u32 {
        self.duration
    }

    /// The sine phase of the red channel for a voxel: elapsed time sweeps
    /// half a turn per duration, and each index is offset by 1/128 of a
    /// turn.  Green and blue trail by a third of a turn each.
    pub open spec fn spec_phase(self, idx: int, time: int) -> int {
        time * 768 / (self.spec_duration() as int) + idx * 12
    }

    /// The colour of one voxel at one instant.
    pub open spec fn spec_pixel(self, idx: int, time: int) -> Apa106Led {
        let phase = self.spec_phase(idx, time);
        Apa106Led {
            red: spec_sin_scaled(phase) as u8,
            green: spec_sin_scaled(phase + 512) as u8,
            blue: spec_sin_scaled(phase + 1024) as u8,
        }
    }

    /// The colour of one voxel at `time` milliseconds into the pattern.
    pub fn pixel_at(&mut self, idx: usize, time: u32) -> (c: Apa106Led)
        requires
            idx < 64,
        ensures
            *final(self) == *old(self),
            c == old(self).spec_pixel(idx as int, time as int),
    {
        proof {
            use_type_invariant(&*self);
        }
        let base: u64 = (time as u64) * 768 / (self.duration as u64);
        let phase: u64 = base + (idx as u64) * 12;

        let r = sin_scaled((phase % 1536) as u32);
        let g = sin_scaled(((phase + 512) % 1536) as u32);
        let b = sin_scaled(((phase + 1024) % 1536) as u32);

        Apa106Led { red: r, green: g, blue: b }
    }

    /// How many whole cycles the pattern has run after `time`
    /// milliseconds.
    pub fn completed_cycles(&self, time: u32) -> (n: u32)
        ensures
            n == time as int / self.spec_duration() as int,
    {
        proof {
            use_type_invariant(self);
        }
        time / self.duration
    }
}

impl Default for Rainbow {
    /// A one-second cycle.
    fn default() -> (r: Self)
        ensures
            r.spec_duration() == 1000,
    {
        Self { duration: 1000 }
    }
}

} // verus!
