//! A red/green/white colour cycle distributed through the cube.
//!
//! Each voxel takes a time- and index-derived position on the christmas
//! colour wheel, cycling once per configured duration; the per-index
//! offset spreads the cycle spatially.

use vstd::prelude::*;

use crate::apa106led::{christmas_wheel, spec_christmas_wheel, Apa106Led};

verus! {

/// The christmas colour-cycling pattern.
#[derive(Debug, Copy, Clone)]
pub struct ChristmasPuke {
    duration: u32,
}

impl ChristmasPuke {
    /// The cycle duration is positive, so elapsed time divides by it.
    #[verifier::type_invariant]
    pub closed spec fn wf(self) -> bool {
        self.duration >= 1
    }

    /// The configured cycle duration in milliseconds.
    pub closed spec fn spec_duration(self) -> u32 {
        self.duration
    }

    /// The wheel position of one voxel: the voxel's offset (1/64 of the
    /// duration per index) plus the position inside the current cycle,
    /// wrapped to the cycle and scaled down to the wheel's byte domain.
    pub open spec fn spec_wheelpos(self, idx: int, time: int) -> int {
        let duration = self.spec_duration() as int;
        let pos = time % duration;
        let offset = (duration / 64) * idx;
        let wrapped = (pos + offset) % duration;
        wrapped * 255 / duration
    }

    /// The colour of one voxel at one instant.
    pub open spec fn spec_pixel(self, idx: int, time: int) -> Apa106Led {
        spec_christmas_wheel(self.spec_wheelpos(idx, time) as u8)
    }

    /// The colour of one voxel at `time` milliseconds into the pattern.
    pub fn pixel_at(&mut self, idx: usize, time: u32) -> (c: Apa106Led)
        requires
            idx < 64,
        ensures
            *final(self) == *old(self),
            c == old(self).spec_pixel(idx as int, time as int),
    {
        proof {
            use_type_invariant(&*self);
        }
        let duration: u64 = self.duration as u64;

        let pos: u64 = (time as u64) % duration;

        // Add an offset 0 -> duration for each voxel to distribute pattern
        // throughout cube.
        let step: u64 = duration / 64;
        assert(step * (idx as u64) <= step * 64) by (nonlinear_arith)
            requires
                idx as u64 <= 64,
                step >= 0,
        ;
        let offset: u64 = step * (idx as u64);

        // Get 0 -> duration position for wheel function
        let wrapped: u64 = (pos + offset) % duration;

        // Scale to 0 -> 255 for the u8 wheel input
        assert(wrapped as int * 255 < duration as int * 255) by (nonlinear_arith)
            requires
                wrapped < duration,
        ;
        assert(wrapped as int * 255 / (duration as int) < 255) by (nonlinear_arith)
            requires
                duration >= 1,
                wrapped as int * 255 < duration as int * 255,
        ;
        let wheelpos: u64 = wrapped * 255 / duration;

        christmas_wheel(wheelpos as u8)
    }

    /// How many whole cycles the pattern has run after `time`
    /// milliseconds.
    pub fn completed_cycles(&self, time: u32) -> (n: u32)
        ensures
            n == time as int / self.spec_duration() as int,
    {
        proof {
            use_type_invariant(self);
        }
        time / self.duration
    }
}

impl Default for ChristmasPuke {
    /// A four-second cycle.
    fn default() -> (r: Self)
        ensures
            r.spec_duration() == 4000,
    {
        Self { duration: 4000 }
    }
}

} // verus!
