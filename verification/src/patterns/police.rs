//! A whole-cube strobe alternating red and blue, used by the simulator
//! profile.

use vstd::prelude::*;

use crate::apa106led::Apa106Led;

verus! {

/// The police strobe: red for the first half of each period, blue for the
/// second.
#[derive(Debug, Copy, Clone)]
pub struct Police {
    speed: u32,
}

impl Police {
    /// The strobe period is positive, so elapsed time divides by it.
    #[verifier::type_invariant]
    pub closed spec fn wf(self) -> bool {
        self.speed >= 1
    }

    /// The strobe period in milliseconds.
    pub closed spec fn spec_speed(self) -> u32 {
        self.speed
    }

    /// The colour of every voxel at one instant: red in the first half of
    /// the period, blue in the second.
    pub open spec fn spec_pixel(self, idx: int, time: int) -> Apa106Led {
        if time % (self.spec_speed() as int) < self.spec_speed() as int / 2 {
            Apa106Led { red: 255, green: 0, blue: 0 }
        } else {
            Apa106Led { red: 0, green: 0, blue: 255 }
        }
    }

    /// The colour of one voxel at `time` milliseconds into the pattern.
    pub fn pixel_at(&mut self, idx: usize, time: u32) -> (c: Apa106Led)
        requires
            idx < 64,
        ensures
            *final(self) == *old(self),
            c == old(self).spec_pixel(idx as int, time as int),
    {
        proof {
            use_type_invariant(&*self);
        }
        let is_red = (time % self.speed) < self.speed / 2;

        if is_red {
            Apa106Led { red: 255, green: 0, blue: 0 }
        } else {
            Apa106Led { red: 0, green: 0, blue: 255 }
        }
    }

    /// How many whole periods the strobe has run after `time`
    /// milliseconds.
    pub fn completed_cycles(&self, time: u32) -> (n: u32)
        ensures
            n == time as int / self.spec_speed() as int,
    {
        proof {
            use_type_invariant(self);
        }
        time / self.speed
    }
}

impl Default for Police {
    /// A one-second period.
    fn default() -> (r: Self)
        ensures
            r.spec_speed() == 1000,
    {
        Self { speed: 1000 }
    }
}

} // verus!
