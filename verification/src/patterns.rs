//! The closed set of animation patterns.
//!
//! Each pattern maps (voxel index, elapsed milliseconds) to a colour and
//! reports how many whole cycles it has completed, which the director uses
//! to decide when a scene has run long enough.  Patterns with frame-level
//! state mutate it only when index zero is queried, so a frame is rendered
//! by querying all 64 indices in order, index zero first.

use vstd::prelude::*;

pub mod christmas_puke;
pub mod police;
pub mod rainbow;
pub mod slices;
pub mod slow_rain;

use crate::apa106led::Apa106Led;
use crate::patterns::christmas_puke::ChristmasPuke;
use crate::patterns::rainbow::Rainbow;
use crate::patterns::slices::{spec_slices_step, Slices};
use crate::patterns::slow_rain::{spec_masks_step, spec_rain_pixel, SlowRain};
use crate::voxel::Voxel;

verus! {

/// One of the animation scenes the director can play.
#[derive(Debug)]
pub enum Pattern {
    Rainbow(Rainbow),
    SlowRain(SlowRain),
    ChristmasPuke(ChristmasPuke),
    Slices(Slices),
}

/// How one query at (idx, time) relates the pattern state before (`p`)
/// and after (`p2`), and what colour (`c`) it renders.  The stateless
/// patterns are untouched and the colour is their pixel function; the
/// slice sweep steps its stage machine; the rain pattern runs its column
/// bookkeeping on index zero, with handoff choices that depend on the
/// generator, and renders from the state that leaves behind.
pub open spec fn spec_pixel_rel(p: Pattern, p2: Pattern, idx: int, time: int, c: Apa106Led) -> bool {
    match p {
        Pattern::Rainbow(r) => {
            &&& p2 == p
            &&& c == r.spec_pixel(idx, time)
        },
        Pattern::ChristmasPuke(cp) => {
            &&& p2 == p
            &&& c == cp.spec_pixel(idx, time)
        },
        Pattern::Slices(s) => match p2 {
            Pattern::Slices(s2) => {
                &&& spec_slices_step(s, s2, idx, time)
                &&& c == s2.spec_pixel(idx, time)
                &&& s2.spec_threshold() > time
                &&& idx != 0 && time < s.spec_threshold() ==> s2 == s
            },
            _ => false,
        },
        Pattern::SlowRain(sr) => match p2 {
            Pattern::SlowRain(sr2) => {
                &&& sr2.spec_duration() == sr.spec_duration()
                &&& sr2.spec_offsets() =~= sr.spec_offsets()
                &&& idx == 0 ==> spec_masks_step(
                    sr.spec_mask(),
                    sr2.spec_mask(),
                    sr.spec_offsets(),
                    sr.spec_duration() as int,
                    time,
                )
                &&& idx != 0 ==> p2 == p
                &&& c == ({
                    let vox = Voxel::spec_from_index(idx);
                    spec_rain_pixel(
                        sr.spec_duration() as int,
                        sr.spec_offsets()[vox.x + vox.y * 4] as int,
                        sr2.spec_mask()[vox.x + vox.y * 4],
                        vox.z as int,
                        time,
                    )
                })
            },
            _ => false,
        },
    }
}

/// The frame relation restricted to the first `v.len()` voxels: the state
/// step from index zero has happened, later queries left the state alone,
/// and the colours rendered so far are the stepped state's pixels.
pub open spec fn spec_frame_prefix(p: Pattern, p2: Pattern, v: Seq<Apa106Led>, time: int) -> bool {
    &&& v.len() >= 1
    &&& spec_pixel_rel(p, p2, 0, time, v[0])
    &&& forall|i: int| 1 <= i < v.len() ==> #[trigger] spec_pixel_rel(p2, p2, i, time, v[i])
}

/// How rendering one whole frame at `time` relates the pattern state
/// before and after, and what the 64 rendered colours are.
pub open spec fn spec_frame_rel(p: Pattern, p2: Pattern, v: Seq<Apa106Led>, time: int) -> bool {
    &&& v.len() == 64
    &&& spec_frame_prefix(p, p2, v, time)
}

impl Pattern {
    /// The colour of one voxel at `time` milliseconds into the pattern.
    /// Index zero must be queried first in each frame: it runs the
    /// pattern's frame-level bookkeeping.
    pub fn pixel_at(&mut self, idx: usize, time: u32) -> (c: Apa106Led)
        requires
            idx < 64,
            time < 0x8000_0000,
        ensures
            spec_pixel_rel(*old(self), *final(self), idx as int, time as int, c),
    {
        match self {
            Pattern::Rainbow(p) => p.pixel_at(idx, time),
            Pattern::SlowRain(p) => p.pixel_at(idx, time),
            Pattern::ChristmasPuke(p) => p.pixel_at(idx, time),
            Pattern::Slices(p) => p.pixel_at(idx, time),
        }
    }

    /// Render one whole frame: query all 64 voxels in index order at the
    /// same instant, letting index zero run the pattern's frame-level
    /// bookkeeping first.
    pub fn frame(&mut self, time: u32) -> (v: Vec<Apa106Led>)
        requires
            time < 0x8000_0000,
        ensures
            spec_frame_rel(*old(self), *final(self), v@, time as int),
    {
        let mut v: Vec<Apa106Led> = Vec::new();

        let first = self.pixel_at(0, time);
        v.push(first);

        let ghost stepped = *self;

        for idx in 1..64usize
            invariant
                time < 0x8000_0000,
                v@.len() == idx,
                *self == stepped,
                spec_frame_prefix(*old(self), stepped, v@, time as int),
        {
            let c = self.pixel_at(idx, time);
            v.push(c);
        }

        v
    }

    /// How many whole cycles the pattern has run after `time`
    /// milliseconds: elapsed time over the pattern's cycle length.
    pub fn completed_cycles(&self, time: u32) -> (n: u32)
        ensures
            n == self.spec_completed_cycles(time as int),
    {
        match self {
            Pattern::Rainbow(p) => p.completed_cycles(time),
            Pattern::SlowRain(p) => p.completed_cycles(time),
            Pattern::ChristmasPuke(p) => p.completed_cycles(time),
            Pattern::Slices(p) => p.completed_cycles(time),
        }
    }

    /// How many whole cycles each pattern has completed: elapsed time
    /// over its cycle length.
    pub open spec fn spec_completed_cycles(self, time: int) -> int {
        match self {
            Pattern::Rainbow(p) => time / p.spec_duration() as int,
            Pattern::SlowRain(p) => time / p.spec_duration() as int,
            Pattern::ChristmasPuke(p) => time / p.spec_duration() as int,
            Pattern::Slices(p) => time / (15 * p.spec_fade_time() as int),
        }
    }
}

} // verus!
