//! Coordinate slices sweeping through the cube axis by axis.
//!
//! For the active axis, one slice at a time fades in fully; once all four
//! are lit the whole cube fades back to black, the axis advances in the
//! fixed X -> Y -> Z rotation and the sweep restarts.  The internal stage
//! machine advances whenever the elapsed time passes a threshold that
//! moves forward by one fade time per stage; slice brightnesses only
//! change when voxel index zero is queried, once per frame.

use vstd::prelude::*;

use crate::apa106led::{spec_fade, Apa106Led};
use crate::ratio::Ratio;
use crate::voxel::Voxel;

verus! {

/// The sweep axis.
#[derive(Debug, Copy, Clone, PartialEq, Eq, Structural)]
pub enum Direction {
    /// Left to right
    X,
    /// Front to back
    Y,
    /// Top down
    Z,
}

impl Direction {
    /// The axis that follows this one in the fixed rotation.
    pub open spec fn spec_next_dir(self) -> Direction {
        match self {
            Direction::X => Direction::Y,
            Direction::Y => Direction::Z,
            Direction::Z => Direction::X,
        }
    }

    /// The axis that follows this one in the fixed rotation.
    pub fn next_dir(self) -> (d: Direction)
        ensures
            d == self.spec_next_dir(),
    {
        match self {
            Self::X => Self::Y,
            Self::Y => Self::Z,
            Self::Z => Self::X,
        }
    }

    /// The colour each axis sweeps with.
    pub open spec fn spec_colour(self) -> Apa106Led {
        match self {
            Direction::X => Apa106Led { red: 255, green: 0, blue: 0 },
            Direction::Y => Apa106Led { red: 0, green: 255, blue: 0 },
            Direction::Z => Apa106Led { red: 255, green: 255, blue: 255 },
        }
    }

    /// The colour each axis sweeps with: red for X, green for Y, white
    /// for Z.
    pub fn colour(self) -> (c: Apa106Led)
        ensures
            c == self.spec_colour(),
    {
        match self {
            // Red
            Self::X => Apa106Led { red: 255, green: 0, blue: 0 },
            // Green
            Self::Y => Apa106Led { red: 0, green: 255, blue: 0 },
            // White
            Self::Z => Apa106Led { red: 255, green: 255, blue: 255 },
        }
    }

    /// A voxel's coordinate along this axis.
    pub open spec fn spec_coord(self, v: Voxel) -> u8 {
        match self {
            Direction::X => v.x,
            Direction::Y => v.y,
            Direction::Z => v.z,
        }
    }
}

/// Where the sweep stands: fading one slice in, or fading the whole cube
/// out.
#[derive(Debug, Copy, Clone, PartialEq, Eq, Structural)]
pub enum Stage {
    Init,
    FadeIn { idx: usize },
    FadeOut,
}

/// The slice-sweep pattern.
#[derive(Debug, Copy, Clone)]
pub struct Slices {
    /// Slice fade in/out time, ms.
    fade_time: u32,
    /// Brightness numerator of each slice, over `fade_time`.
    brightnesses: [u32; 4],
    /// Animation direction
    dir: Direction,
    stage: Stage,
    threshold: u32,
}

impl Slices {
    /// The fade time is positive and bounded, brightnesses never exceed
    /// it, and a fade-in stage points at one of the four slices.
    #[verifier::type_invariant]
    pub closed spec fn wf(self) -> bool {
        &&& 1 <= self.fade_time <= 1000000
        &&& forall|i: int| 0 <= i < 4 ==> self.brightnesses@[i] <= self.fade_time
        &&& match self.stage {
            Stage::FadeIn { idx } => idx <= 3,
            _ => true,
        }
    }

    /// How long one slice takes to fade in or out, in milliseconds.
    pub closed spec fn spec_fade_time(self) -> u32 {
        self.fade_time
    }

    /// The active sweep axis.
    pub closed spec fn spec_dir(self) -> Direction {
        self.dir
    }

    /// The current stage of the sweep.
    pub closed spec fn spec_stage(self) -> Stage {
        self.stage
    }

    /// The time at which the current stage ends.
    pub closed spec fn spec_threshold(self) -> u32 {
        self.threshold
    }

    /// The brightness numerator of each of the four slices, over the fade
    /// time.
    pub closed spec fn spec_brightnesses(self) -> Seq<u32> {
        self.brightnesses@
    }
}

/// How one query at (idx, time) changes the sweep state: past the
/// threshold the stage advances (and leaving the fade-out resets the
/// brightnesses and rotates the axis); index zero then raises the active
/// slice's brightness towards the elapsed share of the fade time, or caps
/// every slice during a fade-out.
pub open spec fn spec_slices_step(pre: Slices, post: Slices, idx: int, time: int) -> bool {
    let advanced = time >= pre.spec_threshold();
    let reset = advanced && pre.spec_stage() is FadeOut;
    let dir1 = if reset {
        pre.spec_dir().spec_next_dir()
    } else {
        pre.spec_dir()
    };
    let b1 = if reset {
        Seq::new(4, |k: int| 0u32)
    } else {
        pre.spec_brightnesses()
    };
    let stage1 = if !advanced {
        pre.spec_stage()
    } else {
        match pre.spec_stage() {
            Stage::Init => Stage::FadeIn { idx: 0 },
            Stage::FadeIn { idx: i } => if i < 3 {
                Stage::FadeIn { idx: (i + 1) as usize }
            } else {
                Stage::FadeOut
            },
            Stage::FadeOut => Stage::FadeIn { idx: 0 },
        }
    };
    let th1 = if advanced {
        time + pre.spec_fade_time()
    } else {
        pre.spec_threshold() as int
    };
    let bn = time % (pre.spec_fade_time() as int);
    let cap = pre.spec_fade_time() - bn;
    let b2 = if idx != 0 {
        b1
    } else {
        match stage1 {
            Stage::Init => b1,
            Stage::FadeIn { idx: i } => b1.update(
                i as int,
                (if bn > b1[i as int] {
                    bn
                } else {
                    b1[i as int] as int
                }) as u32,
            ),
            Stage::FadeOut => b1.update(
                0,
                (if cap < b1[0] {
                    cap
                } else {
                    b1[0] as int
                }) as u32,
            ).update(
                1,
                (if cap < b1[1] {
                    cap
                } else {
                    b1[1] as int
                }) as u32,
            ).update(
                2,
                (if cap < b1[2] {
                    cap
                } else {
                    b1[2] as int
                }) as u32,
            ).update(
                3,
                (if cap < b1[3] {
                    cap
                } else {
                    b1[3] as int
                }) as u32,
            ),
        }
    };
    &&& post.spec_fade_time() == pre.spec_fade_time()
    &&& post.spec_dir() == dir1
    &&& post.spec_stage() == stage1
    &&& post.spec_threshold() == th1
    &&& post.spec_brightnesses() =~= b2
}

impl Slices {
    /// The colour of one voxel, read from the state the query left behind:
    /// the axis colour scaled by the brightness of the slice the voxel
    /// lies in.
    pub open spec fn spec_pixel(self, idx: int, time: int) -> Apa106Led {
        let v = Voxel::spec_from_index(idx);
        let pos = self.spec_dir().spec_coord(v);
        spec_fade(
            self.spec_dir().spec_colour(),
            self.spec_brightnesses()[pos as int] as int,
            self.spec_fade_time() as int,
        )
    }

    /// The colour of one voxel at `time` milliseconds into the pattern.
    ///
    /// Index zero must be queried first in each frame: it advances the
    /// stage machine and updates the slice brightnesses.
    #[verifier::rlimit(60)]
    pub fn pixel_at(&mut self, idx: usize, time: u32) -> (c: Apa106Led)
        requires
            idx < 64,
            time < 0x8000_0000,
        ensures
            spec_slices_step(*old(self), *final(self), idx as int, time as int),
            c == final(self).spec_pixel(idx as int, time as int),
            final(self).spec_threshold() > time,
            idx != 0 && time < old(self).spec_threshold() ==> *final(self) == *old(self),
    {
        proof {
            use_type_invariant(&*self);
        }
        let brightness: u32 = time % self.fade_time;

        // Past end of current stage. Transition state to next phase.
        if time >= self.threshold {
            self.threshold = time + self.fade_time;

            self.stage = match self.stage {
                // Noop - all the state is set up; only `self.threshold`
                // moves in this iteration.
                Stage::Init => Stage::FadeIn { idx: 0 },
                // Move on to the next slice, or past the last one fade the
                // whole cube out.
                Stage::FadeIn { idx } => {
                    if idx < 3 {
                        Stage::FadeIn { idx: idx + 1 }
                    } else {
                        Stage::FadeOut
                    }
                },
                // Finished fading out. Reset to zero slice index, change
                // direction.
                Stage::FadeOut => {
                    self.dir = self.dir.next_dir();
                    self.brightnesses = [0u32; 4];

                    Stage::FadeIn { idx: 0 }
                },
            };
        }

        if idx == 0 {
            match self.stage {
                Stage::Init => {},
                Stage::FadeIn { idx } => {
                    if brightness > self.brightnesses[idx] {
                        self.brightnesses[idx] = brightness;
                    }
                },
                Stage::FadeOut => {
                    let cap = self.fade_time - brightness;
                    if cap < self.brightnesses[0] {
                        self.brightnesses[0] = cap;
                    }
                    if cap < self.brightnesses[1] {
                        self.brightnesses[1] = cap;
                    }
                    if cap < self.brightnesses[2] {
                        self.brightnesses[2] = cap;
                    }
                    if cap < self.brightnesses[3] {
                        self.brightnesses[3] = cap;
                    }
                },
            }
        }

        let voxel = Voxel::from_index(idx);

        // Voxel coordinate along current slice axis
        let voxel_pos = match self.dir {
            Direction::X => voxel.x,
            Direction::Y => voxel.y,
            Direction::Z => voxel.z,
        };

        let colour = self.dir.colour();

        colour.fade(Ratio::new(self.brightnesses[voxel_pos as usize], self.fade_time))
    }

    /// How many whole sweeps (four fade-ins and a fade-out on each of the
    /// three axes) the pattern has run after `time` milliseconds.
    pub fn completed_cycles(&self, time: u32) -> (n: u32)
        ensures
            n == time as int / (15 * self.spec_fade_time() as int),
    {
        proof {
            use_type_invariant(self);
        }
        // Fade for 4 voxels per direction + fadeout time * 3 directions
        let total_time = self.fade_time * 5 * 3;

        time / total_time
    }
}

impl Default for Slices {
    /// A half-second fade per slice, starting on the Z axis with the
    /// first slice dark.
    fn default() -> (r: Self)
        ensures
            r.spec_fade_time() == 500,
            r.spec_dir() == Direction::Z,
            r.spec_stage() == (Stage::FadeIn { idx: 0usize }),
            r.spec_threshold() == 500,
            r.spec_brightnesses() =~= Seq::new(4, |k: int| 0u32),
    {
        let fade_time: u32 = 500;

        Self {
            fade_time,
            dir: Direction::Z,
            brightnesses: [0u32; 4],
            stage: Stage::FadeIn { idx: 0 },
            threshold: fade_time,
        }
    }
}

} // verus!
