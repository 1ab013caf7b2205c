//! Sparse rain: bright points falling down the sixteen vertical columns.
//!
//! Each (x, y) column is independently visible or hidden.  A visible
//! column renders a falling point with a cosine-shaped tail travelling
//! down the z axis once per drop duration; a per-column offset derived
//! once from the seed desynchronises the drops.  When a drop reaches the
//! bottom its column probabilistically hands visibility to a hidden
//! column, with a reject-and-retry step for jitter, so the rain keeps
//! falling without whole-cube reseeding.  All column bookkeeping happens
//! when voxel index zero is queried, once per frame; rendering is then a
//! pure function of the column state.

use vstd::prelude::*;

use rand::rngs::SmallRng;

use crate::apa106led::{off, spec_off, spec_fade, spec_warm_white, warm_white, Apa106Led};
use crate::ratio::Ratio;
use crate::rng::{rng_fill_16, rng_from_seed, rng_next_u32};
use crate::voxel::Voxel;
use crate::wave::{sin_scaled, spec_sin_scaled};

verus! {

/// Visibility of one of the sixteen columns.
#[derive(Debug, Copy, Clone, PartialEq, Eq, Structural)]
pub enum Mask {
    Visible,
    Hidden,
    /// Wait until column position is at zero, then enable visibility.
    Stage,
}

/// The rain pattern.
#[derive(Debug)]
pub struct SlowRain {
    /// How long a drop takes to go from the top to the bottom of the cube.
    drop_duration: u32,
    /// Each column gets an offset so drops don't all fall together.
    offsets: [u8; 16],
    /// Turn columns on or off.
    mask: [Mask; 16],
    rng: SmallRng,
}

/// A column's position within its drop cycle, as a numerator over
/// `255 * duration`: elapsed time within the cycle plus the column's
/// offset as a fraction of the cycle, wrapped.
pub open spec fn spec_pos(dur: int, off: int, time: int) -> int {
    let p = time % dur;
    (p * 255 + off * dur) % (255 * dur)
}

/// Whether the column is at the very end of its cycle (the last hundredth),
/// where a visible drop has fully left the cube and visibility is handed
/// off.
pub open spec fn spec_reset_window(dur: int, off: int, time: int) -> bool {
    100 * spec_pos(dur, off, time) >= 99 * (255 * dur)
}

/// Whether the column is at the very start of its cycle (the first
/// hundredth), where a staged column becomes visible.
pub open spec fn spec_stage_window(dur: int, off: int, time: int) -> bool {
    100 * spec_pos(dur, off, time) <= 255 * dur
}

/// The colour of a visible column's voxel at height `z`: the warm white
/// scaled by a cosine tail around the falling point.  The point travels
/// from three tail lengths above the cube to three below it over one
/// cycle, so every voxel is dark between drops.
pub open spec fn spec_drop_colour(dur: int, off: int, z: int, time: int) -> Apa106Led {
    let dd = 255 * dur;
    let pos = spec_pos(dur, off, time);
    let lead = 10 * pos;
    let zz = (z + 3) * dd;
    let dist = if zz >= lead {
        zz - lead
    } else {
        lead - zz
    };
    let q = if dist > 3 * dd {
        3 * dd
    } else {
        dist
    };
    let angle = 768 * q / (3 * dd);
    spec_fade(spec_warm_white(), spec_sin_scaled(angle + 384), 254)
}

/// The colour of one voxel given its column's mask state: dark unless the
/// column is visible.
pub open spec fn spec_rain_pixel(dur: int, off: int, m: Mask, z: int, time: int) -> Apa106Led {
    if m is Visible {
        spec_drop_colour(dur, off, z, time)
    } else {
        spec_off()
    }
}

/// What one column's bookkeeping may do to the mask array.  A visible
/// column in its reset window goes hidden and stages some currently
/// hidden column (which one depends on the generator), or stays put if no
/// column is hidden; a staged column in its start window becomes visible;
/// anything else is untouched.
pub open spec fn spec_col_step(
    m: Seq<Mask>,
    m2: Seq<Mask>,
    c: int,
    dur: int,
    off: int,
    time: int,
) -> bool {
    if spec_reset_window(dur, off, time) && m[c] is Visible {
        ||| (exists|j: int|
            0 <= j < 16 && m[j] is Hidden && m2 =~= m.update(c, Mask::Hidden).update(
                j,
                Mask::Stage,
            ))
        ||| ((forall|j: int| 0 <= j < 16 ==> !(m[j] is Hidden)) && m2 =~= m)
    } else if spec_stage_window(dur, off, time) && m[c] is Stage {
        m2 =~= m.update(c, Mask::Visible)
    } else {
        m2 =~= m
    }
}

/// The per-frame bookkeeping, witnessed by the chain of intermediate mask
/// states: `chain[c]` is the mask before column `c`'s step and `chain[16]`
/// the mask the frame leaves behind.
pub open spec fn spec_masks_chain(
    chain: Seq<Seq<Mask>>,
    offsets: Seq<u8>,
    dur: int,
    time: int,
) -> bool {
    &&& chain.len() == 17
    &&& forall|c: int|
        0 <= c < 16 ==> #[trigger] spec_col_step(
            chain[c],
            chain[c + 1],
            c,
            dur,
            offsets[c] as int,
            time,
        )
}

/// The whole-frame relation between the mask before and after the
/// bookkeeping: some chain of sixteen column steps, one per column in
/// order, leads from the one to the other.
pub open spec fn spec_masks_step(
    m0: Seq<Mask>,
    mend: Seq<Mask>,
    offsets: Seq<u8>,
    dur: int,
    time: int,
) -> bool {
    exists|chain: Seq<Seq<Mask>>|
        #[trigger] spec_masks_chain(chain, offsets, dur, time) && chain[0] =~= m0 && chain[16]
            =~= mend
}

/// A column's cycle position, over the denominator `255 * duration`.
fn column_pos(dur: u32, off: u8, time: u32) -> (pos: u64)
    requires
        dur >= 1,
    ensures
        pos == spec_pos(dur as int, off as int, time as int),
        pos < 255 * (dur as int),
{
    let dur64: u64 = dur as u64;
    let dd: u64 = 255 * dur64;
    let p: u64 = (time as u64) % dur64;
    assert((off as int) * (dur as int) <= 255 * 0xffff_ffffu64) by (nonlinear_arith)
        requires
            off <= 255,
            dur <= 0xffff_ffffu64,
    ;
    (p * 255 + (off as u64) * dur64) % dd
}

/// The colour of a visible column's voxel.
fn drop_colour(dur: u32, off: u8, z: u8, time: u32) -> (c: Apa106Led)
    requires
        dur >= 1,
        z <= 3,
    ensures
        c == spec_drop_colour(dur as int, off as int, z as int, time as int),
{
    let dur64: u64 = dur as u64;
    let dd: u64 = 255 * dur64;
    let pos = column_pos(dur, off, time);

    // Off the top of the cube by the tail length down to below the cube by
    // the tail length, scaled by the shared denominator.
    let lead: u64 = 10 * pos;
    assert((z as int + 3) * (dd as int) <= 6 * 255 * 0xffff_ffffu64) by (nonlinear_arith)
        requires
            z <= 3,
            dd <= 255 * 0xffff_ffffu64,
    ;
    let zz: u64 = (z as u64 + 3) * dd;

    let dist: u64 = if zz >= lead {
        zz - lead
    } else {
        lead - zz
    };

    // Clamp to one tail length and map onto a half cosine for a smooth
    // tail.
    let q: u64 = if dist > 3 * dd {
        3 * dd
    } else {
        dist
    };
    assert(768 * (q as int) / (3 * (dd as int)) <= 768) by (nonlinear_arith)
        requires
            q <= 3 * (dd as int),
            dd >= 255,
    ;
    let angle: u64 = 768 * q / (3 * dd);

    let m = sin_scaled((angle + 384) as u32);

    warm_white().fade(Ratio::new(m as u32, 254))
}

impl SlowRain {
    /// The drop duration is positive, so elapsed time divides by it.
    #[verifier::type_invariant]
    pub closed spec fn wf(self) -> bool {
        self.drop_duration >= 1
    }

    /// How long one drop takes, in milliseconds.
    pub closed spec fn spec_duration(self) -> u32 {
        self.drop_duration
    }

    /// The per-column cycle offsets drawn once from the seed.
    pub closed spec fn spec_offsets(self) -> Seq<u8> {
        self.offsets@
    }

    /// The visibility state of the sixteen columns.
    pub closed spec fn spec_mask(self) -> Seq<Mask> {
        self.mask@
    }

    /// Run the sixteen column steps for this frame: hand off visibility
    /// from columns whose drop just finished, and reveal staged columns
    /// whose cycle just began.
    fn advance_masks(&mut self, time: u32)
        ensures
            final(self).spec_duration() == old(self).spec_duration(),
            final(self).spec_offsets() =~= old(self).spec_offsets(),
            spec_masks_step(
                old(self).spec_mask(),
                final(self).spec_mask(),
                old(self).spec_offsets(),
                old(self).spec_duration() as int,
                time as int,
            ),
    {
        proof {
            use_type_invariant(&*self);
        }
        let ghost m0 = self.mask@;
        let ghost offsets = self.offsets@;
        let ghost dur = self.drop_duration as int;
        let ghost mut chain: Seq<Seq<Mask>> = seq![m0];

        for c in 0..16usize
            invariant
                self.drop_duration == old(self).spec_duration(),
                self.offsets@ =~= offsets,
                offsets == old(self).spec_offsets(),
                dur == self.drop_duration as int,
                dur >= 1,
                m0 == old(self).spec_mask(),
                chain.len() == c + 1,
                chain[0] == m0,
                chain[c as int] == self.mask@,
                forall|k: int|
                    0 <= k < c ==> #[trigger] spec_col_step(
                        chain[k],
                        chain[k + 1],
                        k,
                        dur,
                        offsets[k] as int,
                        time as int,
                    ),
        {
            let ghost m_pre = self.mask@;

            let off = self.offsets[c];
            let pos = column_pos(self.drop_duration, off, time);
            let dd: u64 = 255 * (self.drop_duration as u64);
            let in_reset = 100 * pos >= 99 * dd;
            let in_stage = 100 * pos <= dd;

            if in_reset && self.mask[c] == Mask::Visible {
                let mut done = false;
                let mut tries: usize = 0;

                // Weighted random walk towards a currently hidden column,
                // with a reject-and-retry step for jitter.  The number of
                // draws is bounded; a deterministic scan below covers the
                // unlucky case.
                while tries < 64 && !done
                    invariant
                        self.drop_duration == old(self).spec_duration(),
                        self.offsets@ =~= offsets,
                        dur == self.drop_duration as int,
                        dur >= 1,
                        0 <= c < 16,
                        !done ==> self.mask@ =~= m_pre,
                        done ==> spec_col_step(
                            m_pre,
                            self.mask@,
                            c as int,
                            dur,
                            offsets[c as int] as int,
                            time as int,
                        ),
                        spec_reset_window(dur, offsets[c as int] as int, time as int),
                        m_pre[c as int] is Visible,
                    decreases 64 - tries,
                {
                    tries += 1;

                    let draw = rng_next_u32(&mut self.rng);
                    let next_idx = ((draw as usize % 16) + c) % 16;

                    // Add a bit of chaos
                    if rng_next_u32(&mut self.rng) % 10 <= 1 {
                        // rejected: retry
                    } else if self.mask[next_idx] == Mask::Hidden {
                        // Found next unlit column
                        self.mask[c] = Mask::Hidden;
                        self.mask[next_idx] = Mask::Stage;

                        done = true;
                    }
                }

                if !done {
                    // The random walk came up empty: hand off to the first
                    // hidden column, if any column is hidden at all.
                    let mut j: usize = 0;
                    while j < 16 && !done
                        invariant
                            self.drop_duration == old(self).spec_duration(),
                            self.offsets@ =~= offsets,
                            dur == self.drop_duration as int,
                            dur >= 1,
                            0 <= c < 16,
                            j <= 16,
                            !done ==> self.mask@ =~= m_pre,
                            !done ==> forall|k: int| 0 <= k < j ==> !(m_pre[k] is Hidden),
                            done ==> spec_col_step(
                                m_pre,
                                self.mask@,
                                c as int,
                                dur,
                                offsets[c as int] as int,
                                time as int,
                            ),
                            spec_reset_window(dur, offsets[c as int] as int, time as int),
                            m_pre[c as int] is Visible,
                        decreases 16 - j,
                    {
                        if self.mask[j] == Mask::Hidden {
                            self.mask[c] = Mask::Hidden;
                            self.mask[j] = Mask::Stage;

                            done = true;
                        }
                        j += 1;
                    }
                }

                proof {
                    if !done {
                        assert(forall|k: int| 0 <= k < 16 ==> !(m_pre[k] is Hidden));
                        assert(self.mask@ =~= m_pre);
                    }
                    assert(spec_col_step(
                        m_pre,
                        self.mask@,
                        c as int,
                        dur,
                        offsets[c as int] as int,
                        time as int,
                    ));
                }
            } else if in_stage && self.mask[c] == Mask::Stage {
                self.mask[c] = Mask::Visible;
            }

            proof {
                assert(spec_col_step(
                    m_pre,
                    self.mask@,
                    c as int,
                    dur,
                    offsets[c as int] as int,
                    time as int,
                ));
                chain = chain.push(self.mask@);
            }
        }

        proof {
            assert(spec_masks_chain(chain, offsets, dur, time as int));
            assert(chain[0] =~= old(self).spec_mask());
            assert(chain[16] =~= self.mask@);
        }
    }

    /// The colour of one voxel at `time` milliseconds into the pattern.
    ///
    /// Index zero must be queried first in each frame: it runs the column
    /// bookkeeping, which draws from the generator.  Rendering itself is a
    /// pure function of the column state this leaves behind.
    pub fn pixel_at(&mut self, idx: usize, time: u32) -> (c: Apa106Led)
        requires
            idx < 64,
        ensures
            final(self).spec_duration() == old(self).spec_duration(),
            final(self).spec_offsets() =~= old(self).spec_offsets(),
            idx == 0 ==> spec_masks_step(
                old(self).spec_mask(),
                final(self).spec_mask(),
                old(self).spec_offsets(),
                old(self).spec_duration() as int,
                time as int,
            ),
            idx != 0 ==> *final(self) == *old(self),
            ({
                let v = Voxel::spec_from_index(idx as int);
                c == spec_rain_pixel(
                    old(self).spec_duration() as int,
                    old(self).spec_offsets()[v.x + v.y * 4] as int,
                    final(self).spec_mask()[v.x + v.y * 4],
                    v.z as int,
                    time as int,
                )
            }),
    {
        proof {
            use_type_invariant(&*self);
        }
        let voxel = Voxel::from_index(idx);
        let column_idx = (voxel.x + voxel.y * 4) as usize;

        if idx == 0 {
            self.advance_masks(time);
        }

        if self.mask[column_idx] == Mask::Visible {
            drop_colour(self.drop_duration, self.offsets[column_idx], voxel.z, time)
        } else {
            off()
        }
    }

    /// How many whole drop cycles have passed after `time` milliseconds.
    /// Drops carry different offsets, so this is a pacing measure rather
    /// than a statement about any one column.
    pub fn completed_cycles(&self, time: u32) -> (n: u32)
        ensures
            n == time as int / self.spec_duration() as int,
    {
        proof {
            use_type_invariant(self);
        }
        time / self.drop_duration
    }
}

impl Default for SlowRain {
    /// A two-second drop, with offsets and the initial visible set drawn
    /// from a fixed seed so the stream is reproducible.  Whatever the
    /// draws, every column starts plainly visible or hidden: a staged
    /// column can only arise later, from a handoff.
    fn default() -> (r: Self)
        ensures
            r.spec_duration() == 2000,
            forall|i: int|
                0 <= i < 16 ==> (r.spec_mask()[i] is Visible || r.spec_mask()[i] is Hidden),
    {
        let mut rng = rng_from_seed(0xdead_beef_cafe_babe);

        let offsets = rng_fill_16(&mut rng);

        let mut mask = [Mask::Hidden; 16];

        for i in 0..16usize
            invariant
                forall|k: int| 0 <= k < 16 ==> (mask@[k] is Visible || mask@[k] is Hidden),
        {
            let draw = rng_next_u32(&mut rng) % 16;

            // Constant controls how many drops are present in the cube
            mask[i] = if draw < 8 {
                Mask::Visible
            } else {
                Mask::Hidden
            };
        }

        Self { drop_duration: 2000, rng, offsets, mask }
    }
}

} // verus!
