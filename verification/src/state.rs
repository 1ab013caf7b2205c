//! The animation director: the state machine sequencing scenes.
//!
//! The director is either steady, playing a single pattern, or carrying
//! exactly one in-flight transition towards a queued next pattern.  On
//! each tick it renders the active scene into the cube; in the steady
//! state it consults the fixed scene table (rainbow to rain by cross
//! fade after three cycles, rain to slices by fade-to-black after three,
//! slices to the christmas cycle by cross fade after two, and that back
//! to the rainbow after three) and queues the next transition when the
//! active pattern has completed enough cycles.

use vstd::prelude::*;

use crate::apa106led::{spec_lerp, Apa106Led};
use crate::cube::Cube;
use crate::patterns::christmas_puke::ChristmasPuke;
use crate::patterns::rainbow::Rainbow;
use crate::patterns::slices::{Direction, Slices, Stage};
use crate::patterns::slow_rain::SlowRain;
use crate::patterns::{spec_frame_rel, spec_pixel_rel, Pattern};
use crate::transitions::{CrossFade, FadeToBlack, Transition};

verus! {

/// One in-flight scene change: the blend that drives it, the pattern it
/// leads to, and when it began.
pub struct TransitionState {
    driver: Transition,
    next_pattern: Pattern,
    start: u32,
}

impl TransitionState {
    /// The blend driving the scene change.
    pub closed spec fn spec_driver(self) -> Transition {
        self.driver
    }

    /// The pattern queued behind the transition.
    pub closed spec fn spec_next_pattern(self) -> Pattern {
        self.next_pattern
    }

    /// The absolute time the transition began.
    pub closed spec fn spec_start(self) -> u32 {
        self.start
    }
}

/// The director's state: the active pattern, the time its clock started,
/// and at most one in-flight transition.
pub struct State {
    current_start: u32,
    pattern: Pattern,
    transition: Option<TransitionState>,
}

/// When a scene has run long enough to hand off: the cycle thresholds of
/// the fixed scene table.
pub open spec fn spec_scene_complete(p: Pattern, rt: int) -> bool {
    match p {
        Pattern::Rainbow(_) => p.spec_completed_cycles(rt) >= 3,
        Pattern::SlowRain(_) => p.spec_completed_cycles(rt) == 3,
        Pattern::Slices(_) => p.spec_completed_cycles(rt) == 2,
        Pattern::ChristmasPuke(_) => p.spec_completed_cycles(rt) == 3,
    }
}

/// What the scene table queues when pattern `p` finishes at `time`: the
/// transition kind and duration, and the fresh next pattern.
pub open spec fn spec_queued_ok(p: Pattern, t: TransitionState, time: u32) -> bool {
    &&& t.spec_start() == time
    &&& match p {
        Pattern::Rainbow(_) => {
            &&& t.spec_driver() is CrossFade
            &&& t.spec_driver().spec_duration() == 4000
            &&& (t.spec_next_pattern() matches Pattern::SlowRain(sr) && sr.spec_duration()
                == 2000)
        },
        Pattern::SlowRain(_) => {
            &&& t.spec_driver() is FadeToBlack
            &&& t.spec_driver().spec_duration() == 2000
            &&& (t.spec_next_pattern() matches Pattern::Slices(s) && s.spec_fade_time() == 500
                && s.spec_dir() == Direction::Z && s.spec_stage() == (Stage::FadeIn { idx: 0usize })
                && s.spec_threshold() == 500 && s.spec_brightnesses() =~= Seq::new(
                4,
                |k: int| 0u32,
            ))
        },
        Pattern::Slices(_) => {
            &&& t.spec_driver() is CrossFade
            &&& t.spec_driver().spec_duration() == 4000
            &&& (t.spec_next_pattern() matches Pattern::ChristmasPuke(cp) && cp.spec_duration()
                == 4000)
        },
        Pattern::ChristmasPuke(_) => {
            &&& t.spec_driver() is CrossFade
            &&& t.spec_driver().spec_duration() == 4000
            &&& (t.spec_next_pattern() matches Pattern::Rainbow(r) && r.spec_duration() == 1000)
        },
    }
}

/// During a transition, what the cube holds afterwards: some frame `vf`
/// that the queued pattern rendered at its local time `nrt` (relating its
/// state before and after), blended pixel by pixel with the previous cube
/// contents by the transition driver at `trun`.
pub open spec fn spec_blended_frame(
    driver: Transition,
    np_pre: Pattern,
    np_post: Pattern,
    cube_pre: Seq<Apa106Led>,
    cube_post: Seq<Apa106Led>,
    trun: int,
    nrt: int,
) -> bool {
    exists|vf: Seq<Apa106Led>|
        #[trigger] spec_frame_rel(np_pre, np_post, vf, nrt) && cube_post.len() == 64 && forall|
            i: int,
        |
            0 <= i < 64 ==> cube_post[i] == driver.spec_pixel_at(trun, cube_pre[i], vf[i])
}

/// Everything one tick of the director does, relating the state and the
/// cube before and after.
///
/// Steady: the active pattern renders the whole frame into the cube, and
/// once it has completed its table's cycle count a transition to the next
/// scene is queued, starting now.  Transitioning and not complete: the
/// queued pattern renders its frame at its own local time (zero while the
/// transition holds it back), and every cube pixel becomes the driver's
/// blend of the previous cube pixel with that frame's pixel.
/// Transitioning and complete: the queued pattern is committed, its clock
/// start preserved, and the cube is left untouched.
pub open spec fn spec_drive_rel(
    pre: State,
    post: State,
    cube_pre: Seq<Apa106Led>,
    cube_post: Seq<Apa106Led>,
    time: int,
) -> bool {
    match pre.spec_transition() {
        None => {
            let rt = time - pre.spec_current_start();
            &&& spec_frame_rel(pre.spec_pattern(), post.spec_pattern(), cube_post, rt)
            &&& post.spec_current_start() == pre.spec_current_start()
            &&& if spec_scene_complete(post.spec_pattern(), rt) {
                post.spec_transition() matches Some(t) && spec_queued_ok(
                    post.spec_pattern(),
                    t,
                    time as u32,
                )
            } else {
                post.spec_transition() is None
            }
        },
        Some(t) => {
            let trun = time - t.spec_start();
            if !t.spec_driver().spec_is_complete(trun) {
                let nrt: int = if t.spec_driver().spec_next_start_offset() > 0 {
                    0
                } else {
                    trun
                };
                &&& post.spec_pattern() == pre.spec_pattern()
                &&& post.spec_current_start() == pre.spec_current_start()
                &&& (post.spec_transition() matches Some(t2) && t2.spec_driver()
                    == t.spec_driver() && t2.spec_start() == t.spec_start()
                    && spec_blended_frame(
                    t.spec_driver(),
                    t.spec_next_pattern(),
                    t2.spec_next_pattern(),
                    cube_pre,
                    cube_post,
                    trun,
                    nrt,
                ))
            } else {
                &&& cube_post =~= cube_pre
                &&& post.spec_pattern() == t.spec_next_pattern()
                &&& post.spec_current_start() == if t.spec_driver().spec_next_start_offset() > 0 {
                    time
                } else {
                    t.spec_start() as int
                }
                &&& post.spec_transition() is None
            }
        },
    }
}

/// The scene table's first handoff, as a law of the tick relation: a
/// steady director playing a one-second rainbow that has completed three
/// cycles leaves the tick transitioning, via a four-second cross fade that
/// starts at this tick, towards a fresh two-second rain pattern, with the
/// rainbow still active and its clock untouched.
pub proof fn lemma_rainbow_handoff(
    pre: State,
    post: State,
    cube_pre: Seq<Apa106Led>,
    cube_post: Seq<Apa106Led>,
    time: int,
)
    requires
        spec_drive_rel(pre, post, cube_pre, cube_post, time),
        pre.spec_transition() is None,
        (pre.spec_pattern() matches Pattern::Rainbow(r) && r.spec_duration() == 1000),
        0 <= pre.spec_current_start() <= time < 0x1_0000_0000,
        (time - pre.spec_current_start()) / 1000 >= 3,
    ensures
        post.spec_pattern() == pre.spec_pattern(),
        post.spec_current_start() == pre.spec_current_start(),
        (post.spec_transition() matches Some(t) && {
            &&& t.spec_driver() is CrossFade
            &&& t.spec_driver().spec_duration() == 4000
            &&& (t.spec_next_pattern() matches Pattern::SlowRain(sr) && sr.spec_duration()
                == 2000)
            &&& t.spec_start() == time
        }),
{
    let rt = time - pre.spec_current_start();
    assert(spec_frame_rel(pre.spec_pattern(), post.spec_pattern(), cube_post, rt));
    assert(spec_pixel_rel(pre.spec_pattern(), post.spec_pattern(), 0, rt, cube_post[0]));
    assert(post.spec_pattern() == pre.spec_pattern());
    assert(spec_scene_complete(post.spec_pattern(), rt));
}

/// The cross-fade blend, as a law of the tick relation for a rainbow
/// target (the queued pattern of the christmas scene's handoff): while
/// the fade is not complete, every cube pixel is exactly the
/// interpolation of its previous value towards the rainbow's own pixel at
/// the transition-local elapsed time, in the proportion of that time to
/// the fade's duration.
pub proof fn lemma_cross_fade_blends_lerp(
    pre: State,
    post: State,
    cube_pre: Seq<Apa106Led>,
    cube_post: Seq<Apa106Led>,
    r: Rainbow,
    time: int,
)
    requires
        spec_drive_rel(pre, post, cube_pre, cube_post, time),
        (pre.spec_transition() matches Some(t) && {
            &&& t.spec_driver() is CrossFade
            &&& t.spec_next_pattern() == Pattern::Rainbow(r)
            &&& t.spec_start() <= time
            &&& time - t.spec_start() <= t.spec_driver().spec_duration()
        }),
    ensures
        cube_post.len() == 64,
        forall|i: int|
            0 <= i < 64 ==> cube_post[i] == spec_lerp(
                cube_pre[i],
                r.spec_pixel(i, time - pre.spec_transition()->Some_0.spec_start()),
                time - pre.spec_transition()->Some_0.spec_start(),
                pre.spec_transition()->Some_0.spec_driver().spec_duration() as int,
            ),
{
    let t = pre.spec_transition()->Some_0;
    let t2 = post.spec_transition()->Some_0;
    let trun = time - t.spec_start();
    let d = t.spec_driver().spec_duration() as int;
    assert(!t.spec_driver().spec_is_complete(trun));
    assert(spec_blended_frame(
        t.spec_driver(),
        t.spec_next_pattern(),
        t2.spec_next_pattern(),
        cube_pre,
        cube_post,
        trun,
        trun,
    ));
    let vf = choose|vf: Seq<Apa106Led>|
        #[trigger] spec_frame_rel(t.spec_next_pattern(), t2.spec_next_pattern(), vf, trun)
            && cube_post.len() == 64 && forall|i: int|
            0 <= i < 64 ==> cube_post[i] == t.spec_driver().spec_pixel_at(
                trun,
                cube_pre[i],
                vf[i],
            );
    assert(spec_pixel_rel(t.spec_next_pattern(), t2.spec_next_pattern(), 0, trun, vf[0]));
    assert(t2.spec_next_pattern() == t.spec_next_pattern());
    assert forall|i: int| 0 <= i < 64 implies vf[i] == r.spec_pixel(i, trun) by {
        if i == 0 {
            assert(spec_pixel_rel(t.spec_next_pattern(), t2.spec_next_pattern(), 0, trun, vf[0]));
        } else {
            assert(spec_pixel_rel(t2.spec_next_pattern(), t2.spec_next_pattern(), i, trun, vf[i]));
        }
    }
    assert forall|i: int| 0 <= i < 64 implies cube_post[i] == spec_lerp(
        cube_pre[i],
        r.spec_pixel(i, trun),
        trun,
        d,
    ) by {
        assert(cube_post[i] == t.spec_driver().spec_pixel_at(trun, cube_pre[i], vf[i]));
    }
}

/// Packaging the incomplete-transition facts into the tick relation.
proof fn lemma_drive_rel_incomplete(
    pre: State,
    post: State,
    cpre: Seq<Apa106Led>,
    cpost: Seq<Apa106Led>,
    vf: Seq<Apa106Led>,
    time: int,
)
    requires
        pre.spec_transition() is Some,
        post.spec_transition() is Some,
        !pre.spec_transition()->Some_0.spec_driver().spec_is_complete(
            time - pre.spec_transition()->Some_0.spec_start(),
        ),
        post.spec_pattern() == pre.spec_pattern(),
        post.spec_current_start() == pre.spec_current_start(),
        post.spec_transition()->Some_0.spec_driver() == pre.spec_transition()->Some_0.spec_driver(),
        post.spec_transition()->Some_0.spec_start() == pre.spec_transition()->Some_0.spec_start(),
        spec_frame_rel(
            pre.spec_transition()->Some_0.spec_next_pattern(),
            post.spec_transition()->Some_0.spec_next_pattern(),
            vf,
            if pre.spec_transition()->Some_0.spec_driver().spec_next_start_offset() > 0 {
                0
            } else {
                time - pre.spec_transition()->Some_0.spec_start()
            },
        ),
        cpost.len() == 64,
        forall|i: int|
            0 <= i < 64 ==> cpost[i] == pre.spec_transition()->Some_0.spec_driver().spec_pixel_at(
                time - pre.spec_transition()->Some_0.spec_start(),
                cpre[i],
                vf[i],
            ),
    ensures
        spec_drive_rel(pre, post, cpre, cpost, time),
{
    let t = pre.spec_transition()->Some_0;
    let t2 = post.spec_transition()->Some_0;
    let trun = time - t.spec_start();
    let nrt: int = if t.spec_driver().spec_next_start_offset() > 0 {
        0
    } else {
        trun
    };
    assert(spec_blended_frame(
        t.spec_driver(),
        t.spec_next_pattern(),
        t2.spec_next_pattern(),
        cpre,
        cpost,
        trun,
        nrt,
    )) by {
        assert(spec_frame_rel(t.spec_next_pattern(), t2.spec_next_pattern(), vf, nrt)
            && cpost.len() == 64 && forall|i: int|
            0 <= i < 64 ==> cpost[i] == t.spec_driver().spec_pixel_at(trun, cpre[i], vf[i]));
    };
}

impl State {
    /// The active pattern.
    pub closed spec fn spec_pattern(self) -> Pattern {
        self.pattern
    }

    /// The absolute time the active pattern's clock started.
    pub closed spec fn spec_current_start(self) -> u32 {
        self.current_start
    }

    /// The in-flight transition, if one is running.
    pub closed spec fn spec_transition(self) -> Option<TransitionState> {
        self.transition
    }

    /// Whether a scene change is in flight.
    pub fn is_transitioning(&self) -> (b: bool)
        ensures
            b == (self.spec_transition() is Some),
    {
        self.transition.is_some()
    }

    /// A director starting steady on `pattern` with its clock at zero.
    pub fn new(pattern: Pattern) -> (s: Self)
        ensures
            s.spec_pattern() == pattern,
            s.spec_current_start() == 0,
            s.spec_transition() is None,
    {
        Self { pattern, transition: None, current_start: 0 }
    }

    /// Queue a scene change through `transition`, or switch immediately
    /// when no transition is given.
    fn next_pattern(&mut self, time: u32, new_pattern: Pattern, transition: Option<Transition>)
        ensures
            match transition {
                Some(tr) => {
                    &&& final(self).spec_pattern() == old(self).spec_pattern()
                    &&& final(self).spec_current_start() == old(self).spec_current_start()
                    &&& (final(self).spec_transition() matches Some(t) && t.spec_driver() == tr
                        && t.spec_start() == time && t.spec_next_pattern() == new_pattern)
                },
                None => {
                    &&& final(self).spec_pattern() == new_pattern
                    &&& final(self).spec_current_start() == time
                    &&& final(self).spec_transition() is None
                },
            },
    {
        if let Some(transition) = transition {
            self.transition = Some(
                TransitionState { driver: transition, start: time, next_pattern: new_pattern },
            );
        } else {
            self.current_start = time;
            self.transition = None;
            self.pattern = new_pattern;
        }
    }

    /// Advance the animation to absolute time `time`, rendering into the
    /// cube.
    #[verifier::rlimit(80)]
    pub fn drive(&mut self, time: u32, cube: &mut Cube)
        requires
            time < 0x8000_0000,
            time >= old(self).spec_current_start(),
            old(self).spec_transition() matches Some(t) ==> time >= t.spec_start(),
        ensures
            spec_drive_rel(*old(self), *final(self), old(cube)@, final(cube)@, time as int),
    {
        let pattern_run_time = time - self.current_start;

        match self.transition.take() {
            Some(mut t) => {
                let transition_run_time = time - t.start;

                // Next pattern starts at end of transition
                let next_start = if t.driver.next_start_offset() > 0 {
                    t.start + transition_run_time
                }
                // Next pattern starts at the same time as the transition
                else {
                    t.start
                };

                let next_pattern_run_time = time - next_start;

                if !t.driver.is_complete(transition_run_time) {
                    let vf = t.next_pattern.frame(next_pattern_run_time);

                    let len = cube.len();
                    let ghost cube0 = cube@;

                    for i in 0..len
                        invariant
                            len == 64,
                            cube@.len() == 64,
                            cube0.len() == 64,
                            vf@.len() == 64,
                            forall|k: int|
                                0 <= k < i ==> cube@[k] == t.driver.spec_pixel_at(
                                    transition_run_time as int,
                                    cube0[k],
                                    vf@[k],
                                ),
                            forall|k: int| i <= k < 64 ==> cube@[k] == cube0[k],
                    {
                        let current = cube.get_at_index(i);
                        let blended = t.driver.transition_pixel(transition_run_time, current, vf[i]);
                        cube.set_at_index(i, blended);
                    }

                    self.transition = Some(t);

                    proof {
                        assert(next_pattern_run_time as int == (
                        if old(self).spec_transition()->Some_0.spec_driver().spec_next_start_offset()
                            > 0 {
                            0int
                        } else {
                            time as int - old(self).spec_transition()->Some_0.spec_start()
                        }));
                        lemma_drive_rel_incomplete(
                            *old(self),
                            *self,
                            old(cube)@,
                            cube@,
                            vf@,
                            time as int,
                        );
                    }
                } else {
                    self.pattern = t.next_pattern;
                    self.current_start = next_start;

                    proof {
                        assert(spec_drive_rel(*old(self), *self, old(cube)@, cube@, time as int));
                    }
                }
            },
            None => {
                let vf = self.pattern.frame(pattern_run_time);
                cube.fill_iter(vf.as_slice());

                let cycles = self.pattern.completed_cycles(pattern_run_time);

                let schedule = match &self.pattern {
                    Pattern::Rainbow(_) => cycles >= 3,
                    // "cycles" doesn't mean a lot here as drops have
                    // different offsets
                    Pattern::SlowRain(_) => cycles == 3,
                    Pattern::Slices(_) => cycles == 2,
                    Pattern::ChristmasPuke(_) => cycles == 3,
                };

                if schedule {
                    let (next, driver) = match &self.pattern {
                        Pattern::Rainbow(_) => (
                            Pattern::SlowRain(SlowRain::default()),
                            Transition::CrossFade(CrossFade::default()),
                        ),
                        Pattern::SlowRain(_) => (
                            Pattern::Slices(Slices::default()),
                            Transition::FadeToBlack(FadeToBlack::default()),
                        ),
                        Pattern::Slices(_) => (
                            Pattern::ChristmasPuke(ChristmasPuke::default()),
                            Transition::CrossFade(CrossFade::default()),
                        ),
                        Pattern::ChristmasPuke(_) => (
                            Pattern::Rainbow(Rainbow::default()),
                            Transition::CrossFade(CrossFade::default()),
                        ),
                    };
                    self.next_pattern(time, next, Some(driver));
                }

                proof {
                    assert(spec_drive_rel(*old(self), *self, old(cube)@, cube@, time as int));
                }
            },
        }
    }
}

} // verus!
