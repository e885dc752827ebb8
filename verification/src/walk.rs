//! The walk cycle: standing, or one of eight walking frames that advance on
//! a fixed cadence while the player keeps moving.

use crate::timer::{finished, nanos, new_timer, reset, tick, timer_model};
use bevy::prelude::Timer;
use vstd::prelude::*;

verus! {

/// Number of frames in the walk cycle.
pub const WALK_FRAMES: u32 = 8;

/// Time between two frames of the walk cycle, in microseconds.
pub const WALK_PERIOD_MICROS: u64 = 100_000;

/// Sprite shown while standing.
pub const IDLE_SPRITE_INDEX: u32 = 8;

/// Where the animation stands.
#[derive(Clone, Copy, Debug, PartialEq, Eq, Structural)]
pub enum WalkState {
    /// Not walking; nothing advances.
    Standing,
    /// Walking, at the given frame of the cycle.
    Walking(u32),
}

/// The walk cycle as the contracts see it.
pub struct WalkView {
    /// Standing, or the current frame.
    pub state: WalkState,
    /// Nanoseconds accumulated towards the next frame.
    pub elapsed: nat,
}

impl WalkView {
    /// The frame is one of the cycle's, and less than a full period has
    /// accumulated.
    pub open spec fn wf(self) -> bool {
        &&& self.state matches WalkState::Walking(frame) ==> frame < WALK_FRAMES
        &&& self.elapsed < nanos(WALK_PERIOD_MICROS as int)
    }

    /// The cycle after `stop`: standing, whatever it showed before. The
    /// accumulated time is kept.
    pub open spec fn stop(self) -> WalkView {
        WalkView { state: WalkState::Standing, ..self }
    }

    /// Whether a step of `micros` microseconds completes the running period.
    pub open spec fn period_completes(self, micros: u32) -> bool {
        self.elapsed + nanos(micros as int) >= nanos(WALK_PERIOD_MICROS as int)
    }

    /// The cycle after `increment`. From standing the first frame shows at
    /// once and no time accumulates. While walking the time accumulates;
    /// when it completes a period the next frame shows, the first one after
    /// the last, and the time starts again from nothing.
    pub open spec fn increment(self, micros: u32) -> WalkView {
        match self.state {
            WalkState::Standing => WalkView { state: WalkState::Walking(0), ..self },
            WalkState::Walking(frame) => WalkView {
                state: if self.period_completes(micros) {
                    WalkState::Walking(((frame + 1) % (WALK_FRAMES as int)) as u32)
                } else {
                    WalkState::Walking(frame)
                },
                elapsed: if self.period_completes(micros) {
                    0
                } else {
                    (self.elapsed + nanos(micros as int)) as nat
                },
            },
        }
    }

    /// The cycle after one `increment` for each of `steps`, in order.
    pub open spec fn after_steps(self, steps: Seq<u32>) -> WalkView
        decreases steps.len(),
    {
        if steps.len() == 0 {
            self
        } else {
            self.after_steps(steps.drop_last()).increment(steps.last())
        }
    }

    /// The sprite that shows the state: the walking frame itself, or the
    /// idle sprite.
    pub open spec fn sprite_index(self) -> u32 {
        match self.state {
            WalkState::Standing => IDLE_SPRITE_INDEX,
            WalkState::Walking(frame) => frame,
        }
    }
}

/// The walk cycle of one player: its state and its cadence timer.
#[derive(Debug)]
pub struct WalkLoop {
    walk_state: WalkState,
    timer: Timer,
}

impl View for WalkLoop {
    type V = WalkView;

    closed spec fn view(&self) -> WalkView {
        WalkView { state: self.walk_state, elapsed: timer_model(self.timer).elapsed }
    }
}

impl WalkLoop {
    /// The cadence timer is the one the cycle was made with: it repeats,
    /// runs, and has the walk period.
    pub closed spec fn cadence_kept(&self) -> bool {
        &&& timer_model(self.timer).period == nanos(WALK_PERIOD_MICROS as int)
        &&& timer_model(self.timer).repeating
        &&& !timer_model(self.timer).paused
    }

    /// Holds of every walk cycle.
    #[verifier::type_invariant]
    pub open spec fn inv(&self) -> bool {
        self@.wf() && self.cadence_kept()
    }

    /// A cycle that stands, with nothing accumulated.
    pub fn new() -> (walk: WalkLoop)
        ensures
            walk@ == (WalkView { state: WalkState::Standing, elapsed: 0 }),
            walk@.wf(),
    {
        WalkLoop { walk_state: WalkState::Standing, timer: new_timer(WALK_PERIOD_MICROS, true) }
    }

    /// The current state.
    pub fn state(&self) -> (state: WalkState)
        ensures
            state == self@.state,
            self@.wf(),
    {
        proof {
            use_type_invariant(self);
        }
        self.walk_state
    }

    /// Returns to standing.
    pub fn stop(&mut self)
        ensures
            final(self)@ == old(self)@.stop(),
            final(self)@.wf(),
    {
        proof {
            use_type_invariant(&*self);
        }
        self.walk_state = WalkState::Standing;
    }

    /// Advances the cycle by one step of `micros` microseconds.
    pub fn increment(&mut self, micros: u32)
        ensures
            final(self)@ == old(self)@.increment(micros),
            final(self)@.wf(),
    {
        proof {
            use_type_invariant(&*self);
        }
        match self.walk_state {
            WalkState::Standing => {
                self.walk_state = WalkState::Walking(0);
            },
            WalkState::Walking(frame) => {
                tick(&mut self.timer, micros);
                if finished(&self.timer) {
                    reset(&mut self.timer);
                    self.walk_state = WalkState::Walking((frame + 1) % WALK_FRAMES);
                }
            },
        }
    }

    /// The sprite that shows the current state.
    pub fn sprite_index(&self) -> (index: u32)
        ensures
            index == self@.sprite_index(),
            index <= IDLE_SPRITE_INDEX,
    {
        proof {
            use_type_invariant(self);
        }
        match self.walk_state {
            WalkState::Standing => IDLE_SPRITE_INDEX,
            WalkState::Walking(frame) => frame,
        }
    }
}

impl Default for WalkLoop {
    /// A cycle that stands, with nothing accumulated.
    fn default() -> (walk: WalkLoop)
        ensures
            walk@ == (WalkView { state: WalkState::Standing, elapsed: 0 }),
            walk@.wf(),
    {
        WalkLoop::new()
    }
}

/// The time that `steps` add up to, in nanoseconds.
pub open spec fn total_nanos(steps: Seq<u32>) -> int
    decreases steps.len(),
{
    if steps.len() == 0 {
        0
    } else {
        total_nanos(steps.drop_last()) + nanos(steps.last() as int)
    }
}

/// From standing, the first step shows the first frame at once, however
/// short the step and whatever frame showed before the cycle last stopped.
pub proof fn lemma_first_step(walk: WalkView, micros: u32)
    ensures
        walk.stop().state == WalkState::Standing,
        walk.stop().increment(micros).state == WalkState::Walking(0),
        walk.state == WalkState::Standing ==> walk.increment(micros).state == WalkState::Walking(
            0,
        ),
{
}

/// The cycle. From standing, steps of a full period or more each show the
/// frames in order, one per step, the first frame again after the last.
pub proof fn lemma_walk_cycle(walk: WalkView, steps: Seq<u32>)
    requires
        walk.wf(),
        walk.state == WalkState::Standing,
        steps.len() > 0,
        forall|i: int| 0 <= i < steps.len() ==> steps[i] >= WALK_PERIOD_MICROS,
    ensures
        walk.after_steps(steps).state == WalkState::Walking(
            ((steps.len() - 1) % (WALK_FRAMES as int)) as u32,
        ),
        walk.after_steps(steps).wf(),
    decreases steps.len(),
{
    let rest = steps.drop_last();
    if rest.len() > 0 {
        lemma_walk_cycle(walk, rest);
    } else {
        assert(walk.after_steps(rest) == walk);
    }
}

/// The cadence. While walking, steps that together with the time already
/// accumulated stay short of a period leave the frame as it is and add up.
/// The step that then completes the period shows the next frame, and the
/// time starts again from nothing, whatever was left over.
pub proof fn lemma_cadence(walk: WalkView, frame: u32, steps: Seq<u32>, last: u32)
    requires
        walk.wf(),
        walk.state == WalkState::Walking(frame),
        walk.elapsed + total_nanos(steps) < nanos(WALK_PERIOD_MICROS as int),
    ensures
        total_nanos(steps) >= 0,
        walk.after_steps(steps) == (WalkView {
            state: WalkState::Walking(frame),
            elapsed: (walk.elapsed + total_nanos(steps)) as nat,
        }),
        walk.elapsed + total_nanos(steps) + nanos(last as int) >= nanos(WALK_PERIOD_MICROS as int)
            ==> walk.after_steps(steps).increment(last) == (WalkView {
            state: WalkState::Walking(((frame + 1) % (WALK_FRAMES as int)) as u32),
            elapsed: 0,
        }),
    decreases steps.len(),
{
    lemma_total_nanos_not_negative(steps);
    if steps.len() > 0 {
        lemma_total_nanos_not_negative(steps.drop_last());
        lemma_cadence(walk, frame, steps.drop_last(), steps.last());
    }
}

/// Steps add up to no less than nothing.
proof fn lemma_total_nanos_not_negative(steps: Seq<u32>)
    ensures
        total_nanos(steps) >= 0,
    decreases steps.len(),
{
    if steps.len() > 0 {
        lemma_total_nanos_not_negative(steps.drop_last());
    }
}

} // verus!
