//! The remote player animation state machine: an idling state of two slow
//! frames looping forever, and a walking state of six fast frames that plays
//! exactly one loop and then reverts to idling on its own. A repeating timer
//! advances one frame whenever its interval completes; dependent systems
//! react only on the tick the frame changed.

use vstd::prelude::*;

verus! {

/// Number of frames of the idling animation.
pub const IDLE_FRAMES: usize = 2;

/// Duration of each idling frame, in milliseconds.
pub const IDLE_INTERVAL_MS: u64 = 500;

/// Number of frames of the walking animation.
pub const WALKING_FRAMES: usize = 6;

/// Duration of each walking frame, in milliseconds.
pub const WALKING_INTERVAL_MS: u64 = 50;

/// Number of loops the walking animation plays before reverting to idling.
pub const WALKING_MAX_LOOPS: usize = 1;

/// The two animation states a remote player can be in.
#[derive(Clone, Copy, Debug, PartialEq, Eq, Structural)]
pub enum OtherPlayerAnimationState {
    Idling,
    Walking,
}

/// Per-entity animation bookkeeping: a repeating frame timer, the current
/// frame, the state tag, and the completed-loop counter with its optional
/// limit.
#[derive(Clone, Copy, Debug)]
pub struct OtherPlayerAnimation {
    /// Time accumulated toward the next frame, strictly below the interval.
    pub timer_elapsed_ms: u64,
    /// The repeating timer's interval: the current state's frame duration.
    pub timer_interval_ms: u64,
    /// Whether the timer completed its interval on the last update — the
    /// "changed this tick" flag that gates dependent systems.
    pub timer_just_finished: bool,
    /// Current frame index, below the current state's frame count.
    pub frame: usize,
    /// The state tag.
    pub state: OtherPlayerAnimationState,
    /// Completed full loops since the state was last entered.
    pub loops: usize,
    /// Loop limit: `None` for idling, one loop for walking.
    pub max_loops: Option<usize>,
}

/// Frame count of a state.
pub open spec fn frames_of(s: OtherPlayerAnimationState) -> int {
    match s {
        OtherPlayerAnimationState::Idling => IDLE_FRAMES as int,
        OtherPlayerAnimationState::Walking => WALKING_FRAMES as int,
    }
}

/// Frame duration of a state, in milliseconds.
pub open spec fn interval_of(s: OtherPlayerAnimationState) -> int {
    match s {
        OtherPlayerAnimationState::Idling => IDLE_INTERVAL_MS as int,
        OtherPlayerAnimationState::Walking => WALKING_INTERVAL_MS as int,
    }
}

/// Loop limit of a state.
pub open spec fn max_loops_of(s: OtherPlayerAnimationState) -> Option<usize> {
    match s {
        OtherPlayerAnimationState::Idling => None,
        OtherPlayerAnimationState::Walking => Some(WALKING_MAX_LOOPS),
    }
}

/// The freshly entered animation for a state: timer restarted, frame and
/// loop counter zero, the state's own interval and loop limit adopted.
pub open spec fn init_spec(s: OtherPlayerAnimationState) -> OtherPlayerAnimation {
    OtherPlayerAnimation {
        timer_elapsed_ms: 0,
        timer_interval_ms: interval_of(s) as u64,
        timer_just_finished: false,
        frame: 0,
        state: s,
        loops: 0,
        max_loops: max_loops_of(s),
    }
}

/// Whether an update by `delta` completes the timer's interval, so that the
/// frame advances this tick.
pub open spec fn fires(a: OtherPlayerAnimation, delta: u64) -> bool {
    a.timer_elapsed_ms + delta >= a.timer_interval_ms
}

impl OtherPlayerAnimation {
    /// The struct's invariant: the timer belongs to the state, the frame is
    /// in range, and a walking animation has not yet completed a loop (the
    /// completion of its single loop reverts it to idling at once).
    pub open spec fn wf(self) -> bool {
        &&& self.timer_interval_ms == interval_of(self.state)
        &&& self.timer_elapsed_ms < self.timer_interval_ms
        &&& (self.frame as int) < frames_of(self.state)
        &&& self.max_loops == max_loops_of(self.state)
        &&& (self.state is Walking ==> self.loops == 0)
    }
}

/// One timer update: accumulate `delta`; if the interval completes, wrap the
/// timer, advance the frame cyclically, count a completed loop on wrap-around,
/// and — when the loop limit is reached — revert wholesale to idling.
pub open spec fn spec_tick(a: OtherPlayerAnimation, delta: u64) -> OtherPlayerAnimation
    recommends
        a.wf(),
        a.timer_elapsed_ms + delta <= u64::MAX,
{
    let total = a.timer_elapsed_ms + delta;
    if total < a.timer_interval_ms {
        OtherPlayerAnimation {
            timer_elapsed_ms: total as u64,
            timer_just_finished: false,
            ..a
        }
    } else {
        let rem = (total % (a.timer_interval_ms as int)) as u64;
        let new_frame = (((a.frame + 1) as int) % frames_of(a.state)) as usize;
        if new_frame == 0 {
            if a.max_loops matches Some(m) && a.loops + 1 >= m {
                init_spec(OtherPlayerAnimationState::Idling)
            } else {
                OtherPlayerAnimation {
                    timer_elapsed_ms: rem,
                    timer_just_finished: true,
                    frame: new_frame,
                    loops: (a.loops + 1) as usize,
                    ..a
                }
            }
        } else {
            OtherPlayerAnimation {
                timer_elapsed_ms: rem,
                timer_just_finished: true,
                frame: new_frame,
                ..a
            }
        }
    }
}

/// Sprite index in the shared atlas: the idling frames come first, the
/// walking frames follow them in a disjoint, contiguous range.
pub open spec fn atlas_index_spec(a: OtherPlayerAnimation) -> int {
    match a.state {
        OtherPlayerAnimationState::Idling => a.frame as int,
        OtherPlayerAnimationState::Walking => IDLE_FRAMES + a.frame,
    }
}

/// Whether the step sound fires this tick: only while walking, only on the
/// tick the frame changed, and only on the two foot-down frames.
pub open spec fn step_sound_due(a: OtherPlayerAnimation) -> bool {
    &&& a.state is Walking
    &&& a.timer_just_finished
    &&& (a.frame == 2 || a.frame == 5)
}

impl OtherPlayerAnimation {
    /// A fresh idling animation.
    fn idling() -> (a: OtherPlayerAnimation)
        ensures
            a == init_spec(OtherPlayerAnimationState::Idling),
            a.wf(),
    {
        OtherPlayerAnimation {
            timer_elapsed_ms: 0,
            timer_interval_ms: IDLE_INTERVAL_MS,
            timer_just_finished: false,
            frame: 0,
            state: OtherPlayerAnimationState::Idling,
            loops: 0,
            max_loops: None,
        }
    }

    /// A fresh walking animation, limited to a single loop.
    fn walking() -> (a: OtherPlayerAnimation)
        ensures
            a == init_spec(OtherPlayerAnimationState::Walking),
            a.wf(),
    {
        OtherPlayerAnimation {
            timer_elapsed_ms: 0,
            timer_interval_ms: WALKING_INTERVAL_MS,
            timer_just_finished: false,
            frame: 0,
            state: OtherPlayerAnimationState::Walking,
            loops: 0,
            max_loops: Some(WALKING_MAX_LOOPS),
        }
    }

    /// A remote player spawns idling.
    pub fn new() -> (a: OtherPlayerAnimation)
        ensures
            a == init_spec(OtherPlayerAnimationState::Idling),
            a.wf(),
    {
        Self::idling()
    }

    /// Advance the animation timer by `delta` milliseconds and apply the
    /// frame, loop and auto-revert bookkeeping of `spec_tick`.
    pub fn update_timer(&mut self, delta: u64)
        requires
            old(self).wf(),
            old(self).timer_elapsed_ms + delta <= u64::MAX,
            old(self).loops < usize::MAX,
        ensures
            *final(self) == spec_tick(*old(self), delta),
            final(self).wf(),
    {
        let total = self.timer_elapsed_ms + delta;
        if total < self.timer_interval_ms {
            self.timer_elapsed_ms = total;
            self.timer_just_finished = false;
            return;
        }
        self.timer_elapsed_ms = total % self.timer_interval_ms;
        self.timer_just_finished = true;
        let frame_count: usize = match self.state {
            OtherPlayerAnimationState::Idling => IDLE_FRAMES,
            OtherPlayerAnimationState::Walking => WALKING_FRAMES,
        };
        self.frame = (self.frame + 1) % frame_count;
        if self.frame == 0 {
            self.loops = self.loops + 1;
            if let Some(max_loops) = self.max_loops {
                if self.loops >= max_loops {
                    self.update_state(OtherPlayerAnimationState::Idling);
                }
            }
        }
    }

    /// Adopt `state`: a no-op when it is already current, otherwise a
    /// wholesale reset to the fresh animation of `state`.
    pub fn update_state(&mut self, state: OtherPlayerAnimationState)
        ensures
            old(self).state == state ==> *final(self) == *old(self),
            old(self).state != state ==> *final(self) == init_spec(state),
            old(self).wf() ==> final(self).wf(),
    {
        if self.state != state {
            match state {
                OtherPlayerAnimationState::Idling => {
                    *self = Self::idling();
                },
                OtherPlayerAnimationState::Walking => {
                    *self = Self::walking();
                },
            }
            self.loops = 0;
        }
    }

    /// Whether the animation changed this tick — the timer completed its
    /// interval on the last update.
    pub fn changed(&self) -> (b: bool)
        ensures
            b == self.timer_just_finished,
    {
        self.timer_just_finished
    }

    /// The sprite index in the shared atlas for the current state and frame.
    pub fn get_atlas_index(&self) -> (i: usize)
        requires
            self.wf(),
        ensures
            i == atlas_index_spec(*self),
            i < IDLE_FRAMES + WALKING_FRAMES,
    {
        match self.state {
            OtherPlayerAnimationState::Idling => self.frame,
            OtherPlayerAnimationState::Walking => IDLE_FRAMES + self.frame,
        }
    }
}

/// The atlas index a sprite should show after an update: it moves to the
/// animation's index only on the tick the frame changed, and keeps its old
/// index otherwise.
pub fn update_animation_atlas(animation: &OtherPlayerAnimation, atlas_index: usize) -> (i: usize)
    requires
        animation.wf(),
    ensures
        animation.timer_just_finished ==> i == atlas_index_spec(*animation),
        !animation.timer_just_finished ==> i == atlas_index,
{
    if animation.changed() {
        animation.get_atlas_index()
    } else {
        atlas_index
    }
}

/// Relies on rand::Rng::gen_range over `0..n`: it panics only when the range
/// is empty and otherwise returns a value of the range.
#[verifier::external_body]
fn random_below(n: usize) -> (r: usize)
    requires
        n > 0,
    ensures
        r < n,
{
    rand::Rng::gen_range(&mut rand::thread_rng(), 0..n)
}

/// The step-sound decision for one remote player this tick: when the trigger
/// rule holds, one of the `step_count` step clips is chosen uniformly at
/// random and its index returned; otherwise no sound plays.
pub fn trigger_step_sound_effect(animation: &OtherPlayerAnimation, step_count: usize) -> (pick:
    Option<usize>)
    requires
        step_count > 0,
    ensures
        pick is Some <==> step_sound_due(*animation),
        pick matches Some(i) ==> i < step_count,
{
    if animation.state == OtherPlayerAnimationState::Walking && animation.changed() && (
    animation.frame == 2 || animation.frame == 5) {
        Some(random_below(step_count))
    } else {
        None
    }
}

/// Full case analysis of one timer update, with the frame arithmetic spelled
/// out: no completion leaves everything but the timer alone; a completion
/// below the last frame advances the frame; a completion on the last frame
/// wraps it, and for the walking state — whose loop limit is one — reverts
/// the animation to idling.
proof fn lemma_tick_cases(a: OtherPlayerAnimation, delta: u64)
    requires
        a.wf(),
        a.timer_elapsed_ms + delta <= u64::MAX,
    ensures
        !fires(a, delta) ==> spec_tick(a, delta) == (OtherPlayerAnimation {
            timer_elapsed_ms: (a.timer_elapsed_ms + delta) as u64,
            timer_just_finished: false,
            ..a
        }),
        fires(a, delta) && ((a.frame + 1) as int) < frames_of(a.state) ==> spec_tick(a, delta)
            == (OtherPlayerAnimation {
            timer_elapsed_ms: ((a.timer_elapsed_ms + delta) % (a.timer_interval_ms as int)) as u64,
            timer_just_finished: true,
            frame: (a.frame + 1) as usize,
            ..a
        }),
        fires(a, delta) && (a.frame + 1) as int == frames_of(a.state) && a.state is Walking
            ==> spec_tick(a, delta) == init_spec(OtherPlayerAnimationState::Idling),
        fires(a, delta) && (a.frame + 1) as int == frames_of(a.state) && a.state is Idling
            ==> spec_tick(a, delta) == (OtherPlayerAnimation {
            timer_elapsed_ms: ((a.timer_elapsed_ms + delta) % (a.timer_interval_ms as int)) as u64,
            timer_just_finished: true,
            frame: 0,
            loops: (a.loops + 1) as usize,
            ..a
        }),
{
    let fc = frames_of(a.state);
    assert(fc == 2 || fc == 6);
    if fires(a, delta) {
        if ((a.frame + 1) as int) < fc {
            vstd::arithmetic::div_mod::lemma_small_mod((a.frame + 1) as nat, fc as nat);
            assert(((a.frame + 1) as int) % fc == a.frame + 1);
        } else {
            assert((a.frame + 1) as int == fc);
            vstd::arithmetic::div_mod::lemma_mod_self_0(fc);
            assert(((a.frame + 1) as int) % fc == 0);
        }
    }
}

/// The walking animation reverts to idling automatically exactly when its
/// single loop completes: a timer update that does not complete the interval
/// leaves the state walking; one that completes it on a frame below the last
/// advances one frame and stays walking; and one that completes it on the
/// last frame — the sixth of the loop — reverts wholesale to idling. No other
/// update leaves the walking state.
pub proof fn lemma_walking_auto_revert(a: OtherPlayerAnimation, delta: u64)
    requires
        a.wf(),
        a.state is Walking,
        a.timer_elapsed_ms + delta <= u64::MAX,
    ensures
        !fires(a, delta) ==> spec_tick(a, delta).state is Walking && spec_tick(a, delta).frame
            == a.frame,
        fires(a, delta) && (a.frame as int) < WALKING_FRAMES - 1 ==> spec_tick(a, delta).state
            is Walking && spec_tick(a, delta).frame == a.frame + 1,
        fires(a, delta) && a.frame == WALKING_FRAMES - 1 ==> spec_tick(a, delta) == init_spec(
            OtherPlayerAnimationState::Idling,
        ),
{
    lemma_tick_cases(a, delta);
}

/// From a fresh walking animation, six timer completions — one full loop of
/// the six walking frames — bring the animation back to idling, and every
/// earlier completion leaves it walking: here each update lasts exactly one
/// walking interval.
pub proof fn lemma_walking_one_full_loop()
    ensures
        ({
            let s0 = init_spec(OtherPlayerAnimationState::Walking);
            let s1 = spec_tick(s0, WALKING_INTERVAL_MS);
            let s2 = spec_tick(s1, WALKING_INTERVAL_MS);
            let s3 = spec_tick(s2, WALKING_INTERVAL_MS);
            let s4 = spec_tick(s3, WALKING_INTERVAL_MS);
            let s5 = spec_tick(s4, WALKING_INTERVAL_MS);
            let s6 = spec_tick(s5, WALKING_INTERVAL_MS);
            &&& s1.state is Walking && s1.frame == 1
            &&& s2.state is Walking && s2.frame == 2
            &&& s3.state is Walking && s3.frame == 3
            &&& s4.state is Walking && s4.frame == 4
            &&& s5.state is Walking && s5.frame == 5
            &&& s6 == init_spec(OtherPlayerAnimationState::Idling)
        }),
{
    let s0 = init_spec(OtherPlayerAnimationState::Walking);
    let s1 = spec_tick(s0, WALKING_INTERVAL_MS);
    lemma_tick_cases(s0, WALKING_INTERVAL_MS);
    assert((50int) % (50int) == 0);
    let s2 = spec_tick(s1, WALKING_INTERVAL_MS);
    lemma_tick_cases(s1, WALKING_INTERVAL_MS);
    let s3 = spec_tick(s2, WALKING_INTERVAL_MS);
    lemma_tick_cases(s2, WALKING_INTERVAL_MS);
    let s4 = spec_tick(s3, WALKING_INTERVAL_MS);
    lemma_tick_cases(s3, WALKING_INTERVAL_MS);
    let s5 = spec_tick(s4, WALKING_INTERVAL_MS);
    lemma_tick_cases(s4, WALKING_INTERVAL_MS);
    lemma_tick_cases(s5, WALKING_INTERVAL_MS);
}

/// The step-sound trigger rule, across one timer update: a sound is due only
/// while walking, only on the two foot-down frames, and only on the tick the
/// frame changed; it is never due after an update from idling, never due on
/// the auto-revert update itself, and never due when the interval did not
/// complete — so it fires at most once per qualifying frame.
pub proof fn lemma_step_sound_policy(a: OtherPlayerAnimation, delta: u64)
    requires
        a.wf(),
        a.timer_elapsed_ms + delta <= u64::MAX,
    ensures
        step_sound_due(spec_tick(a, delta)) ==> spec_tick(a, delta).state is Walking && a.state
            is Walking && spec_tick(a, delta).timer_just_finished && (spec_tick(a, delta).frame == 2
            || spec_tick(a, delta).frame == 5),
        a.state is Idling ==> !step_sound_due(spec_tick(a, delta)),
        a.state is Walking && fires(a, delta) && a.frame == WALKING_FRAMES - 1 ==> !step_sound_due(
            spec_tick(a, delta),
        ),
        !fires(a, delta) ==> !step_sound_due(spec_tick(a, delta)),
{
    lemma_tick_cases(a, delta);
}

} // verus!

