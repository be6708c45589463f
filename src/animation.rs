//! The player's animation state machine: a closed set of facing and motion
//! states, a frame range per state, and a frame timer.
//!
//! Times are in microseconds.
use vstd::prelude::*;
use vstd::arithmetic::div_mod::{lemma_add_mod_noop_right, lemma_mod_self_0, lemma_small_mod};

verus! {

/// Microseconds in one second.
pub const MICROS_PER_SECOND: u64 = 1_000_000;

/// Facing and motion of the player.
#[derive(Clone, Copy, Debug, PartialEq, Eq, Structural)]
pub enum PlayerAnimationState {
    Idle,
    IdleForward,
    IdleLeft,
    IdleRight,
    WalkForward,
    WalkLeft,
    WalkRight,
    WalkBackward,
}

/// The frames of one state: the inclusive range `first_frame..=last_frame`
/// of atlas indices, the frame rate, and whether the sprite is mirrored.
#[derive(Clone, Copy, Debug, PartialEq, Eq, Structural)]
pub struct AnimationEntry {
    pub first_frame: usize,
    pub last_frame: usize,
    pub frame_rate_fps: u8,
    pub flip_horizontal: bool,
}

impl AnimationEntry {
    /// A nonempty frame range and a nonzero frame rate.
    pub open spec fn wf(self) -> bool {
        self.first_frame <= self.last_frame && self.frame_rate_fps > 0
    }
}

/// One entry for each state.
#[derive(Clone, Copy, Debug, PartialEq, Eq, Structural)]
pub struct AnimationTable {
    pub idle: AnimationEntry,
    pub idle_forward: AnimationEntry,
    pub idle_left: AnimationEntry,
    pub idle_right: AnimationEntry,
    pub walk_forward: AnimationEntry,
    pub walk_left: AnimationEntry,
    pub walk_right: AnimationEntry,
    pub walk_backward: AnimationEntry,
}

impl AnimationTable {
    pub open spec fn entry_of(self, state: PlayerAnimationState) -> AnimationEntry {
        match state {
            PlayerAnimationState::Idle => self.idle,
            PlayerAnimationState::IdleForward => self.idle_forward,
            PlayerAnimationState::IdleLeft => self.idle_left,
            PlayerAnimationState::IdleRight => self.idle_right,
            PlayerAnimationState::WalkForward => self.walk_forward,
            PlayerAnimationState::WalkLeft => self.walk_left,
            PlayerAnimationState::WalkRight => self.walk_right,
            PlayerAnimationState::WalkBackward => self.walk_backward,
        }
    }

    /// Every state's entry is well formed.
    pub open spec fn wf(self) -> bool {
        forall|s: PlayerAnimationState| #[trigger] self.entry_of(s).wf()
    }

    /// Whether every state's entry is well formed.
    pub fn is_well_formed(&self) -> (r: bool)
        ensures
            r == self.wf(),
    {
        let r = self.idle.first_frame <= self.idle.last_frame && self.idle.frame_rate_fps > 0
            && self.idle_forward.first_frame <= self.idle_forward.last_frame
            && self.idle_forward.frame_rate_fps > 0
            && self.idle_left.first_frame <= self.idle_left.last_frame
            && self.idle_left.frame_rate_fps > 0
            && self.idle_right.first_frame <= self.idle_right.last_frame
            && self.idle_right.frame_rate_fps > 0
            && self.walk_forward.first_frame <= self.walk_forward.last_frame
            && self.walk_forward.frame_rate_fps > 0
            && self.walk_left.first_frame <= self.walk_left.last_frame
            && self.walk_left.frame_rate_fps > 0
            && self.walk_right.first_frame <= self.walk_right.last_frame
            && self.walk_right.frame_rate_fps > 0
            && self.walk_backward.first_frame <= self.walk_backward.last_frame
            && self.walk_backward.frame_rate_fps > 0;
        proof {
            if !r {
                if !self.idle.wf() {
                    assert(!self.entry_of(PlayerAnimationState::Idle).wf());
                } else if !self.idle_forward.wf() {
                    assert(!self.entry_of(PlayerAnimationState::IdleForward).wf());
                } else if !self.idle_left.wf() {
                    assert(!self.entry_of(PlayerAnimationState::IdleLeft).wf());
                } else if !self.idle_right.wf() {
                    assert(!self.entry_of(PlayerAnimationState::IdleRight).wf());
                } else if !self.walk_forward.wf() {
                    assert(!self.entry_of(PlayerAnimationState::WalkForward).wf());
                } else if !self.walk_left.wf() {
                    assert(!self.entry_of(PlayerAnimationState::WalkLeft).wf());
                } else if !self.walk_right.wf() {
                    assert(!self.entry_of(PlayerAnimationState::WalkRight).wf());
                } else {
                    assert(!self.entry_of(PlayerAnimationState::WalkBackward).wf());
                }
            }
        }
        r
    }

    /// The entry of `state`.
    pub fn entry(&self, state: PlayerAnimationState) -> (r: AnimationEntry)
        ensures
            r == self.entry_of(state),
    {
        match state {
            PlayerAnimationState::Idle => self.idle,
            PlayerAnimationState::IdleForward => self.idle_forward,
            PlayerAnimationState::IdleLeft => self.idle_left,
            PlayerAnimationState::IdleRight => self.idle_right,
            PlayerAnimationState::WalkForward => self.walk_forward,
            PlayerAnimationState::WalkLeft => self.walk_left,
            PlayerAnimationState::WalkRight => self.walk_right,
            PlayerAnimationState::WalkBackward => self.walk_backward,
        }
    }
}

/// The time one frame stays on screen at `fps` frames per second.
pub open spec fn frame_period(fps: u8) -> u64 {
    (MICROS_PER_SECOND / fps as u64) as u64
}

/// The frame shown after `frame` when the timer runs out: the first frame
/// after the last one, or when `frame` lies outside the range; else the next.
pub open spec fn next_frame(frame: usize, e: AnimationEntry) -> usize {
    if frame == e.last_frame || frame < e.first_frame || frame > e.last_frame {
        e.first_frame
    } else {
        (frame + 1) as usize
    }
}

/// One tick of `elapsed` microseconds with `frame` on screen: the
/// configuration after it and the frame to show.
pub open spec fn tick(c: AnimationConfig, frame: usize, elapsed: u64) -> (AnimationConfig, usize) {
    if elapsed < c.frame_timer {
        (AnimationConfig { frame_timer: (c.frame_timer - elapsed) as u64, ..c }, frame)
    } else {
        let e = c.animations.entry_of(c.current_state);
        (AnimationConfig { frame_timer: frame_period(e.frame_rate_fps), ..c }, next_frame(frame, e))
    }
}

/// A run of ticks, one for each elapsed time in `ticks`.
pub open spec fn run(c: AnimationConfig, frame: usize, ticks: Seq<u64>) -> (AnimationConfig, usize)
    decreases ticks.len(),
{
    if ticks.len() == 0 {
        (c, frame)
    } else {
        let (c2, f2) = tick(c, frame, ticks[0]);
        run(c2, f2, ticks.drop_first())
    }
}

/// The sum of the elapsed times.
pub open spec fn total(ticks: Seq<u64>) -> int
    decreases ticks.len(),
{
    if ticks.len() == 0 {
        0
    } else {
        ticks[0] + total(ticks.drop_first())
    }
}

/// The animation of one entity: its table, its current state, and the time
/// left before the next frame.
#[derive(Clone, Copy, Debug, PartialEq, Eq, Structural)]
pub struct AnimationConfig {
    pub animations: AnimationTable,
    pub current_state: PlayerAnimationState,
    pub frame_timer: u64,
}

impl AnimationConfig {
    pub open spec fn wf(self) -> bool {
        self.animations.wf()
    }

    /// Starts in `initial_state` with a full frame period on the timer.
    pub fn new(initial_state: PlayerAnimationState, animations: AnimationTable) -> (r: Self)
        requires
            animations.wf(),
        ensures
            r.wf(),
            r.animations == animations,
            r.current_state == initial_state,
            r.frame_timer == frame_period(animations.entry_of(initial_state).frame_rate_fps),
    {
        let e = animations.entry(initial_state);
        assert(animations.entry_of(initial_state).wf());
        AnimationConfig {
            animations,
            current_state: initial_state,
            frame_timer: Self::timer_from_fps(e.frame_rate_fps),
        }
    }

    /// Switches to `state`, with a full frame period of the new state on the
    /// timer. Staying in the current state leaves the timer as it is. The
    /// displayed frame is not touched here: the next `advance` that steps
    /// brings it into the new state's range.
    pub fn set_state(&mut self, state: PlayerAnimationState)
        requires
            old(self).wf(),
        ensures
            final(self).wf(),
            final(self).animations == old(self).animations,
            final(self).current_state == state,
            state == old(self).current_state ==> final(self).frame_timer == old(self).frame_timer,
            state != old(self).current_state ==> final(self).frame_timer == frame_period(
                old(self).animations.entry_of(state).frame_rate_fps,
            ),
    {
        if self.current_state != state {
            self.current_state = state;
            let e = self.animations.entry(state);
            assert(self.animations.entry_of(state).wf());
            self.frame_timer = Self::timer_from_fps(e.frame_rate_fps);
        }
    }

    /// The length of one frame at `fps` frames per second.
    pub fn timer_from_fps(fps: u8) -> (r: u64)
        requires
            fps > 0,
        ensures
            r == frame_period(fps),
    {
        MICROS_PER_SECOND / fps as u64
    }

    /// The entry of the current state.
    pub fn get_current_frame_range(&self) -> (r: AnimationEntry)
        ensures
            r == self.animations.entry_of(self.current_state),
    {
        self.animations.entry(self.current_state)
    }

    /// Lets `elapsed` microseconds pass with `frame` on screen and returns
    /// the frame to show. While time is left on the timer the frame stays
    /// and the timer runs down. Once it runs out the frame steps once, by
    /// `next_frame` within the current state's range, and the timer is
    /// loaded with a full period of the current state: a step never comes
    /// sooner than one period after the one before.
    pub fn advance(&mut self, frame: usize, elapsed: u64) -> (r: usize)
        requires
            old(self).wf(),
        ensures
            final(self).wf(),
            final(self).animations == old(self).animations,
            final(self).current_state == old(self).current_state,
            elapsed < old(self).frame_timer ==> r == frame && final(self).frame_timer
                == old(self).frame_timer - elapsed,
            elapsed >= old(self).frame_timer ==> r == next_frame(
                frame,
                old(self).animations.entry_of(old(self).current_state),
            ) && final(self).frame_timer == frame_period(
                old(self).animations.entry_of(old(self).current_state).frame_rate_fps,
            ),
            elapsed >= old(self).frame_timer ==> old(self).animations.entry_of(
                old(self).current_state,
            ).first_frame <= r <= old(self).animations.entry_of(old(self).current_state).last_frame,
            (*final(self), r) == tick(*old(self), frame, elapsed),
    {
        if elapsed < self.frame_timer {
            self.frame_timer = self.frame_timer - elapsed;
            return frame;
        }
        let e = self.get_current_frame_range();
        assert(e.wf());
        let next = if frame == e.last_frame {
            e.first_frame
        } else if frame < e.first_frame || frame > e.last_frame {
            e.first_frame
        } else {
            frame + 1
        };
        self.frame_timer = Self::timer_from_fps(e.frame_rate_fps);
        next
    }
}

/// The frame on screen does not change until the time that has passed
/// reaches what was left on the timer: steps are at least one frame period
/// apart.
pub proof fn lemma_frame_held_until_timer_runs_out(c: AnimationConfig, frame: usize, ticks: Seq<u64>)
    requires
        total(ticks) < c.frame_timer,
    ensures
        run(c, frame, ticks).1 == frame,
        run(c, frame, ticks).0.frame_timer == c.frame_timer - total(ticks),
        run(c, frame, ticks).0.current_state == c.current_state,
    decreases ticks.len(),
{
    if ticks.len() > 0 {
        lemma_total_nonnegative(ticks.drop_first());
        let (c2, f2) = tick(c, frame, ticks[0]);
        lemma_frame_held_until_timer_runs_out(c2, f2, ticks.drop_first());
    }
}

proof fn lemma_total_nonnegative(ticks: Seq<u64>)
    ensures
        total(ticks) >= 0,
    decreases ticks.len(),
{
    if ticks.len() > 0 {
        lemma_total_nonnegative(ticks.drop_first());
    }
}

/// A frame within the current state's range stays within it over any run
/// of ticks.
pub proof fn lemma_frames_stay_in_range(c: AnimationConfig, frame: usize, ticks: Seq<u64>)
    requires
        c.wf(),
        c.animations.entry_of(c.current_state).first_frame <= frame
            <= c.animations.entry_of(c.current_state).last_frame,
    ensures
        run(c, frame, ticks).0.current_state == c.current_state,
        c.animations.entry_of(c.current_state).first_frame <= run(c, frame, ticks).1
            <= c.animations.entry_of(c.current_state).last_frame,
    decreases ticks.len(),
{
    if ticks.len() > 0 {
        assert(c.animations.entry_of(c.current_state).wf());
        let (c2, f2) = tick(c, frame, ticks[0]);
        lemma_frames_stay_in_range(c2, f2, ticks.drop_first());
    }
}

/// When the timer runs out on every tick, the frames go round the current
/// state's range in order: after `k` ticks from `frame` the frame is
/// `first + (frame - first + k) % (last - first + 1)`.
pub proof fn lemma_frames_cycle(c: AnimationConfig, frame: usize, ticks: Seq<u64>)
    requires
        c.wf(),
        c.animations.entry_of(c.current_state).first_frame <= frame
            <= c.animations.entry_of(c.current_state).last_frame,
        ticks.len() > 0 ==> ticks[0] >= c.frame_timer,
        forall|i: int|
            1 <= i < ticks.len() ==> #[trigger] ticks[i] >= frame_period(
                c.animations.entry_of(c.current_state).frame_rate_fps,
            ),
    ensures
        ({
            let e = c.animations.entry_of(c.current_state);
            run(c, frame, ticks).1 == e.first_frame + (frame - e.first_frame + ticks.len()) % (
            e.last_frame - e.first_frame + 1)
        }),
    decreases ticks.len(),
{
    let e = c.animations.entry_of(c.current_state);
    assert(e.wf());
    let n = e.last_frame - e.first_frame + 1;
    if ticks.len() == 0 {
        lemma_small_mod((frame - e.first_frame) as nat, n as nat);
    } else {
        let (c2, f2) = tick(c, frame, ticks[0]);
        if frame == e.last_frame {
            lemma_mod_self_0(n);
        } else {
            lemma_small_mod((frame - e.first_frame + 1) as nat, n as nat);
        }
        assert(f2 == e.first_frame + (frame - e.first_frame + 1) % n);
        let rest = ticks.drop_first();
        assert forall|i: int| 1 <= i < rest.len() implies #[trigger] rest[i] >= frame_period(
            e.frame_rate_fps,
        ) by {
            assert(rest[i] == ticks[i + 1]);
        }
        if rest.len() > 0 {
            assert(rest[0] == ticks[1]);
        }
        lemma_frames_cycle(c2, f2, rest);
        lemma_add_mod_noop_right(rest.len() as int, frame - e.first_frame + 1, n);
        assert((frame - e.first_frame + 1) + rest.len() == frame - e.first_frame + ticks.len());
    }
}

} // verus!
