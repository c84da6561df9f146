//! Millisecond countdown timers and sprite-sheet animation pacing.

use vstd::prelude::*;

verus! {

/// Longest tick the simulation accepts, in milliseconds.
pub const MAX_DT_MS: u64 = 1_000_000;

/// Longest duration a timer may be set to, in milliseconds.
pub const MAX_DURATION_MS: u64 = 1_000_000_000_000;

/// Whether a timer stops once it has finished or starts over.
#[derive(Clone, Copy, Debug, PartialEq, Eq, Structural)]
pub enum TimerMode {
    Once,
    Repeating,
}

/// A countdown measured in milliseconds.
#[derive(Clone, Copy, Debug, PartialEq, Eq, Structural)]
pub struct Timer {
    pub duration_ms: u64,
    pub elapsed_ms: u64,
    pub mode: TimerMode,
}

impl Timer {
    pub open spec fn wf(self) -> bool {
        &&& self.duration_ms <= MAX_DURATION_MS
        &&& self.elapsed_ms <= self.duration_ms
    }

    /// Time left before the timer finishes.
    pub open spec fn remaining_spec(self) -> int {
        self.duration_ms - self.elapsed_ms
    }

    /// The timer after `dt` more milliseconds, and whether it finished during
    /// them. A finished one-shot timer stays as it is; a repeating timer
    /// keeps the time that ran past its end.
    pub open spec fn ticked(self, dt: int) -> (Timer, bool) {
        if self.mode == TimerMode::Once && self.elapsed_ms >= self.duration_ms {
            (self, false)
        } else {
            let e = self.elapsed_ms + dt;
            if e < self.duration_ms {
                (Timer { elapsed_ms: e as u64, ..self }, false)
            } else if self.mode == TimerMode::Once {
                (Timer { elapsed_ms: self.duration_ms, ..self }, true)
            } else if self.duration_ms == 0 {
                (Timer { elapsed_ms: 0, ..self }, true)
            } else {
                (Timer { elapsed_ms: (e % self.duration_ms as int) as u64, ..self }, true)
            }
        }
    }

    /// A timer of `duration_ms` that has not started.
    pub fn new(duration_ms: u64, mode: TimerMode) -> (t: Timer)
        requires
            duration_ms <= MAX_DURATION_MS,
        ensures
            t == (Timer { duration_ms, elapsed_ms: 0, mode }),
            t.wf(),
    {
        Timer { duration_ms, elapsed_ms: 0, mode }
    }

    /// Advances the timer by `dt` milliseconds; returns whether it finished
    /// during this tick.
    pub fn tick(&mut self, dt: u64) -> (just_finished: bool)
        requires
            old(self).wf(),
            dt <= MAX_DT_MS,
        ensures
            (*final(self), just_finished) == old(self).ticked(dt as int),
            final(self).wf(),
    {
        if self.mode == TimerMode::Once && self.elapsed_ms >= self.duration_ms {
            return false;
        }
        let e: u64 = self.elapsed_ms + dt;
        if e < self.duration_ms {
            self.elapsed_ms = e;
            false
        } else if self.mode == TimerMode::Once {
            self.elapsed_ms = self.duration_ms;
            true
        } else if self.duration_ms == 0 {
            self.elapsed_ms = 0;
            true
        } else {
            self.elapsed_ms = e % self.duration_ms;
            true
        }
    }

    /// Milliseconds left before the timer finishes.
    pub fn remaining(&self) -> (r: u64)
        requires
            self.wf(),
        ensures
            r == self.remaining_spec(),
    {
        self.duration_ms - self.elapsed_ms
    }

    /// Whether the timer has run its full duration.
    pub fn is_finished(&self) -> (r: bool)
        ensures
            r == (self.elapsed_ms >= self.duration_ms),
    {
        self.elapsed_ms >= self.duration_ms
    }

    /// Starts the timer over.
    pub fn reset(&mut self)
        ensures
            *final(self) == (Timer { elapsed_ms: 0, ..*old(self) }),
    {
        self.elapsed_ms = 0;
    }
}

/// The frame period, in milliseconds, of an animation running at `fps`
/// frames per second.
pub open spec fn frame_period_ms(fps: u8) -> u64 {
    (1000int / fps as int) as u64
}

/// A sprite-sheet animation: the frames it cycles through and the timer that
/// paces it.
#[derive(Clone, Copy, Debug)]
pub struct AnimationConfig {
    pub first_sprite_index: usize,
    pub last_sprite_index: usize,
    pub fps: u8,
    pub frame_timer: Timer,
}

impl AnimationConfig {
    /// An animation over frames `first..last` at `fps` frames per second; the
    /// timer runs once when `variant` is `"once"`, and repeats otherwise.
    pub fn new(first: usize, last: usize, fps: u8, variant: String) -> (a: AnimationConfig)
        requires
            fps > 0,
        ensures
            a.first_sprite_index == first,
            a.last_sprite_index == last,
            a.fps == fps,
            a.frame_timer == Self::timer_from_fps_spec(fps, variant@),
            a.frame_timer.wf(),
    {
        let frame_timer = Self::timer_from_fps(fps, variant);
        AnimationConfig { first_sprite_index: first, last_sprite_index: last, fps, frame_timer }
    }

    pub open spec fn timer_from_fps_spec(fps: u8, variant: Seq<char>) -> Timer {
        Timer {
            duration_ms: frame_period_ms(fps),
            elapsed_ms: 0,
            mode: if variant == seq!['o', 'n', 'c', 'e'] {
                TimerMode::Once
            } else {
                TimerMode::Repeating
            },
        }
    }

    /// A fresh timer with the frame period of `fps`: one-shot for the
    /// variant `"once"`, repeating for any other.
    pub fn timer_from_fps(fps: u8, variant: String) -> (t: Timer)
        requires
            fps > 0,
        ensures
            t == Self::timer_from_fps_spec(fps, variant@),
            t.wf(),
    {
        let once: String = "once".to_owned();
        proof {
            reveal_strlit("once");
            assert(once@ =~= seq!['o', 'n', 'c', 'e']);
        }
        let period: u64 = 1000u64 / (fps as u64);
        if variant == once {
            assert(variant@ =~= seq!['o', 'n', 'c', 'e']);
            Timer::new(period, TimerMode::Once)
        } else {
            assert(variant@ != seq!['o', 'n', 'c', 'e']);
            Timer::new(period, TimerMode::Repeating)
        }
    }

    /// The frame that follows `index`: the sheet wraps to its first frame
    /// after the frame before `last_sprite_index`.
    pub fn next_frame(&self, index: usize) -> (r: usize)
        requires
            index < usize::MAX,
        ensures
            r == if index as int == self.last_sprite_index - 1 {
                self.first_sprite_index
            } else {
                (index + 1) as usize
            },
    {
        if self.last_sprite_index >= 1 && index == self.last_sprite_index - 1 {
            self.first_sprite_index
        } else {
            index + 1
        }
    }
}

/// The animation after `dt` milliseconds at frame `index`, and the frame to
/// show: when the frame timer finishes, the sheet wraps from the frame
/// before `last_sprite_index` to the first frame, or else steps to the next
/// frame with a fresh timer of `variant`.
pub open spec fn animated(a: AnimationConfig, index: usize, dt: int, variant: Seq<char>) -> (
    AnimationConfig,
    usize,
) {
    let (t, finished) = a.frame_timer.ticked(dt);
    if !finished {
        (AnimationConfig { frame_timer: t, ..a }, index)
    } else if index as int == a.last_sprite_index - 1 {
        (AnimationConfig { frame_timer: t, ..a }, a.first_sprite_index)
    } else {
        (
            AnimationConfig { frame_timer: AnimationConfig::timer_from_fps_spec(a.fps, variant), ..a },
            (index + 1) as usize,
        )
    }
}

impl AnimationConfig {
    /// Advances the animation by `dt` milliseconds from frame `index`, with
    /// `variant` choosing the kind of timer for the next frame; returns the
    /// frame to show.
    pub fn advance(&mut self, index: usize, dt: u64, variant: String) -> (r: usize)
        requires
            old(self).fps > 0,
            old(self).frame_timer.wf(),
            index < usize::MAX,
            dt <= MAX_DT_MS,
        ensures
            (*final(self), r) == animated(*old(self), index, dt as int, variant@),
            final(self).frame_timer.wf(),
            final(self).fps == old(self).fps,
    {
        let finished = self.frame_timer.tick(dt);
        if !finished {
            index
        } else if self.last_sprite_index >= 1 && index == self.last_sprite_index - 1 {
            self.first_sprite_index
        } else {
            self.frame_timer = Self::timer_from_fps(self.fps, variant);
            index + 1
        }
    }
}

} // verus!
