//! A countdown timer for repeat-rate limiting of held input.

use vstd::prelude::*;

verus! {

/// How long a held key waits between repeated actions, in milliseconds.
pub const REPEAT_DURATION_MS: u64 = 100;

/// How long a key must be held before it starts repeating, in milliseconds.
pub const PRESSED_DURATION_MS: u64 = 500;

/// A one-shot timer: tick it with elapsed wall time and it finishes once
/// the accumulated time reaches its duration.
#[derive(Clone, Copy, Debug, PartialEq, Eq, Structural)]
pub struct Timer {
    pub duration_ms: u64,
    pub elapsed_ms: u64,
}

impl Timer {
    /// Whether the timer has reached its duration.
    pub open spec fn spec_finished(&self) -> bool {
        self.elapsed_ms >= self.duration_ms
    }

    pub fn new(duration_ms: u64) -> (r: Timer)
        ensures
            r.duration_ms == duration_ms,
            r.elapsed_ms == 0,
    {
        Timer { duration_ms, elapsed_ms: 0 }
    }

    /// Advance the timer; accumulated time never passes the duration.
    pub fn tick(&mut self, delta_ms: u64)
        ensures
            final(self).duration_ms == old(self).duration_ms,
            final(self).elapsed_ms == (if old(self).elapsed_ms + delta_ms
                <= old(self).duration_ms {
                (old(self).elapsed_ms + delta_ms) as u64
            } else {
                old(self).duration_ms
            }),
    {
        if self.elapsed_ms < self.duration_ms && delta_ms <= self.duration_ms - self.elapsed_ms {
            self.elapsed_ms = self.elapsed_ms + delta_ms;
        } else {
            self.elapsed_ms = self.duration_ms;
        }
    }

    pub fn finished(&self) -> (r: bool)
        ensures
            r == self.spec_finished(),
    {
        self.elapsed_ms >= self.duration_ms
    }

    /// Start the countdown over.
    pub fn reset(&mut self)
        ensures
            final(self).duration_ms == old(self).duration_ms,
            final(self).elapsed_ms == 0,
    {
        self.elapsed_ms = 0;
    }
}

/// The timer that paces the player's held-key repeats.
#[derive(Clone, Copy, Debug, PartialEq, Eq, Structural)]
pub struct PlayerTimer(pub Timer);

impl Default for PlayerTimer {
    /// A fresh repeat timer of the standard repeat duration.
    fn default() -> (r: PlayerTimer)
        ensures
            r.0.duration_ms == REPEAT_DURATION_MS,
            r.0.elapsed_ms == 0,
    {
        PlayerTimer(Timer::new(REPEAT_DURATION_MS))
    }
}

} // verus!
