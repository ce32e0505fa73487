//! A wall-clock countdown used for presentation pacing: it is started, asked
//! to update against the monotonic clock, and reports whether its duration
//! has elapsed. Clock readings are opaque: nothing is assumed about the
//! moment they return, so every contract here states only what holds
//! whatever the clock says.

use vstd::prelude::*;

verus! {

#[verifier::external_type_specification]
#[verifier::external_body]
pub struct ExInstant(std::time::Instant);

/// Relies on std::time::Instant::now for an opaque reading of the monotonic
/// clock; nothing is promised of the value read.
pub assume_specification[ std::time::Instant::now ]() -> std::time::Instant;

/// Relies on std::time::Instant::elapsed for the time passed since the
/// instant; the result depends on the clock, so nothing is promised of it.
pub assume_specification[ std::time::Instant::elapsed ](i: &std::time::Instant) -> std::time::Duration;

/// Relies on core::time::Duration::as_secs for the whole-second count of a
/// duration; the duration itself is opaque here, so nothing is promised of
/// the count.
pub assume_specification[ core::time::Duration::as_secs ](d: &std::time::Duration) -> u64;

/// A countdown of `duration` whole seconds from `start_time`. `finished`
/// latches: once set by an update it stays set until a restart. `counter`
/// counts the restarts.
#[derive(Debug)]
pub struct Timer {
    pub duration: u64,
    pub finished: bool,
    pub start_time: std::time::Instant,
    pub counter: u32,
}

impl Timer {
    /// A fresh, unfinished timer of the given duration in seconds, started
    /// at the current instant.
    pub fn new(duration: u64) -> (t: Timer)
        ensures
            t.duration == duration,
            t.finished == false,
            t.counter == 0,
    {
        Timer {
            duration,
            finished: false,
            start_time: std::time::Instant::now(),
            counter: 0,
        }
    }

    /// Polls the clock: a timer whose duration has elapsed becomes
    /// `finished`. Only the `finished` flag can change, and it never goes
    /// back from `true`; whether it flips depends on the clock alone.
    pub fn update(&mut self)
        ensures
            final(self).duration == old(self).duration,
            final(self).counter == old(self).counter,
            final(self).start_time == old(self).start_time,
            old(self).finished ==> final(self).finished,
    {
        if !self.finished {
            let elapsed = self.start_time.elapsed();
            if elapsed.as_secs() >= self.duration {
                self.finished = true;
            }
        }
    }

    /// Overwrites the duration; the running state is untouched.
    pub fn set_duration(&mut self, duration: u64)
        ensures
            final(self).duration == duration,
            final(self).finished == old(self).finished,
            final(self).counter == old(self).counter,
            final(self).start_time == old(self).start_time,
    {
        self.duration = duration;
    }

    /// Starts the countdown over from the current instant and counts the
    /// restart.
    pub fn restart(&mut self)
        requires
            old(self).counter < u32::MAX,
        ensures
            final(self).duration == old(self).duration,
            final(self).finished == false,
            final(self).counter == old(self).counter + 1,
    {
        self.start_time = std::time::Instant::now();
        self.finished = false;
        self.counter += 1;
    }
}

} // verus!
