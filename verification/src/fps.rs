//! A frames-per-second counter.

use std::time::Duration;
use std::time::Instant;
use vstd::prelude::*;

verus! {

#[verifier::external_type_specification]
#[verifier::external_body]
pub struct ExInstant(Instant);

/// Calls `Instant::now` of std: a reading of a monotonic clock. Nothing is
/// stated of it: it depends on the time.
#[verifier::external_body]
fn instant_now() -> Instant {
    Instant::now()
}

/// Calls `Instant::duration_since` of std: the time from `earlier` to
/// `later`, zero when `earlier` is the later one. Nothing is stated of it:
/// it depends on the clock readings.
#[verifier::external_body]
fn duration_since(later: &Instant, earlier: &Instant) -> Duration {
    later.duration_since(*earlier)
}

/// Calls `Duration::as_nanos` of std: the whole nanoseconds of a duration.
/// Nothing is stated of it: the duration comes from the clock.
#[verifier::external_body]
fn duration_nanos(d: &Duration) -> u128 {
    d.as_nanos()
}

/// One second in nanoseconds.
pub const NANOS_PER_SEC: u128 = 1_000_000_000;

pub struct Fps {
    frames: u32,
    fps: u32,
    last_calc: Instant,
}

/// The counts of a counter: frames since the last second ended, and the
/// frames counted in that second.
pub struct FpsModel {
    pub frames: u32,
    pub fps: u32,
}

impl View for Fps {
    type V = FpsModel;

    closed spec fn view(&self) -> FpsModel {
        FpsModel { frames: self.frames, fps: self.fps }
    }
}

impl Fps {
    /// A counter that has seen no frame, starting its first second now.
    pub fn new() -> (f: Fps)
        ensures
            f@.frames == 0,
            f@.fps == 0,
    {
        Fps { frames: 0, fps: 0, last_calc: instant_now() }
    }

    /// Counts a frame, `elapsed_nanos` after the current second began. Once
    /// more than a second has passed the count becomes the rate and
    /// counting starts again; returns whether it did.
    pub fn record_frame(&mut self, elapsed_nanos: u128) -> (second_ended: bool)
        requires
            old(self)@.frames < u32::MAX,
        ensures
            second_ended == (elapsed_nanos > NANOS_PER_SEC),
            second_ended ==> final(self)@.fps == old(self)@.frames + 1 && final(self)@.frames == 0,
            !second_ended ==> final(self)@.fps == old(self)@.fps && final(self)@.frames
                == old(self)@.frames + 1,
    {
        self.frames = self.frames + 1;
        if elapsed_nanos > NANOS_PER_SEC {
            self.fps = self.frames;
            self.frames = 0;
            true
        } else {
            false
        }
    }

    /// Counts a frame shown now.
    pub fn tick(&mut self)
        requires
            old(self)@.frames < u32::MAX,
        ensures
            (final(self)@.fps == old(self)@.frames + 1 && final(self)@.frames == 0)
                || (final(self)@.fps == old(self)@.fps && final(self)@.frames
                == old(self)@.frames + 1),
    {
        let now = instant_now();
        let elapsed = duration_since(&now, &self.last_calc);
        let nanos = duration_nanos(&elapsed);
        if self.record_frame(nanos) {
            self.last_calc = now;
        }
    }

    /// The frames counted in the last whole second.
    pub fn fps(&self) -> (f: u32)
        ensures
            f == self@.fps,
    {
        self.fps
    }
}

} // verus!
