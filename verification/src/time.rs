//! Frame timing: the time the last frame took and the number of frames so far.

use vstd::prelude::*;

verus! {

/// A point on the monotonic clock.
#[verifier::external_type_specification]
#[verifier::external_body]
pub struct ExInstant(std::time::Instant);

/// `std::time::Instant::now`. Nothing is promised of the clock.
#[verifier::external_body]
fn instant_now() -> (now: std::time::Instant) {
    std::time::Instant::now()
}

/// `std::time::Instant::elapsed`. Nothing is promised of the clock.
#[verifier::external_body]
fn instant_elapsed(since: &std::time::Instant) -> (elapsed: std::time::Duration) {
    since.elapsed()
}

/// `std::time::Duration::as_nanos`.
#[verifier::external_body]
fn duration_as_nanos(duration: &std::time::Duration) -> (nanos: u128) {
    duration.as_nanos()
}

/// The clock of the frame loop.
#[derive(Debug)]
pub struct Time {
    last_frame: std::time::Instant,
    delta: u128,
    frame_count: u128,
}

impl Time {
    /// Nanoseconds that the last frame took.
    pub closed spec fn spec_delta(&self) -> u128 {
        self.delta
    }

    /// Number of frames that have ended.
    pub closed spec fn spec_frame_count(&self) -> u128 {
        self.frame_count
    }

    /// A clock before the first frame: no frame has ended, none took any time.
    pub fn new() -> (time: Self)
        ensures
            time.spec_delta() == 0,
            time.spec_frame_count() == 0,
    {
        Time { last_frame: instant_now(), delta: 0, frame_count: 0 }
    }

    /// Ends a frame at `now`, `elapsed` nanoseconds after the frame before it ended.
    pub fn advance(&mut self, now: std::time::Instant, elapsed: u128)
        requires
            old(self).spec_frame_count() < u128::MAX,
        ensures
            final(self).spec_delta() == elapsed,
            final(self).spec_frame_count() == old(self).spec_frame_count() + 1,
    {
        self.last_frame = now;
        self.delta = elapsed;
        self.frame_count = self.frame_count + 1;
    }

    /// Ends a frame now: the frame took what the clock says, and one more
    /// frame is counted.
    pub fn update(&mut self)
        requires
            old(self).spec_frame_count() < u128::MAX,
        ensures
            final(self).spec_frame_count() == old(self).spec_frame_count() + 1,
    {
        let now = instant_now();
        let elapsed = instant_elapsed(&self.last_frame);
        let nanos: u128 = duration_as_nanos(&elapsed);
        self.advance(now, nanos);
    }

    /// Nanoseconds that the last frame took.
    #[verifier::when_used_as_spec(spec_delta)]
    pub fn delta(&self) -> (nanos: u128)
        ensures
            nanos == self.spec_delta(),
    {
        self.delta
    }

    /// Number of frames that have ended.
    #[verifier::when_used_as_spec(spec_frame_count)]
    pub fn frame_count(&self) -> (count: u128)
        ensures
            count == self.spec_frame_count(),
    {
        self.frame_count
    }
}

} // verus!
