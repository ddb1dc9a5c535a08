//! A rolling window of frame times.

use vstd::prelude::*;
use crate::time::Time;

verus! {

/// Number of frame times the window holds.
pub const FPS_NUM_SAMPLES: usize = 64;

/// The longest span that a frame time can state, in nanoseconds.
pub const MAX_SAMPLE_NANOS: u128 = 18_446_744_073_709_551_615_999_999_999;

/// Sum of `samples`.
pub open spec fn spec_sum(samples: Seq<u128>) -> int
    decreases samples.len(),
{
    if samples.len() == 0 {
        0
    } else {
        spec_sum(samples.drop_last()) + samples.last()
    }
}

/// The last frame times, at most `FPS_NUM_SAMPLES` of them, in a ring.
#[derive(Debug)]
pub struct FpsCounter {
    samples: [u128; 64],
    index: usize,
    count: usize,
}

impl FpsCounter {
    /// The slots of the ring.
    pub closed spec fn spec_samples(&self) -> Seq<u128> {
        self.samples@
    }

    /// The slot that the next frame time goes to.
    pub closed spec fn spec_index(&self) -> usize {
        self.index
    }

    /// Number of frame times held.
    pub closed spec fn spec_count(&self) -> usize {
        self.count
    }

    /// The ring is within its bounds and every frame time is a possible span.
    pub open spec fn wf(&self) -> bool {
        &&& self.spec_samples().len() == FPS_NUM_SAMPLES
        &&& self.spec_index() < FPS_NUM_SAMPLES
        &&& self.spec_count() <= FPS_NUM_SAMPLES
        &&& forall|i: int|
            0 <= i < FPS_NUM_SAMPLES ==> (#[trigger] self.spec_samples()[i]) <= MAX_SAMPLE_NANOS
    }

    /// An empty window.
    pub fn new() -> (counter: Self)
        ensures
            counter.wf(),
            counter.spec_index() == 0,
            counter.spec_count() == 0,
            counter.spec_samples() == Seq::new(FPS_NUM_SAMPLES as nat, |i: int| 0u128),
    {
        let counter = FpsCounter { samples: [0u128; 64], index: 0, count: 0 };
        assert(counter.samples@ =~= Seq::new(FPS_NUM_SAMPLES as nat, |i: int| 0u128));
        counter
    }

    /// Puts the frame time `duration` into the ring, over the oldest one
    /// once the ring is full.
    pub fn push(&mut self, duration: u128)
        requires
            old(self).wf(),
            duration <= MAX_SAMPLE_NANOS,
        ensures
            final(self).wf(),
            final(self).spec_samples() == old(self).spec_samples().update(
                old(self).spec_index() as int,
                duration,
            ),
            final(self).spec_index() == (old(self).spec_index() + 1) % (FPS_NUM_SAMPLES as int),
            final(self).spec_count() == (if old(self).spec_count() < FPS_NUM_SAMPLES {
                old(self).spec_count() + 1
            } else {
                FPS_NUM_SAMPLES as int
            }),
    {
        self.samples[self.index] = duration;
        self.index = (self.index + 1) % FPS_NUM_SAMPLES;
        self.count = if self.count < FPS_NUM_SAMPLES {
            self.count + 1
        } else {
            FPS_NUM_SAMPLES
        };
    }

    /// Puts the time that the last frame took into the ring, cut down to the
    /// longest span that a frame time can state.
    pub fn update(&mut self, time: &Time)
        requires
            old(self).wf(),
        ensures
            final(self).wf(),
            final(self).spec_samples() == old(self).spec_samples().update(
                old(self).spec_index() as int,
                if time.spec_delta() > MAX_SAMPLE_NANOS {
                    MAX_SAMPLE_NANOS
                } else {
                    time.spec_delta()
                },
            ),
            final(self).spec_index() == (old(self).spec_index() + 1) % (FPS_NUM_SAMPLES as int),
            final(self).spec_count() == (if old(self).spec_count() < FPS_NUM_SAMPLES {
                old(self).spec_count() + 1
            } else {
                FPS_NUM_SAMPLES as int
            }),
    {
        let delta: u128 = time.delta();
        if delta > MAX_SAMPLE_NANOS {
            self.push(MAX_SAMPLE_NANOS);
        } else {
            self.push(delta);
        }
    }

    /// Number of frame times held.
    #[verifier::when_used_as_spec(spec_count)]
    pub fn count(&self) -> (count: usize)
        ensures
            count == self.spec_count(),
    {
        self.count
    }

    /// Sum of the frame times in the first `count` slots, in nanoseconds.
    /// The average frame time is this sum over the count.
    pub fn total(&self) -> (sum: u128)
        requires
            self.wf(),
        ensures
            sum == spec_sum(self.spec_samples().take(self.spec_count() as int)),
    {
        let mut sum: u128 = 0;
        let mut i: usize = 0;
        while i < self.count
            invariant
                self.wf(),
                i <= self.count,
                sum == spec_sum(self.samples@.take(i as int)),
                sum <= i * MAX_SAMPLE_NANOS,
            decreases self.count - i,
        {
            proof {
                assert(self.samples@.take(i + 1).drop_last() =~= self.samples@.take(i as int));
                assert(self.samples@.take(i + 1).last() == self.samples@[i as int]);
                assert((i + 1) * MAX_SAMPLE_NANOS == i * MAX_SAMPLE_NANOS + MAX_SAMPLE_NANOS)
                    by (nonlinear_arith);
                assert((i + 1) * MAX_SAMPLE_NANOS <= 64 * MAX_SAMPLE_NANOS) by (nonlinear_arith)
                    requires
                        i + 1 <= 64,
                ;
            }
            sum = sum + self.samples[i];
            i = i + 1;
        }
        sum
    }
}

impl Default for FpsCounter {
    fn default() -> (counter: Self)
        ensures
            counter.wf(),
            counter.spec_count() == 0,
            counter.spec_index() == 0,
    {
        FpsCounter::new()
    }
}

} // verus!
