//! Device time per pass, read back once per sample window.

use vstd::prelude::*;
use crate::fps::FPS_NUM_SAMPLES;
use crate::render::{CommandEncoder, Command, GpuContext};
use crate::render::timestamp::{spec_read, QueryState, TimeQuery, TimeQueryError};

verus! {

/// The device time of one pass.
#[derive(Debug)]
pub struct PassTime {
    pub name: String,
    pub nanos: u64,
}

/// The two timestamps of one query, as the host read them back.
#[derive(Debug, Clone, Copy, PartialEq, Eq, Structural)]
pub struct TickSample {
    pub start: u64,
    pub end: u64,
}

/// Why a readback changed nothing.
#[derive(Debug, Clone, Copy, PartialEq, Eq, Structural)]
pub enum ProfilerError {
    /// There are not as many samples as queries.
    SampleCount,
    /// The query at `index` gives no duration.
    Query { index: usize, error: TimeQueryError },
}

/// Number of frames among the first `frames` in which the times are read
/// back, at one read every `window` frames.
pub open spec fn spec_reads(frames: nat, window: nat) -> nat
    decreases frames,
{
    if frames == 0 {
        0
    } else {
        spec_reads((frames - 1) as nat, window) + if frames % window == 0 {
            1nat
        } else {
            0nat
        }
    }
}

/// Across any number of frames the times are read back once per full sample
/// window: as often as the window goes into the number of frames.
pub proof fn lemma_read_cadence(frames: nat, window: nat)
    requires
        window > 0,
    ensures
        spec_reads(frames, window) == frames / window,
    decreases frames,
{
    if frames > 0 {
        lemma_read_cadence((frames - 1) as nat, window);
        let f = frames as int;
        let w = window as int;
        vstd::arithmetic::div_mod::lemma_fundamental_div_mod(f, w);
        vstd::arithmetic::div_mod::lemma_fundamental_div_mod(f - 1, w);
        vstd::arithmetic::div_mod::lemma_mod_pos_bound(f, w);
        vstd::arithmetic::div_mod::lemma_mod_pos_bound(f - 1, w);
        let q = f / w;
        let p = (f - 1) / w;
        assert(w * q + f % w == w * p + (f - 1) % w + 1);
        if f % w == 0 {
            assert(q == p + 1) by (nonlinear_arith)
                requires
                    w * q == w * p + (f - 1) % w + 1,
                    0 <= (f - 1) % w < w,
                    w > 0,
            ;
        } else {
            assert(q == p) by (nonlinear_arith)
                requires
                    w * q + f % w == w * p + (f - 1) % w + 1,
                    0 < f % w < w,
                    0 <= (f - 1) % w < w,
                    w > 0,
            ;
        }
    }
}

/// The timestamp queries of the passes, by name, and the times last read.
///
/// Queries are appended and never removed, so the index that a pass got when
/// it registered stays its own.
#[derive(Debug)]
pub struct RenderProfiler {
    names: Vec<String>,
    time_queries: Vec<TimeQuery>,
    times: Vec<PassTime>,
    sample_window: u128,
}

impl RenderProfiler {
    /// The names of the registered passes, in the order they registered.
    pub closed spec fn spec_names(&self) -> Seq<String> {
        self.names@
    }

    /// The queries of the registered passes.
    pub closed spec fn spec_queries(&self) -> Seq<TimeQuery> {
        self.time_queries@
    }

    /// The times last read.
    pub closed spec fn spec_times(&self) -> Seq<PassTime> {
        self.times@
    }

    /// Number of frames between two reads.
    pub closed spec fn spec_sample_window(&self) -> u128 {
        self.sample_window
    }

    /// Every query has a name, and the window holds at least one frame.
    pub open spec fn wf(&self) -> bool {
        &&& self.spec_names().len() == self.spec_queries().len()
        &&& self.spec_sample_window() > 0
    }

    /// Whether every query has both timestamps recorded and `samples` holds
    /// a pair in order for each.
    pub open spec fn spec_readable(&self, samples: Seq<TickSample>) -> bool {
        &&& samples.len() == self.spec_queries().len()
        &&& forall|i: int|
            0 <= i < samples.len() ==> (#[trigger] self.spec_queries()[i]).spec_state()
                == QueryState::Ended && samples[i].start <= samples[i].end
    }

    /// A profiler without queries that reads once per window of the frame
    /// time average.
    pub fn new() -> (profiler: Self)
        ensures
            profiler.wf(),
            profiler.spec_queries().len() == 0,
            profiler.spec_times().len() == 0,
            profiler.spec_sample_window() == FPS_NUM_SAMPLES,
    {
        RenderProfiler {
            names: Vec::new(),
            time_queries: Vec::new(),
            times: Vec::new(),
            sample_window: FPS_NUM_SAMPLES as u128,
        }
    }

    /// A profiler without queries that reads once every `sample_window` frames.
    pub fn with_sample_window(sample_window: u128) -> (profiler: Self)
        requires
            sample_window > 0,
        ensures
            profiler.wf(),
            profiler.spec_queries().len() == 0,
            profiler.spec_times().len() == 0,
            profiler.spec_sample_window() == sample_window,
    {
        RenderProfiler {
            names: Vec::new(),
            time_queries: Vec::new(),
            times: Vec::new(),
            sample_window,
        }
    }

    /// Registers a query under `name` and returns its index.
    pub fn push(&mut self, gpu: &mut GpuContext, name: &str) -> (index: usize)
        requires
            old(self).wf(),
            old(gpu).has_room(3),
        ensures
            final(self).wf(),
            index == old(self).spec_queries().len(),
            final(self).spec_queries().len() == old(self).spec_queries().len() + 1,
            final(self).spec_queries().drop_last() == old(self).spec_queries(),
            final(self).spec_names().drop_last() == old(self).spec_names(),
            final(self).spec_names().last()@ == name@,
            final(self).spec_queries().last().spec_state() == QueryState::Idle,
            final(self).spec_queries().last().spec_query_set() == old(gpu).next_id(),
            final(self).spec_times() == old(self).spec_times(),
            final(self).spec_sample_window() == old(self).spec_sample_window(),
            final(gpu).next_id() == old(gpu).next_id() + 3,
            final(gpu).spec_float32_filterable() == old(gpu).spec_float32_filterable(),
    {
        let index: usize = self.time_queries.len();
        let time_query = TimeQuery::new(gpu);
        let ghost names = self.names@;
        let ghost queries = self.time_queries@;
        self.names.push(name.to_owned());
        self.time_queries.push(time_query);
        assert(self.names@.drop_last() =~= names);
        assert(self.time_queries@.drop_last() =~= queries);
        index
    }

    /// Number of registered queries.
    pub fn len(&self) -> (len: usize)
        ensures
            len == self.spec_queries().len(),
    {
        self.time_queries.len()
    }

    /// The query at `index`.
    pub fn query(&self, index: usize) -> (query: &TimeQuery)
        requires
            index < self.spec_queries().len(),
        ensures
            *query == self.spec_queries()[index as int],
    {
        &self.time_queries[index]
    }

    /// The times last read.
    pub fn times(&self) -> (times: &Vec<PassTime>)
        ensures
            times@ == self.spec_times(),
    {
        &self.times
    }

    /// Records the start timestamp of the query at `index`.
    pub fn write_start_timestamp(&mut self, index: usize, encoder: &mut CommandEncoder)
        requires
            old(self).wf(),
            index < old(self).spec_queries().len(),
            old(self).spec_queries()[index as int].spec_state() != QueryState::Started,
            old(encoder).spec_complete(),
        ensures
            final(encoder).spec_complete(),
            final(self).wf(),
            final(self).spec_names() == old(self).spec_names(),
            final(self).spec_times() == old(self).spec_times(),
            final(self).spec_sample_window() == old(self).spec_sample_window(),
            final(self).spec_queries().len() == old(self).spec_queries().len(),
            forall|i: int|
                0 <= i < old(self).spec_queries().len() && i != index
                    ==> final(self).spec_queries()[i] == old(self).spec_queries()[i],
            final(self).spec_queries()[index as int].spec_state() == QueryState::Started,
            final(self).spec_queries()[index as int].spec_query_set()
                == old(self).spec_queries()[index as int].spec_query_set(),
            final(encoder)@ == old(encoder)@.push(
                Command::WriteTimestamp {
                    query_set: old(self).spec_queries()[index as int].spec_query_set(),
                    index: 0,
                },
            ),
    {
        self.time_queries[index].write_start_timestamp(encoder);
    }

    /// Records the end timestamp of the query at `index`.
    pub fn write_end_timestamp(&mut self, index: usize, encoder: &mut CommandEncoder)
        requires
            old(self).wf(),
            index < old(self).spec_queries().len(),
            old(self).spec_queries()[index as int].spec_state() == QueryState::Started,
            old(encoder).spec_complete(),
        ensures
            final(encoder).spec_complete(),
            final(self).wf(),
            final(self).spec_names() == old(self).spec_names(),
            final(self).spec_times() == old(self).spec_times(),
            final(self).spec_sample_window() == old(self).spec_sample_window(),
            final(self).spec_queries().len() == old(self).spec_queries().len(),
            forall|i: int|
                0 <= i < old(self).spec_queries().len() && i != index
                    ==> final(self).spec_queries()[i] == old(self).spec_queries()[i],
            final(self).spec_queries()[index as int].spec_state() == QueryState::Ended,
            final(self).spec_queries()[index as int].spec_query_set()
                == old(self).spec_queries()[index as int].spec_query_set(),
            final(encoder)@ == old(encoder)@.push(
                Command::WriteTimestamp {
                    query_set: old(self).spec_queries()[index as int].spec_query_set(),
                    index: 1,
                },
            ),
    {
        self.time_queries[index].write_end_timestamp(encoder);
    }

    /// Whether the times are to be read back after frame number
    /// `frame_count`: once every sample window, not every frame.
    pub fn post_render(&self, frame_count: u128) -> (due: bool)
        requires
            self.wf(),
        ensures
            due == (frame_count % self.spec_sample_window() == 0),
    {
        frame_count % self.sample_window == 0
    }

    /// The first query that gives no duration for its sample, with the reason.
    fn first_unreadable(&self, samples: &[TickSample], period_picos: u64) -> (found: Option<
        (usize, TimeQueryError),
    >)
        requires
            samples@.len() == self.spec_queries().len(),
        ensures
            match found {
                None => self.spec_readable(samples@),
                Some((index, error)) => {
                    &&& index < samples@.len()
                    &&& spec_read(
                        self.spec_queries()[index as int].spec_state(),
                        samples@[index as int].start,
                        samples@[index as int].end,
                        period_picos,
                    ) == Err::<u64, TimeQueryError>(error)
                    &&& forall|i: int|
                        0 <= i < index ==> (#[trigger] self.spec_queries()[i]).spec_state()
                            == QueryState::Ended && samples@[i].start <= samples@[i].end
                },
            },
    {
        let mut i: usize = 0;
        while i < samples.len()
            invariant
                i <= samples@.len(),
                samples@.len() == self.time_queries@.len(),
                forall|k: int|
                    0 <= k < i ==> (#[trigger] self.time_queries@[k]).spec_state()
                        == QueryState::Ended && samples@[k].start <= samples@[k].end,
            decreases samples.len() - i,
        {
            match self.time_queries[i].state() {
                QueryState::Ended => {
                    if samples[i].end < samples[i].start {
                        return Some((i, TimeQueryError::Reversed));
                    }
                },
                _ => {
                    return Some((i, TimeQueryError::NotMeasured));
                },
            }
            i = i + 1;
        }
        None
    }

    /// Takes the timestamps that the host read back, one sample per query in
    /// the order of the queries, in device ticks of `period_picos`
    /// picoseconds. Where every query was measured, the times are replaced as
    /// a whole by one fresh time per query and every query is idle again.
    /// Otherwise nothing changes.
    pub fn read_times(&mut self, samples: &[TickSample], period_picos: u64) -> (result: Result<
        (),
        ProfilerError,
    >)
        requires
            old(self).wf(),
        ensures
            final(self).wf(),
            final(self).spec_names() == old(self).spec_names(),
            final(self).spec_sample_window() == old(self).spec_sample_window(),
            final(self).spec_queries().len() == old(self).spec_queries().len(),
            result is Ok <==> old(self).spec_readable(samples@),
            result is Ok ==> {
                &&& final(self).spec_times().len() == old(self).spec_queries().len()
                &&& forall|i: int|
                    0 <= i < samples@.len() ==> {
                        &&& (#[trigger] final(self).spec_times()[i]).name@
                            == old(self).spec_names()[i]@
                        &&& final(self).spec_times()[i].nanos
                            == crate::render::timestamp::spec_nanos(
                            samples@[i].end - samples@[i].start,
                            period_picos as int,
                        )
                    }
                &&& forall|i: int|
                    0 <= i < samples@.len() ==> {
                        &&& (#[trigger] final(self).spec_queries()[i]).spec_state()
                            == QueryState::Idle
                        &&& final(self).spec_queries()[i].spec_query_set()
                            == old(self).spec_queries()[i].spec_query_set()
                        &&& final(self).spec_queries()[i].spec_resolve_buffer()
                            == old(self).spec_queries()[i].spec_resolve_buffer()
                        &&& final(self).spec_queries()[i].spec_readback_buffer()
                            == old(self).spec_queries()[i].spec_readback_buffer()
                    }
            },
            result matches Err(error) ==> {
                &&& final(self).spec_times() == old(self).spec_times()
                &&& final(self).spec_queries() == old(self).spec_queries()
                &&& error == ProfilerError::SampleCount
                    <==> samples@.len() != old(self).spec_queries().len()
                &&& error matches ProfilerError::Query { index, error: reason } ==> {
                    &&& index < samples@.len()
                    &&& spec_read(
                        old(self).spec_queries()[index as int].spec_state(),
                        samples@[index as int].start,
                        samples@[index as int].end,
                        period_picos,
                    ) == Err::<u64, TimeQueryError>(reason)
                    &&& forall|i: int|
                        0 <= i < index ==> (#[trigger] old(self).spec_queries()[i]).spec_state()
                            == QueryState::Ended && samples@[i].start <= samples@[i].end
                }
            },
    {
        if samples.len() != self.time_queries.len() {
            return Err(ProfilerError::SampleCount);
        }
        match self.first_unreadable(samples, period_picos) {
            Some((index, error)) => {
                return Err(ProfilerError::Query { index, error });
            },
            None => {},
        }
        let mut times: Vec<PassTime> = Vec::new();
        let mut i: usize = 0;
        while i < samples.len()
            invariant
                i <= samples@.len(),
                samples@.len() == self.time_queries@.len(),
                self.time_queries@.len() == old(self).time_queries@.len(),
                self.names == old(self).names,
                self.times == old(self).times,
                self.sample_window == old(self).sample_window,
                self.names@.len() == self.time_queries@.len(),
                old(self).spec_readable(samples@),
                times@.len() == i,
                forall|k: int|
                    i <= k < samples@.len() ==> self.time_queries@[k] == old(self).time_queries@[k],
                forall|k: int|
                    0 <= k < i ==> {
                        &&& (#[trigger] times@[k]).name@ == self.names@[k]@
                        &&& times@[k].nanos == crate::render::timestamp::spec_nanos(
                            samples@[k].end - samples@[k].start,
                            period_picos as int,
                        )
                    },
                forall|k: int|
                    0 <= k < i ==> {
                        &&& (#[trigger] self.time_queries@[k]).spec_state() == QueryState::Idle
                        &&& self.time_queries@[k].spec_query_set()
                            == old(self).time_queries@[k].spec_query_set()
                        &&& self.time_queries@[k].spec_resolve_buffer()
                            == old(self).time_queries@[k].spec_resolve_buffer()
                        &&& self.time_queries@[k].spec_readback_buffer()
                            == old(self).time_queries@[k].spec_readback_buffer()
                    },
            decreases samples.len() - i,
        {
            let ghost before = self.time_queries@;
            let sample = samples[i];
            assert(old(self).spec_queries()[i as int].spec_state() == QueryState::Ended);
            let nanos: u64 = match self.time_queries[i].read(sample.start, sample.end, period_picos) {
                Ok(nanos) => nanos,
                Err(_) => 0,
            };
            assert(forall|k: int| 0 <= k < before.len() && k != i ==> self.time_queries@[k] == before[k]);
            times.push(PassTime { name: self.names[i].clone(), nanos });
            i = i + 1;
        }
        self.times = times;
        Ok(())
    }
}

} // verus!
