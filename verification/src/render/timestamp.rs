//! Timestamp queries: one pair of device timestamps around the work of a pass.

use vstd::prelude::*;
use super::{Command, CommandEncoder, GpuContext};
use super::buffer::{Buffer, BufferUsages};

verus! {

/// Bytes of the two timestamps of a query.
pub const TIMESTAMP_BYTES: usize = 16;

/// Where a query stands in its frame.
#[derive(Debug, Clone, Copy, PartialEq, Eq, Structural)]
pub enum QueryState {
    /// Nothing is measured that has not been read.
    Idle,
    /// The start timestamp is recorded, the end timestamp is not.
    Started,
    /// Both timestamps are recorded and wait to be read.
    Ended,
}

/// Why a query gives no duration.
#[derive(Debug, Clone, Copy, PartialEq, Eq, Structural)]
pub enum TimeQueryError {
    /// No pair of timestamps was recorded since the last read.
    NotMeasured,
    /// The end timestamp lies before the start timestamp.
    Reversed,
}

/// Nanoseconds that `ticks` device ticks of `period_picos` picoseconds take,
/// cut down to whole nanoseconds and to what 64 bits hold.
pub open spec fn spec_nanos(ticks: int, period_picos: int) -> int {
    if ticks * period_picos / 1000 > u64::MAX {
        u64::MAX as int
    } else {
        ticks * period_picos / 1000
    }
}

/// Nanoseconds that `ticks` device ticks of `period_picos` picoseconds take.
pub fn ticks_to_nanos(ticks: u64, period_picos: u64) -> (nanos: u64)
    ensures
        nanos == spec_nanos(ticks as int, period_picos as int),
{
    assert(ticks * period_picos <= u128::MAX) by (nonlinear_arith)
        requires
            0 <= ticks <= u64::MAX,
            0 <= period_picos <= u64::MAX,
    ;
    let product: u128 = (ticks as u128) * (period_picos as u128);
    let nanos: u128 = product / 1000;
    if nanos > u64::MAX as u128 {
        u64::MAX
    } else {
        nanos as u64
    }
}

/// What reading a query in `state` gives for the timestamps `start` and `end`.
pub open spec fn spec_read(state: QueryState, start: u64, end: u64, period_picos: u64) -> Result<
    u64,
    TimeQueryError,
> {
    if state != QueryState::Ended {
        Err(TimeQueryError::NotMeasured)
    } else if end < start {
        Err(TimeQueryError::Reversed)
    } else {
        Ok(spec_nanos(end - start, period_picos as int) as u64)
    }
}

/// A pair of device timestamps, the buffer they are resolved into and the
/// buffer the host reads them from.
#[derive(Debug)]
pub struct TimeQuery {
    state: QueryState,
    query_set: u64,
    resolve_buffer: Buffer,
    readback_buffer: Buffer,
}

impl TimeQuery {
    pub closed spec fn spec_state(&self) -> QueryState {
        self.state
    }

    pub closed spec fn spec_query_set(&self) -> u64 {
        self.query_set
    }

    pub closed spec fn spec_resolve_buffer(&self) -> Buffer {
        self.resolve_buffer
    }

    pub closed spec fn spec_readback_buffer(&self) -> Buffer {
        self.readback_buffer
    }

    /// The commands that bring the timestamps to where the host can read them.
    pub open spec fn spec_resolve_commands(&self) -> Seq<Command> {
        seq![
            Command::ResolveQuerySet {
                query_set: self.spec_query_set(),
                first: 0,
                count: 2,
                destination: self.spec_resolve_buffer().spec_id(),
                offset: 0,
            },
            Command::CopyBufferToBuffer {
                source: self.spec_resolve_buffer().spec_id(),
                source_offset: 0,
                destination: self.spec_readback_buffer().spec_id(),
                destination_offset: 0,
                size: TIMESTAMP_BYTES as u64,
            },
        ]
    }

    /// A query with its set of two timestamps and its two buffers of 16 bytes.
    pub fn new(gpu: &mut GpuContext) -> (query: Self)
        requires
            old(gpu).has_room(3),
        ensures
            final(gpu).next_id() == old(gpu).next_id() + 3,
            final(gpu).spec_float32_filterable() == old(gpu).spec_float32_filterable(),
            query.spec_state() == QueryState::Idle,
            query.spec_query_set() == old(gpu).next_id(),
            query.spec_resolve_buffer().spec_id() == old(gpu).next_id() + 1,
            query.spec_resolve_buffer().spec_size() == TIMESTAMP_BYTES,
            query.spec_resolve_buffer().spec_usage() == (BufferUsages {
                uniform: false,
                storage: false,
                copy_src: true,
                copy_dst: false,
                map_read: false,
                query_resolve: true,
            }),
            query.spec_readback_buffer().spec_id() == old(gpu).next_id() + 2,
            query.spec_readback_buffer().spec_size() == TIMESTAMP_BYTES,
            query.spec_readback_buffer().spec_usage() == (BufferUsages {
                uniform: false,
                storage: false,
                copy_src: false,
                copy_dst: true,
                map_read: true,
                query_resolve: false,
            }),
    {
        let query_set: u64 = gpu.allocate();
        let resolve_buffer = Buffer::with_size(
            gpu,
            "timestamp_resolve",
            TIMESTAMP_BYTES,
            BufferUsages {
                uniform: false,
                storage: false,
                copy_src: true,
                copy_dst: false,
                map_read: false,
                query_resolve: true,
            },
        );
        let readback_buffer = Buffer::with_size(
            gpu,
            "timestamp_readback",
            TIMESTAMP_BYTES,
            BufferUsages {
                uniform: false,
                storage: false,
                copy_src: false,
                copy_dst: true,
                map_read: true,
                query_resolve: false,
            },
        );
        TimeQuery { state: QueryState::Idle, query_set, resolve_buffer, readback_buffer }
    }

    /// Where the query stands.
    #[verifier::when_used_as_spec(spec_state)]
    pub fn state(&self) -> (state: QueryState)
        ensures
            state == self.spec_state(),
    {
        self.state
    }

    /// Identity of the query set.
    pub fn query_set(&self) -> (id: u64)
        ensures
            id == self.spec_query_set(),
    {
        self.query_set
    }

    /// The buffer the timestamps are resolved into.
    pub fn resolve_buffer(&self) -> (buffer: &Buffer)
        ensures
            *buffer == self.spec_resolve_buffer(),
    {
        &self.resolve_buffer
    }

    /// The buffer the host reads the timestamps from.
    pub fn readback_buffer(&self) -> (buffer: &Buffer)
        ensures
            *buffer == self.spec_readback_buffer(),
    {
        &self.readback_buffer
    }

    /// Records the start timestamp. A query is started once per measurement.
    pub fn write_start_timestamp(&mut self, encoder: &mut CommandEncoder)
        requires
            old(self).spec_state() != QueryState::Started,
            old(encoder).spec_complete(),
        ensures
            final(encoder).spec_complete(),
            final(self).spec_state() == QueryState::Started,
            final(self).spec_query_set() == old(self).spec_query_set(),
            final(self).spec_resolve_buffer() == old(self).spec_resolve_buffer(),
            final(self).spec_readback_buffer() == old(self).spec_readback_buffer(),
            final(encoder)@ == old(encoder)@.push(
                Command::WriteTimestamp { query_set: old(self).spec_query_set(), index: 0 },
            ),
    {
        self.state = QueryState::Started;
        encoder.record(Command::WriteTimestamp { query_set: self.query_set, index: 0 });
    }

    /// Records the end timestamp of a started query.
    pub fn write_end_timestamp(&mut self, encoder: &mut CommandEncoder)
        requires
            old(self).spec_state() == QueryState::Started,
            old(encoder).spec_complete(),
        ensures
            final(encoder).spec_complete(),
            final(self).spec_state() == QueryState::Ended,
            final(self).spec_query_set() == old(self).spec_query_set(),
            final(self).spec_resolve_buffer() == old(self).spec_resolve_buffer(),
            final(self).spec_readback_buffer() == old(self).spec_readback_buffer(),
            final(encoder)@ == old(encoder)@.push(
                Command::WriteTimestamp { query_set: old(self).spec_query_set(), index: 1 },
            ),
    {
        self.state = QueryState::Ended;
        encoder.record(Command::WriteTimestamp { query_set: self.query_set, index: 1 });
    }

    /// Records the resolve of both timestamps and their copy to the buffer
    /// that the host reads.
    pub fn resolve(&self, encoder: &mut CommandEncoder)
        requires
            old(encoder).spec_complete(),
        ensures
            final(encoder).spec_complete(),
            final(encoder)@ == old(encoder)@ + self.spec_resolve_commands(),
    {
        encoder.record(
            Command::ResolveQuerySet {
                query_set: self.query_set,
                first: 0,
                count: 2,
                destination: self.resolve_buffer.id(),
                offset: 0,
            },
        );
        encoder.record(
            Command::CopyBufferToBuffer {
                source: self.resolve_buffer.id(),
                source_offset: 0,
                destination: self.readback_buffer.id(),
                destination_offset: 0,
                size: TIMESTAMP_BYTES as u64,
            },
        );
        assert(encoder@ =~= old(encoder)@ + self.spec_resolve_commands());
    }

    /// Takes the two timestamps that the host read back, in device ticks of
    /// `period_picos` picoseconds, and gives the time between them in
    /// nanoseconds. A measurement is read once: the query is idle afterwards,
    /// and a read without a new pair of timestamps is refused.
    pub fn read(&mut self, start_ticks: u64, end_ticks: u64, period_picos: u64) -> (nanos: Result<
        u64,
        TimeQueryError,
    >)
        ensures
            nanos == spec_read(old(self).spec_state(), start_ticks, end_ticks, period_picos),
            final(self).spec_state() == (if nanos is Ok {
                QueryState::Idle
            } else {
                old(self).spec_state()
            }),
            final(self).spec_query_set() == old(self).spec_query_set(),
            final(self).spec_resolve_buffer() == old(self).spec_resolve_buffer(),
            final(self).spec_readback_buffer() == old(self).spec_readback_buffer(),
    {
        match self.state {
            QueryState::Ended => {
                if end_ticks < start_ticks {
                    Err(TimeQueryError::Reversed)
                } else {
                    self.state = QueryState::Idle;
                    Ok(ticks_to_nanos(end_ticks - start_ticks, period_picos))
                }
            },
            _ => Err(TimeQueryError::NotMeasured),
        }
    }
}

} // verus!
