//! Abstract model of the adapter.
//!
//! Every executable transition of the crate is tied by its contract to one of
//! the specification functions here, so the laws proved about the model (a
//! release happens exactly once, reads are never issued concurrently, a
//! cleared flag short-circuits the very next poll) carry over to the code.

use vstd::prelude::*;

verus! {

// ---------------------------------------------------------------------------
// Abstract values
// ---------------------------------------------------------------------------

/// Abstract error: the full taxonomy of failures a consumer can observe.
pub enum ErrorModel {
    /// Cancellation was observed at a poll boundary.
    Canceled,
    /// One read failed; the reader stays usable.
    Read(Seq<char>),
    /// The reader lock could not be acquired; no chunks are ever produced.
    Lock(Seq<char>),
    /// The request never reached the body-stream stage.
    Transport(Seq<char>),
}

/// Abstract chunk as a consumer sees it: bytes, or a chunk-level failure.
pub enum ChunkModel {
    Data(Seq<u8>),
    Failed(ErrorModel),
}

/// Abstract unit pushed to a callback sink.
pub enum StreamChunkModel<T> {
    DataChunk(T),
    Finished,
}

/// Abstract completion of one host read: bytes, end-of-stream, or a failure.
pub enum ReadOutcomeModel {
    Chunk(Seq<u8>),
    End,
    Failed(Seq<char>),
}

/// Abstract result of polling the in-flight read once.
pub enum ReadPollModel {
    Pending,
    Complete(ReadOutcomeModel),
}

/// Abstract result of one poll of the sequence.
pub enum PolledModel {
    /// One chunk (or chunk-level error) is delivered.
    Item(ChunkModel),
    /// The sequence has ended; nothing further will be delivered.
    Ended,
    /// A read is still in flight; the caller suspends.
    Suspended,
}

// ---------------------------------------------------------------------------
// The state machine
// ---------------------------------------------------------------------------

/// Abstract state of the sequence adapter.
///
/// The reader capability is held in every state but `Done`; `Done` is reached
/// only by releasing it.
pub enum ModelState {
    /// No read in flight; the reader is available to start one.
    Ready,
    /// Exactly one read is in flight.
    Awaiting,
    /// Cancellation was observed; no further reads, the reader is held for
    /// teardown. `read_outstanding` records whether a read was still in
    /// flight when cancellation was observed.
    Canceled { read_outstanding: bool },
    /// The reader has been released; the sequence only reports its end.
    Done,
}

/// What the adapter decides at a poll boundary, before any host work.
/// Carries no data, so the executable poll returns it as it is.
#[derive(Clone, Copy, PartialEq, Eq, Structural, Debug)]
pub enum PollDecision {
    /// The flag was observed cleared: deliver one cancellation error chunk.
    EmitCanceled,
    /// Issue exactly one new read, then poll it.
    StartRead,
    /// A read is already in flight: poll it, never issue a second one.
    AwaitRead,
    /// The sequence has ended: report that, touching nothing.
    AlreadyDone,
}

/// The decision taken at a poll boundary, given the flag value observed.
pub open spec fn poll_decision(s: ModelState, active: bool) -> PollDecision {
    match s {
        ModelState::Ready => if active {
            PollDecision::StartRead
        } else {
            PollDecision::EmitCanceled
        },
        ModelState::Awaiting => if active {
            PollDecision::AwaitRead
        } else {
            PollDecision::EmitCanceled
        },
        ModelState::Canceled { .. } => PollDecision::AlreadyDone,
        ModelState::Done => PollDecision::AlreadyDone,
    }
}

/// The state after a poll boundary. Observing a cleared flag moves to
/// `Canceled`, remembering whether a read was in flight; otherwise `Ready`
/// advances to `Awaiting` (one read issued) and every other state is kept.
pub open spec fn poll_transition(s: ModelState, active: bool) -> ModelState {
    match s {
        ModelState::Ready => if active {
            ModelState::Awaiting
        } else {
            ModelState::Canceled { read_outstanding: false }
        },
        ModelState::Awaiting => if active {
            ModelState::Awaiting
        } else {
            ModelState::Canceled { read_outstanding: true }
        },
        ModelState::Canceled { .. } => s,
        ModelState::Done => s,
    }
}

/// The chunk delivered when cancellation is observed.
pub open spec fn canceled_item() -> ChunkModel {
    ChunkModel::Failed(ErrorModel::Canceled)
}

/// The state after the in-flight read is polled (only legal in `Awaiting`).
/// Data and failure both return to `Ready` — a read error is chunk-level,
/// not stream-fatal. End-of-stream releases the reader and ends the sequence.
pub open spec fn read_transition(r: ReadPollModel) -> ModelState {
    match r {
        ReadPollModel::Pending => ModelState::Awaiting,
        ReadPollModel::Complete(ReadOutcomeModel::Chunk(_)) => ModelState::Ready,
        ReadPollModel::Complete(ReadOutcomeModel::Failed(_)) => ModelState::Ready,
        ReadPollModel::Complete(ReadOutcomeModel::End) => ModelState::Done,
    }
}

/// What one poll of the in-flight read delivers.
pub open spec fn read_output(r: ReadPollModel) -> PolledModel {
    match r {
        ReadPollModel::Pending => PolledModel::Suspended,
        ReadPollModel::Complete(ReadOutcomeModel::Chunk(d)) => PolledModel::Item(
            ChunkModel::Data(d),
        ),
        ReadPollModel::Complete(ReadOutcomeModel::Failed(m)) => PolledModel::Item(
            ChunkModel::Failed(ErrorModel::Read(m)),
        ),
        ReadPollModel::Complete(ReadOutcomeModel::End) => PolledModel::Ended,
    }
}

/// Whether this read completion makes the adapter release the reader lock.
pub open spec fn read_releases(r: ReadPollModel) -> bool {
    r matches ReadPollModel::Complete(ReadOutcomeModel::End)
}

/// Whether this read completion clears the shared flag (natural completion
/// disarms a late external cancel).
pub open spec fn read_clears_flag(r: ReadPollModel) -> bool {
    r matches ReadPollModel::Complete(ReadOutcomeModel::End)
}

/// Whether teardown still has to perform the host release.
pub open spec fn teardown_releases(s: ModelState) -> bool {
    !(s is Done)
}

// ---------------------------------------------------------------------------
// The callback consumer
// ---------------------------------------------------------------------------

/// What the callback consumer pushes to its sink for one polled result.
/// A chunk-level error is delivered and then the stream is force-finished:
/// once one failure has been observed, no more data is pulled.
pub open spec fn consumer_emits(p: PolledModel) -> Seq<StreamChunkModel<ChunkModel>> {
    match p {
        PolledModel::Item(ChunkModel::Data(d)) => seq![
            StreamChunkModel::DataChunk(ChunkModel::Data(d)),
        ],
        PolledModel::Item(ChunkModel::Failed(e)) => seq![
            StreamChunkModel::DataChunk(ChunkModel::Failed(e)),
            StreamChunkModel::Finished,
        ],
        PolledModel::Ended => seq![StreamChunkModel::Finished],
        PolledModel::Suspended => Seq::empty(),
    }
}

/// Whether the consumer stops pulling after this polled result.
pub open spec fn consumer_stops(p: PolledModel) -> bool {
    match p {
        PolledModel::Item(ChunkModel::Data(_)) => false,
        PolledModel::Item(ChunkModel::Failed(_)) => true,
        PolledModel::Ended => true,
        PolledModel::Suspended => false,
    }
}

// ---------------------------------------------------------------------------
// A consumer-driven run over a scripted reader
// ---------------------------------------------------------------------------

/// Whether a script of read completions stops the consumer: it holds an
/// end-of-stream or a failure somewhere.
pub open spec fn has_terminator(script: Seq<ReadOutcomeModel>) -> bool
    decreases script.len(),
{
    script.len() > 0 && match script[0] {
        ReadOutcomeModel::Chunk(_) => has_terminator(script.skip(1)),
        ReadOutcomeModel::End => true,
        ReadOutcomeModel::Failed(_) => true,
    }
}

/// Everything the callback consumer pushes to its sink when the reads
/// complete as the script says: one `DataChunk` per chunk in order, then on
/// the first failure that failure and `Finished`, or on end-of-stream
/// `Finished` alone.
pub open spec fn emissions_from(script: Seq<ReadOutcomeModel>) -> Seq<
    StreamChunkModel<ChunkModel>,
>
    decreases script.len(),
{
    if script.len() == 0 {
        Seq::empty()
    } else {
        match script[0] {
            ReadOutcomeModel::Chunk(d) => seq![
                StreamChunkModel::DataChunk(ChunkModel::Data(d)),
            ] + emissions_from(script.skip(1)),
            ReadOutcomeModel::End => seq![StreamChunkModel::Finished],
            ReadOutcomeModel::Failed(m) => seq![
                StreamChunkModel::DataChunk(ChunkModel::Failed(ErrorModel::Read(m))),
                StreamChunkModel::Finished,
            ],
        }
    }
}

/// How many reads a consumer-driven run issues: one per chunk before the
/// terminator, plus the read that returned the terminator itself. Whatever
/// the script holds after its terminator is never read.
pub open spec fn reads_used(script: Seq<ReadOutcomeModel>) -> int
    decreases script.len(),
{
    if script.len() == 0 {
        0
    } else {
        match script[0] {
            ReadOutcomeModel::Chunk(_) => 1 + reads_used(script.skip(1)),
            ReadOutcomeModel::End => 1,
            ReadOutcomeModel::Failed(_) => 1,
        }
    }
}

/// What the callback consumer pushes when cancellation is observed at the
/// first poll: the cancellation error chunk, then `Finished`.
pub open spec fn canceled_emissions() -> Seq<StreamChunkModel<ChunkModel>> {
    seq![
        StreamChunkModel::DataChunk(canceled_item()),
        StreamChunkModel::Finished,
    ]
}

/// The bytes of all data chunks in a sink trace, concatenated in order.
pub open spec fn data_concat(chunks: Seq<StreamChunkModel<ChunkModel>>) -> Seq<u8>
    decreases chunks.len(),
{
    if chunks.len() == 0 {
        Seq::empty()
    } else {
        (match chunks[0] {
            StreamChunkModel::DataChunk(ChunkModel::Data(d)) => d,
            StreamChunkModel::DataChunk(ChunkModel::Failed(_)) => Seq::empty(),
            StreamChunkModel::Finished => Seq::empty(),
        }) + data_concat(chunks.skip(1))
    }
}

/// The bytes the underlying reader offers before its first non-chunk
/// completion, concatenated in order.
pub open spec fn chunk_concat(script: Seq<ReadOutcomeModel>) -> Seq<u8>
    decreases script.len(),
{
    if script.len() == 0 {
        Seq::empty()
    } else {
        match script[0] {
            ReadOutcomeModel::Chunk(d) => d + chunk_concat(script.skip(1)),
            ReadOutcomeModel::End => Seq::empty(),
            ReadOutcomeModel::Failed(_) => Seq::empty(),
        }
    }
}

// ---------------------------------------------------------------------------
// Traces: arbitrary interleavings of the adapter's transitions
// ---------------------------------------------------------------------------

/// One observable step of the adapter, for reasoning over whole runs.
pub enum SeqOp {
    /// A poll boundary, with the flag value observed there.
    Poll { active: bool },
    /// The in-flight read was polled, with this result.
    HostRead(ReadPollModel),
    /// The owning adapter is torn down.
    Teardown,
}

/// Whether the step may fire in this state: polling a read needs one in
/// flight; the other steps are always allowed.
pub open spec fn op_enabled(s: ModelState, op: SeqOp) -> bool {
    match op {
        SeqOp::Poll { .. } => true,
        SeqOp::HostRead(_) => s is Awaiting,
        SeqOp::Teardown => true,
    }
}

/// The state after one step.
pub open spec fn op_step(s: ModelState, op: SeqOp) -> ModelState {
    match op {
        SeqOp::Poll { active } => poll_transition(s, active),
        SeqOp::HostRead(r) => read_transition(r),
        SeqOp::Teardown => ModelState::Done,
    }
}

/// How many host releases this step performs (0 or 1): end-of-stream
/// releases the reader, and teardown releases it if it is still held.
pub open spec fn op_release_count(s: ModelState, op: SeqOp) -> int {
    match op {
        SeqOp::Poll { .. } => 0,
        SeqOp::HostRead(r) => if read_releases(r) {
            1
        } else {
            0
        },
        SeqOp::Teardown => if teardown_releases(s) {
            1
        } else {
            0
        },
    }
}

/// Whether this step issues a new read against the reader.
pub open spec fn op_starts_read(s: ModelState, op: SeqOp) -> bool {
    op matches SeqOp::Poll { active } && active && s is Ready
}

/// Whether this step observes the in-flight read as complete.
pub open spec fn op_completes_read(s: ModelState, op: SeqOp) -> bool {
    op matches SeqOp::HostRead(r) && !(r is Pending)
}

/// Whether this step abandons an outstanding read without ever observing
/// its completion: teardown while a read is still in flight.
pub open spec fn op_abandons_read(s: ModelState, op: SeqOp) -> bool {
    op is Teardown && outstanding(s) == 1
}

/// How many reads are outstanding in a state: never more than one.
pub open spec fn outstanding(s: ModelState) -> int {
    match s {
        ModelState::Ready => 0,
        ModelState::Awaiting => 1,
        ModelState::Canceled { read_outstanding } => if read_outstanding {
            1
        } else {
            0
        },
        ModelState::Done => 0,
    }
}

/// Whether the reader capability is still held (not yet released).
pub open spec fn holds_reader(s: ModelState) -> bool {
    !(s is Done)
}

/// Whether every step of the trace is enabled where it fires.
pub open spec fn trace_ok(s: ModelState, ops: Seq<SeqOp>) -> bool
    decreases ops.len(),
{
    ops.len() == 0 || (op_enabled(s, ops[0]) && trace_ok(op_step(s, ops[0]), ops.skip(1)))
}

/// The state after running the whole trace.
pub open spec fn run_ops(s: ModelState, ops: Seq<SeqOp>) -> ModelState
    decreases ops.len(),
{
    if ops.len() == 0 {
        s
    } else {
        run_ops(op_step(s, ops[0]), ops.skip(1))
    }
}

/// Total host releases performed along the trace.
pub open spec fn releases_in(s: ModelState, ops: Seq<SeqOp>) -> int
    decreases ops.len(),
{
    if ops.len() == 0 {
        0
    } else {
        op_release_count(s, ops[0]) + releases_in(op_step(s, ops[0]), ops.skip(1))
    }
}

/// Total reads issued along the trace.
pub open spec fn starts_in(s: ModelState, ops: Seq<SeqOp>) -> int
    decreases ops.len(),
{
    if ops.len() == 0 {
        0
    } else {
        (if op_starts_read(s, ops[0]) {
            1int
        } else {
            0int
        }) + starts_in(op_step(s, ops[0]), ops.skip(1))
    }
}

/// Total read completions observed along the trace.
pub open spec fn completes_in(s: ModelState, ops: Seq<SeqOp>) -> int
    decreases ops.len(),
{
    if ops.len() == 0 {
        0
    } else {
        (if op_completes_read(s, ops[0]) {
            1int
        } else {
            0int
        }) + completes_in(op_step(s, ops[0]), ops.skip(1))
    }
}

/// Total reads abandoned along the trace.
pub open spec fn abandons_in(s: ModelState, ops: Seq<SeqOp>) -> int
    decreases ops.len(),
{
    if ops.len() == 0 {
        0
    } else {
        (if op_abandons_read(s, ops[0]) {
            1int
        } else {
            0int
        }) + abandons_in(op_step(s, ops[0]), ops.skip(1))
    }
}

} // verus!
