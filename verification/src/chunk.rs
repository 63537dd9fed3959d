//! The values the adapter passes around: chunks, errors, read completions.
//!
//! Each executable type has a view onto the abstract values of [`crate::model`],
//! so that contracts can be stated over mathematical sequences of bytes and
//! characters rather than over `Vec` and `String`.

use crate::model::{
    ChunkModel, ErrorModel, PolledModel, ReadOutcomeModel, ReadPollModel, StreamChunkModel,
};
use vstd::prelude::*;

verus! {

/// A failure a consumer of the sequence can observe.
#[derive(Debug, Clone, PartialEq, Eq)]
pub enum FetchError {
    /// Cancellation was observed at a poll boundary; terminal.
    Canceled,
    /// One read failed with this message; the reader stays usable.
    Read(String),
    /// The reader lock could not be acquired; no chunks are ever produced.
    Lock(String),
    /// The request failed before a body stream was obtained; the sequence
    /// never starts. Produced by the transport glue around this crate.
    Transport(String),
}

impl View for FetchError {
    type V = ErrorModel;

    open spec fn view(&self) -> ErrorModel {
        match self {
            FetchError::Canceled => ErrorModel::Canceled,
            FetchError::Read(m) => ErrorModel::Read(m@),
            FetchError::Lock(m) => ErrorModel::Lock(m@),
            FetchError::Transport(m) => ErrorModel::Transport(m@),
        }
    }
}

/// One unit delivered by the sequence: bytes, or a chunk-level failure.
#[derive(Debug, Clone, PartialEq, Eq)]
pub enum ChunkResult {
    Data(Vec<u8>),
    Failed(FetchError),
}

impl View for ChunkResult {
    type V = ChunkModel;

    open spec fn view(&self) -> ChunkModel {
        match self {
            ChunkResult::Data(d) => ChunkModel::Data(d@),
            ChunkResult::Failed(e) => ChunkModel::Failed(e@),
        }
    }
}

/// One unit pushed to a callback sink: a chunk, or the end of the stream.
#[derive(Debug, Clone, PartialEq, Eq)]
pub enum StreamChunk<OUT> {
    /// The next read data chunk.
    DataChunk(OUT),
    /// The stream finished.
    Finished,
}

impl<OUT: View> View for StreamChunk<OUT> {
    type V = StreamChunkModel<<OUT as View>::V>;

    open spec fn view(&self) -> Self::V {
        match self {
            StreamChunk::DataChunk(o) => StreamChunkModel::DataChunk(o@),
            StreamChunk::Finished => StreamChunkModel::Finished,
        }
    }
}

/// The completion of one host read: bytes, end-of-stream, or a failure.
#[derive(Debug, Clone, PartialEq, Eq)]
pub enum ReadOutcome {
    Chunk(Vec<u8>),
    End,
    Failed(String),
}

impl View for ReadOutcome {
    type V = ReadOutcomeModel;

    open spec fn view(&self) -> ReadOutcomeModel {
        match self {
            ReadOutcome::Chunk(d) => ReadOutcomeModel::Chunk(d@),
            ReadOutcome::End => ReadOutcomeModel::End,
            ReadOutcome::Failed(m) => ReadOutcomeModel::Failed(m@),
        }
    }
}

/// What one poll of the in-flight read observed.
#[derive(Debug, Clone, PartialEq, Eq)]
pub enum ReadPoll {
    /// The read has not completed yet.
    Pending,
    /// The read completed with this outcome.
    Complete(ReadOutcome),
}

impl View for ReadPoll {
    type V = ReadPollModel;

    open spec fn view(&self) -> ReadPollModel {
        match self {
            ReadPoll::Pending => ReadPollModel::Pending,
            ReadPoll::Complete(r) => ReadPollModel::Complete(r@),
        }
    }
}

/// What one poll of the sequence produced.
#[derive(Debug, Clone, PartialEq, Eq)]
pub enum Polled {
    /// One chunk (or chunk-level error) is delivered.
    Item(ChunkResult),
    /// The sequence has ended; nothing further will be delivered.
    Ended,
    /// A read is still in flight; the caller suspends.
    Suspended,
}

impl View for Polled {
    type V = PolledModel;

    open spec fn view(&self) -> PolledModel {
        match self {
            Polled::Item(c) => PolledModel::Item(c@),
            Polled::Ended => PolledModel::Ended,
            Polled::Suspended => PolledModel::Suspended,
        }
    }
}

/// How the host's raw read completion is understood: the `done` marker ends
/// the stream, and a completion carrying no buffer is treated as the end as
/// well; otherwise the buffer is the next chunk.
pub fn classify_read(done: bool, value: Option<Vec<u8>>) -> (r: ReadOutcome)
    ensures
        done ==> r is End,
        !done ==> match value {
            Option::Some(d) => r matches ReadOutcome::Chunk(c) && c == d,
            Option::None => r is End,
        },
{
    if done {
        ReadOutcome::End
    } else {
        match value {
            Option::Some(d) => ReadOutcome::Chunk(d),
            Option::None => ReadOutcome::End,
        }
    }
}

} // verus!
