//! The push-style consumer.
//!
//! A `CallbackConsumer` turns polled results into the units pushed to a user
//! sink: one `DataChunk` per produced chunk and exactly one `Finished` when
//! the sequence ends. Its policy on failures is single-failure
//! short-circuit: a chunk-level error is delivered to the sink, and then the
//! stream is force-finished — once one failure has been observed, no more
//! data is pulled.

use crate::chunk::{ChunkResult, Polled, StreamChunk};
use crate::model;
use vstd::prelude::*;

verus! {

/// What the consumer pushes to its sink for one polled result: nothing
/// (suspension), one unit, or a delivered error followed by `Finished`.
#[derive(Debug, Clone, PartialEq, Eq)]
pub enum Emission {
    Nothing,
    One(StreamChunk<ChunkResult>),
    Two(StreamChunk<ChunkResult>, StreamChunk<ChunkResult>),
}

impl View for Emission {
    type V = Seq<model::StreamChunkModel<model::ChunkModel>>;

    open spec fn view(&self) -> Self::V {
        match self {
            Emission::Nothing => Seq::empty(),
            Emission::One(c) => seq![c@],
            Emission::Two(a, b) => seq![a@, b@],
        }
    }
}

/// Decides, polled result by polled result, what a callback sink is handed
/// and when to stop pulling. The loop that owns the sequence feeds it every
/// polled result and pushes whatever it emits, until it stops.
#[derive(Debug)]
pub struct CallbackConsumer {
    stopped: bool,
}

impl CallbackConsumer {
    /// Whether the consumer has emitted `Finished` and stopped pulling.
    pub closed spec fn is_stopped(&self) -> bool {
        self.stopped
    }

    /// A fresh consumer, still pulling.
    pub fn new() -> (c: Self)
        ensures
            !c.is_stopped(),
    {
        CallbackConsumer { stopped: false }
    }

    /// Whether the consumer has stopped pulling.
    pub fn has_stopped(&self) -> (b: bool)
        ensures
            b == self.is_stopped(),
    {
        self.stopped
    }

    /// Consume one polled result. Data is passed through; the end of the
    /// sequence emits `Finished` once; a chunk-level error is delivered and
    /// immediately followed by `Finished` (single-failure short-circuit);
    /// a suspension emits nothing.
    pub fn on_polled(&mut self, p: Polled) -> (e: Emission)
        requires
            !old(self).is_stopped(),
        ensures
            e@ == model::consumer_emits(p@),
            final(self).is_stopped() == model::consumer_stops(p@),
    {
        match p {
            Polled::Item(ChunkResult::Data(data)) => Emission::One(
                StreamChunk::DataChunk(ChunkResult::Data(data)),
            ),
            Polled::Item(ChunkResult::Failed(error)) => {
                self.stopped = true;
                Emission::Two(
                    StreamChunk::DataChunk(ChunkResult::Failed(error)),
                    StreamChunk::Finished,
                )
            },
            Polled::Ended => {
                self.stopped = true;
                Emission::One(StreamChunk::Finished)
            },
            Polled::Suspended => Emission::Nothing,
        }
    }
}

} // verus!
