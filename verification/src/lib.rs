//! Adapter that turns a host-provided, promise-based chunk reader into a
//! cancellable, backpressure-respecting sequence of byte chunks.
//!
//! The heart of the crate is a verified state machine: every decision the
//! adapter makes (when to issue a read, what to deliver, when to release the
//! reader lock) is an ordinary function from state and event to next state
//! and action, with a contract. The host glue that performs the actual
//! asynchronous reads drives these functions in a loop and carries out the
//! actions they prescribe.

pub mod chunk;
pub mod consumer;
pub mod driver;
pub mod flag;
pub mod laws;
pub mod model;
pub mod options;
pub mod reader;
pub mod sequence;

pub use chunk::ChunkResult;
pub use chunk::FetchError;
pub use chunk::Polled;
pub use chunk::ReadOutcome;
pub use chunk::ReadPoll;
pub use chunk::StreamChunk;
pub use consumer::CallbackConsumer;
pub use consumer::Emission;
pub use driver::consume_script;
pub use driver::ConsumeResult;
pub use flag::CancellationFlag;
pub use model::PollDecision;
pub use options::Referrer;
pub use reader::ChunkReader;
pub use sequence::ChunkSequence;
pub use sequence::PollOutcome;
