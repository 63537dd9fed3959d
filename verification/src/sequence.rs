//! The sequence adapter: a lazy, finite, non-restartable sequence of byte
//! chunks over one locked reader.
//!
//! The adapter is driven in two phases per poll. `poll_start` observes the
//! shared cancellation flag and decides what the caller must do: deliver a
//! cancellation chunk, issue a new read, poll the read already in flight, or
//! report the end. Once the caller has polled the host read, it hands the
//! result to `on_read_polled`, which performs the state transition and says
//! what is delivered. `teardown` releases the reader on every remaining exit
//! path. Each function's contract ties it to the transition functions of
//! [`crate::model`].

use crate::chunk::{ChunkResult, FetchError, Polled, ReadOutcome, ReadPoll};
use crate::flag::CancellationFlag;
use crate::model;
use crate::model::{ErrorModel, ModelState, PollDecision};
use crate::reader::ChunkReader;
use vstd::prelude::*;

verus! {

/// Internal state: the reader capability exists in exactly one variant at a
/// time, and is gone only once released.
#[derive(Debug)]
enum StreamState {
    /// No read in flight; the reader is available to start one.
    ReadyToPoll(ChunkReader),
    /// Exactly one read is in flight against the held reader.
    AwaitingChunk(ChunkReader),
    /// Cancellation was observed; the reader is kept for teardown only.
    Canceled(ChunkReader),
    /// The reader has been released.
    Finished,
}

/// What one completed poll hands back to the caller.
#[derive(Debug)]
pub struct PollOutcome {
    /// What is delivered to the consumer.
    pub polled: Polled,
    /// Whether the caller must perform the host release operation now.
    pub release_now: bool,
}

/// The pull-side adapter over one locked reader.
#[derive(Debug)]
pub struct ChunkSequence {
    state: StreamState,
}

impl ChunkSequence {
    /// The abstract state this adapter is in.
    pub closed spec fn view(&self) -> ModelState {
        match self.state {
            StreamState::ReadyToPoll(_) => ModelState::Ready,
            StreamState::AwaitingChunk(_) => ModelState::Awaiting,
            StreamState::Canceled(r) => ModelState::Canceled {
                read_outstanding: r.has_in_flight(),
            },
            StreamState::Finished => ModelState::Done,
        }
    }

    /// Well-formedness: the held reader's lock and in-flight marks agree
    /// with the state the adapter is in. Every constructor establishes this
    /// and every transition preserves it.
    pub closed spec fn wf(&self) -> bool {
        match self.state {
            StreamState::ReadyToPoll(r) => r.is_locked() && !r.has_in_flight(),
            StreamState::AwaitingChunk(r) => r.is_locked() && r.has_in_flight(),
            StreamState::Canceled(r) => r.is_locked(),
            StreamState::Finished => true,
        }
    }

    /// Adopt a freshly acquired reader; the sequence is ready to poll.
    pub fn new(reader: ChunkReader) -> (s: Self)
        requires
            reader.is_locked(),
            !reader.has_in_flight(),
        ensures
            s.wf(),
            s@ is Ready,
    {
        ChunkSequence { state: StreamState::ReadyToPoll(reader) }
    }

    /// Adopt the host's attempt to lock a reader. A failed lock is fatal:
    /// no sequence is constructed and the failure is reported as a lock
    /// error carrying the host's message.
    pub fn try_new(lock: Result<ChunkReader, String>) -> (r: Result<ChunkSequence, FetchError>)
        requires
            lock matches Ok(reader) ==> reader.is_locked() && !reader.has_in_flight(),
        ensures
            match lock {
                Ok(_) => r matches Ok(s) && s.wf() && s@ is Ready,
                Err(m) => r matches Err(e) && e@ == ErrorModel::Lock(m@),
            },
    {
        match lock {
            Ok(reader) => Ok(ChunkSequence::new(reader)),
            Err(m) => Err(FetchError::Lock(m)),
        }
    }

    /// Whether a read is in flight (the caller then owns a pending host read).
    pub fn is_awaiting(&self) -> (b: bool)
        ensures
            b == (self@ is Awaiting),
    {
        match &self.state {
            StreamState::AwaitingChunk(_) => true,
            _ => false,
        }
    }

    /// Whether the sequence has ended and the reader has been released.
    pub fn is_finished(&self) -> (b: bool)
        ensures
            b == (self@ is Done),
    {
        match &self.state {
            StreamState::Finished => true,
            _ => false,
        }
    }

    /// The chunk delivered when cancellation is observed.
    pub fn canceled_chunk() -> (c: ChunkResult)
        ensures
            c@ == model::canceled_item(),
    {
        ChunkResult::Failed(FetchError::Canceled)
    }

    /// The poll boundary. Consults the shared flag first: observing it
    /// cleared takes precedence over issuing a new read and makes the very
    /// next item a cancellation error chunk, after which the sequence only
    /// reports its end. Otherwise either exactly one new read is issued
    /// (`StartRead`) or the one already in flight is to be polled
    /// (`AwaitRead`); a second concurrent read is never started.
    pub fn poll_start(&mut self, flag: &CancellationFlag) -> (d: PollDecision)
        requires
            old(self).wf(),
        ensures
            final(self).wf(),
            d == model::poll_decision(old(self)@, flag@),
            final(self)@ == model::poll_transition(old(self)@, flag@),
    {
        let active = flag.is_active();
        let mut taken = StreamState::Finished;
        core::mem::swap(&mut self.state, &mut taken);
        match taken {
            StreamState::ReadyToPoll(mut reader) => {
                if active {
                    reader.begin_read();
                    self.state = StreamState::AwaitingChunk(reader);
                    PollDecision::StartRead
                } else {
                    self.state = StreamState::Canceled(reader);
                    PollDecision::EmitCanceled
                }
            },
            StreamState::AwaitingChunk(reader) => {
                if active {
                    self.state = StreamState::AwaitingChunk(reader);
                    PollDecision::AwaitRead
                } else {
                    self.state = StreamState::Canceled(reader);
                    PollDecision::EmitCanceled
                }
            },
            StreamState::Canceled(reader) => {
                self.state = StreamState::Canceled(reader);
                PollDecision::AlreadyDone
            },
            StreamState::Finished => {
                self.state = StreamState::Finished;
                PollDecision::AlreadyDone
            },
        }
    }

    /// Consume the result of polling the in-flight read. Data and a read
    /// failure both return the adapter to ready — a failed read is a
    /// chunk-level error, the reader stays usable. End-of-stream ends the
    /// sequence: the reader is released (the caller performs the host
    /// release now) and the shared flag is cleared so that a late external
    /// cancel cannot act on the finished resource.
    pub fn on_read_polled(&mut self, flag: &mut CancellationFlag, read: ReadPoll) -> (out:
        PollOutcome)
        requires
            old(self).wf(),
            old(self)@ is Awaiting,
        ensures
            final(self).wf(),
            final(self)@ == model::read_transition(read@),
            out.polled@ == model::read_output(read@),
            out.release_now == model::read_releases(read@),
            final(flag)@ == (old(flag)@ && !model::read_clears_flag(read@)),
    {
        let mut taken = StreamState::Finished;
        core::mem::swap(&mut self.state, &mut taken);
        match taken {
            StreamState::AwaitingChunk(mut reader) => {
                match read {
                    ReadPoll::Pending => {
                        self.state = StreamState::AwaitingChunk(reader);
                        PollOutcome { polled: Polled::Suspended, release_now: false }
                    },
                    ReadPoll::Complete(ReadOutcome::Chunk(data)) => {
                        reader.complete_read();
                        self.state = StreamState::ReadyToPoll(reader);
                        PollOutcome {
                            polled: Polled::Item(ChunkResult::Data(data)),
                            release_now: false,
                        }
                    },
                    ReadPoll::Complete(ReadOutcome::Failed(message)) => {
                        reader.complete_read();
                        self.state = StreamState::ReadyToPoll(reader);
                        PollOutcome {
                            polled: Polled::Item(ChunkResult::Failed(FetchError::Read(message))),
                            release_now: false,
                        }
                    },
                    ReadPoll::Complete(ReadOutcome::End) => {
                        reader.complete_read();
                        let perform = reader.release();
                        flag.clear();
                        self.state = StreamState::Finished;
                        PollOutcome { polled: Polled::Ended, release_now: perform }
                    },
                }
            },
            other => {
                // ruled out by the precondition: a read result only arrives
                // while a read is in flight
                proof {
                    assert(false);
                }
                self.state = other;
                PollOutcome { polled: Polled::Suspended, release_now: false }
            },
        }
    }

    /// Tear the adapter down on any exit path. If the reader is still held —
    /// ready, mid-read, or after an observed cancellation — its lock is
    /// given up and the caller must perform the host release operation now;
    /// once the sequence has ended, teardown performs nothing.
    pub fn teardown(&mut self) -> (perform_release: bool)
        requires
            old(self).wf(),
        ensures
            final(self).wf(),
            final(self)@ is Done,
            perform_release == model::teardown_releases(old(self)@),
    {
        let mut taken = StreamState::Finished;
        core::mem::swap(&mut self.state, &mut taken);
        match taken {
            StreamState::ReadyToPoll(mut reader) => reader.release(),
            StreamState::AwaitingChunk(mut reader) => reader.release(),
            StreamState::Canceled(mut reader) => reader.release(),
            StreamState::Finished => false,
        }
    }
}

} // verus!
