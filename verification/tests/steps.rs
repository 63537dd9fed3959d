//! Step-level behavior of the flag, reader, sequence, and consumer.

use fetch_stream::{
    CallbackConsumer, CancellationFlag, ChunkReader, ChunkResult, ChunkSequence, Emission,
    FetchError, PollDecision, Polled, ReadOutcome, ReadPoll, Referrer, StreamChunk,
};

#[test]
fn flag_starts_and_clears() {
    let mut flag = CancellationFlag::new(true);
    assert!(flag.is_active());
    flag.clear();
    assert!(!flag.is_active());
    let flag2 = CancellationFlag::new(false);
    assert!(!flag2.is_active());
}

#[test]
fn reader_release_is_idempotent() {
    let mut reader = ChunkReader::new();
    assert!(reader.release(), "the first release performs the host release");
    assert!(!reader.release(), "a second release performs nothing");
    assert!(!reader.release());
}

#[test]
fn no_second_read_while_one_is_in_flight() {
    let flag = CancellationFlag::new(true);
    let mut sequence = ChunkSequence::new(ChunkReader::new());
    assert_eq!(sequence.poll_start(&flag), PollDecision::StartRead);
    assert!(sequence.is_awaiting());
    // polling again does not issue another read
    assert_eq!(sequence.poll_start(&flag), PollDecision::AwaitRead);
    assert_eq!(sequence.poll_start(&flag), PollDecision::AwaitRead);
    assert!(sequence.is_awaiting());
    assert!(sequence.teardown());
}

#[test]
fn pending_read_suspends_and_later_completes() {
    let mut flag = CancellationFlag::new(true);
    let mut sequence = ChunkSequence::new(ChunkReader::new());
    assert_eq!(sequence.poll_start(&flag), PollDecision::StartRead);
    let out = sequence.on_read_polled(&mut flag, ReadPoll::Pending);
    assert!(matches!(out.polled, Polled::Suspended));
    assert!(!out.release_now);
    assert!(sequence.is_awaiting());
    assert_eq!(sequence.poll_start(&flag), PollDecision::AwaitRead);
    let out = sequence.on_read_polled(
        &mut flag,
        ReadPoll::Complete(ReadOutcome::Chunk(b"data".to_vec())),
    );
    match out.polled {
        Polled::Item(ChunkResult::Data(d)) => assert_eq!(d, b"data".to_vec()),
        other => panic!("expected the chunk, got {:?}", other),
    }
    assert!(!out.release_now);
    assert!(!sequence.is_finished());
    assert!(sequence.teardown());
}

#[test]
fn end_of_stream_releases_and_clears_the_flag() {
    let mut flag = CancellationFlag::new(true);
    let mut sequence = ChunkSequence::new(ChunkReader::new());
    assert_eq!(sequence.poll_start(&flag), PollDecision::StartRead);
    let out = sequence.on_read_polled(&mut flag, ReadPoll::Complete(ReadOutcome::End));
    assert!(matches!(out.polled, Polled::Ended));
    assert!(out.release_now, "end-of-stream performs the host release");
    assert!(!flag.is_active(), "natural completion clears the shared flag");
    assert!(sequence.is_finished());
    assert!(!sequence.teardown(), "teardown after the end performs nothing");
}

#[test]
fn read_error_keeps_the_reader_usable() {
    let mut flag = CancellationFlag::new(true);
    let mut sequence = ChunkSequence::new(ChunkReader::new());
    assert_eq!(sequence.poll_start(&flag), PollDecision::StartRead);
    let out = sequence.on_read_polled(
        &mut flag,
        ReadPoll::Complete(ReadOutcome::Failed(String::from("oops"))),
    );
    match out.polled {
        Polled::Item(ChunkResult::Failed(FetchError::Read(m))) => assert_eq!(m, "oops"),
        other => panic!("expected the read failure, got {:?}", other),
    }
    assert!(!out.release_now);
    assert!(flag.is_active());
    // the sequence is ready again: another read can be issued
    assert_eq!(sequence.poll_start(&flag), PollDecision::StartRead);
    assert!(sequence.teardown());
}

#[test]
fn cancel_mid_stream_stops_reads_and_keeps_reader_for_teardown() {
    let mut flag = CancellationFlag::new(true);
    let mut sequence = ChunkSequence::new(ChunkReader::new());
    assert_eq!(sequence.poll_start(&flag), PollDecision::StartRead);
    let out = sequence.on_read_polled(
        &mut flag,
        ReadPoll::Complete(ReadOutcome::Chunk(b"first".to_vec())),
    );
    assert!(matches!(out.polled, Polled::Item(ChunkResult::Data(_))));
    flag.clear();
    assert_eq!(sequence.poll_start(&flag), PollDecision::EmitCanceled);
    // after the cancellation chunk, the sequence only reports its end
    assert_eq!(sequence.poll_start(&flag), PollDecision::AlreadyDone);
    assert_eq!(sequence.poll_start(&flag), PollDecision::AlreadyDone);
    assert!(sequence.teardown(), "the reader is still released at teardown");
    assert!(!sequence.teardown());
}

#[test]
fn cancel_while_read_in_flight_takes_precedence() {
    let mut flag = CancellationFlag::new(true);
    let mut sequence = ChunkSequence::new(ChunkReader::new());
    assert_eq!(sequence.poll_start(&flag), PollDecision::StartRead);
    let out = sequence.on_read_polled(&mut flag, ReadPoll::Pending);
    assert!(matches!(out.polled, Polled::Suspended));
    flag.clear();
    assert_eq!(sequence.poll_start(&flag), PollDecision::EmitCanceled);
    assert_eq!(sequence.poll_start(&flag), PollDecision::AlreadyDone);
    assert!(sequence.teardown());
}

#[test]
fn canceled_chunk_is_the_cancellation_error() {
    assert!(matches!(
        ChunkSequence::canceled_chunk(),
        ChunkResult::Failed(FetchError::Canceled)
    ));
}

#[test]
fn lock_failure_aborts_construction() {
    match ChunkSequence::try_new(Err(String::from("already locked"))) {
        Err(FetchError::Lock(m)) => assert_eq!(m, "already locked"),
        other => panic!("expected the lock error, got {:?}", other.is_ok()),
    }
    let sequence = ChunkSequence::try_new(Ok(ChunkReader::new()));
    assert!(sequence.is_ok());
}

#[test]
fn classify_read_treats_done_and_missing_buffer_as_end() {
    assert!(matches!(
        fetch_stream::chunk::classify_read(true, Some(b"late".to_vec())),
        ReadOutcome::End
    ));
    assert!(matches!(
        fetch_stream::chunk::classify_read(true, None),
        ReadOutcome::End
    ));
    assert!(matches!(
        fetch_stream::chunk::classify_read(false, None),
        ReadOutcome::End
    ));
    match fetch_stream::chunk::classify_read(false, Some(b"bytes".to_vec())) {
        ReadOutcome::Chunk(d) => assert_eq!(d, b"bytes".to_vec()),
        other => panic!("expected the chunk, got {:?}", other),
    }
}

#[test]
fn consumer_passes_data_through_and_keeps_pulling() {
    let mut consumer = CallbackConsumer::new();
    let e = consumer.on_polled(Polled::Item(ChunkResult::Data(b"x".to_vec())));
    match e {
        Emission::One(StreamChunk::DataChunk(ChunkResult::Data(d))) => {
            assert_eq!(d, b"x".to_vec());
        }
        other => panic!("expected one data chunk, got {:?}", other),
    }
    assert!(!consumer.has_stopped());
}

#[test]
fn consumer_short_circuits_after_a_failure() {
    let mut consumer = CallbackConsumer::new();
    let e = consumer.on_polled(Polled::Item(ChunkResult::Failed(FetchError::Read(
        String::from("bad"),
    ))));
    match e {
        Emission::Two(StreamChunk::DataChunk(ChunkResult::Failed(_)), StreamChunk::Finished) => {}
        other => panic!("expected the failure and Finished, got {:?}", other),
    }
    assert!(consumer.has_stopped());
}

#[test]
fn consumer_emits_finished_once_at_the_end() {
    let mut consumer = CallbackConsumer::new();
    let e = consumer.on_polled(Polled::Suspended);
    assert!(matches!(e, Emission::Nothing));
    assert!(!consumer.has_stopped());
    let e = consumer.on_polled(Polled::Ended);
    assert!(matches!(e, Emission::One(StreamChunk::Finished)));
    assert!(consumer.has_stopped());
}

#[test]
fn error_taxonomy_variants() {
    let canceled = FetchError::Canceled;
    let read = FetchError::Read(String::from("r"));
    let lock = FetchError::Lock(String::from("l"));
    let transport = FetchError::Transport(String::from("t"));
    assert_eq!(canceled, FetchError::Canceled);
    assert!(matches!(read, FetchError::Read(_)));
    assert!(matches!(lock, FetchError::Lock(_)));
    assert!(matches!(transport, FetchError::Transport(_)));
}

#[test]
fn referrer_variants() {
    let same_origin = Referrer::SameOriginUrl(String::from("/same-origin"));
    assert_eq!(
        same_origin,
        Referrer::SameOriginUrl(String::from("/same-origin"))
    );
    assert!(matches!(Referrer::AboutClient, Referrer::AboutClient));
    assert!(matches!(Referrer::Empty, Referrer::Empty));
}
