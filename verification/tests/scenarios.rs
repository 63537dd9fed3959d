//! End-to-end scenarios driven through `consume_script`.

use fetch_stream::{ChunkResult, FetchError, ReadOutcome, StreamChunk};

fn data_of(chunk: &StreamChunk<ChunkResult>) -> &[u8] {
    match chunk {
        StreamChunk::DataChunk(ChunkResult::Data(d)) => d.as_slice(),
        other => panic!("expected a data chunk, got {:?}", other),
    }
}

#[test]
fn round_trip_two_chunks_then_end() {
    let script = vec![
        ReadOutcome::Chunk(b"abc".to_vec()),
        ReadOutcome::Chunk(b"def".to_vec()),
        ReadOutcome::End,
    ];
    let r = fetch_stream::consume_script(script, true);
    assert_eq!(r.emitted.len(), 3);
    assert_eq!(data_of(&r.emitted[0]), b"abc");
    assert_eq!(data_of(&r.emitted[1]), b"def");
    assert!(matches!(r.emitted[2], StreamChunk::Finished));
    assert_eq!(r.reads_started, 3);
    assert_eq!(r.releases, 1);
}

#[test]
fn cancel_before_first_poll_emits_canceled_then_finished() {
    let script = vec![ReadOutcome::Chunk(b"never".to_vec()), ReadOutcome::End];
    let r = fetch_stream::consume_script(script, false);
    assert_eq!(r.emitted.len(), 2);
    assert!(matches!(
        r.emitted[0],
        StreamChunk::DataChunk(ChunkResult::Failed(FetchError::Canceled))
    ));
    assert!(matches!(r.emitted[1], StreamChunk::Finished));
    assert_eq!(r.reads_started, 0);
    assert_eq!(r.releases, 1);
}

#[test]
fn single_failure_short_circuit() {
    let script = vec![
        ReadOutcome::Chunk(b"one".to_vec()),
        ReadOutcome::Failed(String::from("boom")),
        ReadOutcome::Chunk(b"never read".to_vec()),
    ];
    let r = fetch_stream::consume_script(script, true);
    assert_eq!(r.emitted.len(), 3);
    assert_eq!(data_of(&r.emitted[0]), b"one");
    match &r.emitted[1] {
        StreamChunk::DataChunk(ChunkResult::Failed(FetchError::Read(m))) => {
            assert_eq!(m, "boom");
        }
        other => panic!("expected the read failure as a chunk, got {:?}", other),
    }
    assert!(matches!(r.emitted[2], StreamChunk::Finished));
    // the third scripted chunk is never read
    assert_eq!(r.reads_started, 2);
    assert_eq!(r.releases, 1);
}

#[test]
fn concat_preserves_zero_length_chunks_in_order() {
    let script = vec![
        ReadOutcome::Chunk(b"abcd".to_vec()),
        ReadOutcome::Chunk(Vec::new()),
        ReadOutcome::Chunk(b"efghij".to_vec()),
        ReadOutcome::End,
    ];
    let r = fetch_stream::consume_script(script, true);
    assert_eq!(r.emitted.len(), 4);
    assert_eq!(data_of(&r.emitted[0]).len(), 4);
    assert_eq!(data_of(&r.emitted[1]).len(), 0);
    assert_eq!(data_of(&r.emitted[2]).len(), 6);
    assert!(matches!(r.emitted[3], StreamChunk::Finished));
    let mut all: Vec<u8> = Vec::new();
    for chunk in &r.emitted[..3] {
        all.extend_from_slice(data_of(chunk));
    }
    assert_eq!(all, b"abcdefghij".to_vec());
    assert_eq!(r.releases, 1);
}

#[test]
fn empty_body_yields_finished_alone() {
    let r = fetch_stream::consume_script(vec![ReadOutcome::End], true);
    assert_eq!(r.emitted.len(), 1);
    assert!(matches!(r.emitted[0], StreamChunk::Finished));
    assert_eq!(r.reads_started, 1);
    assert_eq!(r.releases, 1);
}

#[test]
fn immediate_failure_is_delivered_then_finished() {
    let script = vec![ReadOutcome::Failed(String::from("network reset"))];
    let r = fetch_stream::consume_script(script, true);
    assert_eq!(r.emitted.len(), 2);
    match &r.emitted[0] {
        StreamChunk::DataChunk(ChunkResult::Failed(FetchError::Read(m))) => {
            assert_eq!(m, "network reset");
        }
        other => panic!("expected the read failure as a chunk, got {:?}", other),
    }
    assert!(matches!(r.emitted[1], StreamChunk::Finished));
    assert_eq!(r.reads_started, 1);
    assert_eq!(r.releases, 1);
}

#[test]
fn entries_after_end_of_stream_are_never_read() {
    let script = vec![ReadOutcome::End, ReadOutcome::Chunk(b"stale".to_vec())];
    let r = fetch_stream::consume_script(script, true);
    assert_eq!(r.emitted.len(), 1);
    assert!(matches!(r.emitted[0], StreamChunk::Finished));
    assert_eq!(r.reads_started, 1);
    assert_eq!(r.releases, 1);
}

#[test]
fn release_happens_once_on_every_script_shape() {
    let shapes: Vec<(Vec<ReadOutcome>, bool)> = vec![
        (vec![ReadOutcome::End], true),
        (vec![ReadOutcome::Chunk(b"x".to_vec()), ReadOutcome::End], true),
        (vec![ReadOutcome::Failed(String::from("e"))], true),
        (
            vec![
                ReadOutcome::Chunk(b"x".to_vec()),
                ReadOutcome::Failed(String::from("e")),
                ReadOutcome::End,
            ],
            true,
        ),
        (vec![ReadOutcome::End], false),
        (Vec::new(), false),
    ];
    for (script, active) in shapes {
        let r = fetch_stream::consume_script(script, active);
        assert_eq!(r.releases, 1);
    }
}
