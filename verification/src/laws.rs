//! The laws of the adapter, proved over whole runs.
//!
//! A run is a trace of [`crate::model::SeqOp`] steps — poll boundaries with
//! the flag value observed there, completions of the in-flight read, and the
//! final teardown — each enabled where it fires. Because every executable
//! transition of [`crate::sequence::ChunkSequence`] is tied by its contract
//! to the model's step functions, these lemmas hold of every run the
//! executable adapter can take.

use crate::model;
use crate::model::{ModelState, ReadOutcomeModel, SeqOp};
use vstd::prelude::*;

verus! {

/// A prefix of a valid trace is a valid trace.
pub proof fn lemma_trace_prefix_ok(s: ModelState, ops: Seq<SeqOp>, k: int)
    requires
        model::trace_ok(s, ops),
        0 <= k <= ops.len(),
    ensures
        model::trace_ok(s, ops.take(k)),
    decreases ops.len(),
{
    if k == 0 {
        assert(ops.take(0).len() == 0);
    } else {
        let s1 = model::op_step(s, ops[0]);
        lemma_trace_prefix_ok(s1, ops.skip(1), k - 1);
        assert(ops.take(k)[0] == ops[0]);
        assert(ops.take(k).skip(1) =~= ops.skip(1).take(k - 1));
    }
}

/// The reader's release operation is performed exactly once, on every path.
///
/// Along any valid trace from a state that still holds the reader, the host
/// release is performed exactly once if the trace ends with the reader
/// released, and not at all while it is still held — so never twice. Once
/// released, no trace can release again. In particular a run from a fresh
/// sequence that ends in teardown (or drains the stream) releases exactly
/// once, whether it was fully drained, partially drained, or torn down while
/// a read was still pending.
pub proof fn lemma_release_exactly_once(s: ModelState, ops: Seq<SeqOp>)
    requires
        model::trace_ok(s, ops),
    ensures
        model::holds_reader(s) ==> model::releases_in(s, ops) == (if model::holds_reader(
            model::run_ops(s, ops),
        ) {
            0int
        } else {
            1int
        }),
        !model::holds_reader(s) ==> model::releases_in(s, ops) == 0 && !model::holds_reader(
            model::run_ops(s, ops),
        ),
    decreases ops.len(),
{
    if ops.len() > 0 {
        lemma_release_exactly_once(model::op_step(s, ops[0]), ops.skip(1));
    }
}

/// A run that ends in teardown has performed the host release exactly once.
pub proof fn lemma_release_once_with_teardown(ops: Seq<SeqOp>)
    requires
        model::trace_ok(ModelState::Ready, ops),
        ops.len() > 0,
        ops.last() is Teardown,
    ensures
        model::releases_in(ModelState::Ready, ops) == 1,
{
    lemma_run_ends_done(ModelState::Ready, ops);
    lemma_release_exactly_once(ModelState::Ready, ops);
}

/// A trace whose last step is teardown ends with the reader released.
proof fn lemma_run_ends_done(s: ModelState, ops: Seq<SeqOp>)
    requires
        ops.len() > 0,
        ops.last() is Teardown,
    ensures
        model::run_ops(s, ops) is Done,
    decreases ops.len(),
{
    if ops.len() == 1 {
        assert(ops.skip(1).len() == 0);
    } else {
        assert(ops.skip(1).last() == ops.last());
        lemma_run_ends_done(model::op_step(s, ops[0]), ops.skip(1));
    }
}

/// Bookkeeping identity behind the concurrency law: along any valid trace,
/// reads issued equal reads completed, plus reads abandoned at teardown,
/// plus the one read (at most) still outstanding at the end.
pub proof fn lemma_read_balance(s: ModelState, ops: Seq<SeqOp>)
    requires
        model::trace_ok(s, ops),
    ensures
        model::starts_in(s, ops) == model::completes_in(s, ops) + model::abandons_in(s, ops)
            + model::outstanding(model::run_ops(s, ops)) - model::outstanding(s),
    decreases ops.len(),
{
    if ops.len() > 0 {
        lemma_read_balance(model::op_step(s, ops[0]), ops.skip(1));
    }
}

/// No two reads are ever issued concurrently against the same reader.
///
/// Over the transition log of any valid run from a fresh sequence, at every
/// observation point the reads issued so far exceed those completed or
/// abandoned so far by at most one: a new read is only ever issued once the
/// previous one is accounted for.
pub proof fn lemma_no_concurrent_reads(ops: Seq<SeqOp>, k: int)
    requires
        model::trace_ok(ModelState::Ready, ops),
        0 <= k <= ops.len(),
    ensures
        0 <= model::starts_in(ModelState::Ready, ops.take(k)) - model::completes_in(
            ModelState::Ready,
            ops.take(k),
        ) - model::abandons_in(ModelState::Ready, ops.take(k)) <= 1,
{
    lemma_trace_prefix_ok(ModelState::Ready, ops, k);
    lemma_read_balance(ModelState::Ready, ops.take(k));
}

/// If the cancellation flag is cleared before the first poll, the very
/// first poll delivers the cancellation error chunk, and from then on every
/// poll only reports that the sequence has finished, changing nothing.
pub proof fn lemma_cancel_before_first_poll()
    ensures
        model::poll_decision(ModelState::Ready, false) is EmitCanceled,
        forall|active: bool|
            model::poll_decision(
                model::poll_transition(ModelState::Ready, false),
                active,
            ) is AlreadyDone,
        forall|active: bool|
            model::poll_transition(model::poll_transition(ModelState::Ready, false), active)
                == model::poll_transition(ModelState::Ready, false),
{
}

/// Concatenating the data chunks a consumer-driven run pushes to its sink
/// reproduces, byte for byte and in order, exactly the bytes the reader
/// offered before its first end-of-stream or failure — zero-length chunks
/// preserved in place, nothing reordered, nothing buffered away.
pub proof fn lemma_round_trip(script: Seq<ReadOutcomeModel>)
    ensures
        model::data_concat(model::emissions_from(script)) == model::chunk_concat(script),
    decreases script.len(),
{
    if script.len() == 0 {
    } else {
        match script[0] {
            ReadOutcomeModel::Chunk(d) => {
                lemma_round_trip(script.skip(1));
                let tail = model::emissions_from(script.skip(1));
                let whole = seq![
                    model::StreamChunkModel::<model::ChunkModel>::DataChunk(
                        model::ChunkModel::Data(d),
                    ),
                ] + tail;
                assert(model::emissions_from(script) == whole);
                assert(whole.skip(1) =~= tail);
                assert(model::data_concat(whole) == d + model::data_concat(tail));
            },
            ReadOutcomeModel::End => {
                let whole = model::emissions_from(script);
                let rest = whole.skip(1);
                assert(rest =~= Seq::<model::StreamChunkModel<model::ChunkModel>>::empty());
                assert(model::data_concat(rest) == Seq::<u8>::empty());
                assert(model::data_concat(whole) == Seq::<u8>::empty() + model::data_concat(
                    rest,
                ));
                assert(Seq::<u8>::empty() + Seq::<u8>::empty() =~= Seq::<u8>::empty());
            },
            ReadOutcomeModel::Failed(m) => {
                let whole = model::emissions_from(script);
                let rest = whole.skip(1);
                let rest2 = rest.skip(1);
                assert(rest[0] == model::StreamChunkModel::<model::ChunkModel>::Finished);
                assert(rest2 =~= Seq::<model::StreamChunkModel<model::ChunkModel>>::empty());
                assert(model::data_concat(rest2) == Seq::<u8>::empty());
                assert(model::data_concat(rest) == Seq::<u8>::empty() + model::data_concat(
                    rest2,
                ));
                assert(model::data_concat(whole) == Seq::<u8>::empty() + model::data_concat(
                    rest,
                ));
                assert(Seq::<u8>::empty() + Seq::<u8>::empty() =~= Seq::<u8>::empty());
            },
        }
    }
}

} // verus!
