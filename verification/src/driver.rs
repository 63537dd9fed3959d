//! A consumer-driven run of the whole adapter.
//!
//! `consume_script` builds a fresh sequence over a reader whose reads
//! complete as a script says, and drives it with a [`CallbackConsumer`]
//! until it stops, then tears the sequence down. Its contract delivers the
//! end-to-end guarantees of the adapter in executable form: the sink trace
//! is exactly what the script dictates, chunks in order; reads stop at the
//! first failure or end-of-stream; and the reader is released exactly once,
//! whichever way the run ends.

use crate::chunk::{ChunkResult, Polled, ReadOutcome, ReadPoll, StreamChunk};
use crate::consumer::{CallbackConsumer, Emission};
use crate::flag::CancellationFlag;
use crate::model;
use crate::model::{ChunkModel, PollDecision, ReadOutcomeModel, StreamChunkModel};
use crate::reader::ChunkReader;
use crate::sequence::ChunkSequence;
use vstd::prelude::*;

verus! {

/// The abstract script: each element, in order, is what one read completes
/// with.
pub open spec fn script_view(s: Seq<ReadOutcome>) -> Seq<ReadOutcomeModel> {
    Seq::new(s.len(), |i: int| s[i]@)
}

/// The abstract sink trace: each element, in order, is one unit pushed to
/// the sink.
pub open spec fn chunks_view(s: Seq<StreamChunk<ChunkResult>>) -> Seq<
    StreamChunkModel<ChunkModel>,
> {
    Seq::new(s.len(), |i: int| s[i]@)
}

/// Everything one run produced and did.
#[derive(Debug)]
pub struct ConsumeResult {
    /// The units pushed to the sink, in order.
    pub emitted: Vec<StreamChunk<ChunkResult>>,
    /// How many reads were issued against the reader.
    pub reads_started: usize,
    /// How many times the host release operation was performed.
    pub releases: usize,
}

/// Append one emission to the sink trace.
fn push_emission(emitted: &mut Vec<StreamChunk<ChunkResult>>, e: Emission)
    ensures
        chunks_view(final(emitted)@) == chunks_view(old(emitted)@) + e@,
{
    match e {
        Emission::Nothing => {
            proof {
                assert(chunks_view(emitted@) =~= chunks_view(emitted@) + Seq::empty());
            }
        },
        Emission::One(c) => {
            let ghost before = emitted@;
            let ghost cv = c@;
            emitted.push(c);
            proof {
                assert(chunks_view(emitted@) =~= chunks_view(before) + seq![cv]);
            }
        },
        Emission::Two(a, b) => {
            let ghost before = emitted@;
            let ghost av = a@;
            let ghost bv = b@;
            emitted.push(a);
            emitted.push(b);
            proof {
                assert(chunks_view(emitted@) =~= chunks_view(before) + seq![av, bv]);
            }
        },
    }
}

/// Drive a fresh sequence to completion with a callback consumer, the reads
/// completing as `script` says (in order, one element per read). If the
/// cancellation flag is cleared before the first poll, the sink sees exactly
/// the cancellation error chunk and then `Finished`, and no read is ever
/// issued. Otherwise the sink sees exactly the emissions the script
/// dictates, and reads stop at the script's first failure or end-of-stream:
/// whatever follows it is never read. On every path the host release is
/// performed exactly once.
pub fn consume_script(script: Vec<ReadOutcome>, active_at_start: bool) -> (r: ConsumeResult)
    requires
        active_at_start ==> model::has_terminator(script_view(script@)),
    ensures
        active_at_start ==> chunks_view(r.emitted@) == model::emissions_from(
            script_view(script@),
        ),
        !active_at_start ==> chunks_view(r.emitted@) == model::canceled_emissions(),
        r.releases == 1,
        r.reads_started == if active_at_start {
            model::reads_used(script_view(script@))
        } else {
            0
        },
{
    let ghost orig = script_view(script@);
    proof {
        assert(script.len() == script@.len());
    }
    let mut rest = script;
    let mut flag = CancellationFlag::new(active_at_start);
    let mut sequence = ChunkSequence::new(ChunkReader::new());
    let mut consumer = CallbackConsumer::new();
    let mut emitted: Vec<StreamChunk<ChunkResult>> = Vec::new();
    let mut reads_started: usize = 0;
    let mut releases: usize = 0;

    proof {
        assert(chunks_view(emitted@) + model::emissions_from(orig) =~= model::emissions_from(
            orig,
        ));
        assert(script_view(rest@) =~= orig);
    }

    while !consumer.has_stopped()
        invariant
            sequence.wf(),
            !consumer.is_stopped() ==> {
                &&& sequence@ is Ready
                &&& flag@ == active_at_start
                &&& releases == 0
            },
            orig.len() <= usize::MAX,
            active_at_start ==> reads_started + script_view(rest@).len() == orig.len(),
            !active_at_start ==> reads_started == 0,
            !consumer.is_stopped() && active_at_start ==> {
                &&& model::has_terminator(script_view(rest@))
                &&& chunks_view(emitted@) + model::emissions_from(script_view(rest@))
                    == model::emissions_from(orig)
                &&& reads_started + model::reads_used(script_view(rest@)) == model::reads_used(
                    orig,
                )
            },
            !consumer.is_stopped() && !active_at_start ==> emitted@.len() == 0,
            consumer.is_stopped() ==> {
                &&& releases == (if sequence@ is Done {
                    1int
                } else {
                    0int
                })
                &&& (active_at_start ==> chunks_view(emitted@) == model::emissions_from(orig)
                    && reads_started == model::reads_used(orig))
                &&& (!active_at_start ==> chunks_view(emitted@) == model::canceled_emissions())
            },
        decreases (if consumer.is_stopped() {
            0int
        } else {
            1int
        }), rest.len(),
    {
        let decision = sequence.poll_start(&flag);
        match decision {
            PollDecision::EmitCanceled => {
                let e = consumer.on_polled(Polled::Item(ChunkSequence::canceled_chunk()));
                push_emission(&mut emitted, e);
                proof {
                    assert(chunks_view(emitted@) =~= model::canceled_emissions());
                }
            },
            PollDecision::StartRead => {
                let ghost sv = script_view(rest@);
                proof {
                    assert(sv.len() > 0);
                }
                let outcome = rest.remove(0);
                reads_started = reads_started + 1;
                proof {
                    assert(script_view(rest@) =~= sv.skip(1));
                    assert(outcome@ == sv[0]);
                }
                let out = sequence.on_read_polled(&mut flag, ReadPoll::Complete(outcome));
                if out.release_now {
                    releases = releases + 1;
                }
                let ghost before = chunks_view(emitted@);
                let e = consumer.on_polled(out.polled);
                push_emission(&mut emitted, e);
                proof {
                    match sv[0] {
                        ReadOutcomeModel::Chunk(d) => {
                            assert(model::emissions_from(sv) == seq![
                                StreamChunkModel::<ChunkModel>::DataChunk(ChunkModel::Data(d)),
                            ] + model::emissions_from(sv.skip(1)));
                            assert(chunks_view(emitted@) + model::emissions_from(sv.skip(1))
                                =~= before + model::emissions_from(sv));
                        },
                        ReadOutcomeModel::End => {
                            assert(chunks_view(emitted@) =~= before + model::emissions_from(sv));
                        },
                        ReadOutcomeModel::Failed(m) => {
                            assert(chunks_view(emitted@) =~= before + model::emissions_from(sv));
                        },
                    }
                }
            },
            PollDecision::AwaitRead => {
                // a scripted read always completes in the same step, so the
                // sequence is never observed mid-read here
                proof {
                    assert(false);
                }
            },
            PollDecision::AlreadyDone => {
                // the consumer stops no later than the sequence ends
                proof {
                    assert(false);
                }
            },
        }
    }

    let perform = sequence.teardown();
    if perform {
        releases = releases + 1;
    }
    ConsumeResult { emitted, reads_started, releases }
}

} // verus!
