//! The decisions of one directional byte-copy loop.
//!
//! After a successful request the proxy runs two copy loops, client to
//! upstream and upstream to client.  Each loop repeatedly reads from its
//! source and acts on what the read produced: forward the bytes read, end
//! cleanly on end of stream, or end on a read failure.  The decision and
//! the bytes to write are made here; the reads and writes themselves are
//! the caller's.  A clean end tells the caller to half-close the
//! destination's write side, so a peer blocked reading is unblocked rather
//! than left hanging.

use crate::codec::append_bytes;
use crate::codec::copy_range;
use vstd::prelude::*;

verus! {

/// What one read from the source produced: some bytes (none meaning the
/// source closed its write half), or a read failure.
#[derive(Clone, Debug, PartialEq, Eq)]
pub enum ReadEvent {
    Data(Vec<u8>),
    Failed,
}

/// Mathematical model of a [`ReadEvent`].
pub enum ReadEventModel {
    Data(Seq<u8>),
    Failed,
}

impl View for ReadEvent {
    type V = ReadEventModel;

    open spec fn view(&self) -> ReadEventModel {
        match self {
            ReadEvent::Data(bytes) => ReadEventModel::Data(bytes@),
            ReadEvent::Failed => ReadEventModel::Failed,
        }
    }
}

/// What the loop does next: write these bytes and read again, or stop.
#[derive(Clone, Debug, PartialEq, Eq)]
pub enum CopyStep {
    /// Write exactly these bytes to the destination, then read again.
    Forward(Vec<u8>),
    /// The source reached end of stream: half-close the destination's
    /// write side and stop.
    FinishClean,
    /// The read failed: stop and record the failure.
    FinishError,
}

/// Mathematical model of a [`CopyStep`].
pub enum CopyStepModel {
    Forward(Seq<u8>),
    FinishClean,
    FinishError,
}

impl View for CopyStep {
    type V = CopyStepModel;

    open spec fn view(&self) -> CopyStepModel {
        match self {
            CopyStep::Forward(bytes) => CopyStepModel::Forward(bytes@),
            CopyStep::FinishClean => CopyStepModel::FinishClean,
            CopyStep::FinishError => CopyStepModel::FinishError,
        }
    }
}

/// The decision for one read: data is forwarded unchanged, an empty read
/// ends the loop cleanly, a failed read ends it with an error.
pub open spec fn spec_copy_step(ev: ReadEventModel) -> CopyStepModel {
    match ev {
        ReadEventModel::Data(bytes) => if bytes.len() == 0 {
            CopyStepModel::FinishClean
        } else {
            CopyStepModel::Forward(bytes)
        },
        ReadEventModel::Failed => CopyStepModel::FinishError,
    }
}

/// Decides what one read event asks of the loop.
pub fn copy_step(ev: &ReadEvent) -> (r: CopyStep)
    ensures
        r@ == spec_copy_step(ev@),
{
    match ev {
        ReadEvent::Data(bytes) => {
            if bytes.len() == 0 {
                CopyStep::FinishClean
            } else {
                let copied = copy_range(bytes, 0, bytes.len());
                proof {
                    assert(copied@ =~= bytes@);
                }
                CopyStep::Forward(copied)
            }
        },
        ReadEvent::Failed => CopyStep::FinishError,
    }
}

/// The model of a whole run of one copy loop over the events its source
/// delivers, in order: the bytes the destination receives, and whether the
/// loop ended cleanly at end of stream.  A trace that runs out without an
/// end of stream or a failure did not end cleanly.
pub open spec fn spec_run_copy(evs: Seq<ReadEventModel>) -> (Seq<u8>, bool)
    decreases evs.len(),
{
    if evs.len() == 0 {
        (Seq::empty(), false)
    } else {
        match evs[0] {
            ReadEventModel::Data(bytes) => if bytes.len() == 0 {
                (Seq::empty(), true)
            } else {
                let rest = spec_run_copy(evs.skip(1));
                (bytes + rest.0, rest.1)
            },
            ReadEventModel::Failed => (Seq::empty(), false),
        }
    }
}

/// The models of a sequence of read events.
pub open spec fn events_model(evs: Seq<ReadEvent>) -> Seq<ReadEventModel> {
    evs.map_values(|e: ReadEvent| e@)
}

/// The outcome of one copy loop: what was written to the destination, and
/// whether the loop ended cleanly at the source's end of stream.
pub struct CopyOutcome {
    pub delivered: Vec<u8>,
    pub clean: bool,
}

/// Runs one whole copy loop over the read events of its source, in order:
/// exactly the model [`spec_run_copy`] gives for them.
pub fn run_copy(events: &Vec<ReadEvent>) -> (r: CopyOutcome)
    ensures
        r.delivered@ == spec_run_copy(events_model(events@)).0,
        r.clean == spec_run_copy(events_model(events@)).1,
{
    let ghost full = events_model(events@);
    let mut delivered: Vec<u8> = Vec::new();
    let mut i: usize = 0;
    proof {
        assert(full.skip(0) =~= full);
        assert(delivered@ + spec_run_copy(full).0 =~= spec_run_copy(full).0);
    }
    while i < events.len()
        invariant
            i <= events.len(),
            full == events_model(events@),
            spec_run_copy(full).0 == delivered@ + spec_run_copy(full.skip(i as int)).0,
            spec_run_copy(full).1 == spec_run_copy(full.skip(i as int)).1,
        decreases events.len() - i,
    {
        let step = copy_step(&events[i]);
        proof {
            assert(full.skip(i as int)[0] == events@[i as int]@);
            assert(full.skip(i as int).skip(1) =~= full.skip(i as int + 1));
        }
        match step {
            CopyStep::Forward(bytes) => {
                append_bytes(&mut delivered, &bytes);
            },
            CopyStep::FinishClean => {
                proof {
                    assert(delivered@ + Seq::<u8>::empty() =~= delivered@);
                }
                return CopyOutcome { delivered, clean: true };
            },
            CopyStep::FinishError => {
                proof {
                    assert(delivered@ + Seq::<u8>::empty() =~= delivered@);
                }
                return CopyOutcome { delivered, clean: false };
            },
        }
        i = i + 1;
    }
    proof {
        assert(full.skip(i as int) =~= Seq::<ReadEventModel>::empty());
        assert(delivered@ + Seq::<u8>::empty() =~= delivered@);
    }
    CopyOutcome { delivered, clean: false }
}

/// Law: a source that delivers these chunks, none of them empty, and then
/// closes its write half has exactly their concatenation written to the
/// destination, and the loop ends cleanly — the destination's write half
/// is then half-closed rather than left to hang.
pub proof fn lemma_copy_delivers_all(chunks: Seq<Seq<u8>>)
    requires
        forall|i: int| 0 <= i < chunks.len() ==> #[trigger] chunks[i].len() > 0,
    ensures
        ({
            let evs = chunks.map_values(|c: Seq<u8>| ReadEventModel::Data(c)).push(
                ReadEventModel::Data(Seq::empty()),
            );
            &&& spec_run_copy(evs).0 == chunks.flatten()
            &&& spec_run_copy(evs).1
        }),
    decreases chunks.len(),
{
    let evs = chunks.map_values(|c: Seq<u8>| ReadEventModel::Data(c)).push(
        ReadEventModel::Data(Seq::empty()),
    );
    if chunks.len() == 0 {
        assert(evs =~= seq![ReadEventModel::Data(Seq::empty())]);
        assert(chunks.flatten() == Seq::<u8>::empty());
    } else {
        let tail = chunks.skip(1);
        assert forall|i: int| 0 <= i < tail.len() implies #[trigger] tail[i].len() > 0 by {
            assert(tail[i] == chunks[i + 1]);
        }
        lemma_copy_delivers_all(tail);
        assert(evs.skip(1) =~= tail.map_values(|c: Seq<u8>| ReadEventModel::Data(c)).push(
            ReadEventModel::Data(Seq::empty()),
        ));
        assert(evs[0] == ReadEventModel::Data(chunks[0]));
        assert(chunks.drop_first() =~= tail);
        assert(spec_run_copy(evs).0 == chunks[0] + tail.flatten());
    }
}

} // verus!
