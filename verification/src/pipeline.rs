use vstd::prelude::*;
use crate::batch::BatchAccumulator;
use crate::ident::{PointId, RawIdentifier, resolve, resolve_spec};
use crate::normalize::{
    Accepted, IdentifierSource, RawRecord, RejectReason, accepted_matches, normalize,
    record_accepted, reject_reason_spec,
};

verus! {

/// One validated, identity-resolved point bound for the store. The vector and
/// payload types are the caller's: the pipeline carries them and reads neither.
pub struct VectorPoint<V, P> {
    pub identifier: PointId,
    pub vector: V,
    pub payload: P,
}

/// Counters reported at the end of a run.
#[derive(Debug, Clone, Copy, PartialEq, Eq, Structural)]
pub struct RunSummary {
    pub accepted: u64,
    pub rejected: u64,
    pub batches_delivered: u64,
    pub batches_failed: u64,
}

/// The ingestion pipeline's state: the configured identifier source, the
/// batch accumulator, and the run counters. The caller drives it one event at
/// a time — screen a record, accept an embedded point, note a delivery
/// outcome, finish — and performs the embedding and store calls in between.
pub struct IngestPipeline<V, P> {
    pub source: IdentifierSource,
    pub acc: BatchAccumulator<VectorPoint<V, P>>,
    pub summary: RunSummary,
}

impl<V, P> IngestPipeline<V, P> {
    pub open spec fn wf(self) -> bool {
        self.acc.wf()
    }

    pub fn new(source: IdentifierSource, batch_capacity: usize) -> (r: Self)
        requires
            0 < batch_capacity,
        ensures
            r.wf(),
            r.source == source,
            r.acc.capacity == batch_capacity,
            r.acc.pending@ =~= Seq::<VectorPoint<V, P>>::empty(),
            r.acc.delivered@ =~= Seq::<Seq<VectorPoint<V, P>>>::empty(),
            r.acc.accepted@ =~= Seq::<VectorPoint<V, P>>::empty(),
            r.summary == (RunSummary {
                accepted: 0,
                rejected: 0,
                batches_delivered: 0,
                batches_failed: 0,
            }),
    {
        IngestPipeline {
            source,
            acc: BatchAccumulator::new(batch_capacity),
            summary: RunSummary { accepted: 0, rejected: 0, batches_delivered: 0, batches_failed: 0 },
        }
    }

    /// Validates one raw record against the configured identifier source,
    /// counting a rejection; the accumulator is untouched either way. The
    /// accepted text is handed back for the embedding step exactly as the
    /// record carried it.
    pub fn screen(&mut self, record: &RawRecord) -> (r: Result<Accepted, RejectReason>)
        requires
            old(self).wf(),
            old(self).summary.rejected < u64::MAX,
        ensures
            final(self).wf(),
            final(self).source == old(self).source,
            final(self).acc == old(self).acc,
            r is Ok <==> record_accepted(*record, old(self).source),
            match r {
                Ok(a) => accepted_matches(a, *record, old(self).source) && final(self).summary
                    == old(self).summary,
                Err(reason) => {
                    &&& reason == reject_reason_spec(*record, old(self).source)
                    &&& final(self).summary == (RunSummary {
                        rejected: (old(self).summary.rejected + 1) as u64,
                        ..old(self).summary
                    })
                },
            },
    {
        let r = normalize(record, self.source);
        if r.is_err() {
            self.summary.rejected = self.summary.rejected + 1;
        }
        r
    }

    /// Takes the vector the embedding adapter produced for an accepted
    /// record, resolves the raw identifier to its point key, and accumulates
    /// the point; hands back a full batch for delivery when one closes.
    pub fn accept(&mut self, raw_identifier: RawIdentifier, vector: V, payload: P) -> (batch:
        Option<Vec<VectorPoint<V, P>>>)
        requires
            old(self).wf(),
            old(self).summary.accepted < u64::MAX,
        ensures
            final(self).wf(),
            final(self).source == old(self).source,
            final(self).acc.capacity == old(self).acc.capacity,
            final(self).summary == (RunSummary {
                accepted: (old(self).summary.accepted + 1) as u64,
                ..old(self).summary
            }),
            ({
                let p = (VectorPoint {
                    identifier: resolve_spec(raw_identifier),
                    vector: vector,
                    payload: payload,
                });
                &&& final(self).acc.accepted@ == old(self).acc.accepted@.push(p)
                &&& (batch is Some <==> old(self).acc.pending@.len() + 1 == old(
                    self,
                ).acc.capacity)
                &&& match batch {
                    Some(b) => {
                        &&& b@ == old(self).acc.pending@.push(p)
                        &&& b@.len() == old(self).acc.capacity
                        &&& final(self).acc.delivered@ == old(self).acc.delivered@.push(b@)
                        &&& final(self).acc.pending@ =~= Seq::<VectorPoint<V, P>>::empty()
                    },
                    None => {
                        &&& final(self).acc.delivered@ == old(self).acc.delivered@
                        &&& final(self).acc.pending@ == old(self).acc.pending@.push(p)
                    },
                }
            }),
    {
        let identifier = resolve(raw_identifier);
        let point = VectorPoint { identifier, vector, payload };
        self.summary.accepted = self.summary.accepted + 1;
        self.acc.add(point)
    }

    /// Records the store's outcome for one delivered batch. The outcome never
    /// reaches the accumulator: a failed batch is dropped, and every later
    /// record accumulates into a fresh batch exactly as if the flush had
    /// succeeded.
    pub fn note_delivery(&mut self, ok: bool)
        requires
            old(self).wf(),
            old(self).summary.batches_delivered < u64::MAX,
            old(self).summary.batches_failed < u64::MAX,
        ensures
            final(self).wf(),
            final(self).source == old(self).source,
            final(self).acc == old(self).acc,
            final(self).summary == (RunSummary {
                batches_delivered: if ok {
                    (old(self).summary.batches_delivered + 1) as u64
                } else {
                    old(self).summary.batches_delivered
                },
                batches_failed: if ok {
                    old(self).summary.batches_failed
                } else {
                    (old(self).summary.batches_failed + 1) as u64
                },
                ..old(self).summary
            }),
    {
        if ok {
            self.summary.batches_delivered = self.summary.batches_delivered + 1;
        } else {
            self.summary.batches_failed = self.summary.batches_failed + 1;
        }
    }

    /// End of stream: hands out the final partial batch, if any, and leaves
    /// the accumulator cleared. The counters survive as the run's summary.
    pub fn finish(&mut self) -> (batch: Option<Vec<VectorPoint<V, P>>>)
        requires
            old(self).wf(),
        ensures
            final(self).wf(),
            final(self).source == old(self).source,
            final(self).acc.capacity == old(self).acc.capacity,
            final(self).summary == old(self).summary,
            final(self).acc.pending@ =~= Seq::<VectorPoint<V, P>>::empty(),
            final(self).acc.delivered@ =~= Seq::<Seq<VectorPoint<V, P>>>::empty(),
            final(self).acc.accepted@ =~= Seq::<VectorPoint<V, P>>::empty(),
            batch is Some <==> old(self).acc.pending@.len() > 0,
            match batch {
                Some(b) => b@ == old(self).acc.pending@ && 0 < b@.len() < old(self).acc.capacity,
                None => old(self).acc.pending@.len() == 0,
            },
    {
        self.acc.flush_remaining()
    }
}

/// The batch flush law, in the pipeline's terms: once N points have been
/// accepted, the store has been handed exactly N / capacity full batches in
/// input order, N % capacity points await the final flush, and that one
/// flush (skipped when nothing is pending) brings the delivery count to the
/// ceiling of N / capacity — whether or not any delivery failed, since
/// failures never reach the accumulator.
pub proof fn lemma_pipeline_delivery_count<V, P>(pipe: IngestPipeline<V, P>)
    requires
        pipe.wf(),
    ensures
        pipe.acc.delivered@.flatten() + pipe.acc.pending@ == pipe.acc.accepted@,
        pipe.acc.delivered@.len() == pipe.acc.accepted@.len() as int / pipe.acc.capacity as int,
        pipe.acc.pending@.len() == pipe.acc.accepted@.len() as int % pipe.acc.capacity as int,
        pipe.acc.delivered@.len() + (if pipe.acc.pending@.len() > 0 {
            1int
        } else {
            0int
        }) == (pipe.acc.accepted@.len() + pipe.acc.capacity - 1) / (pipe.acc.capacity as int),
{
    crate::batch::lemma_delivery_count(pipe.acc);
}

} // verus!
