use vstd::prelude::*;
use vstd::arithmetic::div_mod::lemma_fundamental_div_mod_converse;

verus! {

/// Collects accepted points and hands them out in bounded batches: a full
/// batch the moment capacity is reached, and the remainder once at end of
/// stream. Two ghost sequences record the whole run: every batch handed out,
/// and every point accepted, each in order.
pub struct BatchAccumulator<T> {
    /// Configured batch capacity.
    pub capacity: usize,
    /// Points accepted since the last batch was handed out.
    pub pending: Vec<T>,
    /// Every batch handed out for delivery so far, in order.
    pub delivered: Ghost<Seq<Seq<T>>>,
    /// Every point accepted so far, in order.
    pub accepted: Ghost<Seq<T>>,
}

impl<T> BatchAccumulator<T> {
    /// Well-formed: positive capacity, strictly fewer pending points than the
    /// capacity, every batch handed out by `add` full, and the accepted points
    /// exactly the handed-out batches followed by the pending ones, in order.
    pub open spec fn wf(self) -> bool {
        &&& 0 < self.capacity
        &&& self.pending@.len() < self.capacity
        &&& (forall|i: int|
            0 <= i < self.delivered@.len() ==> (#[trigger] self.delivered@[i]).len()
                == self.capacity)
        &&& self.accepted@ == self.delivered@.flatten() + self.pending@
    }

    pub fn new(capacity: usize) -> (r: Self)
        requires
            0 < capacity,
        ensures
            r.wf(),
            r.capacity == capacity,
            r.pending@ =~= Seq::<T>::empty(),
            r.delivered@ =~= Seq::<Seq<T>>::empty(),
            r.accepted@ =~= Seq::<T>::empty(),
    {
        let r = BatchAccumulator {
            capacity,
            pending: Vec::new(),
            delivered: Ghost(Seq::empty()),
            accepted: Ghost(Seq::empty()),
        };
        proof {
            assert(r.accepted@ =~= r.delivered@.flatten() + r.pending@);
        }
        r
    }

    /// Appends one point; hands back the batch for delivery exactly when it
    /// reaches capacity, clearing the pending state.
    pub fn add(&mut self, point: T) -> (batch: Option<Vec<T>>)
        requires
            old(self).wf(),
        ensures
            final(self).wf(),
            final(self).capacity == old(self).capacity,
            final(self).accepted@ == old(self).accepted@.push(point),
            batch is Some <==> old(self).pending@.len() + 1 == old(self).capacity,
            match batch {
                Some(b) => {
                    &&& b@ == old(self).pending@.push(point)
                    &&& b@.len() == old(self).capacity
                    &&& final(self).delivered@ == old(self).delivered@.push(b@)
                    &&& final(self).pending@ =~= Seq::<T>::empty()
                },
                None => {
                    &&& final(self).delivered@ == old(self).delivered@
                    &&& final(self).pending@ == old(self).pending@.push(point)
                },
            },
    {
        self.pending.push(point);
        proof {
            self.accepted@ = self.accepted@.push(point);
        }
        if self.pending.len() == self.capacity {
            let mut full: Vec<T> = Vec::new();
            core::mem::swap(&mut self.pending, &mut full);
            proof {
                self.delivered@ = self.delivered@.push(full@);
                old(self).delivered@.lemma_flatten_push(full@);
                assert(self.accepted@ =~= self.delivered@.flatten() + self.pending@);
            }
            Some(full)
        } else {
            proof {
                assert(self.accepted@ =~= self.delivered@.flatten() + self.pending@);
            }
            None
        }
    }

    /// End of stream: hands out whatever is pending (`None` when nothing is)
    /// and clears all state, ready for a fresh run.
    pub fn flush_remaining(&mut self) -> (batch: Option<Vec<T>>)
        requires
            old(self).wf(),
        ensures
            final(self).wf(),
            final(self).capacity == old(self).capacity,
            final(self).pending@ =~= Seq::<T>::empty(),
            final(self).delivered@ =~= Seq::<Seq<T>>::empty(),
            final(self).accepted@ =~= Seq::<T>::empty(),
            batch is Some <==> old(self).pending@.len() > 0,
            match batch {
                Some(b) => b@ == old(self).pending@ && 0 < b@.len() < old(self).capacity,
                None => old(self).pending@.len() == 0,
            },
    {
        let mut out: Vec<T> = Vec::new();
        core::mem::swap(&mut self.pending, &mut out);
        proof {
            self.delivered@ = Seq::empty();
            self.accepted@ = Seq::empty();
            assert(self.accepted@ =~= self.delivered@.flatten() + self.pending@);
        }
        if out.len() > 0 {
            Some(out)
        } else {
            None
        }
    }
}

/// The length of a sequence of batches of one uniform length, flattened.
proof fn lemma_flatten_len_uniform<T>(batches: Seq<Seq<T>>, c: nat)
    requires
        forall|i: int| 0 <= i < batches.len() ==> (#[trigger] batches[i]).len() == c,
    ensures
        batches.flatten().len() == batches.len() * c,
    decreases batches.len(),
{
    if batches.len() == 0 {
    } else {
        let rest = batches.drop_first();
        lemma_flatten_len_uniform(rest, c);
        assert(batches.flatten() == batches.first() + rest.flatten());
        assert(c + (batches.len() - 1) * c == batches.len() * c) by (nonlinear_arith);
    }
}

/// The batch flush law: once N points have been accepted, exactly
/// N / capacity full batches have been handed out and N % capacity points are
/// pending, so the one final flush of the remainder (skipped when empty)
/// brings the number of deliveries to the ceiling of N / capacity.
pub proof fn lemma_delivery_count<T>(acc: BatchAccumulator<T>)
    requires
        acc.wf(),
    ensures
        acc.delivered@.len() * acc.capacity + acc.pending@.len() == acc.accepted@.len(),
        acc.delivered@.len() == acc.accepted@.len() as int / acc.capacity as int,
        acc.pending@.len() == acc.accepted@.len() as int % acc.capacity as int,
        acc.delivered@.len() + (if acc.pending@.len() > 0 {
            1int
        } else {
            0int
        }) == (acc.accepted@.len() + acc.capacity - 1) / (acc.capacity as int),
{
    lemma_flatten_len_uniform(acc.delivered@, acc.capacity as nat);
    let n = acc.accepted@.len() as int;
    let c = acc.capacity as int;
    let q = acc.delivered@.len() as int;
    let r = acc.pending@.len() as int;
    assert(n == q * c + r);
    lemma_fundamental_div_mod_converse(n, c, q, r);
    if r > 0 {
        assert(n + c - 1 == (q + 1) * c + (r - 1)) by (nonlinear_arith)
            requires
                n == q * c + r,
        ;
        lemma_fundamental_div_mod_converse(n + c - 1, c, q + 1, r - 1);
    } else {
        lemma_fundamental_div_mod_converse(n + c - 1, c, q, c - 1);
    }
}

} // verus!
