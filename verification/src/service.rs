//! A model of the remote batching service's documented contract, as far as
//! this client relies on it: the service consumes one nonce per identity in
//! strictly increasing order, accepts a submission only when its nonce is
//! exactly the next unconsumed one and its fee reaches the service's
//! minimum, and answers every submission with exactly one terminal outcome.
//!
//! The model is what the nonce-sequencing guarantees are stated and proved
//! against, and what the tests drive the request machine with; the real
//! service is reached only by the surrounding application.

use vstd::prelude::*;

use crate::handler::{EventView, SubmissionEvent};

verus! {

/// The service's state for one identity on one network: the next nonce it
/// will consume, the payloads it has included so far (in order), and the
/// least fee it accepts.
pub struct BatcherModel {
    pub next_nonce: u64,
    pub included: Vec<Vec<u8>>,
    pub min_fee: u128,
}

/// Mathematical view of a [`BatcherModel`].
pub struct BatcherView {
    pub next_nonce: u64,
    pub included: Seq<Seq<u8>>,
    pub min_fee: u128,
}

impl View for BatcherModel {
    type V = BatcherView;

    open spec fn view(&self) -> BatcherView {
        BatcherView {
            next_nonce: self.next_nonce,
            included: self.included.deep_view(),
            min_fee: self.min_fee,
        }
    }
}

/// When the service accepts a submission: the nonce must be exactly the
/// next unconsumed one and the offered fee must reach the minimum. (The
/// nonce sequence must also not be exhausted, a bound of the model's
/// machine arithmetic.)
pub open spec fn spec_accepts(m: BatcherView, nonce: u64, max_fee: u128) -> bool {
    &&& nonce == m.next_nonce
    &&& max_fee >= m.min_fee
    &&& m.next_nonce < u64::MAX
}

/// The service's state after a submission: acceptance consumes the nonce
/// and appends the payload to the included batch leaves; a rejected
/// submission leaves the state unchanged.
pub open spec fn spec_step(m: BatcherView, payload: Seq<u8>, nonce: u64, max_fee: u128) -> BatcherView {
    if spec_accepts(m, nonce, max_fee) {
        BatcherView {
            next_nonce: (m.next_nonce + 1) as u64,
            included: m.included.push(payload),
            min_fee: m.min_fee,
        }
    } else {
        m
    }
}

impl BatcherModel {
    /// A fresh service state: no nonce consumed yet, nothing included.
    pub fn new(min_fee: u128) -> (r: BatcherModel)
        ensures
            r@.next_nonce == 0,
            r@.included.len() == 0,
            r@.min_fee == min_fee,
    {
        let r = BatcherModel { next_nonce: 0, included: Vec::new(), min_fee };
        proof {
            assert(r@.included =~= Seq::<Seq<u8>>::empty());
        }
        r
    }

    /// Answers the chain's "next nonce for this identity" query.
    pub fn get_next_nonce(&self) -> (n: u64)
        ensures
            n == self@.next_nonce,
    {
        self.next_nonce
    }

    /// Processes one signed submission and returns its terminal outcome:
    /// inclusion exactly when [`spec_accepts`] holds, or an explicit rejection
    /// with a reason otherwise. The state moves by [`spec_step`]; in
    /// particular a rejected submission is never included.
    pub fn submit(&mut self, payload: Vec<u8>, nonce: u64, max_fee: u128) -> (out: SubmissionEvent)
        ensures
            final(self)@ == spec_step(old(self)@, payload@, nonce, max_fee),
            out@ is Included <==> spec_accepts(old(self)@, nonce, max_fee),
            !spec_accepts(old(self)@, nonce, max_fee) ==> (out@ matches EventView::Rejected {
                message,
            } && message.len() > 0),
            nonce != old(self)@.next_nonce ==> (out@ matches EventView::Rejected { message }
                && message == "invalid nonce"@),
            nonce == old(self)@.next_nonce && max_fee < old(self)@.min_fee ==> (out@ matches
                EventView::Rejected { message } && message == "insufficient fee"@),
    {
        if nonce == self.next_nonce && max_fee >= self.min_fee && self.next_nonce < u64::MAX {
            self.next_nonce = self.next_nonce + 1;
            let ghost before = self.included.deep_view();
            self.included.push(payload);
            proof {
                assert(self.included.deep_view() =~~= before.push(payload@));
            }
            // The model stands in for a content-derived digest with a
            // placeholder root of the service's fixed 32-byte length.
            let mut batch_root: Vec<u8> = Vec::new();
            let mut i: usize = 0;
            while i < 32
                invariant
                    batch_root@.len() == i,
                    i <= 32,
                decreases 32 - i,
            {
                batch_root.push(0u8);
                i = i + 1;
            }
            SubmissionEvent::Included { batch_root }
        } else if nonce != self.next_nonce {
            proof {
                reveal_strlit("invalid nonce");
            }
            SubmissionEvent::Rejected { message: "invalid nonce".to_owned() }
        } else if max_fee < self.min_fee {
            proof {
                reveal_strlit("insufficient fee");
            }
            SubmissionEvent::Rejected { message: "insufficient fee".to_owned() }
        } else {
            proof {
                reveal_strlit("nonce sequence exhausted");
            }
            SubmissionEvent::Rejected { message: "nonce sequence exhausted".to_owned() }
        }
    }
}

/// Nonce monotonicity: when two sequential submissions are both accepted,
/// the nonce of the second is strictly greater than the nonce of the first.
pub proof fn lemma_nonce_strictly_increases(
    m0: BatcherView,
    p0: Seq<u8>,
    n0: u64,
    f0: u128,
    n1: u64,
    f1: u128,
)
    requires
        spec_accepts(m0, n0, f0),
        spec_accepts(spec_step(m0, p0, n0, f0), n1, f1),
    ensures
        n1 > n0,
{
}

/// Reusing a consumed nonce is observable as rejection: once a submission
/// with nonce `n0` is accepted, no later submission offering `n0` again is.
pub proof fn lemma_nonce_reuse_rejected(m0: BatcherView, p0: Seq<u8>, n0: u64, f0: u128, f1: u128)
    requires
        spec_accepts(m0, n0, f0),
    ensures
        !spec_accepts(spec_step(m0, p0, n0, f0), n0, f1),
{
}

/// Idempotence of inclusion: resubmitting an already-included payload with
/// its stale nonce is rejected, and the service's state — in particular the
/// sequence of included payloads — is unchanged: nothing is re-included.
pub proof fn lemma_stale_resubmission_rejected(
    m0: BatcherView,
    p0: Seq<u8>,
    n0: u64,
    f0: u128,
    f1: u128,
)
    requires
        spec_accepts(m0, n0, f0),
    ensures
        ({
            let m1 = spec_step(m0, p0, n0, f0);
            &&& !spec_accepts(m1, n0, f1)
            &&& spec_step(m1, p0, n0, f1) == m1
        }),
{
}

} // verus!
