//! The guarantees of the request pipeline as a whole, stated over the
//! machine's transition functions and proved once for all inputs.

use vstd::prelude::*;

use crate::data::{IdentityView, ReplyView, RequestView};
use crate::handler::{
    spec_assemble, spec_begin, spec_on_fee, spec_on_nonce, spec_on_submit, spec_reject_malformed,
    ActionView, EventView, FeeStrategy, StateView,
};
use crate::validation::spec_validate;

verus! {

/// For every valid submission whose remote outcome is inclusion, the
/// pipeline runs all three network phases in order and replies success
/// with no error, at status 200.
pub proof fn lemma_included_reports_success(
    req: RequestView,
    id: IdentityView,
    nonce: u64,
    max_fee: u128,
    batch_root: Seq<u8>,
)
    requires
        spec_validate(spec_assemble(req, id)) is Ok,
    ensures
        ({
            let (s0, a0) = spec_begin(req, id);
            let (s1, a1) = spec_on_nonce(s0, Ok(nonce));
            let (s2, a2) = spec_on_fee(s1, Ok(max_fee));
            let (s3, a3) = spec_on_submit(s2, EventView::Included { batch_root });
            &&& a0 == ActionView::FetchNonce
            &&& a1 == (ActionView::EstimateFee { strategy: FeeStrategy::Recommended })
            &&& a2 == (ActionView::Submit { data: spec_assemble(req, id), nonce, max_fee })
            &&& s3 is Done
            &&& a3 == (ActionView::Respond {
                reply: ReplyView { status: 200, success: true, error: None },
            })
        }),
{
}

/// For every valid submission that the service explicitly rejects with
/// message `m`, the pipeline replies at status 200 with success false and
/// exactly that message as the error.
pub proof fn lemma_rejection_reported(
    req: RequestView,
    id: IdentityView,
    nonce: u64,
    max_fee: u128,
    m: Seq<char>,
)
    requires
        spec_validate(spec_assemble(req, id)) is Ok,
    ensures
        ({
            let (s0, a0) = spec_begin(req, id);
            let (s1, a1) = spec_on_nonce(s0, Ok(nonce));
            let (s2, a2) = spec_on_fee(s1, Ok(max_fee));
            let (s3, a3) = spec_on_submit(s2, EventView::Rejected { message: m });
            &&& s3 is Done
            &&& a3 == (ActionView::Respond {
                reply: ReplyView { status: 200, success: false, error: Some(m) },
            })
        }),
{
}

/// When the nonce endpoint is unreachable (the fetch fails with reason
/// `m`), the pipeline replies at status 500, success false, with a
/// non-null error.
pub proof fn lemma_nonce_failure_is_server_error(req: RequestView, id: IdentityView, m: Seq<char>)
    requires
        spec_validate(spec_assemble(req, id)) is Ok,
    ensures
        ({
            let (s0, a0) = spec_begin(req, id);
            let (s1, a1) = spec_on_nonce(s0, Err(m));
            &&& s1 is Done
            &&& a1 == (ActionView::Respond {
                reply: ReplyView { status: 500, success: false, error: Some(m) },
            })
        }),
{
}

/// When the fee endpoint is unreachable (the estimate fails with reason
/// `m`), the pipeline replies at status 500, success false, with a
/// non-null error.
pub proof fn lemma_fee_failure_is_server_error(
    req: RequestView,
    id: IdentityView,
    nonce: u64,
    m: Seq<char>,
)
    requires
        spec_validate(spec_assemble(req, id)) is Ok,
    ensures
        ({
            let (s0, a0) = spec_begin(req, id);
            let (s1, a1) = spec_on_nonce(s0, Ok(nonce));
            let (s2, a2) = spec_on_fee(s1, Err(m));
            &&& s2 is Done
            &&& a2 == (ActionView::Respond {
                reply: ReplyView { status: 500, success: false, error: Some(m) },
            })
        }),
{
}

/// Validation comes first: a submission whose proof is empty is answered
/// with a client error on the spot — the machine's first action is already
/// the reply, so no remote endpoint is ever contacted.
pub proof fn lemma_empty_proof_rejected_before_network(req: RequestView, id: IdentityView)
    requires
        req.proof.len() == 0,
    ensures
        ({
            let (s0, a0) = spec_begin(req, id);
            &&& s0 is Done
            &&& a0 matches ActionView::Respond { reply }
            &&& a0->Respond_reply.status == 400
            &&& !a0->Respond_reply.success
            &&& a0->Respond_reply.error is Some
        }),
{
}

/// Exactly one reply arises per request: a transition issues the reply if
/// and only if it halts the machine, and the terminal outcome of the
/// submission always does — never a partial or duplicated outcome.
pub proof fn lemma_one_reply_per_request(
    req: RequestView,
    id: IdentityView,
    st: StateView,
    n: Result<u64, Seq<char>>,
    f: Result<u128, Seq<char>>,
    ev: EventView,
)
    ensures
        spec_begin(req, id).1 is Respond <==> spec_begin(req, id).0 is Done,
        spec_on_nonce(st, n).1 is Respond <==> spec_on_nonce(st, n).0 is Done,
        spec_on_fee(st, f).1 is Respond <==> spec_on_fee(st, f).0 is Done,
        spec_on_submit(st, ev).1 is Respond && spec_on_submit(st, ev).0 is Done,
{
}

/// A body that never parsed is answered with a client error on the spot:
/// the machine's first action is already the reply, so no component runs.
pub proof fn lemma_malformed_body_is_client_error(m: Seq<char>)
    ensures
        ({
            let (s0, a0) = spec_reject_malformed(m);
            &&& s0 is Done
            &&& a0 == (ActionView::Respond {
                reply: ReplyView { status: 400, success: false, error: Some(m) },
            })
        }),
{
}

} // verus!
