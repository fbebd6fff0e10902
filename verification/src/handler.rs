//! The per-request state machine at the heart of the gateway.
//!
//! One inbound request runs through strictly sequential phases: validate the
//! body, fetch the next nonce for the identity, estimate the fee, submit to
//! the batching service and wait for its terminal outcome, then reply. The
//! machine decides; the surrounding application performs each returned
//! [`Action`] (the actual network call) and feeds the result back as the
//! next event. Any failure short-circuits straight to a reply:
//!
//! * an invalid or malformed body is answered with a client error before
//!   any network phase is requested;
//! * an unreachable nonce or fee endpoint is answered with a server error
//!   (status 500) carrying the reason;
//! * a terminal outcome from the batching service — inclusion, explicit
//!   rejection, or a lost connection — is answered at status 200, with
//!   `success` true exactly on inclusion.

use vstd::prelude::*;

use crate::data::{
    DataView, HttpReply, Identity, IdentityView, ProvingSystemId, ReplyView, RequestView,
    VerificationData, VerificationRequest, VerificationResponse,
};
use crate::validation::{spec_validate, spec_validation_message, validate, validation_message};

verus! {

/// The fee-estimation strategy the handler asks for. The deployment uses
/// the protocol-recommended estimate; `Instant` asks for a fee high enough
/// for immediate inclusion.
#[derive(Clone, Copy, PartialEq, Eq, Structural, Debug)]
pub enum FeeStrategy {
    Recommended,
    Instant,
}

/// Where one request stands. `Received` awaits the nonce, `NonceFetched`
/// awaits the fee estimate, `Submitted` awaits the terminal outcome of the
/// submission, and `Done` means the reply has been issued.
pub enum HandlerState {
    Received { data: VerificationData },
    NonceFetched { data: VerificationData, nonce: u64 },
    Submitted { nonce: u64, max_fee: u128 },
    Done,
}

/// Mathematical view of a [`HandlerState`].
pub enum StateView {
    Received { data: DataView },
    NonceFetched { data: DataView, nonce: u64 },
    Submitted { nonce: u64, max_fee: u128 },
    Done,
}

impl View for HandlerState {
    type V = StateView;

    open spec fn view(&self) -> StateView {
        match self {
            HandlerState::Received { data } => StateView::Received { data: data@ },
            HandlerState::NonceFetched { data, nonce } => StateView::NonceFetched {
                data: data@,
                nonce: *nonce,
            },
            HandlerState::Submitted { nonce, max_fee } => StateView::Submitted {
                nonce: *nonce,
                max_fee: *max_fee,
            },
            HandlerState::Done => StateView::Done,
        }
    }
}

/// What the application must do next on behalf of the machine.
pub enum Action {
    FetchNonce,
    EstimateFee { strategy: FeeStrategy },
    Submit { data: VerificationData, nonce: u64, max_fee: u128 },
    Respond { reply: HttpReply },
}

/// Mathematical view of an [`Action`].
pub enum ActionView {
    FetchNonce,
    EstimateFee { strategy: FeeStrategy },
    Submit { data: DataView, nonce: u64, max_fee: u128 },
    Respond { reply: ReplyView },
}

impl View for Action {
    type V = ActionView;

    open spec fn view(&self) -> ActionView {
        match self {
            Action::FetchNonce => ActionView::FetchNonce,
            Action::EstimateFee { strategy } => ActionView::EstimateFee { strategy: *strategy },
            Action::Submit { data, nonce, max_fee } => ActionView::Submit {
                data: data@,
                nonce: *nonce,
                max_fee: *max_fee,
            },
            Action::Respond { reply } => ActionView::Respond { reply: reply@ },
        }
    }
}

/// The terminal outcome of the submission phase, as observed by the
/// application on the persistent connection: the service included the
/// submission in a batch (carrying the batch inclusion root), explicitly
/// rejected it with a reason, or the connection closed before an outcome.
pub enum SubmissionEvent {
    Included { batch_root: Vec<u8> },
    Rejected { message: String },
    ConnectionLost { message: String },
}

/// Mathematical view of a [`SubmissionEvent`].
pub enum EventView {
    Included { batch_root: Seq<u8> },
    Rejected { message: Seq<char> },
    ConnectionLost { message: Seq<char> },
}

impl View for SubmissionEvent {
    type V = EventView;

    open spec fn view(&self) -> EventView {
        match self {
            SubmissionEvent::Included { batch_root } => EventView::Included {
                batch_root: batch_root@,
            },
            SubmissionEvent::Rejected { message } => EventView::Rejected { message: message@ },
            SubmissionEvent::ConnectionLost { message } => EventView::ConnectionLost {
                message: message@,
            },
        }
    }
}

/// View of an optional error string as an optional character sequence.
pub open spec fn opt_message_view(o: Option<String>) -> Option<Seq<char>> {
    match o {
        Some(m) => Some(m@),
        None => None,
    }
}

/// View of a phase result whose error is the endpoint's reported reason.
pub open spec fn infra_result_view<T>(r: Result<T, String>) -> Result<T, Seq<char>> {
    match r {
        Ok(v) => Ok(v),
        Err(m) => Err(m@),
    }
}

/// How the handler assembles a submission from the request body: the
/// deployment's proving system is filled in, the optional fields are taken
/// from the body, and the generator address is the identity's.
pub open spec fn spec_assemble(req: RequestView, id: IdentityView) -> DataView {
    DataView {
        proving_system: ProvingSystemId::Groth16Bn254,
        proof: req.proof,
        pub_input: Some(req.pub_input),
        verification_key: Some(req.verification_key),
        vm_program_code: None,
        proof_generator_addr: id.address,
    }
}

/// The first transition: a malformed body that never parsed into a request
/// is answered directly with a client error carrying the parser's reason.
pub open spec fn spec_reject_malformed(message: Seq<char>) -> (StateView, ActionView) {
    (
        StateView::Done,
        ActionView::Respond {
            reply: ReplyView { status: 400, success: false, error: Some(message) },
        },
    )
}

/// The first transition for a parsed body: an invalid submission is
/// answered directly with a client error; a valid one enters the machine
/// and the nonce fetch is requested.
pub open spec fn spec_begin(req: RequestView, id: IdentityView) -> (StateView, ActionView) {
    let data = spec_assemble(req, id);
    match spec_validate(data) {
        Err(e) => (
            StateView::Done,
            ActionView::Respond {
                reply: ReplyView {
                    status: 400,
                    success: false,
                    error: Some(spec_validation_message(e)),
                },
            },
        ),
        Ok(u) => (StateView::Received { data }, ActionView::FetchNonce),
    }
}

/// The nonce transition: a fetch failure is a server error (the endpoint
/// could not be reached or answered malformed data); a fetched nonce moves
/// the machine on and requests the fee estimate.
pub open spec fn spec_on_nonce(st: StateView, fetched: Result<u64, Seq<char>>) -> (
    StateView,
    ActionView,
)
    recommends
        st is Received,
{
    match fetched {
        Err(m) => (
            StateView::Done,
            ActionView::Respond { reply: ReplyView { status: 500, success: false, error: Some(m) } },
        ),
        Ok(nonce) => (
            StateView::NonceFetched { data: st->Received_data, nonce },
            ActionView::EstimateFee { strategy: FeeStrategy::Recommended },
        ),
    }
}

/// The fee transition: an estimation failure is a server error; an estimate
/// moves the machine on and requests the submission itself, carrying the
/// assembled data, the fetched nonce and the estimated maximum fee.
pub open spec fn spec_on_fee(st: StateView, estimated: Result<u128, Seq<char>>) -> (
    StateView,
    ActionView,
)
    recommends
        st is NonceFetched,
{
    match estimated {
        Err(m) => (
            StateView::Done,
            ActionView::Respond { reply: ReplyView { status: 500, success: false, error: Some(m) } },
        ),
        Ok(max_fee) => (
            StateView::Submitted { nonce: st->NonceFetched_nonce, max_fee },
            ActionView::Submit { data: st->NonceFetched_data, nonce: st->NonceFetched_nonce, max_fee },
        ),
    }
}

/// The terminal transition: inclusion is reported as success with no error;
/// an explicit rejection and a lost connection are both reported at status
/// 200 with the reason, `success` false. The batch inclusion root is not
/// part of the reply; the application may log it.
pub open spec fn spec_on_submit(st: StateView, ev: EventView) -> (StateView, ActionView)
    recommends
        st is Submitted,
{
    match ev {
        EventView::Included { batch_root } => (
            StateView::Done,
            ActionView::Respond { reply: ReplyView { status: 200, success: true, error: None } },
        ),
        EventView::Rejected { message } => (
            StateView::Done,
            ActionView::Respond {
                reply: ReplyView { status: 200, success: false, error: Some(message) },
            },
        ),
        EventView::ConnectionLost { message } => (
            StateView::Done,
            ActionView::Respond {
                reply: ReplyView { status: 200, success: false, error: Some(message) },
            },
        ),
    }
}

/// Copies a byte vector; the copy has the same view.
fn copy_bytes(v: &Vec<u8>) -> (r: Vec<u8>)
    ensures
        r@ == v@,
{
    let r = v.clone();
    proof {
        assert(r@ =~= v@);
    }
    r
}

/// Builds the terminal pair: the machine is done, and the one action left
/// is to send `status` with the given body.
fn respond(status: u16, success: bool, error: Option<String>) -> (r: (HandlerState, Action))
    ensures
        r.0@ == StateView::Done,
        r.1@ == (ActionView::Respond {
            reply: ReplyView { status, success, error: opt_message_view(error) },
        }),
{
    (
        HandlerState::Done,
        Action::Respond {
            reply: HttpReply { status, body: VerificationResponse { success, error } },
        },
    )
}

/// Answers a body that could not be parsed at all: a client error carrying
/// the parser's reason, issued before any other component runs.
pub fn reject_malformed(message: String) -> (r: (HandlerState, Action))
    ensures
        (r.0@, r.1@) == spec_reject_malformed(message@),
        r.1@ is Respond,
{
    respond(400, false, Some(message))
}

/// Starts the machine on a parsed body: assembles the submission, validates
/// it, and either rejects it on the spot (client error, no network phase
/// requested) or requests the nonce fetch.
pub fn begin(req: VerificationRequest, identity: &Identity) -> (r: (HandlerState, Action))
    ensures
        (r.0@, r.1@) == spec_begin(req@, identity@),
        spec_validate(spec_assemble(req@, identity@)) is Err ==> r.1@ is Respond,
        spec_validate(spec_assemble(req@, identity@)) is Ok ==> r.1@ is FetchNonce,
{
    let addr = copy_bytes(&identity.address);
    let data = VerificationData {
        proving_system: ProvingSystemId::Groth16Bn254,
        proof: req.proof,
        pub_input: Some(req.pub_input),
        verification_key: Some(req.verification_key),
        vm_program_code: None,
        proof_generator_addr: addr,
    };
    match validate(&data) {
        Err(e) => {
            let msg = validation_message(e);
            respond(400, false, Some(msg))
        },
        Ok(u) => (HandlerState::Received { data }, Action::FetchNonce),
    }
}

/// Feeds the result of the nonce fetch into the machine.
pub fn on_nonce(state: HandlerState, fetched: Result<u64, String>) -> (r: (HandlerState, Action))
    requires
        state@ is Received,
    ensures
        (r.0@, r.1@) == spec_on_nonce(state@, infra_result_view(fetched)),
{
    match fetched {
        Err(m) => respond(500, false, Some(m)),
        Ok(nonce) => match state {
            HandlerState::Received { data } => (
                HandlerState::NonceFetched { data, nonce },
                Action::EstimateFee { strategy: FeeStrategy::Recommended },
            ),
            _ => unreached(),
        },
    }
}

/// Feeds the result of the fee estimation into the machine.
pub fn on_fee(state: HandlerState, estimated: Result<u128, String>) -> (r: (HandlerState, Action))
    requires
        state@ is NonceFetched,
    ensures
        (r.0@, r.1@) == spec_on_fee(state@, infra_result_view(estimated)),
{
    match estimated {
        Err(m) => respond(500, false, Some(m)),
        Ok(max_fee) => match state {
            HandlerState::NonceFetched { data, nonce } => (
                HandlerState::Submitted { nonce, max_fee },
                Action::Submit { data, nonce, max_fee },
            ),
            _ => unreached(),
        },
    }
}

/// Feeds the terminal outcome of the submission into the machine.
pub fn on_submit(state: HandlerState, ev: SubmissionEvent) -> (r: (HandlerState, Action))
    requires
        state@ is Submitted,
    ensures
        (r.0@, r.1@) == spec_on_submit(state@, ev@),
{
    match ev {
        SubmissionEvent::Included { batch_root } => respond(200, true, None),
        SubmissionEvent::Rejected { message } => respond(200, false, Some(message)),
        SubmissionEvent::ConnectionLost { message } => respond(200, false, Some(message)),
    }
}

} // verus!
