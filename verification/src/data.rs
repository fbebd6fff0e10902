//! Core data types: the signing identity, the inbound request, the assembled
//! submission, and the HTTP reply shapes, each with a mathematical view.

use vstd::prelude::*;

verus! {

/// Identifier of the proving system a submission targets. The current
/// deployment fixes this to Groth16 over BN254, but the set is open-ended
/// by design: each identifier determines which optional fields a submission
/// must carry (see `validation::required_fields`).
#[derive(Clone, Copy, PartialEq, Eq, Structural, Debug)]
pub enum ProvingSystemId {
    Groth16Bn254,
    GnarkPlonkBn254,
    Sp1,
    Risc0,
}

/// The signing identity on whose behalf submissions are made: the 20-byte
/// account address derived from the key pair, bound to a fixed chain
/// identifier. The key material itself never enters this library; signing
/// happens in the surrounding application.
pub struct Identity {
    pub address: Vec<u8>,
    pub chain_id: u64,
}

/// Mathematical view of an [`Identity`].
pub struct IdentityView {
    pub address: Seq<u8>,
    pub chain_id: u64,
}

impl View for Identity {
    type V = IdentityView;

    open spec fn view(&self) -> IdentityView {
        IdentityView { address: self.address@, chain_id: self.chain_id }
    }
}

impl Identity {
    /// An identity is well formed when its address has the standard
    /// 20-byte length.
    pub open spec fn wf(&self) -> bool {
        self.address@.len() == 20
    }

    /// Constructs an identity, accepting exactly the 20-byte addresses.
    pub fn new(address: Vec<u8>, chain_id: u64) -> (r: Option<Identity>)
        ensures
            r is Some <==> address@.len() == 20,
            r matches Some(id) ==> id@.address == address@ && id@.chain_id == chain_id && id.wf(),
    {
        if address.len() == 20 {
            Some(Identity { address, chain_id })
        } else {
            None
        }
    }
}

/// The decoded body of an inbound verification request: the proof itself and
/// the verification key and public input it was produced against, all opaque
/// byte sequences from this library's point of view.
pub struct VerificationRequest {
    pub proof: Vec<u8>,
    pub verification_key: Vec<u8>,
    pub pub_input: Vec<u8>,
}

/// Mathematical view of a [`VerificationRequest`].
pub struct RequestView {
    pub proof: Seq<u8>,
    pub verification_key: Seq<u8>,
    pub pub_input: Seq<u8>,
}

impl View for VerificationRequest {
    type V = RequestView;

    open spec fn view(&self) -> RequestView {
        RequestView {
            proof: self.proof@,
            verification_key: self.verification_key@,
            pub_input: self.pub_input@,
        }
    }
}

/// A fully assembled submission: the request body plus the metadata the
/// handler fills in (proving system tag and generator address).
pub struct VerificationData {
    pub proving_system: ProvingSystemId,
    pub proof: Vec<u8>,
    pub pub_input: Option<Vec<u8>>,
    pub verification_key: Option<Vec<u8>>,
    pub vm_program_code: Option<Vec<u8>>,
    pub proof_generator_addr: Vec<u8>,
}

/// Mathematical view of a [`VerificationData`].
pub struct DataView {
    pub proving_system: ProvingSystemId,
    pub proof: Seq<u8>,
    pub pub_input: Option<Seq<u8>>,
    pub verification_key: Option<Seq<u8>>,
    pub vm_program_code: Option<Seq<u8>>,
    pub proof_generator_addr: Seq<u8>,
}

/// View of an optional byte vector as an optional byte sequence.
pub open spec fn opt_bytes_view(o: Option<Vec<u8>>) -> Option<Seq<u8>> {
    match o {
        Some(v) => Some(v@),
        None => None,
    }
}

impl View for VerificationData {
    type V = DataView;

    open spec fn view(&self) -> DataView {
        DataView {
            proving_system: self.proving_system,
            proof: self.proof@,
            pub_input: opt_bytes_view(self.pub_input),
            verification_key: opt_bytes_view(self.verification_key),
            vm_program_code: opt_bytes_view(self.vm_program_code),
            proof_generator_addr: self.proof_generator_addr@,
        }
    }
}

/// The JSON-shaped body of the HTTP reply: whether the submission succeeded
/// and, if not, a human-readable reason.
pub struct VerificationResponse {
    pub success: bool,
    pub error: Option<String>,
}

/// An HTTP reply: a status code together with the response body.
pub struct HttpReply {
    pub status: u16,
    pub body: VerificationResponse,
}

/// Mathematical view of an [`HttpReply`].
pub struct ReplyView {
    pub status: u16,
    pub success: bool,
    pub error: Option<Seq<char>>,
}

impl View for HttpReply {
    type V = ReplyView;

    open spec fn view(&self) -> ReplyView {
        ReplyView {
            status: self.status,
            success: self.body.success,
            error: match self.body.error {
                Some(m) => Some(m@),
                None => None,
            },
        }
    }
}

} // verus!
