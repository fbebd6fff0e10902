//! Validation of an assembled submission before any network phase runs:
//! the proof must be non-empty, and the fields a proving system requires
//! must be present. Which fields are required is a capability of the
//! proving-system tag, not of any one deployment.

use vstd::prelude::*;

use crate::data::{DataView, ProvingSystemId, VerificationData};

verus! {

/// Which optional fields of a submission a proving system requires.
#[derive(Clone, Copy, PartialEq, Eq, Structural, Debug)]
pub struct FieldRequirements {
    pub needs_verification_key: bool,
    pub needs_pub_input: bool,
    pub needs_vm_program_code: bool,
}

/// The capability map from proving-system tag to required fields: the
/// circuit-based systems need a verification key and a public input, the
/// VM-based ones need the program image instead.
pub open spec fn spec_required_fields(ps: ProvingSystemId) -> FieldRequirements {
    match ps {
        ProvingSystemId::Groth16Bn254 => FieldRequirements {
            needs_verification_key: true,
            needs_pub_input: true,
            needs_vm_program_code: false,
        },
        ProvingSystemId::GnarkPlonkBn254 => FieldRequirements {
            needs_verification_key: true,
            needs_pub_input: true,
            needs_vm_program_code: false,
        },
        ProvingSystemId::Sp1 => FieldRequirements {
            needs_verification_key: false,
            needs_pub_input: false,
            needs_vm_program_code: true,
        },
        ProvingSystemId::Risc0 => FieldRequirements {
            needs_verification_key: false,
            needs_pub_input: false,
            needs_vm_program_code: true,
        },
    }
}

/// Returns the fields required by `ps`.
pub fn required_fields(ps: ProvingSystemId) -> (r: FieldRequirements)
    ensures
        r == spec_required_fields(ps),
{
    match ps {
        ProvingSystemId::Groth16Bn254 => FieldRequirements {
            needs_verification_key: true,
            needs_pub_input: true,
            needs_vm_program_code: false,
        },
        ProvingSystemId::GnarkPlonkBn254 => FieldRequirements {
            needs_verification_key: true,
            needs_pub_input: true,
            needs_vm_program_code: false,
        },
        ProvingSystemId::Sp1 => FieldRequirements {
            needs_verification_key: false,
            needs_pub_input: false,
            needs_vm_program_code: true,
        },
        ProvingSystemId::Risc0 => FieldRequirements {
            needs_verification_key: false,
            needs_pub_input: false,
            needs_vm_program_code: true,
        },
    }
}

/// Why a submission was rejected before any network phase.
#[derive(Clone, Copy, PartialEq, Eq, Structural, Debug)]
pub enum ValidationError {
    EmptyProof,
    MissingVerificationKey,
    MissingPubInput,
    MissingVmProgramCode,
}

/// The validation rule: an empty proof is always rejected; after that, each
/// field the proving system requires must be present. The first failing
/// check, in this order, names the error.
pub open spec fn spec_validate(d: DataView) -> Result<(), ValidationError> {
    let req = spec_required_fields(d.proving_system);
    if d.proof.len() == 0 {
        Err(ValidationError::EmptyProof)
    } else if req.needs_verification_key && d.verification_key is None {
        Err(ValidationError::MissingVerificationKey)
    } else if req.needs_pub_input && d.pub_input is None {
        Err(ValidationError::MissingPubInput)
    } else if req.needs_vm_program_code && d.vm_program_code is None {
        Err(ValidationError::MissingVmProgramCode)
    } else {
        Ok(())
    }
}

/// Validates a submission, returning exactly what [`spec_validate`] says.
pub fn validate(d: &VerificationData) -> (r: Result<(), ValidationError>)
    ensures
        r == spec_validate(d@),
{
    let req = required_fields(d.proving_system);
    if d.proof.len() == 0 {
        Err(ValidationError::EmptyProof)
    } else if req.needs_verification_key && d.verification_key.is_none() {
        Err(ValidationError::MissingVerificationKey)
    } else if req.needs_pub_input && d.pub_input.is_none() {
        Err(ValidationError::MissingPubInput)
    } else if req.needs_vm_program_code && d.vm_program_code.is_none() {
        Err(ValidationError::MissingVmProgramCode)
    } else {
        Ok(())
    }
}

/// A short reason for each validation error, used as the reply's error text.
pub open spec fn spec_validation_message(e: ValidationError) -> Seq<char> {
    match e {
        ValidationError::EmptyProof => "proof must not be empty"@,
        ValidationError::MissingVerificationKey => "verification key is required"@,
        ValidationError::MissingPubInput => "public input is required"@,
        ValidationError::MissingVmProgramCode => "vm program code is required"@,
    }
}

/// Renders the reason for a validation error.
pub fn validation_message(e: ValidationError) -> (s: String)
    ensures
        s@ == spec_validation_message(e),
{
    match e {
        ValidationError::EmptyProof => "proof must not be empty".to_owned(),
        ValidationError::MissingVerificationKey => "verification key is required".to_owned(),
        ValidationError::MissingPubInput => "public input is required".to_owned(),
        ValidationError::MissingVmProgramCode => "vm program code is required".to_owned(),
    }
}

} // verus!
