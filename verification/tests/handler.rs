//! Tests that drive the request state machine from the outside, phase by
//! phase, against the model of the batching service.

use proof_relay::data::{Identity, VerificationRequest};
use proof_relay::handler::{
    begin, on_fee, on_nonce, on_submit, reject_malformed, Action, FeeStrategy, HandlerState,
    SubmissionEvent,
};
use proof_relay::service::BatcherModel;

fn test_identity() -> Identity {
    Identity::new(vec![7u8; 20], 17000).expect("20-byte address")
}

/// Mirrors the deployment's own fixture: a valid Groth16 proof, its
/// verification key, and the public input `[18]`, with the remote service
/// reporting inclusion.
#[test]
fn test_verify_handler() {
    let proof: Vec<u8> = vec![3, 119, 191, 111, 84, 154, 156, 150, 247, 211, 175, 75, 17, 112, 99, 233, 38, 113, 73, 129, 168, 13, 91, 153, 91, 104, 83, 137, 10, 140, 58, 239, 2, 214, 237, 235, 149, 100, 7, 210, 217, 200, 158, 39, 66, 51, 237, 199, 47, 154, 130, 174, 223, 124, 199, 247, 73, 80, 48, 47, 255, 118, 216, 104, 27, 147, 151, 132, 251, 24, 168, 135, 210, 205, 39, 37, 96, 44, 252, 252, 9, 96, 64, 37, 251, 101, 78, 93, 212, 177, 113, 204, 43, 23, 60, 133, 6, 233, 135, 226, 32, 79, 94, 42, 54, 47, 200, 17, 6, 233, 56, 53, 154, 14, 219, 200, 54, 98, 219, 221, 79, 140, 29, 92, 18, 52, 58, 90, 10, 39, 34, 67, 9, 14, 233, 95, 210, 205, 217, 105, 137, 58, 230, 146, 136, 18, 16, 81, 79, 244, 150, 166, 118, 198, 227, 120, 191, 54, 32, 145, 6, 212, 34, 109, 221, 131, 162, 99, 108, 56, 120, 210, 2, 70, 38, 123, 14, 74, 235, 127, 110, 59, 136, 83, 41, 24, 77, 176, 185, 96, 225, 62, 2, 62, 55, 135, 25, 190, 211, 18, 67, 119, 113, 103, 136, 254, 74, 5, 49, 218, 101, 98, 106, 222, 230, 20, 99, 141, 143, 144, 67, 16, 249, 20, 31, 170, 162, 44, 110, 66, 157, 45, 196, 227, 158, 22, 250, 62, 108, 209, 215, 11, 238, 169, 39, 198, 134, 198, 91, 74, 26, 4, 53, 177, 234, 133, 0, 0, 0, 0, 0, 0, 0, 0, 0, 0, 0, 0, 0, 0, 0, 0, 0, 0, 0, 0, 0, 0, 0, 0, 0, 0, 0, 0, 0, 0, 0, 0, 0, 0, 0, 0, 0, 0, 0, 0, 0, 0, 0, 0, 0, 0, 0, 0, 0, 0, 0, 0, 0, 0, 0, 0, 0, 0, 0, 0, 0, 0, 0, 0, 0, 0, 0, 0];
    let verification_key: Vec<u8> = vec![45, 59, 223, 57, 211, 3, 114, 233, 178, 138, 233, 11, 18, 221, 14, 169, 171, 76, 10, 181, 29, 27, 35, 239, 213, 171, 170, 245, 238, 32, 140, 47, 34, 227, 113, 192, 148, 214, 32, 213, 228, 131, 180, 53, 33, 122, 221, 181, 179, 75, 9, 84, 182, 32, 68, 90, 119, 146, 73, 225, 118, 150, 125, 16, 38, 182, 28, 24, 148, 187, 255, 80, 4, 253, 137, 78, 46, 44, 238, 119, 235, 84, 233, 221, 151, 111, 0, 36, 246, 221, 86, 91, 202, 146, 125, 30, 40, 115, 253, 68, 226, 240, 138, 7, 224, 84, 75, 145, 101, 192, 122, 103, 13, 120, 121, 133, 104, 252, 83, 117, 37, 50, 16, 41, 37, 250, 145, 52, 46, 231, 12, 187, 151, 86, 16, 103, 7, 181, 70, 26, 175, 251, 190, 125, 127, 202, 79, 21, 237, 154, 219, 198, 181, 80, 39, 33, 51, 68, 106, 159, 38, 11, 203, 189, 96, 27, 114, 5, 212, 54, 242, 175, 63, 217, 250, 133, 170, 206, 251, 167, 217, 247, 64, 86, 135, 151, 79, 205, 38, 208, 113, 73, 15, 74, 131, 161, 87, 223, 153, 119, 59, 100, 97, 223, 89, 11, 192, 125, 230, 242, 177, 166, 72, 112, 186, 67, 65, 1, 78, 77, 172, 91, 220, 77, 16, 136, 104, 135, 229, 220, 22, 250, 55, 84, 206, 10, 189, 119, 207, 27, 44, 190, 230, 56, 107, 19, 194, 129, 44, 30, 157, 230, 229, 44, 11, 242, 47, 23, 132, 255, 81, 196, 53, 98, 102, 25, 54, 235, 173, 58, 28, 161, 113, 37, 53, 85, 189, 37, 53, 81, 73, 227, 226, 235, 237, 196, 205, 53, 31, 115, 32, 4, 251, 92, 228, 82, 161, 169, 185, 32, 143, 115, 67, 11, 251, 65, 239, 96, 186, 115, 9, 83, 237, 104, 105, 48, 36, 208, 167, 145, 19, 225, 92, 11, 3, 179, 160, 209, 67, 41, 132, 106, 10, 127, 46, 79, 87, 166, 3, 46, 163, 89, 5, 113, 5, 16, 139, 49, 31, 191, 94, 108, 23, 252, 50, 67, 101, 239, 255, 115, 254, 186, 151, 93, 67, 159, 88, 80, 62, 86, 240, 167, 29, 59, 29, 113, 146, 87, 122, 232, 216, 200, 109, 169, 5, 99, 114, 233, 43, 204, 65, 50, 57, 78, 240, 2, 114, 35, 87, 111, 35, 186, 248, 14, 62, 95, 91, 51, 208, 79, 209, 241, 76, 255, 34, 0, 29, 156, 153, 91, 172, 245, 180, 112, 183, 36, 178, 193, 59, 42, 242, 140, 186, 211, 67, 105, 24, 74, 83, 2, 208, 153, 115, 213, 180, 124, 15, 191, 16, 190, 155, 18, 135, 22, 32, 114, 187, 237, 37, 209, 196, 215, 11, 216, 133, 95, 134, 103, 239, 240, 195, 196, 209, 102, 125, 232, 101, 63, 244, 56, 20, 82, 52, 93, 221, 186, 105, 130, 17, 53, 253, 244, 44, 159, 151, 160, 130, 210, 184, 49, 70, 47, 243, 64, 37, 51, 89, 163, 244, 64, 12, 178, 20, 36, 177, 134, 32, 104, 57, 74, 147, 56, 5, 160, 128, 63, 222, 24, 163, 212, 143, 161, 111, 209, 253, 212, 117, 219, 5, 191, 205, 121, 13, 178, 5, 177, 21, 88, 161, 193, 236, 13, 99, 205, 87, 1, 189, 21, 14, 139, 132, 129, 87, 188, 55, 173, 49, 38, 115, 133, 136, 18, 125, 172, 246, 68, 0, 0, 0, 2, 20, 211, 191, 125, 216, 95, 200, 172, 254, 182, 215, 248, 70, 167, 214, 154, 186, 77, 126, 39, 64, 182, 123, 165, 109, 27, 249, 200, 46, 34, 1, 62, 5, 220, 170, 128, 92, 32, 62, 102, 234, 199, 45, 238, 212, 2, 211, 225, 8, 172, 54, 4, 243, 9, 47, 106, 99, 23, 50, 49, 18, 177, 25, 29, 22, 42, 14, 54, 33, 254, 198, 140, 62, 226, 107, 103, 154, 212, 59, 166, 22, 26, 118, 86, 244, 88, 192, 203, 220, 9, 168, 239, 238, 238, 72, 192, 41, 160, 164, 87, 179, 45, 189, 161, 117, 208, 169, 242, 146, 101, 84, 58, 25, 11, 235, 158, 24, 226, 49, 212, 7, 72, 246, 100, 55, 45, 53, 50, 0, 0, 0, 0, 37, 211, 135, 93, 102, 245, 77, 47, 162, 83, 213, 247, 142, 128, 205, 246, 91, 7, 162, 133, 40, 196, 86, 154, 30, 84, 103, 190, 126, 203, 146, 70, 35, 242, 237, 149, 228, 132, 191, 2, 159, 129, 6, 97, 153, 102, 223, 186, 156, 133, 23, 163, 205, 133, 238, 255, 247, 9, 116, 154, 83, 165, 1, 185, 39, 177, 131, 152, 113, 114, 188, 26, 79, 211, 200, 147, 108, 153, 15, 173, 73, 23, 70, 244, 245, 68, 91, 216, 123, 136, 152, 22, 146, 243, 79, 138, 8, 246, 241, 196, 211, 235, 148, 52, 141, 235, 80, 53, 191, 234, 29, 61, 206, 178, 13, 91, 24, 186, 139, 1, 143, 5, 7, 232, 8, 2, 86, 28, 12, 6, 87, 64, 213, 165, 151, 250, 154, 198, 174, 16, 16, 242, 163, 193, 3, 112, 179, 112, 235, 209, 100, 56, 135, 146, 181, 79, 36, 126, 98, 237, 22, 127, 154, 39, 148, 100, 157, 68, 236, 241, 27, 77, 235, 62, 73, 240, 23, 76, 160, 184, 95, 235, 240, 114, 26, 99, 80, 135, 3, 27, 215, 150, 37, 202, 129, 109, 33, 137, 225, 159, 159, 121, 127, 225, 137, 223, 252, 117, 33, 155, 217, 100, 87, 13, 115, 250, 215, 37, 35, 36, 120, 167, 145, 34, 14, 26, 224, 8, 251, 218, 37, 74, 20, 84, 115, 163, 159, 52, 171, 86, 141, 199, 101, 149, 224, 221, 15, 217, 113, 194, 219, 215, 77, 141, 160, 113];
    let pub_input: Vec<u8> = vec![18u8];

    let req = VerificationRequest { proof, verification_key, pub_input };
    let identity = test_identity();
    let mut service = BatcherModel::new(0);

    let (state, action) = begin(req, &identity);
    assert!(matches!(action, Action::FetchNonce));

    let nonce = service.get_next_nonce();
    let (state, action) = on_nonce(state, Ok(nonce));
    assert!(matches!(action, Action::EstimateFee { strategy: FeeStrategy::Recommended }));

    let (state, action) = on_fee(state, Ok(100));
    let (data, nonce, max_fee) = match action {
        Action::Submit { data, nonce, max_fee } => (data, nonce, max_fee),
        _ => panic!("expected a submit action"),
    };

    let outcome = service.submit(data.proof, nonce, max_fee);
    assert!(matches!(outcome, SubmissionEvent::Included { .. }));

    let (state, action) = on_submit(state, outcome);
    assert!(matches!(state, HandlerState::Done));
    let reply = match action {
        Action::Respond { reply } => reply,
        _ => panic!("expected a reply"),
    };
    assert!(reply.status == 200);
    assert!(reply.body.success);
    assert!(reply.body.error.is_none());
}

/// An empty proof is rejected on the spot: the first action is already the
/// reply, so no network phase is ever requested.
#[test]
fn test_empty_proof_rejected_before_network() {
    let req = VerificationRequest {
        proof: vec![],
        verification_key: vec![1, 2, 3],
        pub_input: vec![18],
    };
    let identity = test_identity();
    let (state, action) = begin(req, &identity);
    assert!(matches!(state, HandlerState::Done));
    let reply = match action {
        Action::Respond { reply } => reply,
        _ => panic!("an empty proof must be answered, not submitted"),
    };
    assert_eq!(reply.status, 400);
    assert!(!reply.body.success);
    assert_eq!(reply.body.error.as_deref(), Some("proof must not be empty"));
}

/// A body that never parsed is answered with a client error directly.
#[test]
fn test_malformed_body_client_error() {
    let (state, action) = reject_malformed("expected value at line 1 column 1".to_string());
    assert!(matches!(state, HandlerState::Done));
    let reply = match action {
        Action::Respond { reply } => reply,
        _ => panic!("a malformed body must be answered, not processed"),
    };
    assert_eq!(reply.status, 400);
    assert!(!reply.body.success);
    assert_eq!(
        reply.body.error.as_deref(),
        Some("expected value at line 1 column 1")
    );
}

fn submitted_state() -> HandlerState {
    let req = VerificationRequest {
        proof: vec![1, 2, 3],
        verification_key: vec![4, 5],
        pub_input: vec![18],
    };
    let identity = test_identity();
    let (state, _) = begin(req, &identity);
    let (state, _) = on_nonce(state, Ok(0));
    let (state, _) = on_fee(state, Ok(42));
    state
}

/// An explicit rejection by the service is reported at status 200 with the
/// service's own message as the error.
#[test]
fn test_rejection_message_passed_through() {
    let state = submitted_state();
    let (_, action) = on_submit(
        state,
        SubmissionEvent::Rejected { message: "batch fee too low".to_string() },
    );
    let reply = match action {
        Action::Respond { reply } => reply,
        _ => panic!("expected a reply"),
    };
    assert_eq!(reply.status, 200);
    assert!(!reply.body.success);
    assert_eq!(reply.body.error.as_deref(), Some("batch fee too low"));
}

/// A connection lost during the wait is reported the same way, with its
/// reason as the error.
#[test]
fn test_connection_lost_reported() {
    let state = submitted_state();
    let (_, action) = on_submit(
        state,
        SubmissionEvent::ConnectionLost { message: "connection closed unexpectedly".to_string() },
    );
    let reply = match action {
        Action::Respond { reply } => reply,
        _ => panic!("expected a reply"),
    };
    assert_eq!(reply.status, 200);
    assert!(!reply.body.success);
    assert_eq!(
        reply.body.error.as_deref(),
        Some("connection closed unexpectedly")
    );
}

/// An unreachable nonce endpoint is a server error: status 500, success
/// false, non-null error.
#[test]
fn test_nonce_endpoint_unreachable() {
    let req = VerificationRequest {
        proof: vec![1],
        verification_key: vec![2],
        pub_input: vec![18],
    };
    let identity = test_identity();
    let (state, _) = begin(req, &identity);
    let (state, action) = on_nonce(state, Err("nonce endpoint unreachable".to_string()));
    assert!(matches!(state, HandlerState::Done));
    let reply = match action {
        Action::Respond { reply } => reply,
        _ => panic!("expected a reply"),
    };
    assert_eq!(reply.status, 500);
    assert!(!reply.body.success);
    assert_eq!(reply.body.error.as_deref(), Some("nonce endpoint unreachable"));
}

/// An unreachable fee endpoint is a server error as well.
#[test]
fn test_fee_endpoint_unreachable() {
    let req = VerificationRequest {
        proof: vec![1],
        verification_key: vec![2],
        pub_input: vec![18],
    };
    let identity = test_identity();
    let (state, _) = begin(req, &identity);
    let (state, _) = on_nonce(state, Ok(3));
    let (state, action) = on_fee(state, Err("fee endpoint unreachable".to_string()));
    assert!(matches!(state, HandlerState::Done));
    let reply = match action {
        Action::Respond { reply } => reply,
        _ => panic!("expected a reply"),
    };
    assert_eq!(reply.status, 500);
    assert!(!reply.body.success);
    assert_eq!(reply.body.error.as_deref(), Some("fee endpoint unreachable"));
}
