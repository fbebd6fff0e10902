//! Client-side logic for submitting cryptographic proofs to a remote
//! batching service.
//!
//! The library covers the decision-making half of a small proof-submission
//! gateway: validating an inbound request, sequencing the nonce fetch, fee
//! estimation and submission phases, and mapping the terminal outcome of a
//! submission to an HTTP reply. All network traffic (chain RPC queries and
//! the persistent connection to the batching service) is performed by the
//! surrounding application, which drives the state machine in [`handler`]
//! one phase at a time.

pub mod data;
pub mod handler;
pub mod hexenc;
pub mod laws;
pub mod service;
pub mod validation;
