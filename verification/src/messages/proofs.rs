//! The messages in which proofs and proof requests travel between a verifier
//! and its agency.

pub mod proof_message;
pub mod proof_request;
