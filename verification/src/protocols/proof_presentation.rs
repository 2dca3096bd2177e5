//! Proof presentation: a verifier asks for a proof and a prover delivers it.

pub mod prover;
pub mod presentation_verifier;
