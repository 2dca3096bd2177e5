//! The states of the prover and the transitions between them.

pub mod finished;
pub mod presentation_preparation_failed;
pub mod presentation_prepared;
pub mod presentation_request_received;
