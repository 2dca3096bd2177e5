//! The states of the verifier and the transitions between them.

pub mod finished;
pub mod presentation_request_sent;
