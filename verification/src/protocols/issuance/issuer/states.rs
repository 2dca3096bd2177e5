//! The states of the issuer and the transitions between them.

pub mod finished;
pub mod offer_sent;
pub mod request_received;
