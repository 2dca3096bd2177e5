//! The states of the holder and the transitions between them.

pub mod finished;
pub mod offer_received;
pub mod request_sent;
