//! The messages of credential issuance.

pub mod credential;
pub mod credential_offer;
pub mod credential_request;
