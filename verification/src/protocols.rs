//! The protocol state machines, one per role.

pub mod connection;
pub mod conversation;
pub mod issuance;
pub mod proof_presentation;
