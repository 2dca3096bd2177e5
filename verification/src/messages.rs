//! The typed messages of the protocols and the decorators they share.

pub mod a2a;
pub mod ack;
pub mod attachment;
pub mod basic_message;
pub mod connection;
pub mod error;
pub mod issuance;
pub mod localization;
pub mod proof_presentation;
pub mod proofs;
pub mod status;
pub mod thread;
pub mod timing;
