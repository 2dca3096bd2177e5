//! Agent-side engine for decentralized identity messaging: message envelopes,
//! thread correlation, attachment encoding and the per-role protocol state
//! machines for connection, credential issuance and proof presentation.

pub mod api_lib;
pub mod did_doc;
pub mod error;
pub mod messages;
pub mod protocols;
pub mod utils;
pub mod vcx_proof;
