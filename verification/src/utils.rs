//! Helpers shared by the messages and the protocol state machines.

pub mod base64;
pub mod codec;
pub mod decimal;
pub mod encoding;
pub mod error;
pub mod json;
pub mod qualifier;
pub mod serialization;
pub mod service_resolvable;
pub mod text;
