//! Callback bookkeeping and logging for the bridge.

pub mod callback;
pub mod logger;
