//! The problem report of connection establishment.

pub use crate::messages::error::ProblemReport;
