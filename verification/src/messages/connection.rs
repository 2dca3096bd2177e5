//! The messages of connection establishment.

pub mod did;
pub mod invite;
pub mod problem_report;
pub mod request;
pub mod response;
