//! The messages of proof presentation.

pub mod presentation;
pub mod presentation_request;
