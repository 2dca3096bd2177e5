//! The holder's side of credential issuance.

pub mod state_machine;
pub mod states;
