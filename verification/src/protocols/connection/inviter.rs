//! The inviter's side of connection establishment.

pub mod state_machine;
pub mod states;
