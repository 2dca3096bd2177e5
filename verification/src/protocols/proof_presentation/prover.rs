//! The prover's side of proof presentation.

pub mod state_machine;
pub mod states;
