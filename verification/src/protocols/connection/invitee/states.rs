//! The states of the invitee and the transitions between them.

pub mod complete;
pub mod initial;
pub mod invited;
pub mod requested;
pub mod responded;
