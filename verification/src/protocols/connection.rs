//! Connection establishment: an inviter and an invitee agree on a pairwise
//! relationship by invitation, request and response.

pub mod invitee;
pub mod inviter;
