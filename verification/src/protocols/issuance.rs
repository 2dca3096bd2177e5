//! Credential issuance: an issuer offers and delivers a credential to a
//! holder.

pub mod holder;
pub mod issuer;
