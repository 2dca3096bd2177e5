//! The public identifier of a party.

use vstd::prelude::*;

verus! {

/// A decentralized identifier, as text.
#[derive(Debug, Clone, PartialEq)]
pub struct Did(pub String);

} // verus!
