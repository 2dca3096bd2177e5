//! The service entry of a relationship document.

use vstd::prelude::*;

verus! {

/// One way to reach a party: an endpoint with the keys to use for it.
#[derive(Debug, Clone, PartialEq)]
pub struct AriesService {
    pub id: String,
    pub type_: String,
    pub priority: u32,
    pub recipient_keys: Vec<String>,
    pub routing_keys: Vec<String>,
    pub service_endpoint: String,
}

} // verus!
