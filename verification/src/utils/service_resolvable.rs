//! A service that is either known or has to be looked up by a public
//! identifier.

use vstd::prelude::*;

use crate::did_doc::service_aries::AriesService;
use crate::error::{VcxError, VcxResult};
use crate::messages::connection::did::Did;

verus! {

/// How to reach a party: the service itself, or the identifier under which
/// the ledger knows it.
#[derive(Debug, Clone, PartialEq)]
pub enum ServiceResolvable {
    AriesService(AriesService),
    Did(Did),
}

impl ServiceResolvable {
    /// The identifier that the ledger has to be asked about: none where the
    /// service is known already.
    pub fn did_to_look_up(&self) -> (did: Option<&Did>)
        ensures
            match self {
                ServiceResolvable::AriesService(_) => did is None,
                ServiceResolvable::Did(named) => did == Some(named),
            },
    {
        match self {
            ServiceResolvable::AriesService(_) => None,
            ServiceResolvable::Did(did) => Some(did),
        }
    }

    /// The service: the one that is known, or else what the ledger answered
    /// for the identifier. The answer is not looked at where the service is
    /// known.
    pub fn resolve(self, ledger_answer: VcxResult<AriesService>) -> (service: VcxResult<
        AriesService,
    >)
        ensures
            match self {
                ServiceResolvable::AriesService(known) => service == Ok::<AriesService, VcxError>(
                    known,
                ),
                ServiceResolvable::Did(_) => service == ledger_answer,
            },
    {
        match self {
            ServiceResolvable::AriesService(service) => Ok(service),
            ServiceResolvable::Did(_) => ledger_answer,
        }
    }
}

} // verus!
