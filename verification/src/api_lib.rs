//! What the library offers to the bridge for foreign callers.

use vstd::prelude::*;

use crate::utils::codec::member_doc;
use crate::utils::json::{JsonDoc, JsonValue};
use crate::utils::text::text_eq;

pub mod utils;

verus! {

/// The state of an object, as foreign callers see it.
#[derive(Debug, Clone, Copy, PartialEq, Eq, Structural)]
pub enum VcxStateType {
    VcxStateNone,
    VcxStateInitialized,
    VcxStateOfferSent,
    VcxStateRequestReceived,
    VcxStateAccepted,
    VcxStateUnfulfilled,
    VcxStateExpired,
    VcxStateRevoked,
    VcxStateRedirected,
    VcxStateRejected,
}

impl VcxStateType {
    /// The number of the state, from 0 for none to 9 for rejected.
    pub open spec fn spec_code(self) -> u32 {
        match self {
            VcxStateType::VcxStateNone => 0,
            VcxStateType::VcxStateInitialized => 1,
            VcxStateType::VcxStateOfferSent => 2,
            VcxStateType::VcxStateRequestReceived => 3,
            VcxStateType::VcxStateAccepted => 4,
            VcxStateType::VcxStateUnfulfilled => 5,
            VcxStateType::VcxStateExpired => 6,
            VcxStateType::VcxStateRevoked => 7,
            VcxStateType::VcxStateRedirected => 8,
            VcxStateType::VcxStateRejected => 9,
        }
    }

    /// The number of the state, from 0 for none to 9 for rejected.
    pub fn code(self) -> (code: u32)
        ensures
            code == self.spec_code(),
    {
        match self {
            VcxStateType::VcxStateNone => 0,
            VcxStateType::VcxStateInitialized => 1,
            VcxStateType::VcxStateOfferSent => 2,
            VcxStateType::VcxStateRequestReceived => 3,
            VcxStateType::VcxStateAccepted => 4,
            VcxStateType::VcxStateUnfulfilled => 5,
            VcxStateType::VcxStateExpired => 6,
            VcxStateType::VcxStateRevoked => 7,
            VcxStateType::VcxStateRedirected => 8,
            VcxStateType::VcxStateRejected => 9,
        }
    }
}

/// What is known of a proof once it was looked at.
#[derive(Debug, Clone, Copy, PartialEq, Eq, Structural)]
pub enum ProofStateType {
    ProofUndefined,
    ProofValidated,
    ProofInvalid,
}

impl ProofStateType {
    /// The number of the state: 0 undefined, 1 validated, 2 invalid.
    pub open spec fn spec_code(self) -> u32 {
        match self {
            ProofStateType::ProofUndefined => 0,
            ProofStateType::ProofValidated => 1,
            ProofStateType::ProofInvalid => 2,
        }
    }

    /// The number of the state: 0 undefined, 1 validated, 2 invalid.
    pub fn code(self) -> (code: u32)
        ensures
            code == self.spec_code(),
    {
        match self {
            ProofStateType::ProofUndefined => 0,
            ProofStateType::ProofValidated => 1,
            ProofStateType::ProofInvalid => 2,
        }
    }
}

impl VcxStateType {
    /// The document in which the state is persisted: its name, as text.
    pub open spec fn to_doc(self) -> JsonDoc {
        match self {
            VcxStateType::VcxStateNone => JsonDoc::Text("VcxStateNone"@),
            VcxStateType::VcxStateInitialized => JsonDoc::Text("VcxStateInitialized"@),
            VcxStateType::VcxStateOfferSent => JsonDoc::Text("VcxStateOfferSent"@),
            VcxStateType::VcxStateRequestReceived => JsonDoc::Text("VcxStateRequestReceived"@),
            VcxStateType::VcxStateAccepted => JsonDoc::Text("VcxStateAccepted"@),
            VcxStateType::VcxStateUnfulfilled => JsonDoc::Text("VcxStateUnfulfilled"@),
            VcxStateType::VcxStateExpired => JsonDoc::Text("VcxStateExpired"@),
            VcxStateType::VcxStateRevoked => JsonDoc::Text("VcxStateRevoked"@),
            VcxStateType::VcxStateRedirected => JsonDoc::Text("VcxStateRedirected"@),
            VcxStateType::VcxStateRejected => JsonDoc::Text("VcxStateRejected"@),
        }
    }

    /// The state that a document persists.
    pub open spec fn from_doc(document: JsonDoc) -> Option<VcxStateType> {
        match document {
            JsonDoc::Text(text) => if text == "VcxStateNone"@ {
                Some(VcxStateType::VcxStateNone)
            } else if text == "VcxStateInitialized"@ {
                Some(VcxStateType::VcxStateInitialized)
            } else if text == "VcxStateOfferSent"@ {
                Some(VcxStateType::VcxStateOfferSent)
            } else if text == "VcxStateRequestReceived"@ {
                Some(VcxStateType::VcxStateRequestReceived)
            } else if text == "VcxStateAccepted"@ {
                Some(VcxStateType::VcxStateAccepted)
            } else if text == "VcxStateUnfulfilled"@ {
                Some(VcxStateType::VcxStateUnfulfilled)
            } else if text == "VcxStateExpired"@ {
                Some(VcxStateType::VcxStateExpired)
            } else if text == "VcxStateRevoked"@ {
                Some(VcxStateType::VcxStateRevoked)
            } else if text == "VcxStateRedirected"@ {
                Some(VcxStateType::VcxStateRedirected)
            } else if text == "VcxStateRejected"@ {
                Some(VcxStateType::VcxStateRejected)
            } else {
                None
            },
            _ => None,
        }
    }

    /// What was persisted is what is read back.
    pub proof fn read_back(self)
        ensures
            VcxStateType::from_doc(self.to_doc()) == Some(self),
            self.to_doc() is Text,
    {
        reveal_strlit("VcxStateNone");
        reveal_strlit("VcxStateInitialized");
        reveal_strlit("VcxStateOfferSent");
        reveal_strlit("VcxStateRequestReceived");
        reveal_strlit("VcxStateAccepted");
        reveal_strlit("VcxStateUnfulfilled");
        reveal_strlit("VcxStateExpired");
        reveal_strlit("VcxStateRevoked");
        reveal_strlit("VcxStateRedirected");
        reveal_strlit("VcxStateRejected");
        assert("VcxStateNone"@.len() == 12);
        assert("VcxStateInitialized"@.len() == 19);
        assert("VcxStateOfferSent"@.len() == 17);
        assert("VcxStateRequestReceived"@.len() == 23);
        assert("VcxStateAccepted"@.len() == 16);
        assert("VcxStateUnfulfilled"@.len() == 19);
        assert("VcxStateExpired"@.len() == 15);
        assert("VcxStateRevoked"@.len() == 15);
        assert("VcxStateRedirected"@.len() == 18);
        assert("VcxStateRejected"@.len() == 16);
        assert("VcxStateInitialized"@[8] != "VcxStateUnfulfilled"@[8]);
        assert("VcxStateAccepted"@[8] != "VcxStateRejected"@[8]);
        assert("VcxStateExpired"@[8] != "VcxStateRevoked"@[8]);
    }

    /// The document of an optional state: its document, or null.
    pub open spec fn opt_to_doc(value: Option<VcxStateType>) -> JsonDoc {
        match value {
            Some(v) => v.to_doc(),
            None => JsonDoc::Null,
        }
    }

    /// The optional state that a document persists.
    pub open spec fn opt_from_doc(document: JsonDoc) -> Option<Option<VcxStateType>> {
        match document {
            JsonDoc::Null => Some(None),
            _ => match VcxStateType::from_doc(document) {
                Some(v) => Some(Some(v)),
                None => None,
            },
        }
    }

    /// What was persisted is what is read back.
    pub proof fn opt_read_back(value: Option<VcxStateType>)
        ensures
            VcxStateType::opt_from_doc(VcxStateType::opt_to_doc(value)) == Some(value),
    {
        if value is Some {
            value->0.read_back();
        }
    }

    /// Writes the state as a document.
    pub fn to_document(&self) -> (document: JsonValue)
        ensures
            document@ == self.to_doc(),
    {
        match self {
            VcxStateType::VcxStateNone => JsonValue::from_str("VcxStateNone"),
            VcxStateType::VcxStateInitialized => JsonValue::from_str("VcxStateInitialized"),
            VcxStateType::VcxStateOfferSent => JsonValue::from_str("VcxStateOfferSent"),
            VcxStateType::VcxStateRequestReceived => JsonValue::from_str("VcxStateRequestReceived"),
            VcxStateType::VcxStateAccepted => JsonValue::from_str("VcxStateAccepted"),
            VcxStateType::VcxStateUnfulfilled => JsonValue::from_str("VcxStateUnfulfilled"),
            VcxStateType::VcxStateExpired => JsonValue::from_str("VcxStateExpired"),
            VcxStateType::VcxStateRevoked => JsonValue::from_str("VcxStateRevoked"),
            VcxStateType::VcxStateRedirected => JsonValue::from_str("VcxStateRedirected"),
            VcxStateType::VcxStateRejected => JsonValue::from_str("VcxStateRejected"),
        }
    }

    /// Reads the state from a document.
    pub fn from_document(document: &JsonValue) -> (read: Option<VcxStateType>)
        ensures
            read == VcxStateType::from_doc(document@),
    {
        let text = match document.as_str() {
            Some(text) => text,
            None => {
                return None;
            },
        };
        if text_eq(text, "VcxStateNone") {
            Some(VcxStateType::VcxStateNone)
        } else if text_eq(text, "VcxStateInitialized") {
            Some(VcxStateType::VcxStateInitialized)
        } else if text_eq(text, "VcxStateOfferSent") {
            Some(VcxStateType::VcxStateOfferSent)
        } else if text_eq(text, "VcxStateRequestReceived") {
            Some(VcxStateType::VcxStateRequestReceived)
        } else if text_eq(text, "VcxStateAccepted") {
            Some(VcxStateType::VcxStateAccepted)
        } else if text_eq(text, "VcxStateUnfulfilled") {
            Some(VcxStateType::VcxStateUnfulfilled)
        } else if text_eq(text, "VcxStateExpired") {
            Some(VcxStateType::VcxStateExpired)
        } else if text_eq(text, "VcxStateRevoked") {
            Some(VcxStateType::VcxStateRevoked)
        } else if text_eq(text, "VcxStateRedirected") {
            Some(VcxStateType::VcxStateRedirected)
        } else if text_eq(text, "VcxStateRejected") {
            Some(VcxStateType::VcxStateRejected)
        } else {
            None
        }
    }

    /// Reads the state from a member that may be missing.
    pub fn read(member: Option<&JsonValue>) -> (read: Option<VcxStateType>)
        ensures
            read == VcxStateType::from_doc(member_doc(member)),
    {
        match member {
            Some(document) => VcxStateType::from_document(document),
            None => None,
        }
    }

    /// Writes an optional state as a document.
    pub fn write_opt(value: &Option<VcxStateType>) -> (document: JsonValue)
        ensures
            document@ == VcxStateType::opt_to_doc(*value),
    {
        match value {
            Some(v) => v.to_document(),
            None => JsonValue::Null,
        }
    }

    /// Reads an optional state from a member that may be missing.
    pub fn read_opt(member: Option<&JsonValue>) -> (read: Option<Option<VcxStateType>>)
        ensures
            read == VcxStateType::opt_from_doc(member_doc(member)),
    {
        match member {
            None => Some(None),
            Some(JsonValue::Null) => Some(None),
            Some(document) => match VcxStateType::from_document(document) {
                Some(v) => Some(Some(v)),
                None => None,
            },
        }
    }
}

impl ProofStateType {
    /// The document in which the state of a proof is persisted: its name, as text.
    pub open spec fn to_doc(self) -> JsonDoc {
        match self {
            ProofStateType::ProofUndefined => JsonDoc::Text("ProofUndefined"@),
            ProofStateType::ProofValidated => JsonDoc::Text("ProofValidated"@),
            ProofStateType::ProofInvalid => JsonDoc::Text("ProofInvalid"@),
        }
    }

    /// The state of a proof that a document persists.
    pub open spec fn from_doc(document: JsonDoc) -> Option<ProofStateType> {
        match document {
            JsonDoc::Text(text) => if text == "ProofUndefined"@ {
                Some(ProofStateType::ProofUndefined)
            } else if text == "ProofValidated"@ {
                Some(ProofStateType::ProofValidated)
            } else if text == "ProofInvalid"@ {
                Some(ProofStateType::ProofInvalid)
            } else {
                None
            },
            _ => None,
        }
    }

    /// What was persisted is what is read back.
    pub proof fn read_back(self)
        ensures
            ProofStateType::from_doc(self.to_doc()) == Some(self),
            self.to_doc() is Text,
    {
        reveal_strlit("ProofUndefined");
        reveal_strlit("ProofValidated");
        reveal_strlit("ProofInvalid");
        assert("ProofUndefined"@.len() == 14);
        assert("ProofValidated"@.len() == 14);
        assert("ProofInvalid"@.len() == 12);
        assert("ProofUndefined"@[5] != "ProofValidated"@[5]);
    }

    /// Writes the state of a proof as a document.
    pub fn to_document(&self) -> (document: JsonValue)
        ensures
            document@ == self.to_doc(),
    {
        match self {
            ProofStateType::ProofUndefined => JsonValue::from_str("ProofUndefined"),
            ProofStateType::ProofValidated => JsonValue::from_str("ProofValidated"),
            ProofStateType::ProofInvalid => JsonValue::from_str("ProofInvalid"),
        }
    }

    /// Reads the state of a proof from a document.
    pub fn from_document(document: &JsonValue) -> (read: Option<ProofStateType>)
        ensures
            read == ProofStateType::from_doc(document@),
    {
        let text = match document.as_str() {
            Some(text) => text,
            None => {
                return None;
            },
        };
        if text_eq(text, "ProofUndefined") {
            Some(ProofStateType::ProofUndefined)
        } else if text_eq(text, "ProofValidated") {
            Some(ProofStateType::ProofValidated)
        } else if text_eq(text, "ProofInvalid") {
            Some(ProofStateType::ProofInvalid)
        } else {
            None
        }
    }

    /// Reads the state of a proof from a member that may be missing.
    pub fn read(member: Option<&JsonValue>) -> (read: Option<ProofStateType>)
        ensures
            read == ProofStateType::from_doc(member_doc(member)),
    {
        match member {
            Some(document) => ProofStateType::from_document(document),
            None => None,
        }
    }
}

} // verus!
