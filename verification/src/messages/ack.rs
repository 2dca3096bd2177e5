//! The decorator by which a message asks for an acknowledgement.

use vstd::prelude::*;
use vstd::string::StringExecFns;

use crate::utils::codec::{as_bool, member_doc, read_bool, values_are_read_back};
use crate::utils::json::{JsonDoc, JsonValue};

verus! {

/// A request for an acknowledgement: on receipt of the message, once its
/// outcome is known, or both.
#[derive(Clone, Copy, Debug, PartialEq, Eq, Structural)]
pub struct PleaseAck {
    pub on_receipt: bool,
    pub on_outcome: bool,
}

impl Default for PleaseAck {
    /// A request that names no occasion.
    fn default() -> (ack: PleaseAck)
        ensures
            ack == (PleaseAck { on_receipt: false, on_outcome: false }),
    {
        PleaseAck { on_receipt: false, on_outcome: false }
    }
}

impl PleaseAck {
    /// The document in which the request for an acknowledgement is persisted.
    pub open spec fn to_doc(self) -> JsonDoc {
        JsonDoc::Object(
            Map::<Seq<char>, JsonDoc>::empty().insert(
                "on_receipt"@,
                JsonDoc::Bool(self.on_receipt),
            ).insert(
                "on_outcome"@,
                JsonDoc::Bool(self.on_outcome),
            ),
        )
    }

    /// The request for an acknowledgement that a document persists: an object
    /// whose members hold it.
    pub open spec fn from_doc(document: JsonDoc) -> Option<PleaseAck> {
        if document is Object
            && as_bool(document.member("on_receipt"@)) is Some
            && as_bool(document.member("on_outcome"@)) is Some {
            Some(
                PleaseAck {
                    on_receipt: as_bool(document.member("on_receipt"@))->0,
                    on_outcome: as_bool(document.member("on_outcome"@))->0,
                },
            )
        } else {
            None
        }
    }

    /// What was persisted is what is read back.
    pub proof fn read_back(self)
        ensures
            PleaseAck::from_doc(self.to_doc()) == Some(self),
            self.to_doc() is Object,
    {
        reveal_strlit("on_receipt");
        reveal_strlit("on_outcome");
        assert("on_receipt"@.len() == 10);
        assert("on_outcome"@.len() == 10);
        assert("on_receipt"@[3] != "on_outcome"@[3]);
        values_are_read_back();
    }

    /// The document of an optional request for an acknowledgement: its document, or null.
    pub open spec fn opt_to_doc(value: Option<PleaseAck>) -> JsonDoc {
        match value {
            Some(v) => v.to_doc(),
            None => JsonDoc::Null,
        }
    }

    /// The optional request for an acknowledgement that a document persists.
    pub open spec fn opt_from_doc(document: JsonDoc) -> Option<Option<PleaseAck>> {
        match document {
            JsonDoc::Null => Some(None),
            _ => match PleaseAck::from_doc(document) {
                Some(v) => Some(Some(v)),
                None => None,
            },
        }
    }

    /// What was persisted is what is read back.
    pub proof fn opt_read_back(value: Option<PleaseAck>)
        ensures
            PleaseAck::opt_from_doc(PleaseAck::opt_to_doc(value)) == Some(value),
    {
        if value is Some {
            value->0.read_back();
        }
    }

    /// Writes the request for an acknowledgement as a document.
    pub fn to_document(&self) -> (document: JsonValue)
        ensures
            document@ == (*self).to_doc(),
    {
        let mut document = JsonValue::object();
        document.insert(String::from_str("on_receipt"), JsonValue::Bool(self.on_receipt));
        document.insert(String::from_str("on_outcome"), JsonValue::Bool(self.on_outcome));
        document
    }

    /// Reads the request for an acknowledgement from a document.
    pub fn from_document(document: &JsonValue) -> (read: Option<PleaseAck>)
        ensures
            match PleaseAck::from_doc(document@) {
                Some(view) => read is Some && read->0 == view,
                None => read is None,
            },
    {
        if !document.is_object() {
            return None;
        }
        let on_receipt = match read_bool(document.get("on_receipt")) {
            Some(value) => value,
            None => {
                return None;
            },
        };
        let on_outcome = match read_bool(document.get("on_outcome")) {
            Some(value) => value,
            None => {
                return None;
            },
        };
        Some(PleaseAck { on_receipt, on_outcome })
    }

    /// Reads the request for an acknowledgement from a member that may be missing.
    pub fn read(member: Option<&JsonValue>) -> (read: Option<PleaseAck>)
        ensures
            match PleaseAck::from_doc(member_doc(member)) {
                Some(view) => read is Some && read->0 == view,
                None => read is None,
            },
    {
        match member {
            Some(document) => PleaseAck::from_document(document),
            None => None,
        }
    }

    /// Writes an optional request for an acknowledgement as a document.
    pub fn write_opt(value: &Option<PleaseAck>) -> (document: JsonValue)
        ensures
            document@ == PleaseAck::opt_to_doc(*value),
    {
        match value {
            Some(v) => v.to_document(),
            None => JsonValue::Null,
        }
    }

    /// Reads an optional request for an acknowledgement from a member that may be missing.
    pub fn read_opt(member: Option<&JsonValue>) -> (read: Option<Option<PleaseAck>>)
        ensures
            match PleaseAck::opt_from_doc(member_doc(member)) {
                Some(view) => read is Some && read->0 == view,
                None => read is None,
            },
    {
        match member {
            None => Some(None),
            Some(JsonValue::Null) => Some(None),
            Some(document) => match PleaseAck::from_document(document) {
                Some(v) => Some(Some(v)),
                None => None,
            },
        }
    }
}

} // verus!
