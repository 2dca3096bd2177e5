//! The proof request as the verifier keeps it.

use vstd::prelude::*;
use vstd::string::StringExecFns;

use crate::utils::codec::{as_text, member_doc, read_text, values_are_read_back};
use crate::utils::json::{JsonDoc, JsonValue};

verus! {

/// The versions of the format of a proof request.
#[derive(Debug, Clone, Copy, PartialEq, Eq, Structural)]
pub enum ProofRequestVersion {
    V1,
    V2,
}

/// The proof request that was made for a proof.
#[derive(Debug, Clone, PartialEq)]
pub struct ProofRequestMessage {
    pub proof_request_data: String,
}

impl ProofRequestMessage {
    /// The proof request, as JSON text.
    pub fn get_proof_request_data(&self) -> (data: String)
        ensures
            data == self.proof_request_data,
    {
        self.proof_request_data.clone()
    }
}

/// What a `ProofRequestMessage` is: its value, with texts as sequences of characters.
pub struct ProofRequestMessageView {
    pub proof_request_data: Seq<char>,
}

impl View for ProofRequestMessage {
    type V = ProofRequestMessageView;

    open spec fn view(&self) -> ProofRequestMessageView {
        ProofRequestMessageView {
            proof_request_data: self.proof_request_data@,
        }
    }
}

impl DeepView for ProofRequestMessage {
    type V = ProofRequestMessageView;

    open spec fn deep_view(&self) -> ProofRequestMessageView {
        self@
    }
}

impl ProofRequestMessageView {
    /// The document in which the proof request is persisted.
    pub open spec fn to_doc(self) -> JsonDoc {
        JsonDoc::Object(
            Map::<Seq<char>, JsonDoc>::empty().insert(
                "proof_request_data"@,
                JsonDoc::Text(self.proof_request_data),
            ),
        )
    }

    /// The proof request that a document persists: an object whose members hold it.
    pub open spec fn from_doc(document: JsonDoc) -> Option<ProofRequestMessageView> {
        if document is Object
            && as_text(document.member("proof_request_data"@)) is Some {
            Some(
                ProofRequestMessageView {
                    proof_request_data: as_text(document.member("proof_request_data"@))->0,
                },
            )
        } else {
            None
        }
    }

    /// What was persisted is what is read back.
    pub proof fn read_back(self)
        ensures
            ProofRequestMessageView::from_doc(self.to_doc()) == Some(self),
            self.to_doc() is Object,
    {
        reveal_strlit("proof_request_data");
        assert("proof_request_data"@.len() == 18);
        values_are_read_back();
    }

    /// The document of an optional proof request: its document, or null.
    pub open spec fn opt_to_doc(value: Option<ProofRequestMessageView>) -> JsonDoc {
        match value {
            Some(v) => v.to_doc(),
            None => JsonDoc::Null,
        }
    }

    /// The optional proof request that a document persists.
    pub open spec fn opt_from_doc(document: JsonDoc) -> Option<Option<ProofRequestMessageView>> {
        match document {
            JsonDoc::Null => Some(None),
            _ => match ProofRequestMessageView::from_doc(document) {
                Some(v) => Some(Some(v)),
                None => None,
            },
        }
    }

    /// What was persisted is what is read back.
    pub proof fn opt_read_back(value: Option<ProofRequestMessageView>)
        ensures
            ProofRequestMessageView::opt_from_doc(ProofRequestMessageView::opt_to_doc(value)) == Some(
                value,
            ),
    {
        if value is Some {
            value->0.read_back();
        }
    }
}

impl ProofRequestMessage {
    /// Writes the proof request as a document.
    pub fn to_document(&self) -> (document: JsonValue)
        ensures
            document@ == self@.to_doc(),
    {
        let mut document = JsonValue::object();
        document.insert(
            String::from_str("proof_request_data"),
            JsonValue::String(self.proof_request_data.clone()),
        );
        document
    }

    /// Reads the proof request from a document.
    pub fn from_document(document: &JsonValue) -> (read: Option<ProofRequestMessage>)
        ensures
            match ProofRequestMessageView::from_doc(document@) {
                Some(view) => read is Some && read->0@ == view,
                None => read is None,
            },
    {
        if !document.is_object() {
            return None;
        }
        let proof_request_data = match read_text(document.get("proof_request_data")) {
            Some(value) => value,
            None => {
                return None;
            },
        };
        Some(ProofRequestMessage { proof_request_data })
    }

    /// Reads the proof request from a member that may be missing.
    pub fn read(member: Option<&JsonValue>) -> (read: Option<ProofRequestMessage>)
        ensures
            match ProofRequestMessageView::from_doc(member_doc(member)) {
                Some(view) => read is Some && read->0@ == view,
                None => read is None,
            },
    {
        match member {
            Some(document) => ProofRequestMessage::from_document(document),
            None => None,
        }
    }

    /// Writes an optional proof request as a document.
    pub fn write_opt(value: &Option<ProofRequestMessage>) -> (document: JsonValue)
        ensures
            document@ == ProofRequestMessageView::opt_to_doc(value.deep_view()),
    {
        match value {
            Some(v) => v.to_document(),
            None => JsonValue::Null,
        }
    }

    /// Reads an optional proof request from a member that may be missing.
    pub fn read_opt(member: Option<&JsonValue>) -> (read: Option<Option<ProofRequestMessage>>)
        ensures
            match ProofRequestMessageView::opt_from_doc(member_doc(member)) {
                Some(view) => read is Some && read->0.deep_view() == view,
                None => read is None,
            },
    {
        match member {
            None => Some(None),
            Some(JsonValue::Null) => Some(None),
            Some(document) => match ProofRequestMessage::from_document(document) {
                Some(v) => Some(Some(v)),
                None => None,
            },
        }
    }
}

} // verus!
