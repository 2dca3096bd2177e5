//! The relationship document: the durable record of how to reach a party.

use vstd::prelude::*;
use vstd::std_specs::convert::FromSpecImpl;
use vstd::string::StringExecFns;

use crate::messages::connection::invite::Invitation;
use crate::utils::codec::{
    as_text, as_texts, member_doc, read_text, read_texts, texts_doc, values_are_read_back,
    write_texts,
};
use crate::utils::json::{JsonDoc, JsonValue};
use crate::utils::text::clone_texts;

pub mod service_aries;

verus! {

/// How to reach a party: its identifier, the keys that messages are
/// encrypted for, the keys of the mediators on the way, and the endpoint.
#[derive(Debug, Clone, PartialEq)]
pub struct DidDoc {
    pub id: String,
    pub recipient_keys: Vec<String>,
    pub routing_keys: Vec<String>,
    pub service_endpoint: String,
}

/// What a `DidDoc` is: its value, with texts as sequences of characters.
pub struct DidDocView {
    pub id: Seq<char>,
    pub recipient_keys: Seq<Seq<char>>,
    pub routing_keys: Seq<Seq<char>>,
    pub service_endpoint: Seq<char>,
}

impl View for DidDoc {
    type V = DidDocView;

    open spec fn view(&self) -> DidDocView {
        DidDocView {
            id: self.id@,
            recipient_keys: self.recipient_keys.deep_view(),
            routing_keys: self.routing_keys.deep_view(),
            service_endpoint: self.service_endpoint@,
        }
    }
}

impl DeepView for DidDoc {
    type V = DidDocView;

    open spec fn deep_view(&self) -> DidDocView {
        self@
    }
}

impl DidDoc {
    /// A copy of the document.
    pub fn duplicate(&self) -> (copy: DidDoc)
        ensures
            copy@ == self@,
    {
        DidDoc {
            id: self.id.clone(),
            recipient_keys: clone_texts(&self.recipient_keys),
            routing_keys: clone_texts(&self.routing_keys),
            service_endpoint: self.service_endpoint.clone(),
        }
    }
}

impl From<Invitation> for DidDoc {
    /// The document of the party that made the invitation.
    fn from(invitation: Invitation) -> (did_doc: DidDoc) {
        DidDoc {
            id: invitation.id.0,
            recipient_keys: invitation.recipient_keys,
            routing_keys: invitation.routing_keys,
            service_endpoint: invitation.service_endpoint,
        }
    }
}

/// The document of the party that made `invitation`: it names the
/// invitation's own identifier, keys and endpoint, and nothing else of it.
pub open spec fn invitation_did_doc(invitation: Invitation) -> DidDoc {
    DidDoc {
        id: invitation.id.0,
        recipient_keys: invitation.recipient_keys,
        routing_keys: invitation.routing_keys,
        service_endpoint: invitation.service_endpoint,
    }
}

impl FromSpecImpl<Invitation> for DidDoc {
    open spec fn obeys_from_spec() -> bool {
        true
    }

    open spec fn from_spec(invitation: Invitation) -> DidDoc {
        invitation_did_doc(invitation)
    }
}

impl DidDocView {
    /// The document in which the relationship document is persisted.
    pub open spec fn to_doc(self) -> JsonDoc {
        JsonDoc::Object(
            Map::<Seq<char>, JsonDoc>::empty().insert(
                "id"@,
                JsonDoc::Text(self.id),
            ).insert(
                "recipientKeys"@,
                texts_doc(self.recipient_keys),
            ).insert(
                "routingKeys"@,
                texts_doc(self.routing_keys),
            ).insert(
                "serviceEndpoint"@,
                JsonDoc::Text(self.service_endpoint),
            ),
        )
    }

    /// The relationship document that a document persists: an object whose members hold it.
    pub open spec fn from_doc(document: JsonDoc) -> Option<DidDocView> {
        if document is Object
            && as_text(document.member("id"@)) is Some
            && as_texts(document.member("recipientKeys"@)) is Some
            && as_texts(document.member("routingKeys"@)) is Some
            && as_text(document.member("serviceEndpoint"@)) is Some {
            Some(
                DidDocView {
                    id: as_text(document.member("id"@))->0,
                    recipient_keys: as_texts(document.member("recipientKeys"@))->0,
                    routing_keys: as_texts(document.member("routingKeys"@))->0,
                    service_endpoint: as_text(document.member("serviceEndpoint"@))->0,
                },
            )
        } else {
            None
        }
    }

    /// What was persisted is what is read back.
    pub proof fn read_back(self)
        ensures
            DidDocView::from_doc(self.to_doc()) == Some(self),
            self.to_doc() is Object,
    {
        reveal_strlit("id");
        reveal_strlit("recipientKeys");
        reveal_strlit("routingKeys");
        reveal_strlit("serviceEndpoint");
        assert("id"@.len() == 2);
        assert("recipientKeys"@.len() == 13);
        assert("routingKeys"@.len() == 11);
        assert("serviceEndpoint"@.len() == 15);
        values_are_read_back();
    }
}

impl DidDoc {
    /// Writes the relationship document as a document.
    pub fn to_document(&self) -> (document: JsonValue)
        ensures
            document@ == self@.to_doc(),
    {
        let mut document = JsonValue::object();
        document.insert(String::from_str("id"), JsonValue::String(self.id.clone()));
        document.insert(String::from_str("recipientKeys"), write_texts(&self.recipient_keys));
        document.insert(String::from_str("routingKeys"), write_texts(&self.routing_keys));
        document.insert(
            String::from_str("serviceEndpoint"),
            JsonValue::String(self.service_endpoint.clone()),
        );
        document
    }

    /// Reads the relationship document from a document.
    pub fn from_document(document: &JsonValue) -> (read: Option<DidDoc>)
        ensures
            match DidDocView::from_doc(document@) {
                Some(view) => read is Some && read->0@ == view,
                None => read is None,
            },
    {
        if !document.is_object() {
            return None;
        }
        let id = match read_text(document.get("id")) {
            Some(value) => value,
            None => {
                return None;
            },
        };
        let recipient_keys = match read_texts(document.get("recipientKeys")) {
            Some(value) => value,
            None => {
                return None;
            },
        };
        let routing_keys = match read_texts(document.get("routingKeys")) {
            Some(value) => value,
            None => {
                return None;
            },
        };
        let service_endpoint = match read_text(document.get("serviceEndpoint")) {
            Some(value) => value,
            None => {
                return None;
            },
        };
        Some(DidDoc { id, recipient_keys, routing_keys, service_endpoint })
    }

    /// Reads the relationship document from a member that may be missing.
    pub fn read(member: Option<&JsonValue>) -> (read: Option<DidDoc>)
        ensures
            match DidDocView::from_doc(member_doc(member)) {
                Some(view) => read is Some && read->0@ == view,
                None => read is None,
            },
    {
        match member {
            Some(document) => DidDoc::from_document(document),
            None => None,
        }
    }
}

} // verus!
