//! The invitation: the message that opens a connection.

use vstd::prelude::*;
use vstd::string::StringExecFns;

use crate::messages::a2a::MessageId;
use crate::utils::codec::{
    as_text, as_texts, member_doc, read_text, read_texts, texts_doc, values_are_read_back,
    write_texts,
};
use crate::utils::json::{JsonDoc, JsonValue};

verus! {

/// An invitation to connect: who invites and how to reach them.
#[derive(Debug, Clone, PartialEq)]
pub struct Invitation {
    pub id: MessageId,
    pub label: String,
    pub recipient_keys: Vec<String>,
    pub routing_keys: Vec<String>,
    pub service_endpoint: String,
}

impl Invitation {
    /// The invitation under the identifier `id` that names nothing yet.
    pub fn create_with_id(id: MessageId) -> (invitation: Invitation)
        ensures
            invitation.id == id,
            invitation.label@.len() == 0,
            invitation.recipient_keys@.len() == 0,
            invitation.routing_keys@.len() == 0,
            invitation.service_endpoint@.len() == 0,
    {
        Invitation {
            id,
            label: String::new(),
            recipient_keys: Vec::new(),
            routing_keys: Vec::new(),
            service_endpoint: String::new(),
        }
    }

    /// An invitation under a fresh identifier that names nothing yet.
    pub fn create() -> (invitation: Invitation)
        ensures
            invitation.label@.len() == 0,
            invitation.recipient_keys@.len() == 0,
            invitation.routing_keys@.len() == 0,
            invitation.service_endpoint@.len() == 0,
    {
        Invitation::create_with_id(MessageId::new())
    }

    /// The same invitation under the label `label`.
    pub fn set_label(self, label: String) -> (invitation: Invitation)
        ensures
            invitation == (Invitation { label, ..self }),
    {
        let mut invitation = self;
        invitation.label = label;
        invitation
    }

    /// The same invitation for the endpoint `service_endpoint`.
    pub fn set_service_endpoint(self, service_endpoint: String) -> (invitation: Invitation)
        ensures
            invitation == (Invitation { service_endpoint, ..self }),
    {
        let mut invitation = self;
        invitation.service_endpoint = service_endpoint;
        invitation
    }

    /// The same invitation with the given keys.
    pub fn set_keys(self, recipient_keys: Vec<String>, routing_keys: Vec<String>) -> (invitation:
        Invitation)
        ensures
            invitation == (Invitation { recipient_keys, routing_keys, ..self }),
    {
        let mut invitation = self;
        invitation.recipient_keys = recipient_keys;
        invitation.routing_keys = routing_keys;
        invitation
    }
}

/// What a `Invitation` is: its value, with texts as sequences of characters.
pub struct InvitationView {
    pub id: Seq<char>,
    pub label: Seq<char>,
    pub recipient_keys: Seq<Seq<char>>,
    pub routing_keys: Seq<Seq<char>>,
    pub service_endpoint: Seq<char>,
}

impl View for Invitation {
    type V = InvitationView;

    open spec fn view(&self) -> InvitationView {
        InvitationView {
            id: self.id@,
            label: self.label@,
            recipient_keys: self.recipient_keys.deep_view(),
            routing_keys: self.routing_keys.deep_view(),
            service_endpoint: self.service_endpoint@,
        }
    }
}

impl DeepView for Invitation {
    type V = InvitationView;

    open spec fn deep_view(&self) -> InvitationView {
        self@
    }
}

impl InvitationView {
    /// The document in which the invitation is persisted.
    pub open spec fn to_doc(self) -> JsonDoc {
        JsonDoc::Object(
            Map::<Seq<char>, JsonDoc>::empty().insert(
                "@id"@,
                JsonDoc::Text(self.id),
            ).insert(
                "label"@,
                JsonDoc::Text(self.label),
            ).insert(
                "recipientKeys"@,
                texts_doc(self.recipient_keys),
            ).insert(
                "routingKeys"@,
                texts_doc(self.routing_keys),
            ).insert(
                "serviceEndpoint"@,
                JsonDoc::Text(self.service_endpoint),
            ),
        )
    }

    /// The invitation that a document persists: an object whose members hold it.
    pub open spec fn from_doc(document: JsonDoc) -> Option<InvitationView> {
        if document is Object
            && as_text(document.member("@id"@)) is Some
            && as_text(document.member("label"@)) is Some
            && as_texts(document.member("recipientKeys"@)) is Some
            && as_texts(document.member("routingKeys"@)) is Some
            && as_text(document.member("serviceEndpoint"@)) is Some {
            Some(
                InvitationView {
                    id: as_text(document.member("@id"@))->0,
                    label: as_text(document.member("label"@))->0,
                    recipient_keys: as_texts(document.member("recipientKeys"@))->0,
                    routing_keys: as_texts(document.member("routingKeys"@))->0,
                    service_endpoint: as_text(document.member("serviceEndpoint"@))->0,
                },
            )
        } else {
            None
        }
    }

    /// What was persisted is what is read back.
    pub proof fn read_back(self)
        ensures
            InvitationView::from_doc(self.to_doc()) == Some(self),
            self.to_doc() is Object,
    {
        reveal_strlit("@id");
        reveal_strlit("label");
        reveal_strlit("recipientKeys");
        reveal_strlit("routingKeys");
        reveal_strlit("serviceEndpoint");
        assert("@id"@.len() == 3);
        assert("label"@.len() == 5);
        assert("recipientKeys"@.len() == 13);
        assert("routingKeys"@.len() == 11);
        assert("serviceEndpoint"@.len() == 15);
        values_are_read_back();
    }
}

impl Invitation {
    /// Writes the invitation as a document.
    pub fn to_document(&self) -> (document: JsonValue)
        ensures
            document@ == self@.to_doc(),
    {
        let mut document = JsonValue::object();
        document.insert(String::from_str("@id"), JsonValue::String(self.id.0.clone()));
        document.insert(String::from_str("label"), JsonValue::String(self.label.clone()));
        document.insert(String::from_str("recipientKeys"), write_texts(&self.recipient_keys));
        document.insert(String::from_str("routingKeys"), write_texts(&self.routing_keys));
        document.insert(
            String::from_str("serviceEndpoint"),
            JsonValue::String(self.service_endpoint.clone()),
        );
        document
    }

    /// Reads the invitation from a document.
    pub fn from_document(document: &JsonValue) -> (read: Option<Invitation>)
        ensures
            match InvitationView::from_doc(document@) {
                Some(view) => read is Some && read->0@ == view,
                None => read is None,
            },
    {
        if !document.is_object() {
            return None;
        }
        let id = match read_text(document.get("@id")) {
            Some(value) => MessageId(value),
            None => {
                return None;
            },
        };
        let label = match read_text(document.get("label")) {
            Some(value) => value,
            None => {
                return None;
            },
        };
        let recipient_keys = match read_texts(document.get("recipientKeys")) {
            Some(value) => value,
            None => {
                return None;
            },
        };
        let routing_keys = match read_texts(document.get("routingKeys")) {
            Some(value) => value,
            None => {
                return None;
            },
        };
        let service_endpoint = match read_text(document.get("serviceEndpoint")) {
            Some(value) => value,
            None => {
                return None;
            },
        };
        Some(Invitation { id, label, recipient_keys, routing_keys, service_endpoint })
    }

    /// Reads the invitation from a member that may be missing.
    pub fn read(member: Option<&JsonValue>) -> (read: Option<Invitation>)
        ensures
            match InvitationView::from_doc(member_doc(member)) {
                Some(view) => read is Some && read->0@ == view,
                None => read is None,
            },
    {
        match member {
            Some(document) => Invitation::from_document(document),
            None => None,
        }
    }
}

} // verus!
