//! The connection response, plain and countersigned.

use vstd::prelude::*;
use vstd::string::StringExecFns;

use crate::messages::a2a::MessageId;
use crate::messages::connection::request::{ConnectionData, ConnectionDataView};
use crate::messages::thread::{Thread, ThreadView};
use crate::utils::codec::{as_text, member_doc, read_text, values_are_read_back};
use crate::utils::json::{JsonDoc, JsonValue};

verus! {

/// The inviter's answer to a request, as the invitee reads it once the
/// signature was checked.
#[derive(Debug, Clone, PartialEq)]
pub struct Response {
    pub id: MessageId,
    pub thread: Thread,
    pub connection: ConnectionData,
}

/// The signature over the connection data of a response.
#[derive(Debug, Clone, PartialEq)]
pub struct ConnectionSignature {
    pub signature: String,
    pub sig_data: String,
    pub signer: String,
}

/// The inviter's answer to a request, as it travels: countersigned.
#[derive(Debug, Clone, PartialEq)]
pub struct SignedResponse {
    pub id: MessageId,
    pub thread: Thread,
    pub connection_sig: ConnectionSignature,
}

impl Response {
    /// The identifier of the thread of the response, or the empty text where
    /// it has none.
    pub fn get_thread_id(&self) -> (thid: String)
        ensures
            thid@ == self.thread@.thid.unwrap_or(Seq::empty()),
    {
        self.thread.get_thid()
    }

    /// Whether the response belongs to the thread `id`.
    pub fn from_thread(&self, id: &str) -> (belongs: bool)
        ensures
            belongs == (self.thread@.thid.unwrap_or(Seq::empty()) == id@),
    {
        self.thread.is_reply(id)
    }
}

impl SignedResponse {
    /// The identifier of the thread of the response, or the empty text where
    /// it has none.
    pub fn get_thread_id(&self) -> (thid: String)
        ensures
            thid@ == self.thread@.thid.unwrap_or(Seq::empty()),
    {
        self.thread.get_thid()
    }

    /// Whether the response belongs to the thread `id`.
    pub fn from_thread(&self, id: &str) -> (belongs: bool)
        ensures
            belongs == (self.thread@.thid.unwrap_or(Seq::empty()) == id@),
    {
        self.thread.is_reply(id)
    }
}

/// What a `Response` is: its value, with texts as sequences of characters.
pub struct ResponseView {
    pub id: Seq<char>,
    pub thread: ThreadView,
    pub connection: ConnectionDataView,
}

impl View for Response {
    type V = ResponseView;

    open spec fn view(&self) -> ResponseView {
        ResponseView {
            id: self.id@,
            thread: self.thread@,
            connection: self.connection@,
        }
    }
}

impl DeepView for Response {
    type V = ResponseView;

    open spec fn deep_view(&self) -> ResponseView {
        self@
    }
}

impl ResponseView {
    /// The document in which the response is persisted.
    pub open spec fn to_doc(self) -> JsonDoc {
        JsonDoc::Object(
            Map::<Seq<char>, JsonDoc>::empty().insert(
                "@id"@,
                JsonDoc::Text(self.id),
            ).insert(
                "~thread"@,
                self.thread.to_doc(),
            ).insert(
                "connection"@,
                self.connection.to_doc(),
            ),
        )
    }

    /// The response that a document persists: an object whose members hold it.
    pub open spec fn from_doc(document: JsonDoc) -> Option<ResponseView> {
        if document is Object
            && as_text(document.member("@id"@)) is Some
            && ThreadView::from_doc(document.member("~thread"@)) is Some
            && ConnectionDataView::from_doc(document.member("connection"@)) is Some {
            Some(
                ResponseView {
                    id: as_text(document.member("@id"@))->0,
                    thread: ThreadView::from_doc(document.member("~thread"@))->0,
                    connection: ConnectionDataView::from_doc(document.member("connection"@))->0,
                },
            )
        } else {
            None
        }
    }

    /// What was persisted is what is read back.
    pub proof fn read_back(self)
        ensures
            ResponseView::from_doc(self.to_doc()) == Some(self),
            self.to_doc() is Object,
    {
        reveal_strlit("@id");
        reveal_strlit("~thread");
        reveal_strlit("connection");
        assert("@id"@.len() == 3);
        assert("~thread"@.len() == 7);
        assert("connection"@.len() == 10);
        values_are_read_back();
        self.thread.read_back();
        self.connection.read_back();
    }
}

impl Response {
    /// Writes the response as a document.
    pub fn to_document(&self) -> (document: JsonValue)
        ensures
            document@ == self@.to_doc(),
    {
        let mut document = JsonValue::object();
        document.insert(String::from_str("@id"), JsonValue::String(self.id.0.clone()));
        document.insert(String::from_str("~thread"), self.thread.to_document());
        document.insert(String::from_str("connection"), self.connection.to_document());
        document
    }

    /// Reads the response from a document.
    pub fn from_document(document: &JsonValue) -> (read: Option<Response>)
        ensures
            match ResponseView::from_doc(document@) {
                Some(view) => read is Some && read->0@ == view,
                None => read is None,
            },
    {
        if !document.is_object() {
            return None;
        }
        let id = match read_text(document.get("@id")) {
            Some(value) => MessageId(value),
            None => {
                return None;
            },
        };
        let thread = match Thread::read(document.get("~thread")) {
            Some(value) => value,
            None => {
                return None;
            },
        };
        let connection = match ConnectionData::read(document.get("connection")) {
            Some(value) => value,
            None => {
                return None;
            },
        };
        Some(Response { id, thread, connection })
    }

    /// Reads the response from a member that may be missing.
    pub fn read(member: Option<&JsonValue>) -> (read: Option<Response>)
        ensures
            match ResponseView::from_doc(member_doc(member)) {
                Some(view) => read is Some && read->0@ == view,
                None => read is None,
            },
    {
        match member {
            Some(document) => Response::from_document(document),
            None => None,
        }
    }
}

/// What a `ConnectionSignature` is: its value, with texts as sequences of characters.
pub struct ConnectionSignatureView {
    pub signature: Seq<char>,
    pub sig_data: Seq<char>,
    pub signer: Seq<char>,
}

impl View for ConnectionSignature {
    type V = ConnectionSignatureView;

    open spec fn view(&self) -> ConnectionSignatureView {
        ConnectionSignatureView {
            signature: self.signature@,
            sig_data: self.sig_data@,
            signer: self.signer@,
        }
    }
}

impl DeepView for ConnectionSignature {
    type V = ConnectionSignatureView;

    open spec fn deep_view(&self) -> ConnectionSignatureView {
        self@
    }
}

impl ConnectionSignatureView {
    /// The document in which the signature is persisted.
    pub open spec fn to_doc(self) -> JsonDoc {
        JsonDoc::Object(
            Map::<Seq<char>, JsonDoc>::empty().insert(
                "signature"@,
                JsonDoc::Text(self.signature),
            ).insert(
                "sig_data"@,
                JsonDoc::Text(self.sig_data),
            ).insert(
                "signer"@,
                JsonDoc::Text(self.signer),
            ),
        )
    }

    /// The signature that a document persists: an object whose members hold it.
    pub open spec fn from_doc(document: JsonDoc) -> Option<ConnectionSignatureView> {
        if document is Object
            && as_text(document.member("signature"@)) is Some
            && as_text(document.member("sig_data"@)) is Some
            && as_text(document.member("signer"@)) is Some {
            Some(
                ConnectionSignatureView {
                    signature: as_text(document.member("signature"@))->0,
                    sig_data: as_text(document.member("sig_data"@))->0,
                    signer: as_text(document.member("signer"@))->0,
                },
            )
        } else {
            None
        }
    }

    /// What was persisted is what is read back.
    pub proof fn read_back(self)
        ensures
            ConnectionSignatureView::from_doc(self.to_doc()) == Some(self),
            self.to_doc() is Object,
    {
        reveal_strlit("signature");
        reveal_strlit("sig_data");
        reveal_strlit("signer");
        assert("signature"@.len() == 9);
        assert("sig_data"@.len() == 8);
        assert("signer"@.len() == 6);
        values_are_read_back();
    }
}

impl ConnectionSignature {
    /// Writes the signature as a document.
    pub fn to_document(&self) -> (document: JsonValue)
        ensures
            document@ == self@.to_doc(),
    {
        let mut document = JsonValue::object();
        document.insert(String::from_str("signature"), JsonValue::String(self.signature.clone()));
        document.insert(String::from_str("sig_data"), JsonValue::String(self.sig_data.clone()));
        document.insert(String::from_str("signer"), JsonValue::String(self.signer.clone()));
        document
    }

    /// Reads the signature from a document.
    pub fn from_document(document: &JsonValue) -> (read: Option<ConnectionSignature>)
        ensures
            match ConnectionSignatureView::from_doc(document@) {
                Some(view) => read is Some && read->0@ == view,
                None => read is None,
            },
    {
        if !document.is_object() {
            return None;
        }
        let signature = match read_text(document.get("signature")) {
            Some(value) => value,
            None => {
                return None;
            },
        };
        let sig_data = match read_text(document.get("sig_data")) {
            Some(value) => value,
            None => {
                return None;
            },
        };
        let signer = match read_text(document.get("signer")) {
            Some(value) => value,
            None => {
                return None;
            },
        };
        Some(ConnectionSignature { signature, sig_data, signer })
    }

    /// Reads the signature from a member that may be missing.
    pub fn read(member: Option<&JsonValue>) -> (read: Option<ConnectionSignature>)
        ensures
            match ConnectionSignatureView::from_doc(member_doc(member)) {
                Some(view) => read is Some && read->0@ == view,
                None => read is None,
            },
    {
        match member {
            Some(document) => ConnectionSignature::from_document(document),
            None => None,
        }
    }
}

/// What a `SignedResponse` is: its value, with texts as sequences of characters.
pub struct SignedResponseView {
    pub id: Seq<char>,
    pub thread: ThreadView,
    pub connection_sig: ConnectionSignatureView,
}

impl View for SignedResponse {
    type V = SignedResponseView;

    open spec fn view(&self) -> SignedResponseView {
        SignedResponseView {
            id: self.id@,
            thread: self.thread@,
            connection_sig: self.connection_sig@,
        }
    }
}

impl DeepView for SignedResponse {
    type V = SignedResponseView;

    open spec fn deep_view(&self) -> SignedResponseView {
        self@
    }
}

impl SignedResponseView {
    /// The document in which the signed response is persisted.
    pub open spec fn to_doc(self) -> JsonDoc {
        JsonDoc::Object(
            Map::<Seq<char>, JsonDoc>::empty().insert(
                "@id"@,
                JsonDoc::Text(self.id),
            ).insert(
                "~thread"@,
                self.thread.to_doc(),
            ).insert(
                "connection~sig"@,
                self.connection_sig.to_doc(),
            ),
        )
    }

    /// The signed response that a document persists: an object whose members hold it.
    pub open spec fn from_doc(document: JsonDoc) -> Option<SignedResponseView> {
        if document is Object
            && as_text(document.member("@id"@)) is Some
            && ThreadView::from_doc(document.member("~thread"@)) is Some
            && ConnectionSignatureView::from_doc(document.member("connection~sig"@)) is Some {
            Some(
                SignedResponseView {
                    id: as_text(document.member("@id"@))->0,
                    thread: ThreadView::from_doc(document.member("~thread"@))->0,
                    connection_sig: ConnectionSignatureView::from_doc(
                        document.member("connection~sig"@),
                    )->0,
                },
            )
        } else {
            None
        }
    }

    /// What was persisted is what is read back.
    pub proof fn read_back(self)
        ensures
            SignedResponseView::from_doc(self.to_doc()) == Some(self),
            self.to_doc() is Object,
    {
        reveal_strlit("@id");
        reveal_strlit("~thread");
        reveal_strlit("connection~sig");
        assert("@id"@.len() == 3);
        assert("~thread"@.len() == 7);
        assert("connection~sig"@.len() == 14);
        values_are_read_back();
        self.thread.read_back();
        self.connection_sig.read_back();
    }
}

impl SignedResponse {
    /// Writes the signed response as a document.
    pub fn to_document(&self) -> (document: JsonValue)
        ensures
            document@ == self@.to_doc(),
    {
        let mut document = JsonValue::object();
        document.insert(String::from_str("@id"), JsonValue::String(self.id.0.clone()));
        document.insert(String::from_str("~thread"), self.thread.to_document());
        document.insert(String::from_str("connection~sig"), self.connection_sig.to_document());
        document
    }

    /// Reads the signed response from a document.
    pub fn from_document(document: &JsonValue) -> (read: Option<SignedResponse>)
        ensures
            match SignedResponseView::from_doc(document@) {
                Some(view) => read is Some && read->0@ == view,
                None => read is None,
            },
    {
        if !document.is_object() {
            return None;
        }
        let id = match read_text(document.get("@id")) {
            Some(value) => MessageId(value),
            None => {
                return None;
            },
        };
        let thread = match Thread::read(document.get("~thread")) {
            Some(value) => value,
            None => {
                return None;
            },
        };
        let connection_sig = match ConnectionSignature::read(document.get("connection~sig")) {
            Some(value) => value,
            None => {
                return None;
            },
        };
        Some(SignedResponse { id, thread, connection_sig })
    }

    /// Reads the signed response from a member that may be missing.
    pub fn read(member: Option<&JsonValue>) -> (read: Option<SignedResponse>)
        ensures
            match SignedResponseView::from_doc(member_doc(member)) {
                Some(view) => read is Some && read->0@ == view,
                None => read is None,
            },
    {
        match member {
            Some(document) => SignedResponse::from_document(document),
            None => None,
        }
    }
}

} // verus!
