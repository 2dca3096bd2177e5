//! The connection request: the invitee's answer to an invitation.

use vstd::prelude::*;
use vstd::string::StringExecFns;

use crate::did_doc::{DidDoc, DidDocView};
use crate::messages::a2a::MessageId;
use crate::messages::thread::{Thread, ThreadView};
use crate::utils::codec::{as_text, member_doc, read_text, values_are_read_back};
use crate::utils::json::{JsonDoc, JsonValue};

verus! {

/// What a party tells the other of itself: its identifier and how to reach it.
#[derive(Debug, Clone, PartialEq)]
pub struct ConnectionData {
    pub did: String,
    pub did_doc: DidDoc,
}

/// A request to connect.
#[derive(Debug, Clone, PartialEq)]
pub struct Request {
    pub id: MessageId,
    pub label: String,
    pub connection: ConnectionData,
    pub thread: Option<Thread>,
}

impl Request {
    /// The identifier of the thread that the request opens or continues: the
    /// one its thread names, or else its own identifier.
    pub open spec fn spec_thread_id(&self) -> Seq<char> {
        match self.thread {
            Some(thread) => match thread@.thid {
                Some(thid) => thid,
                None => self.id@,
            },
            None => self.id@,
        }
    }

    /// The identifier of the thread that the request opens or continues: the
    /// one its thread names, or else its own identifier.
    pub fn get_thread_id(&self) -> (thid: String)
        ensures
            thid@ == self.spec_thread_id(),
    {
        match &self.thread {
            Some(thread) => match &thread.thid {
                Some(thid) => thid.clone(),
                None => self.id.0.clone(),
            },
            None => self.id.0.clone(),
        }
    }
}

/// What a `ConnectionData` is: its value, with texts as sequences of characters.
pub struct ConnectionDataView {
    pub did: Seq<char>,
    pub did_doc: DidDocView,
}

impl View for ConnectionData {
    type V = ConnectionDataView;

    open spec fn view(&self) -> ConnectionDataView {
        ConnectionDataView {
            did: self.did@,
            did_doc: self.did_doc@,
        }
    }
}

impl DeepView for ConnectionData {
    type V = ConnectionDataView;

    open spec fn deep_view(&self) -> ConnectionDataView {
        self@
    }
}

impl ConnectionDataView {
    /// The document in which the connection data is persisted.
    pub open spec fn to_doc(self) -> JsonDoc {
        JsonDoc::Object(
            Map::<Seq<char>, JsonDoc>::empty().insert(
                "DID"@,
                JsonDoc::Text(self.did),
            ).insert(
                "DIDDoc"@,
                self.did_doc.to_doc(),
            ),
        )
    }

    /// The connection data that a document persists: an object whose members hold it.
    pub open spec fn from_doc(document: JsonDoc) -> Option<ConnectionDataView> {
        if document is Object
            && as_text(document.member("DID"@)) is Some
            && DidDocView::from_doc(document.member("DIDDoc"@)) is Some {
            Some(
                ConnectionDataView {
                    did: as_text(document.member("DID"@))->0,
                    did_doc: DidDocView::from_doc(document.member("DIDDoc"@))->0,
                },
            )
        } else {
            None
        }
    }

    /// What was persisted is what is read back.
    pub proof fn read_back(self)
        ensures
            ConnectionDataView::from_doc(self.to_doc()) == Some(self),
            self.to_doc() is Object,
    {
        reveal_strlit("DID");
        reveal_strlit("DIDDoc");
        assert("DID"@.len() == 3);
        assert("DIDDoc"@.len() == 6);
        values_are_read_back();
        self.did_doc.read_back();
    }
}

impl ConnectionData {
    /// Writes the connection data as a document.
    pub fn to_document(&self) -> (document: JsonValue)
        ensures
            document@ == self@.to_doc(),
    {
        let mut document = JsonValue::object();
        document.insert(String::from_str("DID"), JsonValue::String(self.did.clone()));
        document.insert(String::from_str("DIDDoc"), self.did_doc.to_document());
        document
    }

    /// Reads the connection data from a document.
    pub fn from_document(document: &JsonValue) -> (read: Option<ConnectionData>)
        ensures
            match ConnectionDataView::from_doc(document@) {
                Some(view) => read is Some && read->0@ == view,
                None => read is None,
            },
    {
        if !document.is_object() {
            return None;
        }
        let did = match read_text(document.get("DID")) {
            Some(value) => value,
            None => {
                return None;
            },
        };
        let did_doc = match DidDoc::read(document.get("DIDDoc")) {
            Some(value) => value,
            None => {
                return None;
            },
        };
        Some(ConnectionData { did, did_doc })
    }

    /// Reads the connection data from a member that may be missing.
    pub fn read(member: Option<&JsonValue>) -> (read: Option<ConnectionData>)
        ensures
            match ConnectionDataView::from_doc(member_doc(member)) {
                Some(view) => read is Some && read->0@ == view,
                None => read is None,
            },
    {
        match member {
            Some(document) => ConnectionData::from_document(document),
            None => None,
        }
    }
}

/// What a `Request` is: its value, with texts as sequences of characters.
pub struct RequestView {
    pub id: Seq<char>,
    pub label: Seq<char>,
    pub connection: ConnectionDataView,
    pub thread: Option<ThreadView>,
}

impl View for Request {
    type V = RequestView;

    open spec fn view(&self) -> RequestView {
        RequestView {
            id: self.id@,
            label: self.label@,
            connection: self.connection@,
            thread: self.thread.deep_view(),
        }
    }
}

impl DeepView for Request {
    type V = RequestView;

    open spec fn deep_view(&self) -> RequestView {
        self@
    }
}

impl RequestView {
    /// The document in which the request is persisted.
    pub open spec fn to_doc(self) -> JsonDoc {
        JsonDoc::Object(
            Map::<Seq<char>, JsonDoc>::empty().insert(
                "@id"@,
                JsonDoc::Text(self.id),
            ).insert(
                "label"@,
                JsonDoc::Text(self.label),
            ).insert(
                "connection"@,
                self.connection.to_doc(),
            ).insert(
                "~thread"@,
                ThreadView::opt_to_doc(self.thread),
            ),
        )
    }

    /// The request that a document persists: an object whose members hold it.
    pub open spec fn from_doc(document: JsonDoc) -> Option<RequestView> {
        if document is Object
            && as_text(document.member("@id"@)) is Some
            && as_text(document.member("label"@)) is Some
            && ConnectionDataView::from_doc(document.member("connection"@)) is Some
            && ThreadView::opt_from_doc(document.member("~thread"@)) is Some {
            Some(
                RequestView {
                    id: as_text(document.member("@id"@))->0,
                    label: as_text(document.member("label"@))->0,
                    connection: ConnectionDataView::from_doc(document.member("connection"@))->0,
                    thread: ThreadView::opt_from_doc(document.member("~thread"@))->0,
                },
            )
        } else {
            None
        }
    }

    /// What was persisted is what is read back.
    pub proof fn read_back(self)
        ensures
            RequestView::from_doc(self.to_doc()) == Some(self),
            self.to_doc() is Object,
    {
        reveal_strlit("@id");
        reveal_strlit("label");
        reveal_strlit("connection");
        reveal_strlit("~thread");
        assert("@id"@.len() == 3);
        assert("label"@.len() == 5);
        assert("connection"@.len() == 10);
        assert("~thread"@.len() == 7);
        values_are_read_back();
        self.connection.read_back();
        ThreadView::opt_read_back(self.thread);
    }
}

impl Request {
    /// Writes the request as a document.
    pub fn to_document(&self) -> (document: JsonValue)
        ensures
            document@ == self@.to_doc(),
    {
        let mut document = JsonValue::object();
        document.insert(String::from_str("@id"), JsonValue::String(self.id.0.clone()));
        document.insert(String::from_str("label"), JsonValue::String(self.label.clone()));
        document.insert(String::from_str("connection"), self.connection.to_document());
        document.insert(String::from_str("~thread"), Thread::write_opt(&self.thread));
        document
    }

    /// Reads the request from a document.
    pub fn from_document(document: &JsonValue) -> (read: Option<Request>)
        ensures
            match RequestView::from_doc(document@) {
                Some(view) => read is Some && read->0@ == view,
                None => read is None,
            },
    {
        if !document.is_object() {
            return None;
        }
        let id = match read_text(document.get("@id")) {
            Some(value) => MessageId(value),
            None => {
                return None;
            },
        };
        let label = match read_text(document.get("label")) {
            Some(value) => value,
            None => {
                return None;
            },
        };
        let connection = match ConnectionData::read(document.get("connection")) {
            Some(value) => value,
            None => {
                return None;
            },
        };
        let thread = match Thread::read_opt(document.get("~thread")) {
            Some(value) => value,
            None => {
                return None;
            },
        };
        Some(Request { id, label, connection, thread })
    }

    /// Reads the request from a member that may be missing.
    pub fn read(member: Option<&JsonValue>) -> (read: Option<Request>)
        ensures
            match RequestView::from_doc(member_doc(member)) {
                Some(view) => read is Some && read->0@ == view,
                None => read is None,
            },
    {
        match member {
            Some(document) => Request::from_document(document),
            None => None,
        }
    }
}

} // verus!
