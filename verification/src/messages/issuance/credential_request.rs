//! The message by which a holder asks for the credential it was offered.

use vstd::prelude::*;
use vstd::string::StringExecFns;

use crate::error::VcxResult;
use crate::messages::a2a::MessageId;
use crate::messages::attachment::{
    as_attachments, attachments_doc, attachments_read_back, content_for, AttachmentId,
    AttachmentView, Attachments,
};
use crate::messages::thread::{Thread, ThreadView};
use crate::utils::codec::{
    as_opt_text, as_text, member_doc, opt_text_doc, read_opt_text, read_text, values_are_read_back,
    write_opt_text,
};
use crate::utils::json::{JsonDoc, JsonValue};
use crate::utils::text::opt_text;

verus! {

/// The request: what is asked for travels as its one attachment.
#[derive(Debug, Clone, PartialEq)]
pub struct CredentialRequest {
    pub id: MessageId,
    pub comment: Option<String>,
    pub requests_attach: Attachments,
    pub thread: Thread,
}

impl CredentialRequest {
    /// The request that the message carries.
    ///
    /// Fails as [`Attachments::content_for`] does: unless the message carries
    /// exactly one attachment, for a request, that can be read.
    pub fn request_content(&self) -> (content: VcxResult<String>)
        ensures
            match content_for(self.requests_attach@, AttachmentId::CredentialRequest) {
                Ok(text) => content is Ok && content->Ok_0@ == text,
                Err(kind) => content is Err && content->Err_0.kind() == kind,
            },
    {
        self.requests_attach.content_for(AttachmentId::CredentialRequest)
    }
}

/// What a `CredentialRequest` is: its value, with texts as sequences of characters.
pub struct CredentialRequestView {
    pub id: Seq<char>,
    pub comment: Option<Seq<char>>,
    pub requests_attach: Seq<AttachmentView>,
    pub thread: ThreadView,
}

impl View for CredentialRequest {
    type V = CredentialRequestView;

    open spec fn view(&self) -> CredentialRequestView {
        CredentialRequestView {
            id: self.id@,
            comment: opt_text(self.comment),
            requests_attach: self.requests_attach@,
            thread: self.thread@,
        }
    }
}

impl DeepView for CredentialRequest {
    type V = CredentialRequestView;

    open spec fn deep_view(&self) -> CredentialRequestView {
        self@
    }
}

impl CredentialRequestView {
    /// The document in which the request is persisted.
    pub open spec fn to_doc(self) -> JsonDoc {
        JsonDoc::Object(
            Map::<Seq<char>, JsonDoc>::empty().insert(
                "@id"@,
                JsonDoc::Text(self.id),
            ).insert(
                "comment"@,
                opt_text_doc(self.comment),
            ).insert(
                "requests~attach"@,
                attachments_doc(self.requests_attach),
            ).insert(
                "~thread"@,
                self.thread.to_doc(),
            ),
        )
    }

    /// The request that a document persists: an object whose members hold it.
    pub open spec fn from_doc(document: JsonDoc) -> Option<CredentialRequestView> {
        if document is Object
            && as_text(document.member("@id"@)) is Some
            && as_opt_text(document.member("comment"@)) is Some
            && as_attachments(document.member("requests~attach"@)) is Some
            && ThreadView::from_doc(document.member("~thread"@)) is Some {
            Some(
                CredentialRequestView {
                    id: as_text(document.member("@id"@))->0,
                    comment: as_opt_text(document.member("comment"@))->0,
                    requests_attach: as_attachments(document.member("requests~attach"@))->0,
                    thread: ThreadView::from_doc(document.member("~thread"@))->0,
                },
            )
        } else {
            None
        }
    }

    /// What was persisted is what is read back.
    pub proof fn read_back(self)
        ensures
            CredentialRequestView::from_doc(self.to_doc()) == Some(self),
            self.to_doc() is Object,
    {
        reveal_strlit("@id");
        reveal_strlit("comment");
        reveal_strlit("requests~attach");
        reveal_strlit("~thread");
        assert("@id"@.len() == 3);
        assert("comment"@.len() == 7);
        assert("requests~attach"@.len() == 15);
        assert("~thread"@.len() == 7);
        assert("comment"@[0] != "~thread"@[0]);
        values_are_read_back();
        attachments_read_back(self.requests_attach);
        self.thread.read_back();
    }
}

impl CredentialRequest {
    /// Writes the request as a document.
    pub fn to_document(&self) -> (document: JsonValue)
        ensures
            document@ == self@.to_doc(),
    {
        let mut document = JsonValue::object();
        document.insert(String::from_str("@id"), JsonValue::String(self.id.0.clone()));
        document.insert(String::from_str("comment"), write_opt_text(&self.comment));
        document.insert(String::from_str("requests~attach"), self.requests_attach.to_document());
        document.insert(String::from_str("~thread"), self.thread.to_document());
        document
    }

    /// Reads the request from a document.
    pub fn from_document(document: &JsonValue) -> (read: Option<CredentialRequest>)
        ensures
            match CredentialRequestView::from_doc(document@) {
                Some(view) => read is Some && read->0@ == view,
                None => read is None,
            },
    {
        if !document.is_object() {
            return None;
        }
        let id = match read_text(document.get("@id")) {
            Some(value) => MessageId(value),
            None => {
                return None;
            },
        };
        let comment = match read_opt_text(document.get("comment")) {
            Some(value) => value,
            None => {
                return None;
            },
        };
        let requests_attach = match Attachments::read(document.get("requests~attach")) {
            Some(value) => value,
            None => {
                return None;
            },
        };
        let thread = match Thread::read(document.get("~thread")) {
            Some(value) => value,
            None => {
                return None;
            },
        };
        Some(CredentialRequest { id, comment, requests_attach, thread })
    }

    /// Reads the request from a member that may be missing.
    pub fn read(member: Option<&JsonValue>) -> (read: Option<CredentialRequest>)
        ensures
            match CredentialRequestView::from_doc(member_doc(member)) {
                Some(view) => read is Some && read->0@ == view,
                None => read is None,
            },
    {
        match member {
            Some(document) => CredentialRequest::from_document(document),
            None => None,
        }
    }
}

} // verus!
