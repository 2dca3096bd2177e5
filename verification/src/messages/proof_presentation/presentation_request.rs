//! The message by which a verifier asks for a proof.

use vstd::prelude::*;
use vstd::string::StringExecFns;

use crate::error::VcxResult;
use crate::messages::a2a::MessageId;
use crate::messages::attachment::{
    as_attachments, attachments_doc, attachments_read_back, content_for, AttachmentId,
    AttachmentView, Attachments,
};
use crate::messages::thread::{Thread, ThreadView};
use crate::utils::codec::{
    as_opt_text, as_text, member_doc, opt_text_doc, read_opt_text, read_text, values_are_read_back,
    write_opt_text,
};
use crate::utils::json::{JsonDoc, JsonValue};
use crate::utils::text::opt_text;

verus! {

/// The presentation request: the proof request travels as its one attachment.
#[derive(Debug, Clone, PartialEq)]
pub struct PresentationRequest {
    pub id: MessageId,
    pub comment: Option<String>,
    pub request_presentations_attach: Attachments,
    pub thread: Option<Thread>,
}

impl PresentationRequest {
    /// The proof request that the message carries.
    ///
    /// Fails as [`Attachments::content_for`] does: unless the message carries
    /// exactly one attachment, for a presentation request, that can be read.
    pub fn request_content(&self) -> (content: VcxResult<String>)
        ensures
            match content_for(
                self.request_presentations_attach@,
                AttachmentId::PresentationRequest,
            ) {
                Ok(text) => content is Ok && content->Ok_0@ == text,
                Err(kind) => content is Err && content->Err_0.kind() == kind,
            },
    {
        self.request_presentations_attach.content_for(AttachmentId::PresentationRequest)
    }

    /// The identifier of the thread that the request opens or continues: the
    /// one its thread names, or else its own identifier.
    pub open spec fn spec_thread_id(&self) -> Seq<char> {
        match self.thread {
            Some(thread) => match thread@.thid {
                Some(thid) => thid,
                None => self.id@,
            },
            None => self.id@,
        }
    }

    /// The identifier of the thread that the request opens or continues: the
    /// one its thread names, or else its own identifier.
    pub fn get_thread_id(&self) -> (thid: String)
        ensures
            thid@ == self.spec_thread_id(),
    {
        match &self.thread {
            Some(thread) => match &thread.thid {
                Some(thid) => thid.clone(),
                None => self.id.0.clone(),
            },
            None => self.id.0.clone(),
        }
    }
}

/// What a `PresentationRequest` is: its value, with texts as sequences of characters.
pub struct PresentationRequestView {
    pub id: Seq<char>,
    pub comment: Option<Seq<char>>,
    pub request_presentations_attach: Seq<AttachmentView>,
    pub thread: Option<ThreadView>,
}

impl View for PresentationRequest {
    type V = PresentationRequestView;

    open spec fn view(&self) -> PresentationRequestView {
        PresentationRequestView {
            id: self.id@,
            comment: opt_text(self.comment),
            request_presentations_attach: self.request_presentations_attach@,
            thread: self.thread.deep_view(),
        }
    }
}

impl DeepView for PresentationRequest {
    type V = PresentationRequestView;

    open spec fn deep_view(&self) -> PresentationRequestView {
        self@
    }
}

impl PresentationRequestView {
    /// The document in which the presentation request is persisted.
    pub open spec fn to_doc(self) -> JsonDoc {
        JsonDoc::Object(
            Map::<Seq<char>, JsonDoc>::empty().insert(
                "@id"@,
                JsonDoc::Text(self.id),
            ).insert(
                "comment"@,
                opt_text_doc(self.comment),
            ).insert(
                "request_presentations~attach"@,
                attachments_doc(self.request_presentations_attach),
            ).insert(
                "~thread"@,
                ThreadView::opt_to_doc(self.thread),
            ),
        )
    }

    /// The presentation request that a document persists: an object whose members hold it.
    pub open spec fn from_doc(document: JsonDoc) -> Option<PresentationRequestView> {
        if document is Object
            && as_text(document.member("@id"@)) is Some
            && as_opt_text(document.member("comment"@)) is Some
            && as_attachments(document.member("request_presentations~attach"@)) is Some
            && ThreadView::opt_from_doc(document.member("~thread"@)) is Some {
            Some(
                PresentationRequestView {
                    id: as_text(document.member("@id"@))->0,
                    comment: as_opt_text(document.member("comment"@))->0,
                    request_presentations_attach: as_attachments(
                        document.member("request_presentations~attach"@),
                    )->0,
                    thread: ThreadView::opt_from_doc(document.member("~thread"@))->0,
                },
            )
        } else {
            None
        }
    }

    /// What was persisted is what is read back.
    pub proof fn read_back(self)
        ensures
            PresentationRequestView::from_doc(self.to_doc()) == Some(self),
            self.to_doc() is Object,
    {
        reveal_strlit("@id");
        reveal_strlit("comment");
        reveal_strlit("request_presentations~attach");
        reveal_strlit("~thread");
        assert("@id"@.len() == 3);
        assert("comment"@.len() == 7);
        assert("request_presentations~attach"@.len() == 28);
        assert("~thread"@.len() == 7);
        assert("comment"@[0] != "~thread"@[0]);
        values_are_read_back();
        attachments_read_back(self.request_presentations_attach);
        ThreadView::opt_read_back(self.thread);
    }

    /// The document of an optional presentation request: its document, or null.
    pub open spec fn opt_to_doc(value: Option<PresentationRequestView>) -> JsonDoc {
        match value {
            Some(v) => v.to_doc(),
            None => JsonDoc::Null,
        }
    }

    /// The optional presentation request that a document persists.
    pub open spec fn opt_from_doc(document: JsonDoc) -> Option<Option<PresentationRequestView>> {
        match document {
            JsonDoc::Null => Some(None),
            _ => match PresentationRequestView::from_doc(document) {
                Some(v) => Some(Some(v)),
                None => None,
            },
        }
    }

    /// What was persisted is what is read back.
    pub proof fn opt_read_back(value: Option<PresentationRequestView>)
        ensures
            PresentationRequestView::opt_from_doc(PresentationRequestView::opt_to_doc(value)) == Some(
                value,
            ),
    {
        if value is Some {
            value->0.read_back();
        }
    }
}

impl PresentationRequest {
    /// Writes the presentation request as a document.
    pub fn to_document(&self) -> (document: JsonValue)
        ensures
            document@ == self@.to_doc(),
    {
        let mut document = JsonValue::object();
        document.insert(String::from_str("@id"), JsonValue::String(self.id.0.clone()));
        document.insert(String::from_str("comment"), write_opt_text(&self.comment));
        document.insert(
            String::from_str("request_presentations~attach"),
            self.request_presentations_attach.to_document(),
        );
        document.insert(String::from_str("~thread"), Thread::write_opt(&self.thread));
        document
    }

    /// Reads the presentation request from a document.
    pub fn from_document(document: &JsonValue) -> (read: Option<PresentationRequest>)
        ensures
            match PresentationRequestView::from_doc(document@) {
                Some(view) => read is Some && read->0@ == view,
                None => read is None,
            },
    {
        if !document.is_object() {
            return None;
        }
        let id = match read_text(document.get("@id")) {
            Some(value) => MessageId(value),
            None => {
                return None;
            },
        };
        let comment = match read_opt_text(document.get("comment")) {
            Some(value) => value,
            None => {
                return None;
            },
        };
        let request_presentations_attach = match Attachments::read(
            document.get("request_presentations~attach"),
        ) {
            Some(value) => value,
            None => {
                return None;
            },
        };
        let thread = match Thread::read_opt(document.get("~thread")) {
            Some(value) => value,
            None => {
                return None;
            },
        };
        Some(PresentationRequest { id, comment, request_presentations_attach, thread })
    }

    /// Reads the presentation request from a member that may be missing.
    pub fn read(member: Option<&JsonValue>) -> (read: Option<PresentationRequest>)
        ensures
            match PresentationRequestView::from_doc(member_doc(member)) {
                Some(view) => read is Some && read->0@ == view,
                None => read is None,
            },
    {
        match member {
            Some(document) => PresentationRequest::from_document(document),
            None => None,
        }
    }

    /// Writes an optional presentation request as a document.
    pub fn write_opt(value: &Option<PresentationRequest>) -> (document: JsonValue)
        ensures
            document@ == PresentationRequestView::opt_to_doc(value.deep_view()),
    {
        match value {
            Some(v) => v.to_document(),
            None => JsonValue::Null,
        }
    }

    /// Reads an optional presentation request from a member that may be missing.
    pub fn read_opt(member: Option<&JsonValue>) -> (read: Option<Option<PresentationRequest>>)
        ensures
            match PresentationRequestView::opt_from_doc(member_doc(member)) {
                Some(view) => read is Some && read->0.deep_view() == view,
                None => read is None,
            },
    {
        match member {
            None => Some(None),
            Some(JsonValue::Null) => Some(None),
            Some(document) => match PresentationRequest::from_document(document) {
                Some(v) => Some(Some(v)),
                None => None,
            },
        }
    }
}

} // verus!
