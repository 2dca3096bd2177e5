//! The message by which a prover delivers a proof.

use vstd::prelude::*;
use vstd::string::StringExecFns;

use crate::error::VcxResult;
use crate::messages::a2a::MessageId;
use crate::messages::ack::PleaseAck;
use crate::messages::attachment::{
    as_attachments, attachments_doc, attachments_read_back, content_for, AttachmentId,
    AttachmentView, Attachments,
};
use crate::messages::thread::{Thread, ThreadView};
use crate::utils::codec::{
    as_opt_text, as_text, member_doc, opt_text_doc, read_opt_text, read_text, values_are_read_back,
    write_opt_text,
};
use crate::utils::json::{JsonDoc, JsonValue};
use crate::utils::text::opt_text;

verus! {

/// The presentation: the proof travels as its one attachment.
#[derive(Debug, Clone, PartialEq)]
pub struct Presentation {
    pub id: MessageId,
    pub comment: Option<String>,
    pub presentations_attach: Attachments,
    pub thread: Thread,
    pub please_ack: Option<PleaseAck>,
}

impl Presentation {
    /// The message under the identifier `id`, on the thread `thread_id`, that
    /// carries the proof `presentation`.
    pub fn create_with_id(id: MessageId, thread_id: &str, presentation: &str) -> (message:
        Presentation)
        ensures
            message.id == id,
            message.comment is None,
            message.presentations_attach@ == seq![
                AttachmentView::json(AttachmentId::Presentation, presentation@),
            ],
            message.thread@ == (ThreadView { thid: Some(thread_id@), ..Thread::new_view() }),
            message.please_ack is None,
    {
        let mut attachments = Attachments::new();
        attachments.add_base64_encoded_content(AttachmentId::Presentation, presentation);
        assert(attachments@ =~= seq![
            AttachmentView::json(AttachmentId::Presentation, presentation@),
        ]);
        Presentation {
            id,
            comment: None,
            presentations_attach: attachments,
            thread: Thread::new().set_thid(thread_id.to_owned()),
            please_ack: None,
        }
    }

    /// The proof that the message carries.
    ///
    /// Fails as [`Attachments::content_for`] does: unless the message carries
    /// exactly one attachment, for a presentation, that can be read.
    pub fn presentation_content(&self) -> (content: VcxResult<String>)
        ensures
            match content_for(self.presentations_attach@, AttachmentId::Presentation) {
                Ok(text) => content is Ok && content->Ok_0@ == text,
                Err(kind) => content is Err && content->Err_0.kind() == kind,
            },
    {
        self.presentations_attach.content_for(AttachmentId::Presentation)
    }

    /// Whether the message belongs to the thread `id`.
    pub fn from_thread(&self, id: &str) -> (belongs: bool)
        ensures
            belongs == (self.thread@.thid.unwrap_or(Seq::empty()) == id@),
    {
        self.thread.is_reply(id)
    }
}

/// What a `Presentation` is: its value, with texts as sequences of characters.
pub struct PresentationView {
    pub id: Seq<char>,
    pub comment: Option<Seq<char>>,
    pub presentations_attach: Seq<AttachmentView>,
    pub thread: ThreadView,
    pub please_ack: Option<PleaseAck>,
}

impl View for Presentation {
    type V = PresentationView;

    open spec fn view(&self) -> PresentationView {
        PresentationView {
            id: self.id@,
            comment: opt_text(self.comment),
            presentations_attach: self.presentations_attach@,
            thread: self.thread@,
            please_ack: self.please_ack,
        }
    }
}

impl DeepView for Presentation {
    type V = PresentationView;

    open spec fn deep_view(&self) -> PresentationView {
        self@
    }
}

impl PresentationView {
    /// The document in which the presentation is persisted.
    pub open spec fn to_doc(self) -> JsonDoc {
        JsonDoc::Object(
            Map::<Seq<char>, JsonDoc>::empty().insert(
                "@id"@,
                JsonDoc::Text(self.id),
            ).insert(
                "comment"@,
                opt_text_doc(self.comment),
            ).insert(
                "presentations~attach"@,
                attachments_doc(self.presentations_attach),
            ).insert(
                "~thread"@,
                self.thread.to_doc(),
            ).insert(
                "~please_ack"@,
                PleaseAck::opt_to_doc(self.please_ack),
            ),
        )
    }

    /// The presentation that a document persists: an object whose members hold it.
    pub open spec fn from_doc(document: JsonDoc) -> Option<PresentationView> {
        if document is Object
            && as_text(document.member("@id"@)) is Some
            && as_opt_text(document.member("comment"@)) is Some
            && as_attachments(document.member("presentations~attach"@)) is Some
            && ThreadView::from_doc(document.member("~thread"@)) is Some
            && PleaseAck::opt_from_doc(document.member("~please_ack"@)) is Some {
            Some(
                PresentationView {
                    id: as_text(document.member("@id"@))->0,
                    comment: as_opt_text(document.member("comment"@))->0,
                    presentations_attach: as_attachments(
                        document.member("presentations~attach"@),
                    )->0,
                    thread: ThreadView::from_doc(document.member("~thread"@))->0,
                    please_ack: PleaseAck::opt_from_doc(document.member("~please_ack"@))->0,
                },
            )
        } else {
            None
        }
    }

    /// What was persisted is what is read back.
    pub proof fn read_back(self)
        ensures
            PresentationView::from_doc(self.to_doc()) == Some(self),
            self.to_doc() is Object,
    {
        reveal_strlit("@id");
        reveal_strlit("comment");
        reveal_strlit("presentations~attach");
        reveal_strlit("~thread");
        reveal_strlit("~please_ack");
        assert("@id"@.len() == 3);
        assert("comment"@.len() == 7);
        assert("presentations~attach"@.len() == 20);
        assert("~thread"@.len() == 7);
        assert("~please_ack"@.len() == 11);
        assert("comment"@[0] != "~thread"@[0]);
        values_are_read_back();
        attachments_read_back(self.presentations_attach);
        self.thread.read_back();
        PleaseAck::opt_read_back(self.please_ack);
    }

    /// The document of an optional presentation: its document, or null.
    pub open spec fn opt_to_doc(value: Option<PresentationView>) -> JsonDoc {
        match value {
            Some(v) => v.to_doc(),
            None => JsonDoc::Null,
        }
    }

    /// The optional presentation that a document persists.
    pub open spec fn opt_from_doc(document: JsonDoc) -> Option<Option<PresentationView>> {
        match document {
            JsonDoc::Null => Some(None),
            _ => match PresentationView::from_doc(document) {
                Some(v) => Some(Some(v)),
                None => None,
            },
        }
    }

    /// What was persisted is what is read back.
    pub proof fn opt_read_back(value: Option<PresentationView>)
        ensures
            PresentationView::opt_from_doc(PresentationView::opt_to_doc(value)) == Some(value),
    {
        if value is Some {
            value->0.read_back();
        }
    }
}

impl Presentation {
    /// Writes the presentation as a document.
    pub fn to_document(&self) -> (document: JsonValue)
        ensures
            document@ == self@.to_doc(),
    {
        let mut document = JsonValue::object();
        document.insert(String::from_str("@id"), JsonValue::String(self.id.0.clone()));
        document.insert(String::from_str("comment"), write_opt_text(&self.comment));
        document.insert(
            String::from_str("presentations~attach"),
            self.presentations_attach.to_document(),
        );
        document.insert(String::from_str("~thread"), self.thread.to_document());
        document.insert(String::from_str("~please_ack"), PleaseAck::write_opt(&self.please_ack));
        document
    }

    /// Reads the presentation from a document.
    pub fn from_document(document: &JsonValue) -> (read: Option<Presentation>)
        ensures
            match PresentationView::from_doc(document@) {
                Some(view) => read is Some && read->0@ == view,
                None => read is None,
            },
    {
        if !document.is_object() {
            return None;
        }
        let id = match read_text(document.get("@id")) {
            Some(value) => MessageId(value),
            None => {
                return None;
            },
        };
        let comment = match read_opt_text(document.get("comment")) {
            Some(value) => value,
            None => {
                return None;
            },
        };
        let presentations_attach = match Attachments::read(document.get("presentations~attach")) {
            Some(value) => value,
            None => {
                return None;
            },
        };
        let thread = match Thread::read(document.get("~thread")) {
            Some(value) => value,
            None => {
                return None;
            },
        };
        let please_ack = match PleaseAck::read_opt(document.get("~please_ack")) {
            Some(value) => value,
            None => {
                return None;
            },
        };
        Some(Presentation { id, comment, presentations_attach, thread, please_ack })
    }

    /// Reads the presentation from a member that may be missing.
    pub fn read(member: Option<&JsonValue>) -> (read: Option<Presentation>)
        ensures
            match PresentationView::from_doc(member_doc(member)) {
                Some(view) => read is Some && read->0@ == view,
                None => read is None,
            },
    {
        match member {
            Some(document) => Presentation::from_document(document),
            None => None,
        }
    }

    /// Writes an optional presentation as a document.
    pub fn write_opt(value: &Option<Presentation>) -> (document: JsonValue)
        ensures
            document@ == PresentationView::opt_to_doc(value.deep_view()),
    {
        match value {
            Some(v) => v.to_document(),
            None => JsonValue::Null,
        }
    }

    /// Reads an optional presentation from a member that may be missing.
    pub fn read_opt(member: Option<&JsonValue>) -> (read: Option<Option<Presentation>>)
        ensures
            match PresentationView::opt_from_doc(member_doc(member)) {
                Some(view) => read is Some && read->0.deep_view() == view,
                None => read is None,
            },
    {
        match member {
            None => Some(None),
            Some(JsonValue::Null) => Some(None),
            Some(document) => match Presentation::from_document(document) {
                Some(v) => Some(Some(v)),
                None => None,
            },
        }
    }
}

} // verus!
