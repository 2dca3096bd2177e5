//! The message by which an issuer offers a credential.

use vstd::prelude::*;
use vstd::string::StringExecFns;

use crate::error::VcxResult;
use crate::messages::a2a::MessageId;
use crate::messages::attachment::{
    as_attachments, attachments_doc, attachments_read_back, content_for, AttachmentId,
    AttachmentView, Attachments,
};
use crate::messages::thread::{Thread, ThreadView};
use crate::utils::codec::{
    as_opt_text, as_text, member_doc, opt_text_doc, read_opt_text, read_text, values_are_read_back,
    write_opt_text,
};
use crate::utils::json::{JsonDoc, JsonValue};
use crate::utils::text::opt_text;

verus! {

/// The offer: what is offered travels as its one attachment.
#[derive(Debug, Clone, PartialEq)]
pub struct CredentialOffer {
    pub id: MessageId,
    pub comment: Option<String>,
    pub offers_attach: Attachments,
    pub thread: Option<Thread>,
}

impl CredentialOffer {
    /// The offer that the message carries.
    ///
    /// Fails as [`Attachments::content_for`] does: unless the message carries
    /// exactly one attachment, for an offer, that can be read.
    pub fn offer_content(&self) -> (content: VcxResult<String>)
        ensures
            match content_for(self.offers_attach@, AttachmentId::CredentialOffer) {
                Ok(text) => content is Ok && content->Ok_0@ == text,
                Err(kind) => content is Err && content->Err_0.kind() == kind,
            },
    {
        self.offers_attach.content_for(AttachmentId::CredentialOffer)
    }

    /// The identifier of the thread that the offer opens or continues: the
    /// one its thread names, or else its own identifier.
    pub open spec fn spec_thread_id(&self) -> Seq<char> {
        match self.thread {
            Some(thread) => match thread@.thid {
                Some(thid) => thid,
                None => self.id@,
            },
            None => self.id@,
        }
    }

    /// The identifier of the thread that the offer opens or continues: the
    /// one its thread names, or else its own identifier.
    pub fn get_thread_id(&self) -> (thid: String)
        ensures
            thid@ == self.spec_thread_id(),
    {
        match &self.thread {
            Some(thread) => match &thread.thid {
                Some(thid) => thid.clone(),
                None => self.id.0.clone(),
            },
            None => self.id.0.clone(),
        }
    }
}

/// What a `CredentialOffer` is: its value, with texts as sequences of characters.
pub struct CredentialOfferView {
    pub id: Seq<char>,
    pub comment: Option<Seq<char>>,
    pub offers_attach: Seq<AttachmentView>,
    pub thread: Option<ThreadView>,
}

impl View for CredentialOffer {
    type V = CredentialOfferView;

    open spec fn view(&self) -> CredentialOfferView {
        CredentialOfferView {
            id: self.id@,
            comment: opt_text(self.comment),
            offers_attach: self.offers_attach@,
            thread: self.thread.deep_view(),
        }
    }
}

impl DeepView for CredentialOffer {
    type V = CredentialOfferView;

    open spec fn deep_view(&self) -> CredentialOfferView {
        self@
    }
}

impl CredentialOfferView {
    /// The document in which the offer is persisted.
    pub open spec fn to_doc(self) -> JsonDoc {
        JsonDoc::Object(
            Map::<Seq<char>, JsonDoc>::empty().insert(
                "@id"@,
                JsonDoc::Text(self.id),
            ).insert(
                "comment"@,
                opt_text_doc(self.comment),
            ).insert(
                "offers~attach"@,
                attachments_doc(self.offers_attach),
            ).insert(
                "~thread"@,
                ThreadView::opt_to_doc(self.thread),
            ),
        )
    }

    /// The offer that a document persists: an object whose members hold it.
    pub open spec fn from_doc(document: JsonDoc) -> Option<CredentialOfferView> {
        if document is Object
            && as_text(document.member("@id"@)) is Some
            && as_opt_text(document.member("comment"@)) is Some
            && as_attachments(document.member("offers~attach"@)) is Some
            && ThreadView::opt_from_doc(document.member("~thread"@)) is Some {
            Some(
                CredentialOfferView {
                    id: as_text(document.member("@id"@))->0,
                    comment: as_opt_text(document.member("comment"@))->0,
                    offers_attach: as_attachments(document.member("offers~attach"@))->0,
                    thread: ThreadView::opt_from_doc(document.member("~thread"@))->0,
                },
            )
        } else {
            None
        }
    }

    /// What was persisted is what is read back.
    pub proof fn read_back(self)
        ensures
            CredentialOfferView::from_doc(self.to_doc()) == Some(self),
            self.to_doc() is Object,
    {
        reveal_strlit("@id");
        reveal_strlit("comment");
        reveal_strlit("offers~attach");
        reveal_strlit("~thread");
        assert("@id"@.len() == 3);
        assert("comment"@.len() == 7);
        assert("offers~attach"@.len() == 13);
        assert("~thread"@.len() == 7);
        assert("comment"@[0] != "~thread"@[0]);
        values_are_read_back();
        attachments_read_back(self.offers_attach);
        ThreadView::opt_read_back(self.thread);
    }
}

impl CredentialOffer {
    /// Writes the offer as a document.
    pub fn to_document(&self) -> (document: JsonValue)
        ensures
            document@ == self@.to_doc(),
    {
        let mut document = JsonValue::object();
        document.insert(String::from_str("@id"), JsonValue::String(self.id.0.clone()));
        document.insert(String::from_str("comment"), write_opt_text(&self.comment));
        document.insert(String::from_str("offers~attach"), self.offers_attach.to_document());
        document.insert(String::from_str("~thread"), Thread::write_opt(&self.thread));
        document
    }

    /// Reads the offer from a document.
    pub fn from_document(document: &JsonValue) -> (read: Option<CredentialOffer>)
        ensures
            match CredentialOfferView::from_doc(document@) {
                Some(view) => read is Some && read->0@ == view,
                None => read is None,
            },
    {
        if !document.is_object() {
            return None;
        }
        let id = match read_text(document.get("@id")) {
            Some(value) => MessageId(value),
            None => {
                return None;
            },
        };
        let comment = match read_opt_text(document.get("comment")) {
            Some(value) => value,
            None => {
                return None;
            },
        };
        let offers_attach = match Attachments::read(document.get("offers~attach")) {
            Some(value) => value,
            None => {
                return None;
            },
        };
        let thread = match Thread::read_opt(document.get("~thread")) {
            Some(value) => value,
            None => {
                return None;
            },
        };
        Some(CredentialOffer { id, comment, offers_attach, thread })
    }

    /// Reads the offer from a member that may be missing.
    pub fn read(member: Option<&JsonValue>) -> (read: Option<CredentialOffer>)
        ensures
            match CredentialOfferView::from_doc(member_doc(member)) {
                Some(view) => read is Some && read->0@ == view,
                None => read is None,
            },
    {
        match member {
            Some(document) => CredentialOffer::from_document(document),
            None => None,
        }
    }
}

} // verus!
