//! The message by which an issuer delivers a credential.

use vstd::prelude::*;
use vstd::string::StringExecFns;

use crate::error::VcxResult;
use crate::messages::a2a::{A2AMessage, MessageId};
use crate::messages::ack::PleaseAck;
use crate::messages::attachment::{
    as_attachments, attachments_doc, attachments_read_back, AttachmentId, AttachmentView,
    Attachments,
};
use crate::messages::thread::{Thread, ThreadView};
use crate::messages::timing::{Timing, TimingView};
use crate::utils::codec::{
    as_opt_text, as_text, member_doc, opt_text_doc, read_opt_text, read_text, values_are_read_back,
    write_opt_text,
};
use crate::utils::json::{JsonDoc, JsonValue};
use crate::utils::text::opt_text;

pub mod test_utils;

verus! {

/// The credential message: the credential travels as its one attachment.
#[derive(Debug, PartialEq, Clone)]
pub struct Credential {
    pub id: MessageId,
    pub comment: Option<String>,
    pub credentials_attach: Attachments,
    pub thread: Thread,
    pub please_ack: Option<PleaseAck>,
    pub timing: Option<Timing>,
}

/// What a `Credential` is: its value, with texts as sequences of characters.
pub struct CredentialView {
    pub id: Seq<char>,
    pub comment: Option<Seq<char>>,
    pub credentials_attach: Seq<AttachmentView>,
    pub thread: ThreadView,
    pub please_ack: Option<PleaseAck>,
    pub timing: Option<TimingView>,
}

impl CredentialView {
    /// The message under `id` that carries nothing yet.
    pub open spec fn empty(id: Seq<char>) -> CredentialView {
        CredentialView {
            id,
            comment: None,
            credentials_attach: Seq::empty(),
            thread: Thread::new_view(),
            please_ack: None,
            timing: None,
        }
    }
}

impl View for Credential {
    type V = CredentialView;

    open spec fn view(&self) -> CredentialView {
        CredentialView {
            id: self.id@,
            comment: opt_text(self.comment),
            credentials_attach: self.credentials_attach@,
            thread: self.thread@,
            please_ack: self.please_ack,
            timing: self.timing.deep_view(),
        }
    }
}

impl DeepView for Credential {
    type V = CredentialView;

    open spec fn deep_view(&self) -> CredentialView {
        self@
    }
}

/// The credential that the issuer delivers, as the holder's backend takes it.
#[derive(Debug, PartialEq, Clone)]
pub struct CredentialData {
    pub schema_id: String,
    pub cred_def_id: String,
    pub rev_reg_id: Option<String>,
    pub values: JsonValue,
    pub signature: JsonValue,
    pub signature_correctness_proof: JsonValue,
    pub rev_reg: Option<JsonValue>,
    pub witness: Option<JsonValue>,
}

impl Default for Credential {
    /// A message under a fresh identifier that carries nothing yet.
    fn default() -> (credential: Credential)
        ensures
            credential@ == CredentialView::empty(credential@.id),
    {
        Credential::create_with_id(MessageId::new())
    }
}

impl Credential {
    /// A message under a fresh identifier that carries nothing yet.
    pub fn create() -> (credential: Credential)
        ensures
            credential@ == CredentialView::empty(credential@.id),
    {
        Credential::create_with_id(MessageId::new())
    }

    /// The message under the identifier `id` that carries nothing yet.
    pub fn create_with_id(id: MessageId) -> (credential: Credential)
        ensures
            credential@ == CredentialView::empty(id@),
    {
        Credential {
            id,
            comment: None,
            credentials_attach: Attachments::new(),
            thread: Thread::new(),
            please_ack: None,
            timing: None,
        }
    }

    /// The same message with the comment `comment`.
    pub fn set_comment(self, comment: String) -> (credential: Credential)
        ensures
            credential@ == (CredentialView { comment: Some(comment@), ..self@ }),
    {
        let mut credential = self;
        credential.comment = Some(comment);
        credential
    }

    /// The same message with the credential `credential` added as an
    /// attachment. A text always travels, so this never fails.
    pub fn set_credential(self, credential: String) -> (message: VcxResult<Credential>)
        ensures
            message is Ok,
            message->Ok_0@ == (CredentialView {
                credentials_attach: self@.credentials_attach.push(
                    AttachmentView::json(AttachmentId::Credential, credential@),
                ),
                ..self@
            }),
    {
        let mut message = self;
        match message.credentials_attach.add_base64_encoded_json_attachment(
            AttachmentId::Credential,
            JsonValue::String(credential),
        ) {
            Ok(_) => Ok(message),
            Err(failure) => Err(failure),
        }
    }

    /// The same message on the thread `id`.
    pub fn set_thread_id(self, id: &str) -> (credential: Credential)
        ensures
            credential@ == (CredentialView {
                thread: ThreadView { thid: Some(id@), ..self@.thread },
                ..self@
            }),
    {
        let Credential { id: own, comment, credentials_attach, thread, please_ack, timing } = self;
        Credential {
            id: own,
            comment,
            credentials_attach,
            thread: thread.set_thid(String::from_str(id)),
            please_ack,
            timing,
        }
    }

    /// Whether the message belongs to the thread `id`.
    pub fn from_thread(&self, id: &str) -> (belongs: bool)
        ensures
            belongs == (self@.thread.thid.unwrap_or(Seq::empty()) == id@),
    {
        self.thread.is_reply(id)
    }

    /// The identifier of the thread of the message, or the empty text where
    /// it has none.
    pub fn get_thread_id(&self) -> (thid: String)
        ensures
            thid@ == self@.thread.thid.unwrap_or(Seq::empty()),
    {
        self.thread.get_thid()
    }

    /// The same message, asking for an acknowledgement.
    pub fn ask_for_ack(self) -> (credential: Credential)
        ensures
            credential@ == (CredentialView {
                please_ack: Some(PleaseAck { on_receipt: false, on_outcome: false }),
                ..self@
            }),
    {
        let mut credential = self;
        credential.please_ack = Some(PleaseAck::default());
        credential
    }

    /// The same message with the timing hints `timing`.
    pub fn set_timing(self, timing: Timing) -> (credential: Credential)
        ensures
            credential@ == (CredentialView { timing: Some(timing@), ..self@ }),
    {
        let mut credential = self;
        credential.timing = Some(timing);
        credential
    }

    /// A copy of the message.
    pub fn duplicate(&self) -> (copy: Credential)
        ensures
            copy@ == self@,
    {
        Credential {
            id: MessageId(self.id.0.clone()),
            comment: crate::utils::text::clone_opt_text(&self.comment),
            credentials_attach: self.credentials_attach.duplicate(),
            thread: self.thread.duplicate(),
            please_ack: self.please_ack,
            timing: match &self.timing {
                Some(timing) => Some(timing.duplicate()),
                None => None,
            },
        }
    }

    /// The message as one of the messages that agents exchange.
    pub fn to_a2a_message(&self) -> (message: A2AMessage)
        ensures
            message is Credential,
            message->Credential_0@ == self@,
    {
        A2AMessage::Credential(self.duplicate())
    }

    /// The credential that the message carries.
    ///
    /// Fails as [`Attachments::content_for`] does: unless the message carries
    /// exactly one attachment, for a credential, that can be read.
    pub fn credential_content(&self) -> (content: VcxResult<String>)
        ensures
            match crate::messages::attachment::content_for(
                self@.credentials_attach,
                AttachmentId::Credential,
            ) {
                Ok(text) => content is Ok && content->Ok_0@ == text,
                Err(kind) => content is Err && content->Err_0.kind() == kind,
            },
    {
        self.credentials_attach.content_for(AttachmentId::Credential)
    }
}

impl CredentialView {
    /// The document in which the credential message is persisted.
    pub open spec fn to_doc(self) -> JsonDoc {
        JsonDoc::Object(
            Map::<Seq<char>, JsonDoc>::empty().insert(
                "@id"@,
                JsonDoc::Text(self.id),
            ).insert(
                "comment"@,
                opt_text_doc(self.comment),
            ).insert(
                "credentials~attach"@,
                attachments_doc(self.credentials_attach),
            ).insert(
                "~thread"@,
                self.thread.to_doc(),
            ).insert(
                "~please_ack"@,
                PleaseAck::opt_to_doc(self.please_ack),
            ).insert(
                "~timing"@,
                TimingView::opt_to_doc(self.timing),
            ),
        )
    }

    /// The credential message that a document persists: an object whose members hold it.
    pub open spec fn from_doc(document: JsonDoc) -> Option<CredentialView> {
        if document is Object
            && as_text(document.member("@id"@)) is Some
            && as_opt_text(document.member("comment"@)) is Some
            && as_attachments(document.member("credentials~attach"@)) is Some
            && ThreadView::from_doc(document.member("~thread"@)) is Some
            && PleaseAck::opt_from_doc(document.member("~please_ack"@)) is Some
            && TimingView::opt_from_doc(document.member("~timing"@)) is Some {
            Some(
                CredentialView {
                    id: as_text(document.member("@id"@))->0,
                    comment: as_opt_text(document.member("comment"@))->0,
                    credentials_attach: as_attachments(document.member("credentials~attach"@))->0,
                    thread: ThreadView::from_doc(document.member("~thread"@))->0,
                    please_ack: PleaseAck::opt_from_doc(document.member("~please_ack"@))->0,
                    timing: TimingView::opt_from_doc(document.member("~timing"@))->0,
                },
            )
        } else {
            None
        }
    }

    /// What was persisted is what is read back.
    pub proof fn read_back(self)
        ensures
            CredentialView::from_doc(self.to_doc()) == Some(self),
            self.to_doc() is Object,
    {
        reveal_strlit("@id");
        reveal_strlit("comment");
        reveal_strlit("credentials~attach");
        reveal_strlit("~thread");
        reveal_strlit("~please_ack");
        reveal_strlit("~timing");
        assert("@id"@.len() == 3);
        assert("comment"@.len() == 7);
        assert("credentials~attach"@.len() == 18);
        assert("~thread"@.len() == 7);
        assert("~please_ack"@.len() == 11);
        assert("~timing"@.len() == 7);
        assert("comment"@[0] != "~thread"@[0]);
        assert("comment"@[0] != "~timing"@[0]);
        assert("~thread"@[2] != "~timing"@[2]);
        values_are_read_back();
        attachments_read_back(self.credentials_attach);
        self.thread.read_back();
        PleaseAck::opt_read_back(self.please_ack);
        TimingView::opt_read_back(self.timing);
    }

    /// The document of an optional credential message: its document, or null.
    pub open spec fn opt_to_doc(value: Option<CredentialView>) -> JsonDoc {
        match value {
            Some(v) => v.to_doc(),
            None => JsonDoc::Null,
        }
    }

    /// The optional credential message that a document persists.
    pub open spec fn opt_from_doc(document: JsonDoc) -> Option<Option<CredentialView>> {
        match document {
            JsonDoc::Null => Some(None),
            _ => match CredentialView::from_doc(document) {
                Some(v) => Some(Some(v)),
                None => None,
            },
        }
    }

    /// What was persisted is what is read back.
    pub proof fn opt_read_back(value: Option<CredentialView>)
        ensures
            CredentialView::opt_from_doc(CredentialView::opt_to_doc(value)) == Some(value),
    {
        if value is Some {
            value->0.read_back();
        }
    }
}

impl Credential {
    /// Writes the credential message as a document.
    pub fn to_document(&self) -> (document: JsonValue)
        ensures
            document@ == self@.to_doc(),
    {
        let mut document = JsonValue::object();
        document.insert(String::from_str("@id"), JsonValue::String(self.id.0.clone()));
        document.insert(String::from_str("comment"), write_opt_text(&self.comment));
        document.insert(
            String::from_str("credentials~attach"),
            self.credentials_attach.to_document(),
        );
        document.insert(String::from_str("~thread"), self.thread.to_document());
        document.insert(String::from_str("~please_ack"), PleaseAck::write_opt(&self.please_ack));
        document.insert(String::from_str("~timing"), Timing::write_opt(&self.timing));
        document
    }

    /// Reads the credential message from a document.
    pub fn from_document(document: &JsonValue) -> (read: Option<Credential>)
        ensures
            match CredentialView::from_doc(document@) {
                Some(view) => read is Some && read->0@ == view,
                None => read is None,
            },
    {
        if !document.is_object() {
            return None;
        }
        let id = match read_text(document.get("@id")) {
            Some(value) => MessageId(value),
            None => {
                return None;
            },
        };
        let comment = match read_opt_text(document.get("comment")) {
            Some(value) => value,
            None => {
                return None;
            },
        };
        let credentials_attach = match Attachments::read(document.get("credentials~attach")) {
            Some(value) => value,
            None => {
                return None;
            },
        };
        let thread = match Thread::read(document.get("~thread")) {
            Some(value) => value,
            None => {
                return None;
            },
        };
        let please_ack = match PleaseAck::read_opt(document.get("~please_ack")) {
            Some(value) => value,
            None => {
                return None;
            },
        };
        let timing = match Timing::read_opt(document.get("~timing")) {
            Some(value) => value,
            None => {
                return None;
            },
        };
        Some(Credential { id, comment, credentials_attach, thread, please_ack, timing })
    }

    /// Reads the credential message from a member that may be missing.
    pub fn read(member: Option<&JsonValue>) -> (read: Option<Credential>)
        ensures
            match CredentialView::from_doc(member_doc(member)) {
                Some(view) => read is Some && read->0@ == view,
                None => read is None,
            },
    {
        match member {
            Some(document) => Credential::from_document(document),
            None => None,
        }
    }

    /// Writes an optional credential message as a document.
    pub fn write_opt(value: &Option<Credential>) -> (document: JsonValue)
        ensures
            document@ == CredentialView::opt_to_doc(value.deep_view()),
    {
        match value {
            Some(v) => v.to_document(),
            None => JsonValue::Null,
        }
    }

    /// Reads an optional credential message from a member that may be missing.
    pub fn read_opt(member: Option<&JsonValue>) -> (read: Option<Option<Credential>>)
        ensures
            match CredentialView::opt_from_doc(member_doc(member)) {
                Some(view) => read is Some && read->0.deep_view() == view,
                None => read is None,
            },
    {
        match member {
            None => Some(None),
            Some(JsonValue::Null) => Some(None),
            Some(document) => match Credential::from_document(document) {
                Some(v) => Some(Some(v)),
                None => None,
            },
        }
    }
}

} // verus!
