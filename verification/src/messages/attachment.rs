//! Attachments: purpose-tagged payloads carried inside a message, encoded as
//! base64 text.

use vstd::prelude::*;
use vstd::string::{StringExecFns, StringSliceAdditionalSpecFns};
use vstd::utf8::{
    decode_utf8, encode_utf8, encode_utf8_decode_utf8, encode_utf8_valid_utf8, valid_utf8,
};

use crate::error::{VcxError, VcxErrorKind, VcxResult};
use crate::utils::base64::{
    ascii_text, decode_text, decoded, encode_to_text, encoded, text_decoding_inverts_encoding,
    text_from_utf8,
};
use crate::utils::codec::{as_text, member_doc, read_text, values_are_read_back};
use crate::utils::json::{json_text, JsonDoc, JsonValue};
use crate::utils::text::{opt_text, text_eq};

verus! {

/// The purposes an attachment can serve.
#[derive(Clone, Copy, Debug, PartialEq, Eq, Structural)]
pub enum AttachmentId {
    CredentialOffer,
    CredentialRequest,
    Credential,
    PresentationRequest,
    Presentation,
}

impl AttachmentId {
    /// The name of the purpose on the wire.
    pub open spec fn spec_wire_name(self) -> &'static str {
        match self {
            AttachmentId::CredentialOffer => "libindy-cred-offer-0",
            AttachmentId::CredentialRequest => "libindy-cred-request-0",
            AttachmentId::Credential => "libindy-cred-0",
            AttachmentId::PresentationRequest => "libindy-request-presentation-0",
            AttachmentId::Presentation => "libindy-presentation-0",
        }
    }

    /// The name of the purpose on the wire.
    pub fn wire_name(self) -> (name: &'static str)
        ensures
            name == self.spec_wire_name(),
    {
        match self {
            AttachmentId::CredentialOffer => "libindy-cred-offer-0",
            AttachmentId::CredentialRequest => "libindy-cred-request-0",
            AttachmentId::Credential => "libindy-cred-0",
            AttachmentId::PresentationRequest => "libindy-request-presentation-0",
            AttachmentId::Presentation => "libindy-presentation-0",
        }
    }
}

/// The content type of structured documents, the only one that is supported.
pub open spec fn json_mime_type() -> Seq<char> {
    "application/json"@
}

/// One attachment: its purpose, its content type and its content as base64.
#[derive(Clone, Debug, PartialEq)]
pub struct Attachment {
    pub id: AttachmentId,
    pub mime_type: String,
    pub encoded_content: String,
}

/// What a `Attachment` is: its value, with texts as sequences of characters.
pub struct AttachmentView {
    pub id: AttachmentId,
    pub mime_type: Seq<char>,
    pub encoded_content: Seq<char>,
}

impl View for Attachment {
    type V = AttachmentView;

    open spec fn view(&self) -> AttachmentView {
        AttachmentView {
            id: self.id,
            mime_type: self.mime_type@,
            encoded_content: self.encoded_content@,
        }
    }
}

impl DeepView for Attachment {
    type V = AttachmentView;

    open spec fn deep_view(&self) -> AttachmentView {
        self@
    }
}

impl AttachmentView {
    /// The attachment that carries the document `content` for `id`.
    pub open spec fn json(id: AttachmentId, content: Seq<char>) -> AttachmentView {
        AttachmentView {
            id,
            mime_type: json_mime_type(),
            encoded_content: ascii_text(encoded(encode_utf8(content))),
        }
    }

    /// The document that the attachment carries, or the kind of failure that
    /// reading it gives: the content type must be supported, the payload must
    /// be base64, and what it encodes must be text.
    pub open spec fn content(self) -> Result<Seq<char>, VcxErrorKind> {
        if self.mime_type != json_mime_type() {
            Err(VcxErrorKind::UnknownAttachmentEncoding)
        } else {
            match decoded(encode_utf8(self.encoded_content)) {
                Some(bytes) => if valid_utf8(bytes) {
                    Ok(decode_utf8(bytes))
                } else {
                    Err(VcxErrorKind::InvalidAttachmentEncoding)
                },
                None => Err(VcxErrorKind::InvalidAttachmentEncoding),
            }
        }
    }
}

/// Reading an attachment gives back the document it was made for, whatever
/// the document and the purpose.
pub proof fn content_of_json_attachment(id: AttachmentId, content: Seq<char>)
    ensures
        AttachmentView::json(id, content).content() == Ok::<Seq<char>, VcxErrorKind>(content),
{
    text_decoding_inverts_encoding(encode_utf8(content));
    encode_utf8_valid_utf8(content);
    encode_utf8_decode_utf8(content);
}

/// The text under which a JSON document travels in an attachment: an object
/// as its compact JSON text, a string as its own text. Other documents are
/// not carried.
pub open spec fn json_payload(document: JsonDoc) -> Option<Seq<char>> {
    match document {
        JsonDoc::Object(_) => Some(json_text(document)),
        JsonDoc::Text(text) => Some(text),
        _ => None,
    }
}

impl Attachment {
    /// The attachment that carries the document `content` for `id`.
    pub fn json(id: AttachmentId, content: &str) -> (attachment: Attachment)
        ensures
            attachment@ == AttachmentView::json(id, content@),
    {
        Attachment {
            id,
            mime_type: String::from_str("application/json"),
            encoded_content: encode_to_text(content.as_bytes()),
        }
    }

    /// The document that this attachment carries.
    ///
    /// Fails with `UnknownAttachmentEncoding` where the content type is not
    /// supported, and with `InvalidAttachmentEncoding` where the payload is
    /// not base64 or does not encode text.
    pub fn content(&self) -> (content: VcxResult<String>)
        ensures
            match self@.content() {
                Ok(text) => content is Ok && content->Ok_0@ == text,
                Err(kind) => content is Err && content->Err_0.kind() == kind,
            },
    {
        if !text_eq(self.mime_type.as_str(), "application/json") {
            return Err(
                VcxError::from_msg(
                    VcxErrorKind::UnknownAttachmentEncoding,
                    "This type of attachment can not be used",
                ),
            );
        }
        match decode_text(self.encoded_content.as_str()) {
            Some(bytes) => match text_from_utf8(bytes) {
                Some(text) => Ok(text),
                None => Err(
                    VcxError::from_msg(
                        VcxErrorKind::InvalidAttachmentEncoding,
                        "Failed to decode attachment",
                    ),
                ),
            },
            None => Err(
                VcxError::from_msg(
                    VcxErrorKind::InvalidAttachmentEncoding,
                    "Failed to decode attachment",
                ),
            ),
        }
    }
}

/// The attachments of one message.
#[derive(Clone, Debug, PartialEq)]
pub struct Attachments(pub Vec<Attachment>);

impl View for Attachments {
    type V = Seq<AttachmentView>;

    open spec fn view(&self) -> Seq<AttachmentView> {
        self.0.deep_view()
    }
}

impl DeepView for Attachments {
    type V = Seq<AttachmentView>;

    open spec fn deep_view(&self) -> Seq<AttachmentView> {
        self@
    }
}

/// What reading the attachments of a message for the purpose `id` gives: the
/// message must carry exactly one attachment, it must serve that purpose, and
/// its content must be readable.
pub open spec fn content_for(attachments: Seq<AttachmentView>, id: AttachmentId) -> Result<
    Seq<char>,
    VcxErrorKind,
> {
    if attachments.len() != 1 || attachments[0].id != id {
        Err(VcxErrorKind::InvalidJson)
    } else {
        attachments[0].content()
    }
}

impl Attachments {
    /// No attachments.
    pub fn new() -> (attachments: Attachments)
        ensures
            attachments@ == Seq::<AttachmentView>::empty(),
    {
        let attachments = Attachments(Vec::new());
        assert(attachments@ =~= Seq::<AttachmentView>::empty());
        attachments
    }

    /// The first attachment, if there is one.
    pub fn get(&self) -> (first: Option<&Attachment>)
        ensures
            match first {
                Some(attachment) => self@.len() > 0 && attachment@ == self@[0],
                None => self@.len() == 0,
            },
    {
        if self.0.len() > 0 {
            Some(&self.0[0])
        } else {
            None
        }
    }

    /// Adds `attachment` after the ones that are there.
    pub fn add(&mut self, attachment: Attachment)
        ensures
            final(self)@ == old(self)@.push(attachment@),
    {
        self.0.push(attachment);
        assert(final(self)@ =~= old(self)@.push(attachment@));
    }

    /// Adds the document `content` as an attachment for `id`.
    pub fn add_base64_encoded_content(&mut self, id: AttachmentId, content: &str)
        ensures
            final(self)@ == old(self)@.push(AttachmentView::json(id, content@)),
    {
        self.add(Attachment::json(id, content));
    }

    /// Adds the JSON document `json` as an attachment for `id`: an object as
    /// its compact JSON text, a string as its own text.
    ///
    /// Fails with `InvalidJson`, and changes nothing, where `json` is neither
    /// an object nor a string.
    pub fn add_base64_encoded_json_attachment(&mut self, id: AttachmentId, json: JsonValue) -> (added:
        VcxResult<()>)
        ensures
            match json_payload(json@) {
                Some(text) => added is Ok && final(self)@ == old(self)@.push(
                    AttachmentView::json(id, text),
                ),
                None => added is Err && added->Err_0.kind() == VcxErrorKind::InvalidJson
                    && *final(self) == *old(self),
            },
    {
        match &json {
            JsonValue::Object(_) => {
                let text = json.to_text();
                self.add_base64_encoded_content(id, text.as_str());
                Ok(())
            },
            JsonValue::String(text) => {
                self.add_base64_encoded_content(id, text.as_str());
                Ok(())
            },
            _ => Err(VcxError::from_msg(VcxErrorKind::InvalidJson, "Unsupported Json value")),
        }
    }

    /// A copy of the attachments.
    pub fn duplicate(&self) -> (copy: Attachments)
        ensures
            copy@ == self@,
    {
        let mut copies: Vec<Attachment> = Vec::new();
        let mut i: usize = 0;
        while i < self.0.len()
            invariant
                i <= self.0.len(),
                copies.len() == i,
                forall|k: int| 0 <= k < i ==> copies[k]@ == self.0[k]@,
            decreases self.0.len() - i,
        {
            copies.push(
                Attachment {
                    id: self.0[i].id,
                    mime_type: self.0[i].mime_type.clone(),
                    encoded_content: self.0[i].encoded_content.clone(),
                },
            );
            i += 1;
        }
        let copy = Attachments(copies);
        assert(copy@ =~= self@);
        copy
    }

    /// The document of the first attachment.
    ///
    /// Fails with `InvalidJson` where there is no attachment, and as
    /// [`Attachment::content`] does where the first one cannot be read.
    pub fn content(&self) -> (content: VcxResult<String>)
        ensures
            match (if self@.len() == 0 {
                Err(VcxErrorKind::InvalidJson)
            } else {
                self@[0].content()
            }) {
                Ok(text) => content is Ok && content->Ok_0@ == text,
                Err(kind) => content is Err && content->Err_0.kind() == kind,
            },
    {
        match self.get() {
            Some(attachment) => attachment.content(),
            None => Err(
                VcxError::from_msg(VcxErrorKind::InvalidJson, "Unsupported Attachment type"),
            ),
        }
    }

    /// The document that the message carries for the purpose `id`.
    ///
    /// Fails with `InvalidJson` unless the message carries exactly one
    /// attachment and that one serves the purpose `id`; an attachment for
    /// another purpose is an error, not skipped. Fails as
    /// [`Attachment::content`] does where the attachment cannot be read.
    pub fn content_for(&self, id: AttachmentId) -> (content: VcxResult<String>)
        ensures
            match content_for(self@, id) {
                Ok(text) => content is Ok && content->Ok_0@ == text,
                Err(kind) => content is Err && content->Err_0.kind() == kind,
            },
    {
        if self.0.len() != 1 || self.0[0].id != id {
            return Err(
                VcxError::from_msg(
                    VcxErrorKind::InvalidJson,
                    "The message does not carry exactly one attachment of the expected purpose",
                ),
            );
        }
        self.0[0].content()
    }
}

/// The document of the content of an attachment: an object that holds it
/// under the name of its encoding.
pub open spec fn base64_data_doc(content: Seq<char>) -> JsonDoc {
    JsonDoc::Object(Map::<Seq<char>, JsonDoc>::empty().insert("base64"@, JsonDoc::Text(content)))
}

/// The content that a document holds.
pub open spec fn as_base64_data(document: JsonDoc) -> Option<Seq<char>> {
    as_text(document.member("base64"@))
}

/// What was persisted is what is read back.
pub proof fn base64_data_read_back(content: Seq<char>)
    ensures
        as_base64_data(base64_data_doc(content)) == Some(content),
{
}

fn write_base64_data(content: &str) -> (document: JsonValue)
    ensures
        document@ == base64_data_doc(content@),
{
    let mut document = JsonValue::object();
    document.insert(String::from_str("base64"), JsonValue::from_str(content));
    document
}

fn read_base64_data(member: Option<&JsonValue>) -> (content: Option<String>)
    ensures
        opt_text(content) == as_base64_data(member_doc(member)),
{
    match member {
        Some(document) => read_text(document.get("base64")),
        None => None,
    }
}

/// The document of the attachments of a message: the array of them.
pub open spec fn attachments_doc(attachments: Seq<AttachmentView>) -> JsonDoc {
    JsonDoc::Array(Seq::new(attachments.len(), |i: int| attachments[i].to_doc()))
}

/// The attachments that a document holds: it must be an array of
/// attachments.
pub open spec fn as_attachments(document: JsonDoc) -> Option<Seq<AttachmentView>> {
    match document {
        JsonDoc::Array(items) => if forall|i: int|
            0 <= i < items.len() ==> AttachmentView::from_doc(#[trigger] items[i]) is Some {
            Some(Seq::new(items.len(), |i: int| AttachmentView::from_doc(items[i])->0))
        } else {
            None
        },
        _ => None,
    }
}

/// What was persisted is what is read back.
pub proof fn attachments_read_back(attachments: Seq<AttachmentView>)
    ensures
        as_attachments(attachments_doc(attachments)) == Some(attachments),
{
    let items = attachments_doc(attachments)->Array_0;
    assert forall|i: int| 0 <= i < items.len() implies AttachmentView::from_doc(
        #[trigger] items[i],
    ) == Some(attachments[i]) by {
        attachments[i].read_back();
    }
    assert(as_attachments(attachments_doc(attachments))->0 =~= attachments);
}

impl Attachments {
    /// Writes the attachments as a document.
    pub fn to_document(&self) -> (document: JsonValue)
        ensures
            document@ == attachments_doc(self@),
    {
        let mut items: Vec<JsonValue> = Vec::new();
        let mut i: usize = 0;
        while i < self.0.len()
            invariant
                i <= self.0.len(),
                items.len() == i,
                forall|k: int| 0 <= k < i ==> items@[k]@ == self.0@[k]@.to_doc(),
            decreases self.0.len() - i,
        {
            items.push(self.0[i].to_document());
            i += 1;
        }
        proof {
            crate::utils::json::lemma_items_doc(items@);
            assert(crate::utils::json::items_doc(items@) =~= Seq::new(
                self@.len(),
                |i: int| self@[i].to_doc(),
            ));
        }
        JsonValue::Array(items)
    }

    /// Reads the attachments from a member that may be missing.
    pub fn read(member: Option<&JsonValue>) -> (read: Option<Attachments>)
        ensures
            match as_attachments(member_doc(member)) {
                Some(view) => read is Some && read->0@ == view,
                None => read is None,
            },
    {
        match member {
            Some(JsonValue::Array(items)) => {
                proof {
                    crate::utils::json::lemma_items_doc(items@);
                }
                let ghost docs = crate::utils::json::items_doc(items@);
                let mut attachments: Vec<Attachment> = Vec::new();
                let mut i: usize = 0;
                while i < items.len()
                    invariant
                        i <= items.len(),
                        attachments.len() == i,
                        member_doc(member) == JsonDoc::Array(docs),
                        docs.len() == items.len(),
                        forall|k: int| 0 <= k < items.len() ==> #[trigger] docs[k] == items@[k]@,
                        forall|k: int|
                            0 <= k < i ==> AttachmentView::from_doc(#[trigger] docs[k]) == Some(
                                attachments@[k]@,
                            ),
                    decreases items.len() - i,
                {
                    assert(docs[i as int] == items@[i as int]@);
                    match Attachment::from_document(&items[i]) {
                        Some(attachment) => {
                            let ghost before = attachments@;
                            attachments.push(attachment);
                            assert forall|k: int| 0 <= k < i + 1 implies AttachmentView::from_doc(
                                #[trigger] docs[k],
                            ) == Some(attachments@[k]@) by {
                                if k < i {
                                    assert(attachments@[k] == before[k]);
                                }
                            }
                        },
                        None => {
                            assert(AttachmentView::from_doc(docs[i as int]) is None);
                            return None;
                        },
                    }
                    i += 1;
                }
                let read = Attachments(attachments);
                assert(as_attachments(member_doc(member)) is Some);
                assert(read@ =~= as_attachments(member_doc(member))->0);
                Some(read)
            },
            _ => None,
        }
    }
}

impl AttachmentId {
    /// The document in which the purpose is persisted: its name, as text.
    pub open spec fn to_doc(self) -> JsonDoc {
        match self {
            AttachmentId::CredentialOffer => JsonDoc::Text("libindy-cred-offer-0"@),
            AttachmentId::CredentialRequest => JsonDoc::Text("libindy-cred-request-0"@),
            AttachmentId::Credential => JsonDoc::Text("libindy-cred-0"@),
            AttachmentId::PresentationRequest => JsonDoc::Text("libindy-request-presentation-0"@),
            AttachmentId::Presentation => JsonDoc::Text("libindy-presentation-0"@),
        }
    }

    /// The purpose that a document persists.
    pub open spec fn from_doc(document: JsonDoc) -> Option<AttachmentId> {
        match document {
            JsonDoc::Text(text) => if text == "libindy-cred-offer-0"@ {
                Some(AttachmentId::CredentialOffer)
            } else if text == "libindy-cred-request-0"@ {
                Some(AttachmentId::CredentialRequest)
            } else if text == "libindy-cred-0"@ {
                Some(AttachmentId::Credential)
            } else if text == "libindy-request-presentation-0"@ {
                Some(AttachmentId::PresentationRequest)
            } else if text == "libindy-presentation-0"@ {
                Some(AttachmentId::Presentation)
            } else {
                None
            },
            _ => None,
        }
    }

    /// What was persisted is what is read back.
    pub proof fn read_back(self)
        ensures
            AttachmentId::from_doc(self.to_doc()) == Some(self),
            self.to_doc() is Text,
    {
        reveal_strlit("libindy-cred-offer-0");
        reveal_strlit("libindy-cred-request-0");
        reveal_strlit("libindy-cred-0");
        reveal_strlit("libindy-request-presentation-0");
        reveal_strlit("libindy-presentation-0");
        assert("libindy-cred-offer-0"@.len() == 20);
        assert("libindy-cred-request-0"@.len() == 22);
        assert("libindy-cred-0"@.len() == 14);
        assert("libindy-request-presentation-0"@.len() == 30);
        assert("libindy-presentation-0"@.len() == 22);
        assert("libindy-cred-request-0"@[8] != "libindy-presentation-0"@[8]);
    }

    /// Writes the purpose as a document.
    pub fn to_document(&self) -> (document: JsonValue)
        ensures
            document@ == self.to_doc(),
    {
        match self {
            AttachmentId::CredentialOffer => JsonValue::from_str("libindy-cred-offer-0"),
            AttachmentId::CredentialRequest => JsonValue::from_str("libindy-cred-request-0"),
            AttachmentId::Credential => JsonValue::from_str("libindy-cred-0"),
            AttachmentId::PresentationRequest => JsonValue::from_str(
                "libindy-request-presentation-0",
            ),
            AttachmentId::Presentation => JsonValue::from_str("libindy-presentation-0"),
        }
    }

    /// Reads the purpose from a document.
    pub fn from_document(document: &JsonValue) -> (read: Option<AttachmentId>)
        ensures
            read == AttachmentId::from_doc(document@),
    {
        let text = match document.as_str() {
            Some(text) => text,
            None => {
                return None;
            },
        };
        if text_eq(text, "libindy-cred-offer-0") {
            Some(AttachmentId::CredentialOffer)
        } else if text_eq(text, "libindy-cred-request-0") {
            Some(AttachmentId::CredentialRequest)
        } else if text_eq(text, "libindy-cred-0") {
            Some(AttachmentId::Credential)
        } else if text_eq(text, "libindy-request-presentation-0") {
            Some(AttachmentId::PresentationRequest)
        } else if text_eq(text, "libindy-presentation-0") {
            Some(AttachmentId::Presentation)
        } else {
            None
        }
    }

    /// Reads the purpose from a member that may be missing.
    pub fn read(member: Option<&JsonValue>) -> (read: Option<AttachmentId>)
        ensures
            read == AttachmentId::from_doc(member_doc(member)),
    {
        match member {
            Some(document) => AttachmentId::from_document(document),
            None => None,
        }
    }
}

impl AttachmentView {
    /// The document in which the attachment is persisted.
    pub open spec fn to_doc(self) -> JsonDoc {
        JsonDoc::Object(
            Map::<Seq<char>, JsonDoc>::empty().insert(
                "@id"@,
                self.id.to_doc(),
            ).insert(
                "mime-type"@,
                JsonDoc::Text(self.mime_type),
            ).insert(
                "data"@,
                base64_data_doc(self.encoded_content),
            ),
        )
    }

    /// The attachment that a document persists: an object whose members hold it.
    pub open spec fn from_doc(document: JsonDoc) -> Option<AttachmentView> {
        if document is Object
            && AttachmentId::from_doc(document.member("@id"@)) is Some
            && as_text(document.member("mime-type"@)) is Some
            && as_base64_data(document.member("data"@)) is Some {
            Some(
                AttachmentView {
                    id: AttachmentId::from_doc(document.member("@id"@))->0,
                    mime_type: as_text(document.member("mime-type"@))->0,
                    encoded_content: as_base64_data(document.member("data"@))->0,
                },
            )
        } else {
            None
        }
    }

    /// What was persisted is what is read back.
    pub proof fn read_back(self)
        ensures
            AttachmentView::from_doc(self.to_doc()) == Some(self),
            self.to_doc() is Object,
    {
        reveal_strlit("@id");
        reveal_strlit("mime-type");
        reveal_strlit("data");
        assert("@id"@.len() == 3);
        assert("mime-type"@.len() == 9);
        assert("data"@.len() == 4);
        values_are_read_back();
        self.id.read_back();
        base64_data_read_back(self.encoded_content);
    }
}

impl Attachment {
    /// Writes the attachment as a document.
    pub fn to_document(&self) -> (document: JsonValue)
        ensures
            document@ == self@.to_doc(),
    {
        let mut document = JsonValue::object();
        document.insert(String::from_str("@id"), self.id.to_document());
        document.insert(String::from_str("mime-type"), JsonValue::String(self.mime_type.clone()));
        document.insert(String::from_str("data"), write_base64_data(self.encoded_content.as_str()));
        document
    }

    /// Reads the attachment from a document.
    pub fn from_document(document: &JsonValue) -> (read: Option<Attachment>)
        ensures
            match AttachmentView::from_doc(document@) {
                Some(view) => read is Some && read->0@ == view,
                None => read is None,
            },
    {
        if !document.is_object() {
            return None;
        }
        let id = match AttachmentId::read(document.get("@id")) {
            Some(value) => value,
            None => {
                return None;
            },
        };
        let mime_type = match read_text(document.get("mime-type")) {
            Some(value) => value,
            None => {
                return None;
            },
        };
        let encoded_content = match read_base64_data(document.get("data")) {
            Some(value) => value,
            None => {
                return None;
            },
        };
        Some(Attachment { id, mime_type, encoded_content })
    }

    /// Reads the attachment from a member that may be missing.
    pub fn read(member: Option<&JsonValue>) -> (read: Option<Attachment>)
        ensures
            match AttachmentView::from_doc(member_doc(member)) {
                Some(view) => read is Some && read->0@ == view,
                None => read is None,
            },
    {
        match member {
            Some(document) => Attachment::from_document(document),
            None => None,
        }
    }
}

} // verus!
