//! The error type returned by every fallible operation of the library.

use vstd::prelude::*;
use vstd::string::StringExecFns;

use crate::utils::error;
use crate::utils::codec::{as_text, member_doc, read_text, values_are_read_back};
use crate::utils::json::{JsonDoc, JsonValue};
use crate::utils::text::text_eq;

verus! {

/// The kinds of failure an operation can report.
#[derive(Clone, Copy, Debug, PartialEq, Eq, Structural)]
pub enum VcxErrorKind {
    /// A message arrived or an action was asked for in a state that does not accept it.
    InvalidState,
    /// The machine is not ready for the requested action.
    NotReady,
    /// A text is not a JSON document of the expected shape.
    InvalidJson,
    /// A stored document could not be read back.
    SerializationError,
    /// A message does not belong to the conversation, or repeats an earlier one.
    InvalidThread,
    /// An attachment payload does not decode to content of its declared type.
    InvalidAttachmentEncoding,
    /// An attachment declares a content type that is not supported.
    UnknownAttachmentEncoding,
    /// A proof does not have the expected format.
    InvalidProof,
    /// No proof is stored under the handle.
    InvalidProofHandle,
    /// No object is stored under the handle.
    InvalidHandle,
    /// The credentials of a proof are not listed correctly.
    InvalidProofCredentialData,
    /// A schema is missing or corrupt.
    InvalidSchema,
    /// The revocation details of a credential are missing or wrong.
    InvalidRevocationDetails,
    /// The revocation timestamp of a credential is missing.
    InvalidRevocationTimestamp,
    /// A value could not be encoded as a number.
    EncodeError,
    /// The credential backend or the ledger reported a failure.
    LibindyInvalidStructure,
    /// A message could not be delivered.
    IOError,
    /// The logger could not be installed.
    LoggingError,
}

impl VcxErrorKind {
    /// The numeric code under which this kind is reported.
    pub open spec fn spec_code(self) -> u32 {
        match self {
            VcxErrorKind::InvalidState => error::INVALID_STATE,
            VcxErrorKind::NotReady => error::NOT_READY,
            VcxErrorKind::InvalidJson => error::INVALID_JSON,
            VcxErrorKind::SerializationError => error::SERIALIZATION_ERROR,
            VcxErrorKind::InvalidThread => error::INVALID_MESSAGES,
            VcxErrorKind::InvalidAttachmentEncoding => error::INVALID_ATTACHMENT_ENCODING,
            VcxErrorKind::UnknownAttachmentEncoding => error::UNKNOWN_ATTACHMENT_ENCODING,
            VcxErrorKind::InvalidProof => error::INVALID_PROOF,
            VcxErrorKind::InvalidProofHandle => error::INVALID_PROOF_HANDLE,
            VcxErrorKind::InvalidHandle => error::INVALID_OBJ_HANDLE,
            VcxErrorKind::InvalidProofCredentialData => error::INVALID_PROOF_CREDENTIAL_DATA,
            VcxErrorKind::InvalidSchema => error::INVALID_SCHEMA,
            VcxErrorKind::InvalidRevocationDetails => error::INVALID_REVOCATION_DETAILS,
            VcxErrorKind::InvalidRevocationTimestamp => error::INVALID_REVOCATION_TIMESTAMP,
            VcxErrorKind::EncodeError => error::SERIALIZATION_ERROR,
            VcxErrorKind::LibindyInvalidStructure => error::LIBINDY_INVALID_STRUCTURE,
            VcxErrorKind::IOError => error::IOERROR,
            VcxErrorKind::LoggingError => error::LOGGING_ERROR,
        }
    }

    /// The numeric code under which this kind is reported.
    pub fn code(self) -> (code: u32)
        ensures
            code == self.spec_code(),
            error::is_registered(code),
    {
        match self {
            VcxErrorKind::InvalidState => error::INVALID_STATE,
            VcxErrorKind::NotReady => error::NOT_READY,
            VcxErrorKind::InvalidJson => error::INVALID_JSON,
            VcxErrorKind::SerializationError => error::SERIALIZATION_ERROR,
            VcxErrorKind::InvalidThread => error::INVALID_MESSAGES,
            VcxErrorKind::InvalidAttachmentEncoding => error::INVALID_ATTACHMENT_ENCODING,
            VcxErrorKind::UnknownAttachmentEncoding => error::UNKNOWN_ATTACHMENT_ENCODING,
            VcxErrorKind::InvalidProof => error::INVALID_PROOF,
            VcxErrorKind::InvalidProofHandle => error::INVALID_PROOF_HANDLE,
            VcxErrorKind::InvalidHandle => error::INVALID_OBJ_HANDLE,
            VcxErrorKind::InvalidProofCredentialData => error::INVALID_PROOF_CREDENTIAL_DATA,
            VcxErrorKind::InvalidSchema => error::INVALID_SCHEMA,
            VcxErrorKind::InvalidRevocationDetails => error::INVALID_REVOCATION_DETAILS,
            VcxErrorKind::InvalidRevocationTimestamp => error::INVALID_REVOCATION_TIMESTAMP,
            VcxErrorKind::EncodeError => error::SERIALIZATION_ERROR,
            VcxErrorKind::LibindyInvalidStructure => error::LIBINDY_INVALID_STRUCTURE,
            VcxErrorKind::IOError => error::IOERROR,
            VcxErrorKind::LoggingError => error::LOGGING_ERROR,
        }
    }
}

/// A failure: its kind and a message for the reader.
#[derive(Clone, Debug, PartialEq)]
pub struct VcxError {
    pub kind: VcxErrorKind,
    pub msg: String,
}

/// What a fallible operation of the library gives.
pub type VcxResult<T> = Result<T, VcxError>;

impl VcxError {
    /// A failure of the given kind with the given message.
    pub fn from_msg(kind: VcxErrorKind, msg: &str) -> (failure: VcxError)
        ensures
            failure.spec_kind() == kind,
            failure.spec_message() == msg@,
    {
        VcxError { kind, msg: String::from_str(msg) }
    }

    /// A failure of the given kind, with the message registered for its code.
    pub fn from_kind(kind: VcxErrorKind) -> (failure: VcxError)
        ensures
            failure.spec_kind() == kind,
            failure.spec_message() == error::registered_message(kind.spec_code())@,
    {
        let code = kind.code();
        VcxError { kind, msg: error::error_message(&code) }
    }

    /// The kind of this failure.
    pub open spec fn spec_kind(&self) -> VcxErrorKind {
        self.kind
    }

    /// The message of this failure.
    pub open spec fn spec_message(&self) -> Seq<char> {
        self.msg@
    }

    /// The kind of this failure.
    #[verifier::when_used_as_spec(spec_kind)]
    pub fn kind(&self) -> (kind: VcxErrorKind)
        ensures
            kind == self.spec_kind(),
    {
        self.kind
    }

    /// The message of this failure.
    pub fn message(&self) -> (msg: &str)
        ensures
            msg@ == self.spec_message(),
    {
        self.msg.as_str()
    }

    /// The same failure under another kind, as `msg`.
    pub fn map(self, kind: VcxErrorKind, msg: &str) -> (failure: VcxError)
        ensures
            failure.spec_kind() == kind,
            failure.spec_message() == msg@,
    {
        VcxError { kind, msg: String::from_str(msg) }
    }
}

impl VcxErrorKind {
    /// The document in which the kind of failure is persisted: its name, as text.
    pub open spec fn to_doc(self) -> JsonDoc {
        match self {
            VcxErrorKind::InvalidState => JsonDoc::Text("InvalidState"@),
            VcxErrorKind::NotReady => JsonDoc::Text("NotReady"@),
            VcxErrorKind::InvalidJson => JsonDoc::Text("InvalidJson"@),
            VcxErrorKind::SerializationError => JsonDoc::Text("SerializationError"@),
            VcxErrorKind::InvalidThread => JsonDoc::Text("InvalidThread"@),
            VcxErrorKind::InvalidAttachmentEncoding => JsonDoc::Text("InvalidAttachmentEncoding"@),
            VcxErrorKind::UnknownAttachmentEncoding => JsonDoc::Text("UnknownAttachmentEncoding"@),
            VcxErrorKind::InvalidProof => JsonDoc::Text("InvalidProof"@),
            VcxErrorKind::InvalidProofHandle => JsonDoc::Text("InvalidProofHandle"@),
            VcxErrorKind::InvalidHandle => JsonDoc::Text("InvalidHandle"@),
            VcxErrorKind::InvalidProofCredentialData => JsonDoc::Text(
                "InvalidProofCredentialData"@,
            ),
            VcxErrorKind::InvalidSchema => JsonDoc::Text("InvalidSchema"@),
            VcxErrorKind::InvalidRevocationDetails => JsonDoc::Text("InvalidRevocationDetails"@),
            VcxErrorKind::InvalidRevocationTimestamp => JsonDoc::Text(
                "InvalidRevocationTimestamp"@,
            ),
            VcxErrorKind::EncodeError => JsonDoc::Text("EncodeError"@),
            VcxErrorKind::LibindyInvalidStructure => JsonDoc::Text("LibindyInvalidStructure"@),
            VcxErrorKind::IOError => JsonDoc::Text("IOError"@),
            VcxErrorKind::LoggingError => JsonDoc::Text("LoggingError"@),
        }
    }

    /// The kind of failure that a document persists.
    pub open spec fn from_doc(document: JsonDoc) -> Option<VcxErrorKind> {
        match document {
            JsonDoc::Text(text) => if text == "InvalidState"@ {
                Some(VcxErrorKind::InvalidState)
            } else if text == "NotReady"@ {
                Some(VcxErrorKind::NotReady)
            } else if text == "InvalidJson"@ {
                Some(VcxErrorKind::InvalidJson)
            } else if text == "SerializationError"@ {
                Some(VcxErrorKind::SerializationError)
            } else if text == "InvalidThread"@ {
                Some(VcxErrorKind::InvalidThread)
            } else if text == "InvalidAttachmentEncoding"@ {
                Some(VcxErrorKind::InvalidAttachmentEncoding)
            } else if text == "UnknownAttachmentEncoding"@ {
                Some(VcxErrorKind::UnknownAttachmentEncoding)
            } else if text == "InvalidProof"@ {
                Some(VcxErrorKind::InvalidProof)
            } else if text == "InvalidProofHandle"@ {
                Some(VcxErrorKind::InvalidProofHandle)
            } else if text == "InvalidHandle"@ {
                Some(VcxErrorKind::InvalidHandle)
            } else if text == "InvalidProofCredentialData"@ {
                Some(VcxErrorKind::InvalidProofCredentialData)
            } else if text == "InvalidSchema"@ {
                Some(VcxErrorKind::InvalidSchema)
            } else if text == "InvalidRevocationDetails"@ {
                Some(VcxErrorKind::InvalidRevocationDetails)
            } else if text == "InvalidRevocationTimestamp"@ {
                Some(VcxErrorKind::InvalidRevocationTimestamp)
            } else if text == "EncodeError"@ {
                Some(VcxErrorKind::EncodeError)
            } else if text == "LibindyInvalidStructure"@ {
                Some(VcxErrorKind::LibindyInvalidStructure)
            } else if text == "IOError"@ {
                Some(VcxErrorKind::IOError)
            } else if text == "LoggingError"@ {
                Some(VcxErrorKind::LoggingError)
            } else {
                None
            },
            _ => None,
        }
    }

    /// What was persisted is what is read back.
    pub proof fn read_back(self)
        ensures
            VcxErrorKind::from_doc(self.to_doc()) == Some(self),
            self.to_doc() is Text,
    {
        reveal_strlit("InvalidState");
        reveal_strlit("NotReady");
        reveal_strlit("InvalidJson");
        reveal_strlit("SerializationError");
        reveal_strlit("InvalidThread");
        reveal_strlit("InvalidAttachmentEncoding");
        reveal_strlit("UnknownAttachmentEncoding");
        reveal_strlit("InvalidProof");
        reveal_strlit("InvalidProofHandle");
        reveal_strlit("InvalidHandle");
        reveal_strlit("InvalidProofCredentialData");
        reveal_strlit("InvalidSchema");
        reveal_strlit("InvalidRevocationDetails");
        reveal_strlit("InvalidRevocationTimestamp");
        reveal_strlit("EncodeError");
        reveal_strlit("LibindyInvalidStructure");
        reveal_strlit("IOError");
        reveal_strlit("LoggingError");
        assert("InvalidState"@.len() == 12);
        assert("NotReady"@.len() == 8);
        assert("InvalidJson"@.len() == 11);
        assert("SerializationError"@.len() == 18);
        assert("InvalidThread"@.len() == 13);
        assert("InvalidAttachmentEncoding"@.len() == 25);
        assert("UnknownAttachmentEncoding"@.len() == 25);
        assert("InvalidProof"@.len() == 12);
        assert("InvalidProofHandle"@.len() == 18);
        assert("InvalidHandle"@.len() == 13);
        assert("InvalidProofCredentialData"@.len() == 26);
        assert("InvalidSchema"@.len() == 13);
        assert("InvalidRevocationDetails"@.len() == 24);
        assert("InvalidRevocationTimestamp"@.len() == 26);
        assert("EncodeError"@.len() == 11);
        assert("LibindyInvalidStructure"@.len() == 23);
        assert("IOError"@.len() == 7);
        assert("LoggingError"@.len() == 12);
        assert("InvalidState"@[7] != "InvalidProof"@[7]);
        assert("InvalidState"@[0] != "LoggingError"@[0]);
        assert("InvalidJson"@[0] != "EncodeError"@[0]);
        assert("SerializationError"@[0] != "InvalidProofHandle"@[0]);
        assert("InvalidThread"@[7] != "InvalidHandle"@[7]);
        assert("InvalidThread"@[7] != "InvalidSchema"@[7]);
        assert("InvalidAttachmentEncoding"@[0] != "UnknownAttachmentEncoding"@[0]);
        assert("InvalidProof"@[0] != "LoggingError"@[0]);
        assert("InvalidHandle"@[7] != "InvalidSchema"@[7]);
        assert("InvalidProofCredentialData"@[7] != "InvalidRevocationTimestamp"@[7]);
    }

    /// Writes the kind of failure as a document.
    pub fn to_document(&self) -> (document: JsonValue)
        ensures
            document@ == self.to_doc(),
    {
        match self {
            VcxErrorKind::InvalidState => JsonValue::from_str("InvalidState"),
            VcxErrorKind::NotReady => JsonValue::from_str("NotReady"),
            VcxErrorKind::InvalidJson => JsonValue::from_str("InvalidJson"),
            VcxErrorKind::SerializationError => JsonValue::from_str("SerializationError"),
            VcxErrorKind::InvalidThread => JsonValue::from_str("InvalidThread"),
            VcxErrorKind::InvalidAttachmentEncoding => JsonValue::from_str(
                "InvalidAttachmentEncoding",
            ),
            VcxErrorKind::UnknownAttachmentEncoding => JsonValue::from_str(
                "UnknownAttachmentEncoding",
            ),
            VcxErrorKind::InvalidProof => JsonValue::from_str("InvalidProof"),
            VcxErrorKind::InvalidProofHandle => JsonValue::from_str("InvalidProofHandle"),
            VcxErrorKind::InvalidHandle => JsonValue::from_str("InvalidHandle"),
            VcxErrorKind::InvalidProofCredentialData => JsonValue::from_str(
                "InvalidProofCredentialData",
            ),
            VcxErrorKind::InvalidSchema => JsonValue::from_str("InvalidSchema"),
            VcxErrorKind::InvalidRevocationDetails => JsonValue::from_str(
                "InvalidRevocationDetails",
            ),
            VcxErrorKind::InvalidRevocationTimestamp => JsonValue::from_str(
                "InvalidRevocationTimestamp",
            ),
            VcxErrorKind::EncodeError => JsonValue::from_str("EncodeError"),
            VcxErrorKind::LibindyInvalidStructure => JsonValue::from_str("LibindyInvalidStructure"),
            VcxErrorKind::IOError => JsonValue::from_str("IOError"),
            VcxErrorKind::LoggingError => JsonValue::from_str("LoggingError"),
        }
    }

    /// Reads the kind of failure from a document.
    pub fn from_document(document: &JsonValue) -> (read: Option<VcxErrorKind>)
        ensures
            read == VcxErrorKind::from_doc(document@),
    {
        let text = match document.as_str() {
            Some(text) => text,
            None => {
                return None;
            },
        };
        if text_eq(text, "InvalidState") {
            Some(VcxErrorKind::InvalidState)
        } else if text_eq(text, "NotReady") {
            Some(VcxErrorKind::NotReady)
        } else if text_eq(text, "InvalidJson") {
            Some(VcxErrorKind::InvalidJson)
        } else if text_eq(text, "SerializationError") {
            Some(VcxErrorKind::SerializationError)
        } else if text_eq(text, "InvalidThread") {
            Some(VcxErrorKind::InvalidThread)
        } else if text_eq(text, "InvalidAttachmentEncoding") {
            Some(VcxErrorKind::InvalidAttachmentEncoding)
        } else if text_eq(text, "UnknownAttachmentEncoding") {
            Some(VcxErrorKind::UnknownAttachmentEncoding)
        } else if text_eq(text, "InvalidProof") {
            Some(VcxErrorKind::InvalidProof)
        } else if text_eq(text, "InvalidProofHandle") {
            Some(VcxErrorKind::InvalidProofHandle)
        } else if text_eq(text, "InvalidHandle") {
            Some(VcxErrorKind::InvalidHandle)
        } else if text_eq(text, "InvalidProofCredentialData") {
            Some(VcxErrorKind::InvalidProofCredentialData)
        } else if text_eq(text, "InvalidSchema") {
            Some(VcxErrorKind::InvalidSchema)
        } else if text_eq(text, "InvalidRevocationDetails") {
            Some(VcxErrorKind::InvalidRevocationDetails)
        } else if text_eq(text, "InvalidRevocationTimestamp") {
            Some(VcxErrorKind::InvalidRevocationTimestamp)
        } else if text_eq(text, "EncodeError") {
            Some(VcxErrorKind::EncodeError)
        } else if text_eq(text, "LibindyInvalidStructure") {
            Some(VcxErrorKind::LibindyInvalidStructure)
        } else if text_eq(text, "IOError") {
            Some(VcxErrorKind::IOError)
        } else if text_eq(text, "LoggingError") {
            Some(VcxErrorKind::LoggingError)
        } else {
            None
        }
    }

    /// Reads the kind of failure from a member that may be missing.
    pub fn read(member: Option<&JsonValue>) -> (read: Option<VcxErrorKind>)
        ensures
            read == VcxErrorKind::from_doc(member_doc(member)),
    {
        match member {
            Some(document) => VcxErrorKind::from_document(document),
            None => None,
        }
    }
}

/// What a `VcxError` is: its value, with texts as sequences of characters.
pub struct VcxErrorView {
    pub kind: VcxErrorKind,
    pub msg: Seq<char>,
}

impl View for VcxError {
    type V = VcxErrorView;

    open spec fn view(&self) -> VcxErrorView {
        VcxErrorView {
            kind: self.kind,
            msg: self.msg@,
        }
    }
}

impl DeepView for VcxError {
    type V = VcxErrorView;

    open spec fn deep_view(&self) -> VcxErrorView {
        self@
    }
}

impl VcxErrorView {
    /// The document in which the failure is persisted.
    pub open spec fn to_doc(self) -> JsonDoc {
        JsonDoc::Object(
            Map::<Seq<char>, JsonDoc>::empty().insert(
                "kind"@,
                self.kind.to_doc(),
            ).insert(
                "msg"@,
                JsonDoc::Text(self.msg),
            ),
        )
    }

    /// The failure that a document persists: an object whose members hold it.
    pub open spec fn from_doc(document: JsonDoc) -> Option<VcxErrorView> {
        if document is Object
            && VcxErrorKind::from_doc(document.member("kind"@)) is Some
            && as_text(document.member("msg"@)) is Some {
            Some(
                VcxErrorView {
                    kind: VcxErrorKind::from_doc(document.member("kind"@))->0,
                    msg: as_text(document.member("msg"@))->0,
                },
            )
        } else {
            None
        }
    }

    /// What was persisted is what is read back.
    pub proof fn read_back(self)
        ensures
            VcxErrorView::from_doc(self.to_doc()) == Some(self),
            self.to_doc() is Object,
    {
        reveal_strlit("kind");
        reveal_strlit("msg");
        assert("kind"@.len() == 4);
        assert("msg"@.len() == 3);
        values_are_read_back();
        self.kind.read_back();
    }
}

impl VcxError {
    /// Writes the failure as a document.
    pub fn to_document(&self) -> (document: JsonValue)
        ensures
            document@ == self@.to_doc(),
    {
        let mut document = JsonValue::object();
        document.insert(String::from_str("kind"), self.kind.to_document());
        document.insert(String::from_str("msg"), JsonValue::String(self.msg.clone()));
        document
    }

    /// Reads the failure from a document.
    pub fn from_document(document: &JsonValue) -> (read: Option<VcxError>)
        ensures
            match VcxErrorView::from_doc(document@) {
                Some(view) => read is Some && read->0@ == view,
                None => read is None,
            },
    {
        if !document.is_object() {
            return None;
        }
        let kind = match VcxErrorKind::read(document.get("kind")) {
            Some(value) => value,
            None => {
                return None;
            },
        };
        let msg = match read_text(document.get("msg")) {
            Some(value) => value,
            None => {
                return None;
            },
        };
        Some(VcxError { kind, msg })
    }

    /// Reads the failure from a member that may be missing.
    pub fn read(member: Option<&JsonValue>) -> (read: Option<VcxError>)
        ensures
            match VcxErrorView::from_doc(member_doc(member)) {
                Some(view) => read is Some && read->0@ == view,
                None => read is None,
            },
    {
        match member {
            Some(document) => VcxError::from_document(document),
            None => None,
        }
    }
}

} // verus!
