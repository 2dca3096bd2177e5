//! The proof as it arrives, and the credentials it names.

use vstd::prelude::*;
use vstd::string::StringExecFns;

use crate::api_lib::VcxStateType;
use crate::error::{VcxError, VcxErrorKind, VcxResult};
use crate::utils::codec::{
    as_opt_text, as_text, member_doc, opt_text_doc, read_opt_text, read_text, values_are_read_back,
    write_opt_text,
};
use crate::utils::json::{json_parsed, JsonDoc, JsonValue};
use crate::utils::text::opt_text;

verus! {

/// The message that carries a proof.
#[derive(Debug, Clone, PartialEq)]
pub struct ProofMessage {
    pub version: Option<String>,
    pub to_did: Option<String>,
    pub from_did: Option<String>,
    pub proof_request_id: Option<String>,
    pub libindy_proof: String,
    pub state: Option<VcxStateType>,
}

/// What a `ProofMessage` is: its value, with texts as sequences of characters.
pub struct ProofMessageView {
    pub version: Option<Seq<char>>,
    pub to_did: Option<Seq<char>>,
    pub from_did: Option<Seq<char>>,
    pub proof_request_id: Option<Seq<char>>,
    pub libindy_proof: Seq<char>,
    pub state: Option<VcxStateType>,
}

impl View for ProofMessage {
    type V = ProofMessageView;

    open spec fn view(&self) -> ProofMessageView {
        ProofMessageView {
            version: opt_text(self.version),
            to_did: opt_text(self.to_did),
            from_did: opt_text(self.from_did),
            proof_request_id: opt_text(self.proof_request_id),
            libindy_proof: self.libindy_proof@,
            state: self.state,
        }
    }
}

impl DeepView for ProofMessage {
    type V = ProofMessageView;

    open spec fn deep_view(&self) -> ProofMessageView {
        self@
    }
}

/// An optional text member: missing or null is no text, a string is its
/// text, anything else is a mistake (`None`).
pub open spec fn optional_text(member: JsonDoc) -> Option<Option<Seq<char>>> {
    match member {
        JsonDoc::Null => Some(None),
        JsonDoc::Text(text) => Some(Some(text)),
        _ => None,
    }
}

/// The proof message that a document holds: an object whose member
/// `libindy_proof` is a string and whose members `version`, `to_did`,
/// `from_did` and `proof_request_id` are strings where they are there. Its
/// state is not part of the document.
pub open spec fn proof_message_of(document: JsonDoc) -> Option<ProofMessageView> {
    if document is Object && document.member("libindy_proof"@) is Text && optional_text(
        document.member("version"@),
    ) is Some && optional_text(document.member("to_did"@)) is Some && optional_text(
        document.member("from_did"@),
    ) is Some && optional_text(document.member("proof_request_id"@)) is Some {
        Some(
            ProofMessageView {
                version: optional_text(document.member("version"@))->0,
                to_did: optional_text(document.member("to_did"@))->0,
                from_did: optional_text(document.member("from_did"@))->0,
                proof_request_id: optional_text(document.member("proof_request_id"@))->0,
                libindy_proof: document.member("libindy_proof"@)->Text_0,
                state: None,
            },
        )
    } else {
        None
    }
}

/// Reads an optional text member.
fn read_optional_text(document: &JsonValue, name: &str) -> (read: Option<Option<String>>)
    ensures
        match optional_text(document@.member(name@)) {
            Some(text) => read is Some && opt_text(read->0) == text,
            None => read is None,
        },
{
    match document.get(name) {
        None => Some(None),
        Some(member) => match member {
            JsonValue::Null => Some(None),
            JsonValue::String(text) => Some(Some(text.clone())),
            _ => None,
        },
    }
}

impl ProofMessage {
    /// A message that carries nothing yet.
    pub fn new() -> (message: ProofMessage)
        ensures
            message@ == (ProofMessageView {
                version: None,
                to_did: None,
                from_did: None,
                proof_request_id: None,
                libindy_proof: Seq::empty(),
                state: None,
            }),
    {
        ProofMessage {
            version: None,
            to_did: None,
            from_did: None,
            proof_request_id: None,
            libindy_proof: String::new(),
            state: None,
        }
    }

    /// The proof message that `document` holds, if it holds one.
    pub fn from_document(document: &JsonValue) -> (message: Option<ProofMessage>)
        ensures
            match proof_message_of(document@) {
                Some(view) => message is Some && message->0@ == view,
                None => message is None,
            },
    {
        if !document.is_object() {
            return None;
        }
        let libindy_proof = match document.get("libindy_proof") {
            Some(member) => match member.as_str() {
                Some(text) => text.to_owned(),
                None => {
                    return None;
                },
            },
            None => {
                return None;
            },
        };
        let version = match read_optional_text(document, "version") {
            Some(text) => text,
            None => {
                return None;
            },
        };
        let to_did = match read_optional_text(document, "to_did") {
            Some(text) => text,
            None => {
                return None;
            },
        };
        let from_did = match read_optional_text(document, "from_did") {
            Some(text) => text,
            None => {
                return None;
            },
        };
        let proof_request_id = match read_optional_text(document, "proof_request_id") {
            Some(text) => text,
            None => {
                return None;
            },
        };
        Some(
            ProofMessage {
                version,
                to_did,
                from_did,
                proof_request_id,
                libindy_proof,
                state: None,
            },
        )
    }

    /// The proof message that the JSON text `payload` holds.
    ///
    /// Fails with `InvalidJson` where the text is no JSON or holds no proof
    /// message.
    pub fn from_str(payload: &str) -> (message: VcxResult<ProofMessage>)
        ensures
            match proof_message_in(payload@) {
                Some(view) => message is Ok && message->Ok_0@ == view,
                None => message is Err && message->Err_0.kind() == VcxErrorKind::InvalidJson,
            },
    {
        let parsed = match JsonValue::from_text(payload) {
            Some(document) => ProofMessage::from_document(&document),
            None => None,
        };
        match parsed {
            Some(message) => Ok(message),
            None => Err(
                VcxError::from_msg(VcxErrorKind::InvalidJson, "Cannot deserialize ProofMessage"),
            ),
        }
    }
}

/// The proof message that a JSON text holds.
pub open spec fn proof_message_in(payload: Seq<char>) -> Option<ProofMessageView> {
    match json_parsed(payload) {
        Some(document) => proof_message_of(document),
        None => None,
    }
}

/// The identifiers of one credential that a proof was made from.
#[derive(Debug, Clone, PartialEq)]
pub struct CredInfo {
    pub schema_id: String,
    pub cred_def_id: String,
    pub rev_reg_id: Option<String>,
    pub timestamp: Option<u64>,
}

/// What a `CredInfo` is: its value, with texts as sequences of characters.
pub struct CredInfoView {
    pub schema_id: Seq<char>,
    pub cred_def_id: Seq<char>,
    pub rev_reg_id: Option<Seq<char>>,
    pub timestamp: Option<u64>,
}

impl View for CredInfo {
    type V = CredInfoView;

    open spec fn view(&self) -> CredInfoView {
        CredInfoView {
            schema_id: self.schema_id@,
            cred_def_id: self.cred_def_id@,
            rev_reg_id: opt_text(self.rev_reg_id),
            timestamp: self.timestamp,
        }
    }
}

impl DeepView for CredInfo {
    type V = CredInfoView;

    open spec fn deep_view(&self) -> CredInfoView {
        self@
    }
}

/// The identifiers that one entry of the list names: its schema and its
/// credential definition must be strings; the revocation registry and the
/// timestamp count only where they are a string and an unsigned number.
pub open spec fn cred_info_of(identifier: JsonDoc) -> Option<CredInfoView> {
    if identifier.member("schema_id"@) is Text && identifier.member("cred_def_id"@) is Text {
        Some(
            CredInfoView {
                schema_id: identifier.member("schema_id"@)->Text_0,
                cred_def_id: identifier.member("cred_def_id"@)->Text_0,
                rev_reg_id: identifier.member("rev_reg_id"@).text(),
                timestamp: identifier.member("timestamp"@).unsigned(),
            },
        )
    } else {
        None
    }
}

/// The identifiers of the first `count` entries, or `None` where one of them
/// names no schema or no credential definition.
pub open spec fn cred_infos_of(identifiers: Seq<JsonDoc>, count: nat) -> Option<Seq<CredInfoView>>
    decreases count,
{
    if count == 0 {
        Some(Seq::empty())
    } else {
        match (
            cred_infos_of(identifiers, (count - 1) as nat),
            cred_info_of(identifiers[count - 1]),
        ) {
            (Some(before), Some(info)) => Some(before.push(info)),
            _ => None,
        }
    }
}

/// The credentials that a proof names: those of the list `identifiers` of
/// the proof; none where the proof has no such list.
pub open spec fn credential_info(proof: JsonDoc) -> Option<Seq<CredInfoView>> {
    match proof.member("identifiers"@) {
        JsonDoc::Array(identifiers) => cred_infos_of(identifiers, identifiers.len()),
        _ => Some(Seq::empty()),
    }
}

/// Reads the identifiers that one entry names.
fn read_cred_info(identifier: &JsonValue) -> (info: Option<CredInfo>)
    ensures
        match cred_info_of(identifier@) {
            Some(view) => info is Some && info->0@ == view,
            None => info is None,
        },
{
    let schema_id = match identifier.get("schema_id") {
        Some(member) => match member.as_str() {
            Some(text) => text.to_owned(),
            None => {
                return None;
            },
        },
        None => {
            return None;
        },
    };
    let cred_def_id = match identifier.get("cred_def_id") {
        Some(member) => match member.as_str() {
            Some(text) => text.to_owned(),
            None => {
                return None;
            },
        },
        None => {
            return None;
        },
    };
    let rev_reg_id = match identifier.get("rev_reg_id") {
        Some(member) => match member.as_str() {
            Some(text) => Some(text.to_owned()),
            None => None,
        },
        None => None,
    };
    let timestamp = match identifier.get("timestamp") {
        Some(member) => member.as_u64(),
        None => None,
    };
    Some(CredInfo { schema_id, cred_def_id, rev_reg_id, timestamp })
}

/// The credentials that the proof `proof` names.
///
/// Fails with `InvalidProofCredentialData` where an entry of the list names
/// no schema or no credential definition.
pub fn credential_info_of(proof: &JsonValue) -> (infos: VcxResult<Vec<CredInfo>>)
    ensures
        match credential_info(proof@) {
            Some(views) => infos is Ok && infos->Ok_0.deep_view() == views,
            None => infos is Err && infos->Err_0.kind()
                == VcxErrorKind::InvalidProofCredentialData,
        },
{
    let mut infos: Vec<CredInfo> = Vec::new();
    match proof.get("identifiers") {
        Some(JsonValue::Array(identifiers)) => {
            proof {
                crate::utils::json::lemma_items_doc(identifiers@);
            }
            let ghost docs = crate::utils::json::items_doc(identifiers@);
            let mut i: usize = 0;
            while i < identifiers.len()
                invariant
                    i <= identifiers.len(),
                    docs.len() == identifiers.len(),
                    proof@.member("identifiers"@) == JsonDoc::Array(docs),
                    forall|k: int| 0 <= k < identifiers.len() ==> docs[k] == identifiers[k]@,
                    cred_infos_of(docs, i as nat) == Some(infos.deep_view()),
                decreases identifiers.len() - i,
            {
                match read_cred_info(&identifiers[i]) {
                    Some(info) => {
                        let ghost before = infos.deep_view();
                        infos.push(info);
                        assert(infos.deep_view() =~= before.push(info@));
                    },
                    None => {
                        proof {
                            assert(cred_info_of(docs[i as int]) is None);
                            assert(cred_infos_of(docs, (i + 1) as nat) is None);
                            lemma_cred_infos_fail(docs, (i + 1) as nat, docs.len());
                        }
                        return Err(
                            VcxError::from_msg(
                                VcxErrorKind::InvalidProofCredentialData,
                                "Cannot get identifiers",
                            ),
                        );
                    },
                }
                i += 1;
            }
            Ok(infos)
        },
        _ => {
            assert(infos.deep_view() =~= Seq::<CredInfoView>::empty());
            Ok(infos)
        },
    }
}

proof fn lemma_cred_infos_fail(identifiers: Seq<JsonDoc>, failed: nat, count: nat)
    requires
        failed <= count,
        cred_infos_of(identifiers, failed) is None,
    ensures
        cred_infos_of(identifiers, count) is None,
    decreases count,
{
    if failed < count {
        lemma_cred_infos_fail(identifiers, failed, (count - 1) as nat);
    }
}

/// The credentials that the proof in the JSON text `proof` names.
///
/// Fails with `InvalidJson` where the text is no JSON, and as
/// [`credential_info_of`] does.
pub fn get_credential_info(proof: &str) -> (infos: VcxResult<Vec<CredInfo>>)
    ensures
        match json_parsed(proof@) {
            None => infos is Err && infos->Err_0.kind() == VcxErrorKind::InvalidJson,
            Some(document) => match credential_info(document) {
                Some(views) => infos is Ok && infos->Ok_0.deep_view() == views,
                None => infos is Err && infos->Err_0.kind()
                    == VcxErrorKind::InvalidProofCredentialData,
            },
        },
{
    match JsonValue::from_text(proof) {
        Some(document) => credential_info_of(&document),
        None => Err(VcxError::from_msg(VcxErrorKind::InvalidJson, "Cannot deserialize proof")),
    }
}

impl ProofMessageView {
    /// The document in which the proof message is persisted.
    pub open spec fn to_doc(self) -> JsonDoc {
        JsonDoc::Object(
            Map::<Seq<char>, JsonDoc>::empty().insert(
                "version"@,
                opt_text_doc(self.version),
            ).insert(
                "to_did"@,
                opt_text_doc(self.to_did),
            ).insert(
                "from_did"@,
                opt_text_doc(self.from_did),
            ).insert(
                "proof_request_id"@,
                opt_text_doc(self.proof_request_id),
            ).insert(
                "libindy_proof"@,
                JsonDoc::Text(self.libindy_proof),
            ).insert(
                "state"@,
                VcxStateType::opt_to_doc(self.state),
            ),
        )
    }

    /// The proof message that a document persists: an object whose members hold it.
    pub open spec fn from_doc(document: JsonDoc) -> Option<ProofMessageView> {
        if document is Object
            && as_opt_text(document.member("version"@)) is Some
            && as_opt_text(document.member("to_did"@)) is Some
            && as_opt_text(document.member("from_did"@)) is Some
            && as_opt_text(document.member("proof_request_id"@)) is Some
            && as_text(document.member("libindy_proof"@)) is Some
            && VcxStateType::opt_from_doc(document.member("state"@)) is Some {
            Some(
                ProofMessageView {
                    version: as_opt_text(document.member("version"@))->0,
                    to_did: as_opt_text(document.member("to_did"@))->0,
                    from_did: as_opt_text(document.member("from_did"@))->0,
                    proof_request_id: as_opt_text(document.member("proof_request_id"@))->0,
                    libindy_proof: as_text(document.member("libindy_proof"@))->0,
                    state: VcxStateType::opt_from_doc(document.member("state"@))->0,
                },
            )
        } else {
            None
        }
    }

    /// What was persisted is what is read back.
    pub proof fn read_back(self)
        ensures
            ProofMessageView::from_doc(self.to_doc()) == Some(self),
            self.to_doc() is Object,
    {
        reveal_strlit("version");
        reveal_strlit("to_did");
        reveal_strlit("from_did");
        reveal_strlit("proof_request_id");
        reveal_strlit("libindy_proof");
        reveal_strlit("state");
        assert("version"@.len() == 7);
        assert("to_did"@.len() == 6);
        assert("from_did"@.len() == 8);
        assert("proof_request_id"@.len() == 16);
        assert("libindy_proof"@.len() == 13);
        assert("state"@.len() == 5);
        values_are_read_back();
        VcxStateType::opt_read_back(self.state);
    }

    /// The document of an optional proof message: its document, or null.
    pub open spec fn opt_to_doc(value: Option<ProofMessageView>) -> JsonDoc {
        match value {
            Some(v) => v.to_doc(),
            None => JsonDoc::Null,
        }
    }

    /// The optional proof message that a document persists.
    pub open spec fn opt_from_doc(document: JsonDoc) -> Option<Option<ProofMessageView>> {
        match document {
            JsonDoc::Null => Some(None),
            _ => match ProofMessageView::from_doc(document) {
                Some(v) => Some(Some(v)),
                None => None,
            },
        }
    }

    /// What was persisted is what is read back.
    pub proof fn opt_read_back(value: Option<ProofMessageView>)
        ensures
            ProofMessageView::opt_from_doc(ProofMessageView::opt_to_doc(value)) == Some(value),
    {
        if value is Some {
            value->0.read_back();
        }
    }
}

impl ProofMessage {
    /// Writes the proof message as a document.
    pub fn to_document(&self) -> (document: JsonValue)
        ensures
            document@ == self@.to_doc(),
    {
        let mut document = JsonValue::object();
        document.insert(String::from_str("version"), write_opt_text(&self.version));
        document.insert(String::from_str("to_did"), write_opt_text(&self.to_did));
        document.insert(String::from_str("from_did"), write_opt_text(&self.from_did));
        document.insert(
            String::from_str("proof_request_id"),
            write_opt_text(&self.proof_request_id),
        );
        document.insert(
            String::from_str("libindy_proof"),
            JsonValue::String(self.libindy_proof.clone()),
        );
        document.insert(String::from_str("state"), VcxStateType::write_opt(&self.state));
        document
    }

    /// Reads the proof message, with its state, from the document in which it was
    /// persisted.
    pub fn from_persisted(document: &JsonValue) -> (read: Option<ProofMessage>)
        ensures
            match ProofMessageView::from_doc(document@) {
                Some(view) => read is Some && read->0@ == view,
                None => read is None,
            },
    {
        if !document.is_object() {
            return None;
        }
        let version = match read_opt_text(document.get("version")) {
            Some(value) => value,
            None => {
                return None;
            },
        };
        let to_did = match read_opt_text(document.get("to_did")) {
            Some(value) => value,
            None => {
                return None;
            },
        };
        let from_did = match read_opt_text(document.get("from_did")) {
            Some(value) => value,
            None => {
                return None;
            },
        };
        let proof_request_id = match read_opt_text(document.get("proof_request_id")) {
            Some(value) => value,
            None => {
                return None;
            },
        };
        let libindy_proof = match read_text(document.get("libindy_proof")) {
            Some(value) => value,
            None => {
                return None;
            },
        };
        let state = match VcxStateType::read_opt(document.get("state")) {
            Some(value) => value,
            None => {
                return None;
            },
        };
        Some(ProofMessage { version, to_did, from_did, proof_request_id, libindy_proof, state })
    }

    /// Reads the proof message from a member that may be missing.
    pub fn read(member: Option<&JsonValue>) -> (read: Option<ProofMessage>)
        ensures
            match ProofMessageView::from_doc(member_doc(member)) {
                Some(view) => read is Some && read->0@ == view,
                None => read is None,
            },
    {
        match member {
            Some(document) => ProofMessage::from_persisted(document),
            None => None,
        }
    }

    /// Writes an optional proof message as a document.
    pub fn write_opt(value: &Option<ProofMessage>) -> (document: JsonValue)
        ensures
            document@ == ProofMessageView::opt_to_doc(value.deep_view()),
    {
        match value {
            Some(v) => v.to_document(),
            None => JsonValue::Null,
        }
    }

    /// Reads an optional proof message from a member that may be missing.
    pub fn read_opt(member: Option<&JsonValue>) -> (read: Option<Option<ProofMessage>>)
        ensures
            match ProofMessageView::opt_from_doc(member_doc(member)) {
                Some(view) => read is Some && read->0.deep_view() == view,
                None => read is None,
            },
    {
        match member {
            None => Some(None),
            Some(JsonValue::Null) => Some(None),
            Some(document) => match ProofMessage::from_persisted(document) {
                Some(v) => Some(Some(v)),
                None => None,
            },
        }
    }
}

} // verus!
