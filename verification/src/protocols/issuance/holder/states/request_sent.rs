//! The holder after its request went out.

use vstd::prelude::*;
use vstd::std_specs::convert::FromSpecImpl;
use vstd::string::StringExecFns;

use crate::error::{VcxError, VcxErrorKind, VcxResult};
use crate::messages::error::ProblemReport;
use crate::messages::issuance::credential::Credential;
use crate::messages::status::Status;
use crate::protocols::issuance::holder::states::finished::FinishedHolderState;
use crate::utils::codec::{as_text, member_doc, read_text, values_are_read_back};
use crate::utils::json::{json_parsed, JsonDoc, JsonValue};

verus! {

/// The request is out; the credential is awaited. The credential definition
/// is kept as the JSON text in which it was resolved.
#[derive(Debug, Clone, PartialEq)]
pub struct RequestSentState {
    pub req_meta: String,
    pub cred_def_json: String,
}

impl From<(RequestSentState, String, Credential, Option<String>)> for FinishedHolderState {
    fn from(quad: (RequestSentState, String, Credential, Option<String>)) -> (finished:
        FinishedHolderState) {
        let (_state, cred_id, credential, rev_reg_def_json) = quad;
        FinishedHolderState {
            cred_id: Some(cred_id),
            credential: Some(credential),
            status: Status::Success,
            rev_reg_def_json,
        }
    }
}

impl FromSpecImpl<(RequestSentState, String, Credential, Option<String>)> for FinishedHolderState {
    open spec fn obeys_from_spec() -> bool {
        true
    }

    /// The issuance ended in success: the credential, the identifier under
    /// which it was stored and the revocation registry definition, if any, are
    /// recorded; nothing of the request is kept.
    open spec fn from_spec(quad: (RequestSentState, String, Credential, Option<String>))
        -> FinishedHolderState {
        FinishedHolderState {
            cred_id: Some(quad.1),
            credential: Some(quad.2),
            status: Status::Success,
            rev_reg_def_json: quad.3,
        }
    }
}

impl From<(RequestSentState, ProblemReport)> for FinishedHolderState {
    fn from(pair: (RequestSentState, ProblemReport)) -> (finished: FinishedHolderState) {
        let (_state, problem_report) = pair;
        FinishedHolderState {
            cred_id: None,
            credential: None,
            status: Status::Declined(problem_report),
            rev_reg_def_json: None,
        }
    }
}

impl FromSpecImpl<(RequestSentState, ProblemReport)> for FinishedHolderState {
    open spec fn obeys_from_spec() -> bool {
        true
    }

    /// The issuance ended declined, with the report and without a credential.
    open spec fn from_spec(pair: (RequestSentState, ProblemReport)) -> FinishedHolderState {
        FinishedHolderState::declined(pair.1)
    }
}

/// Whether a credential definition supports revocation: its member
/// `value.revocation` is there and not null.
pub open spec fn supports_revocation(cred_def: JsonDoc) -> bool {
    !(cred_def.member("value"@).member("revocation"@) is Null)
}

/// Whether the credential definition `cred_def` supports revocation.
pub fn revocation_supported(cred_def: &JsonValue) -> (revokable: bool)
    ensures
        revokable == supports_revocation(cred_def@),
{
    match cred_def.get("value") {
        Some(value) => !value.member_is_null("revocation"),
        None => false,
    }
}

impl RequestSentState {
    /// Whether the credential that was asked for can be revoked, going by the
    /// credential definition alone.
    ///
    /// Fails with `SerializationError` where the stored credential definition
    /// is no JSON.
    pub fn is_revokable(&self) -> (revokable: VcxResult<bool>)
        ensures
            match json_parsed(self.cred_def_json@) {
                Some(cred_def) => revokable == Ok::<bool, VcxError>(supports_revocation(cred_def)),
                None => revokable is Err && revokable->Err_0.kind()
                    == VcxErrorKind::SerializationError,
            },
    {
        match JsonValue::from_text(self.cred_def_json.as_str()) {
            Some(cred_def) => Ok(revocation_supported(&cred_def)),
            None => Err(
                VcxError::from_msg(
                    VcxErrorKind::SerializationError,
                    "Failed deserialize credential definition json",
                ),
            ),
        }
    }
}

/// What a `RequestSentState` is: its value, with texts as sequences of characters.
pub struct RequestSentStateView {
    pub req_meta: Seq<char>,
    pub cred_def_json: Seq<char>,
}

impl View for RequestSentState {
    type V = RequestSentStateView;

    open spec fn view(&self) -> RequestSentStateView {
        RequestSentStateView {
            req_meta: self.req_meta@,
            cred_def_json: self.cred_def_json@,
        }
    }
}

impl DeepView for RequestSentState {
    type V = RequestSentStateView;

    open spec fn deep_view(&self) -> RequestSentStateView {
        self@
    }
}

impl RequestSentStateView {
    /// The document in which the state is persisted.
    pub open spec fn to_doc(self) -> JsonDoc {
        JsonDoc::Object(
            Map::<Seq<char>, JsonDoc>::empty().insert(
                "req_meta"@,
                JsonDoc::Text(self.req_meta),
            ).insert(
                "cred_def_json"@,
                JsonDoc::Text(self.cred_def_json),
            ),
        )
    }

    /// The state that a document persists: an object whose members hold it.
    pub open spec fn from_doc(document: JsonDoc) -> Option<RequestSentStateView> {
        if document is Object
            && as_text(document.member("req_meta"@)) is Some
            && as_text(document.member("cred_def_json"@)) is Some {
            Some(
                RequestSentStateView {
                    req_meta: as_text(document.member("req_meta"@))->0,
                    cred_def_json: as_text(document.member("cred_def_json"@))->0,
                },
            )
        } else {
            None
        }
    }

    /// What was persisted is what is read back.
    pub proof fn read_back(self)
        ensures
            RequestSentStateView::from_doc(self.to_doc()) == Some(self),
            self.to_doc() is Object,
    {
        reveal_strlit("req_meta");
        reveal_strlit("cred_def_json");
        assert("req_meta"@.len() == 8);
        assert("cred_def_json"@.len() == 13);
        values_are_read_back();
    }
}

impl RequestSentState {
    /// Writes the state as a document.
    pub fn to_document(&self) -> (document: JsonValue)
        ensures
            document@ == self@.to_doc(),
    {
        let mut document = JsonValue::object();
        document.insert(String::from_str("req_meta"), JsonValue::String(self.req_meta.clone()));
        document.insert(
            String::from_str("cred_def_json"),
            JsonValue::String(self.cred_def_json.clone()),
        );
        document
    }

    /// Reads the state from a document.
    pub fn from_document(document: &JsonValue) -> (read: Option<RequestSentState>)
        ensures
            match RequestSentStateView::from_doc(document@) {
                Some(view) => read is Some && read->0@ == view,
                None => read is None,
            },
    {
        if !document.is_object() {
            return None;
        }
        let req_meta = match read_text(document.get("req_meta")) {
            Some(value) => value,
            None => {
                return None;
            },
        };
        let cred_def_json = match read_text(document.get("cred_def_json")) {
            Some(value) => value,
            None => {
                return None;
            },
        };
        Some(RequestSentState { req_meta, cred_def_json })
    }

    /// Reads the state from a member that may be missing.
    pub fn read(member: Option<&JsonValue>) -> (read: Option<RequestSentState>)
        ensures
            match RequestSentStateView::from_doc(member_doc(member)) {
                Some(view) => read is Some && read->0@ == view,
                None => read is None,
            },
    {
        match member {
            Some(document) => RequestSentState::from_document(document),
            None => None,
        }
    }
}

} // verus!
