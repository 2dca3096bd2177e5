//! The issuer after the request arrived.

use vstd::prelude::*;
use vstd::std_specs::convert::FromSpecImpl;
use vstd::string::StringExecFns;

use crate::messages::error::ProblemReport;
use crate::messages::issuance::credential_offer::{CredentialOffer, CredentialOfferView};
use crate::messages::issuance::credential_request::{CredentialRequest, CredentialRequestView};
use crate::messages::status::Status;
use crate::protocols::issuance::issuer::states::finished::FinishedState;
use crate::utils::codec::{as_text, member_doc, read_text, values_are_read_back};
use crate::utils::json::{JsonDoc, JsonValue};

verus! {

/// The request arrived; the credential is to be made and sent.
#[derive(Debug, Clone, PartialEq)]
pub struct RequestReceivedState {
    pub offer: CredentialOffer,
    pub cred_data: String,
    pub request: CredentialRequest,
}

impl From<(RequestReceivedState, Option<String>)> for FinishedState {
    fn from(pair: (RequestReceivedState, Option<String>)) -> (finished: FinishedState) {
        let (_state, cred_id) = pair;
        FinishedState { cred_id, status: Status::Success }
    }
}

impl FromSpecImpl<(RequestReceivedState, Option<String>)> for FinishedState {
    open spec fn obeys_from_spec() -> bool {
        true
    }

    /// The issuance ended in success; the identifier under which the
    /// credential can be revoked, if any, is recorded, and nothing of the
    /// offer and the request is kept.
    open spec fn from_spec(pair: (RequestReceivedState, Option<String>)) -> FinishedState {
        FinishedState { cred_id: pair.1, status: Status::Success }
    }
}

impl From<(RequestReceivedState, ProblemReport)> for FinishedState {
    fn from(pair: (RequestReceivedState, ProblemReport)) -> (finished: FinishedState) {
        let (_state, problem_report) = pair;
        FinishedState { cred_id: None, status: Status::Declined(problem_report) }
    }
}

impl FromSpecImpl<(RequestReceivedState, ProblemReport)> for FinishedState {
    open spec fn obeys_from_spec() -> bool {
        true
    }

    /// The issuance ended declined, with the report and without a credential.
    open spec fn from_spec(pair: (RequestReceivedState, ProblemReport)) -> FinishedState {
        FinishedState::declined(pair.1)
    }
}

/// What a `RequestReceivedState` is: its value, with texts as sequences of characters.
pub struct RequestReceivedStateView {
    pub offer: CredentialOfferView,
    pub cred_data: Seq<char>,
    pub request: CredentialRequestView,
}

impl View for RequestReceivedState {
    type V = RequestReceivedStateView;

    open spec fn view(&self) -> RequestReceivedStateView {
        RequestReceivedStateView {
            offer: self.offer@,
            cred_data: self.cred_data@,
            request: self.request@,
        }
    }
}

impl DeepView for RequestReceivedState {
    type V = RequestReceivedStateView;

    open spec fn deep_view(&self) -> RequestReceivedStateView {
        self@
    }
}

impl RequestReceivedStateView {
    /// The document in which the state is persisted.
    pub open spec fn to_doc(self) -> JsonDoc {
        JsonDoc::Object(
            Map::<Seq<char>, JsonDoc>::empty().insert(
                "offer"@,
                self.offer.to_doc(),
            ).insert(
                "cred_data"@,
                JsonDoc::Text(self.cred_data),
            ).insert(
                "request"@,
                self.request.to_doc(),
            ),
        )
    }

    /// The state that a document persists: an object whose members hold it.
    pub open spec fn from_doc(document: JsonDoc) -> Option<RequestReceivedStateView> {
        if document is Object
            && CredentialOfferView::from_doc(document.member("offer"@)) is Some
            && as_text(document.member("cred_data"@)) is Some
            && CredentialRequestView::from_doc(document.member("request"@)) is Some {
            Some(
                RequestReceivedStateView {
                    offer: CredentialOfferView::from_doc(document.member("offer"@))->0,
                    cred_data: as_text(document.member("cred_data"@))->0,
                    request: CredentialRequestView::from_doc(document.member("request"@))->0,
                },
            )
        } else {
            None
        }
    }

    /// What was persisted is what is read back.
    pub proof fn read_back(self)
        ensures
            RequestReceivedStateView::from_doc(self.to_doc()) == Some(self),
            self.to_doc() is Object,
    {
        reveal_strlit("offer");
        reveal_strlit("cred_data");
        reveal_strlit("request");
        assert("offer"@.len() == 5);
        assert("cred_data"@.len() == 9);
        assert("request"@.len() == 7);
        values_are_read_back();
        self.offer.read_back();
        self.request.read_back();
    }
}

impl RequestReceivedState {
    /// Writes the state as a document.
    pub fn to_document(&self) -> (document: JsonValue)
        ensures
            document@ == self@.to_doc(),
    {
        let mut document = JsonValue::object();
        document.insert(String::from_str("offer"), self.offer.to_document());
        document.insert(String::from_str("cred_data"), JsonValue::String(self.cred_data.clone()));
        document.insert(String::from_str("request"), self.request.to_document());
        document
    }

    /// Reads the state from a document.
    pub fn from_document(document: &JsonValue) -> (read: Option<RequestReceivedState>)
        ensures
            match RequestReceivedStateView::from_doc(document@) {
                Some(view) => read is Some && read->0@ == view,
                None => read is None,
            },
    {
        if !document.is_object() {
            return None;
        }
        let offer = match CredentialOffer::read(document.get("offer")) {
            Some(value) => value,
            None => {
                return None;
            },
        };
        let cred_data = match read_text(document.get("cred_data")) {
            Some(value) => value,
            None => {
                return None;
            },
        };
        let request = match CredentialRequest::read(document.get("request")) {
            Some(value) => value,
            None => {
                return None;
            },
        };
        Some(RequestReceivedState { offer, cred_data, request })
    }

    /// Reads the state from a member that may be missing.
    pub fn read(member: Option<&JsonValue>) -> (read: Option<RequestReceivedState>)
        ensures
            match RequestReceivedStateView::from_doc(member_doc(member)) {
                Some(view) => read is Some && read->0@ == view,
                None => read is None,
            },
    {
        match member {
            Some(document) => RequestReceivedState::from_document(document),
            None => None,
        }
    }
}

} // verus!
