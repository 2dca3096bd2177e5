//! The issuer after its offer went out.

use vstd::prelude::*;
use vstd::std_specs::convert::FromSpecImpl;
use vstd::string::StringExecFns;

use crate::messages::error::ProblemReport;
use crate::messages::issuance::credential_offer::{CredentialOffer, CredentialOfferView};
use crate::messages::issuance::credential_request::CredentialRequest;
use crate::messages::status::Status;
use crate::protocols::issuance::issuer::states::finished::FinishedState;
use crate::protocols::issuance::issuer::states::request_received::RequestReceivedState;
use crate::utils::codec::{as_text, member_doc, read_text, values_are_read_back};
use crate::utils::json::{JsonDoc, JsonValue};

verus! {

/// The offer is out; the request is awaited. The values of the credential
/// are kept as the JSON text in which they were given.
#[derive(Debug, Clone, PartialEq)]
pub struct OfferSentState {
    pub offer: CredentialOffer,
    pub cred_data: String,
}

impl OfferSentState {
    /// The state that holds `offer` and the values `cred_data`.
    pub fn new(offer: CredentialOffer, cred_data: String) -> (state: OfferSentState)
        ensures
            state == (OfferSentState { offer, cred_data }),
    {
        OfferSentState { offer, cred_data }
    }
}

impl From<(OfferSentState, CredentialRequest)> for RequestReceivedState {
    fn from(pair: (OfferSentState, CredentialRequest)) -> (received: RequestReceivedState) {
        let (state, request) = pair;
        RequestReceivedState { offer: state.offer, cred_data: state.cred_data, request }
    }
}

impl FromSpecImpl<(OfferSentState, CredentialRequest)> for RequestReceivedState {
    open spec fn obeys_from_spec() -> bool {
        true
    }

    /// The offer and the values are carried over and the request is stored.
    open spec fn from_spec(pair: (OfferSentState, CredentialRequest)) -> RequestReceivedState {
        RequestReceivedState { offer: pair.0.offer, cred_data: pair.0.cred_data, request: pair.1 }
    }
}

impl From<(OfferSentState, ProblemReport)> for FinishedState {
    fn from(pair: (OfferSentState, ProblemReport)) -> (finished: FinishedState) {
        let (_state, problem_report) = pair;
        FinishedState { cred_id: None, status: Status::Declined(problem_report) }
    }
}

impl FromSpecImpl<(OfferSentState, ProblemReport)> for FinishedState {
    open spec fn obeys_from_spec() -> bool {
        true
    }

    /// The issuance ended declined, with the report and without a credential.
    open spec fn from_spec(pair: (OfferSentState, ProblemReport)) -> FinishedState {
        FinishedState::declined(pair.1)
    }
}

/// What a `OfferSentState` is: its value, with texts as sequences of characters.
pub struct OfferSentStateView {
    pub offer: CredentialOfferView,
    pub cred_data: Seq<char>,
}

impl View for OfferSentState {
    type V = OfferSentStateView;

    open spec fn view(&self) -> OfferSentStateView {
        OfferSentStateView {
            offer: self.offer@,
            cred_data: self.cred_data@,
        }
    }
}

impl DeepView for OfferSentState {
    type V = OfferSentStateView;

    open spec fn deep_view(&self) -> OfferSentStateView {
        self@
    }
}

impl OfferSentStateView {
    /// The document in which the state is persisted.
    pub open spec fn to_doc(self) -> JsonDoc {
        JsonDoc::Object(
            Map::<Seq<char>, JsonDoc>::empty().insert(
                "offer"@,
                self.offer.to_doc(),
            ).insert(
                "cred_data"@,
                JsonDoc::Text(self.cred_data),
            ),
        )
    }

    /// The state that a document persists: an object whose members hold it.
    pub open spec fn from_doc(document: JsonDoc) -> Option<OfferSentStateView> {
        if document is Object
            && CredentialOfferView::from_doc(document.member("offer"@)) is Some
            && as_text(document.member("cred_data"@)) is Some {
            Some(
                OfferSentStateView {
                    offer: CredentialOfferView::from_doc(document.member("offer"@))->0,
                    cred_data: as_text(document.member("cred_data"@))->0,
                },
            )
        } else {
            None
        }
    }

    /// What was persisted is what is read back.
    pub proof fn read_back(self)
        ensures
            OfferSentStateView::from_doc(self.to_doc()) == Some(self),
            self.to_doc() is Object,
    {
        reveal_strlit("offer");
        reveal_strlit("cred_data");
        assert("offer"@.len() == 5);
        assert("cred_data"@.len() == 9);
        values_are_read_back();
        self.offer.read_back();
    }
}

impl OfferSentState {
    /// Writes the state as a document.
    pub fn to_document(&self) -> (document: JsonValue)
        ensures
            document@ == self@.to_doc(),
    {
        let mut document = JsonValue::object();
        document.insert(String::from_str("offer"), self.offer.to_document());
        document.insert(String::from_str("cred_data"), JsonValue::String(self.cred_data.clone()));
        document
    }

    /// Reads the state from a document.
    pub fn from_document(document: &JsonValue) -> (read: Option<OfferSentState>)
        ensures
            match OfferSentStateView::from_doc(document@) {
                Some(view) => read is Some && read->0@ == view,
                None => read is None,
            },
    {
        if !document.is_object() {
            return None;
        }
        let offer = match CredentialOffer::read(document.get("offer")) {
            Some(value) => value,
            None => {
                return None;
            },
        };
        let cred_data = match read_text(document.get("cred_data")) {
            Some(value) => value,
            None => {
                return None;
            },
        };
        Some(OfferSentState { offer, cred_data })
    }

    /// Reads the state from a member that may be missing.
    pub fn read(member: Option<&JsonValue>) -> (read: Option<OfferSentState>)
        ensures
            match OfferSentStateView::from_doc(member_doc(member)) {
                Some(view) => read is Some && read->0@ == view,
                None => read is None,
            },
    {
        match member {
            Some(document) => OfferSentState::from_document(document),
            None => None,
        }
    }
}

} // verus!
