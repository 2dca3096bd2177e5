//! The holder after an offer arrived.

use vstd::prelude::*;
use vstd::std_specs::convert::FromSpecImpl;
use vstd::string::StringExecFns;

use crate::messages::error::ProblemReport;
use crate::messages::issuance::credential_offer::{CredentialOffer, CredentialOfferView};
use crate::messages::status::Status;
use crate::protocols::issuance::holder::states::finished::FinishedHolderState;
use crate::protocols::issuance::holder::states::request_sent::RequestSentState;
use crate::utils::codec::{member_doc, values_are_read_back};
use crate::utils::json::{JsonDoc, JsonValue};

verus! {

/// An offer arrived; no request was sent yet.
#[derive(Debug, Clone, PartialEq)]
pub struct OfferReceivedState {
    pub offer: CredentialOffer,
}

impl OfferReceivedState {
    /// The state that holds `offer`.
    pub fn new(offer: CredentialOffer) -> (state: OfferReceivedState)
        ensures
            state == (OfferReceivedState { offer }),
    {
        OfferReceivedState { offer }
    }
}

impl From<(OfferReceivedState, String, String)> for RequestSentState {
    fn from(triple: (OfferReceivedState, String, String)) -> (sent: RequestSentState) {
        let (_state, req_meta, cred_def_json) = triple;
        RequestSentState { req_meta, cred_def_json }
    }
}

impl FromSpecImpl<(OfferReceivedState, String, String)> for RequestSentState {
    open spec fn obeys_from_spec() -> bool {
        true
    }

    /// The metadata of the request and the credential definition are stored;
    /// the offer is not kept.
    open spec fn from_spec(triple: (OfferReceivedState, String, String)) -> RequestSentState {
        RequestSentState { req_meta: triple.1, cred_def_json: triple.2 }
    }
}

impl From<(OfferReceivedState, ProblemReport)> for FinishedHolderState {
    fn from(pair: (OfferReceivedState, ProblemReport)) -> (finished: FinishedHolderState) {
        let (_state, problem_report) = pair;
        FinishedHolderState {
            cred_id: None,
            credential: None,
            status: Status::Declined(problem_report),
            rev_reg_def_json: None,
        }
    }
}

impl FromSpecImpl<(OfferReceivedState, ProblemReport)> for FinishedHolderState {
    open spec fn obeys_from_spec() -> bool {
        true
    }

    /// The issuance ended declined, with the report and without a credential.
    open spec fn from_spec(pair: (OfferReceivedState, ProblemReport)) -> FinishedHolderState {
        FinishedHolderState::declined(pair.1)
    }
}

/// What a `OfferReceivedState` is: its value, with texts as sequences of characters.
pub struct OfferReceivedStateView {
    pub offer: CredentialOfferView,
}

impl View for OfferReceivedState {
    type V = OfferReceivedStateView;

    open spec fn view(&self) -> OfferReceivedStateView {
        OfferReceivedStateView {
            offer: self.offer@,
        }
    }
}

impl DeepView for OfferReceivedState {
    type V = OfferReceivedStateView;

    open spec fn deep_view(&self) -> OfferReceivedStateView {
        self@
    }
}

impl OfferReceivedStateView {
    /// The document in which the state is persisted.
    pub open spec fn to_doc(self) -> JsonDoc {
        JsonDoc::Object(
            Map::<Seq<char>, JsonDoc>::empty().insert(
                "offer"@,
                self.offer.to_doc(),
            ),
        )
    }

    /// The state that a document persists: an object whose members hold it.
    pub open spec fn from_doc(document: JsonDoc) -> Option<OfferReceivedStateView> {
        if document is Object
            && CredentialOfferView::from_doc(document.member("offer"@)) is Some {
            Some(
                OfferReceivedStateView {
                    offer: CredentialOfferView::from_doc(document.member("offer"@))->0,
                },
            )
        } else {
            None
        }
    }

    /// What was persisted is what is read back.
    pub proof fn read_back(self)
        ensures
            OfferReceivedStateView::from_doc(self.to_doc()) == Some(self),
            self.to_doc() is Object,
    {
        reveal_strlit("offer");
        assert("offer"@.len() == 5);
        values_are_read_back();
        self.offer.read_back();
    }
}

impl OfferReceivedState {
    /// Writes the state as a document.
    pub fn to_document(&self) -> (document: JsonValue)
        ensures
            document@ == self@.to_doc(),
    {
        let mut document = JsonValue::object();
        document.insert(String::from_str("offer"), self.offer.to_document());
        document
    }

    /// Reads the state from a document.
    pub fn from_document(document: &JsonValue) -> (read: Option<OfferReceivedState>)
        ensures
            match OfferReceivedStateView::from_doc(document@) {
                Some(view) => read is Some && read->0@ == view,
                None => read is None,
            },
    {
        if !document.is_object() {
            return None;
        }
        let offer = match CredentialOffer::read(document.get("offer")) {
            Some(value) => value,
            None => {
                return None;
            },
        };
        Some(OfferReceivedState { offer })
    }

    /// Reads the state from a member that may be missing.
    pub fn read(member: Option<&JsonValue>) -> (read: Option<OfferReceivedState>)
        ensures
            match OfferReceivedStateView::from_doc(member_doc(member)) {
                Some(view) => read is Some && read->0@ == view,
                None => read is None,
            },
    {
        match member {
            Some(document) => OfferReceivedState::from_document(document),
            None => None,
        }
    }
}

} // verus!
