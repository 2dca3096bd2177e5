//! The prover once the proof is made.

use vstd::prelude::*;
use vstd::std_specs::convert::FromSpecImpl;
use vstd::string::StringExecFns;

use crate::messages::proof_presentation::presentation::{Presentation, PresentationView};
use crate::messages::proof_presentation::presentation_request::{
    PresentationRequest, PresentationRequestView,
};
use crate::messages::status::Status;
use crate::protocols::proof_presentation::prover::states::finished::FinishedState;
use crate::utils::codec::{member_doc, values_are_read_back};
use crate::utils::json::{JsonDoc, JsonValue};

verus! {

/// The proof is made and ready to be sent.
#[derive(Debug, Clone, PartialEq)]
pub struct PresentationPreparedState {
    pub presentation_request: PresentationRequest,
    pub presentation: Presentation,
}

impl From<PresentationPreparedState> for FinishedState {
    fn from(state: PresentationPreparedState) -> (finished: FinishedState) {
        FinishedState {
            presentation_request: Some(state.presentation_request),
            presentation: Some(state.presentation),
            status: Status::Success,
        }
    }
}

impl FromSpecImpl<PresentationPreparedState> for FinishedState {
    open spec fn obeys_from_spec() -> bool {
        true
    }

    /// The presentation ended in success, with the request and the proof.
    open spec fn from_spec(state: PresentationPreparedState) -> FinishedState {
        FinishedState {
            presentation_request: Some(state.presentation_request),
            presentation: Some(state.presentation),
            status: Status::Success,
        }
    }
}

/// What a `PresentationPreparedState` is: its value, with texts as sequences of characters.
pub struct PresentationPreparedStateView {
    pub presentation_request: PresentationRequestView,
    pub presentation: PresentationView,
}

impl View for PresentationPreparedState {
    type V = PresentationPreparedStateView;

    open spec fn view(&self) -> PresentationPreparedStateView {
        PresentationPreparedStateView {
            presentation_request: self.presentation_request@,
            presentation: self.presentation@,
        }
    }
}

impl DeepView for PresentationPreparedState {
    type V = PresentationPreparedStateView;

    open spec fn deep_view(&self) -> PresentationPreparedStateView {
        self@
    }
}

impl PresentationPreparedStateView {
    /// The document in which the state is persisted.
    pub open spec fn to_doc(self) -> JsonDoc {
        JsonDoc::Object(
            Map::<Seq<char>, JsonDoc>::empty().insert(
                "presentation_request"@,
                self.presentation_request.to_doc(),
            ).insert(
                "presentation"@,
                self.presentation.to_doc(),
            ),
        )
    }

    /// The state that a document persists: an object whose members hold it.
    pub open spec fn from_doc(document: JsonDoc) -> Option<PresentationPreparedStateView> {
        if document is Object
            && PresentationRequestView::from_doc(document.member("presentation_request"@)) is Some
            && PresentationView::from_doc(document.member("presentation"@)) is Some {
            Some(
                PresentationPreparedStateView {
                    presentation_request: PresentationRequestView::from_doc(
                        document.member("presentation_request"@),
                    )->0,
                    presentation: PresentationView::from_doc(document.member("presentation"@))->0,
                },
            )
        } else {
            None
        }
    }

    /// What was persisted is what is read back.
    pub proof fn read_back(self)
        ensures
            PresentationPreparedStateView::from_doc(self.to_doc()) == Some(self),
            self.to_doc() is Object,
    {
        reveal_strlit("presentation_request");
        reveal_strlit("presentation");
        assert("presentation_request"@.len() == 20);
        assert("presentation"@.len() == 12);
        values_are_read_back();
        self.presentation_request.read_back();
        self.presentation.read_back();
    }
}

impl PresentationPreparedState {
    /// Writes the state as a document.
    pub fn to_document(&self) -> (document: JsonValue)
        ensures
            document@ == self@.to_doc(),
    {
        let mut document = JsonValue::object();
        document.insert(
            String::from_str("presentation_request"),
            self.presentation_request.to_document(),
        );
        document.insert(String::from_str("presentation"), self.presentation.to_document());
        document
    }

    /// Reads the state from a document.
    pub fn from_document(document: &JsonValue) -> (read: Option<PresentationPreparedState>)
        ensures
            match PresentationPreparedStateView::from_doc(document@) {
                Some(view) => read is Some && read->0@ == view,
                None => read is None,
            },
    {
        if !document.is_object() {
            return None;
        }
        let presentation_request = match PresentationRequest::read(
            document.get("presentation_request"),
        ) {
            Some(value) => value,
            None => {
                return None;
            },
        };
        let presentation = match Presentation::read(document.get("presentation")) {
            Some(value) => value,
            None => {
                return None;
            },
        };
        Some(PresentationPreparedState { presentation_request, presentation })
    }

    /// Reads the state from a member that may be missing.
    pub fn read(member: Option<&JsonValue>) -> (read: Option<PresentationPreparedState>)
        ensures
            match PresentationPreparedStateView::from_doc(member_doc(member)) {
                Some(view) => read is Some && read->0@ == view,
                None => read is None,
            },
    {
        match member {
            Some(document) => PresentationPreparedState::from_document(document),
            None => None,
        }
    }
}

} // verus!
