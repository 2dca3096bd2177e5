//! The prover once making the proof failed.

use vstd::prelude::*;
use vstd::std_specs::convert::FromSpecImpl;
use vstd::string::StringExecFns;

use crate::messages::error::{ProblemReport, ProblemReportView};
use crate::messages::proof_presentation::presentation_request::{
    PresentationRequest, PresentationRequestView,
};
use crate::messages::status::Status;
use crate::protocols::proof_presentation::prover::states::finished::FinishedState;
use crate::utils::codec::{member_doc, values_are_read_back};
use crate::utils::json::{JsonDoc, JsonValue};

verus! {

/// The proof could not be made: the request, and the reason.
#[derive(Debug, Clone, PartialEq)]
pub struct PresentationPreparationFailedState {
    pub presentation_request: PresentationRequest,
    pub problem_report: ProblemReport,
}

impl From<PresentationPreparationFailedState> for FinishedState {
    fn from(state: PresentationPreparationFailedState) -> (finished: FinishedState) {
        FinishedState {
            presentation_request: Some(state.presentation_request),
            presentation: None,
            status: Status::Declined(state.problem_report),
        }
    }
}

impl FromSpecImpl<PresentationPreparationFailedState> for FinishedState {
    open spec fn obeys_from_spec() -> bool {
        true
    }

    /// The presentation ended without a proof; the report that was sent to
    /// the verifier is kept with the request.
    open spec fn from_spec(state: PresentationPreparationFailedState) -> FinishedState {
        FinishedState {
            presentation_request: Some(state.presentation_request),
            presentation: None,
            status: Status::Declined(state.problem_report),
        }
    }
}

/// What a `PresentationPreparationFailedState` is: its value, with texts as sequences of characters.
pub struct PresentationPreparationFailedStateView {
    pub presentation_request: PresentationRequestView,
    pub problem_report: ProblemReportView,
}

impl View for PresentationPreparationFailedState {
    type V = PresentationPreparationFailedStateView;

    open spec fn view(&self) -> PresentationPreparationFailedStateView {
        PresentationPreparationFailedStateView {
            presentation_request: self.presentation_request@,
            problem_report: self.problem_report@,
        }
    }
}

impl DeepView for PresentationPreparationFailedState {
    type V = PresentationPreparationFailedStateView;

    open spec fn deep_view(&self) -> PresentationPreparationFailedStateView {
        self@
    }
}

impl PresentationPreparationFailedStateView {
    /// The document in which the state is persisted.
    pub open spec fn to_doc(self) -> JsonDoc {
        JsonDoc::Object(
            Map::<Seq<char>, JsonDoc>::empty().insert(
                "presentation_request"@,
                self.presentation_request.to_doc(),
            ).insert(
                "problem_report"@,
                self.problem_report.to_doc(),
            ),
        )
    }

    /// The state that a document persists: an object whose members hold it.
    pub open spec fn from_doc(document: JsonDoc) -> Option<PresentationPreparationFailedStateView> {
        if document is Object
            && PresentationRequestView::from_doc(document.member("presentation_request"@)) is Some
            && ProblemReportView::from_doc(document.member("problem_report"@)) is Some {
            Some(
                PresentationPreparationFailedStateView {
                    presentation_request: PresentationRequestView::from_doc(
                        document.member("presentation_request"@),
                    )->0,
                    problem_report: ProblemReportView::from_doc(
                        document.member("problem_report"@),
                    )->0,
                },
            )
        } else {
            None
        }
    }

    /// What was persisted is what is read back.
    pub proof fn read_back(self)
        ensures
            PresentationPreparationFailedStateView::from_doc(self.to_doc()) == Some(self),
            self.to_doc() is Object,
    {
        reveal_strlit("presentation_request");
        reveal_strlit("problem_report");
        assert("presentation_request"@.len() == 20);
        assert("problem_report"@.len() == 14);
        values_are_read_back();
        self.presentation_request.read_back();
        self.problem_report.read_back();
    }
}

impl PresentationPreparationFailedState {
    /// Writes the state as a document.
    pub fn to_document(&self) -> (document: JsonValue)
        ensures
            document@ == self@.to_doc(),
    {
        let mut document = JsonValue::object();
        document.insert(
            String::from_str("presentation_request"),
            self.presentation_request.to_document(),
        );
        document.insert(String::from_str("problem_report"), self.problem_report.to_document());
        document
    }

    /// Reads the state from a document.
    pub fn from_document(document: &JsonValue) -> (read: Option<PresentationPreparationFailedState>)
        ensures
            match PresentationPreparationFailedStateView::from_doc(document@) {
                Some(view) => read is Some && read->0@ == view,
                None => read is None,
            },
    {
        if !document.is_object() {
            return None;
        }
        let presentation_request = match PresentationRequest::read(
            document.get("presentation_request"),
        ) {
            Some(value) => value,
            None => {
                return None;
            },
        };
        let problem_report = match ProblemReport::read(document.get("problem_report")) {
            Some(value) => value,
            None => {
                return None;
            },
        };
        Some(PresentationPreparationFailedState { presentation_request, problem_report })
    }

    /// Reads the state from a member that may be missing.
    pub fn read(member: Option<&JsonValue>) -> (read: Option<PresentationPreparationFailedState>)
        ensures
            match PresentationPreparationFailedStateView::from_doc(member_doc(member)) {
                Some(view) => read is Some && read->0@ == view,
                None => read is None,
            },
    {
        match member {
            Some(document) => PresentationPreparationFailedState::from_document(document),
            None => None,
        }
    }
}

} // verus!
