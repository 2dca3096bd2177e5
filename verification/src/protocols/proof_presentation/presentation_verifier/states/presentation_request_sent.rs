//! The verifier after its request went out.

use vstd::prelude::*;
use vstd::std_specs::convert::FromSpecImpl;
use vstd::string::StringExecFns;

use crate::error::{VcxError, VcxErrorKind, VcxResult};
use crate::messages::error::ProblemReport;
use crate::messages::proof_presentation::presentation::Presentation;
use crate::messages::proof_presentation::presentation_request::{
    PresentationRequest, PresentationRequestView,
};
use crate::messages::status::Status;
use crate::protocols::proof_presentation::presentation_verifier::states::finished::FinishedState;
use crate::utils::codec::{member_doc, values_are_read_back};
use crate::utils::json::{JsonDoc, JsonValue};

verus! {

/// The request is out; the presentation is awaited.
#[derive(Debug, Clone, PartialEq)]
pub struct PresentationRequestSentState {
    pub presentation_request: PresentationRequest,
}

impl PresentationRequestSentState {
    /// The state that holds `presentation_request`.
    pub fn new(presentation_request: PresentationRequest) -> (state: PresentationRequestSentState)
        ensures
            state == (PresentationRequestSentState { presentation_request }),
    {
        PresentationRequestSentState { presentation_request }
    }
}

/// How a presentation ends, `verified` being the answer of the credential
/// backend to the proof: in success for a proof that was found good, failed
/// otherwise, with the failure of the backend or else an `InvalidProof`
/// failure.
pub fn verification_status(verified: VcxResult<bool>) -> (status: Status)
    ensures
        match verified {
            Ok(true) => status == Status::Success,
            Ok(false) => status is Failed && status->Failed_0.kind() == VcxErrorKind::InvalidProof
                && status->Failed_0.spec_message() == "Presentation verification failed"@,
            Err(failure) => status == Status::Failed(failure),
        },
{
    match verified {
        Ok(true) => Status::Success,
        Ok(false) => Status::Failed(
            VcxError::from_msg(VcxErrorKind::InvalidProof, "Presentation verification failed"),
        ),
        Err(failure) => Status::Failed(failure),
    }
}

impl From<(PresentationRequestSentState, Presentation, Status)> for FinishedState {
    fn from(triple: (PresentationRequestSentState, Presentation, Status)) -> (finished:
        FinishedState) {
        let (state, presentation, status) = triple;
        FinishedState {
            presentation_request: state.presentation_request,
            presentation: Some(presentation),
            status,
        }
    }
}

impl FromSpecImpl<(PresentationRequestSentState, Presentation, Status)> for FinishedState {
    open spec fn obeys_from_spec() -> bool {
        true
    }

    /// The request is carried over, and the proof and what was found of it
    /// are recorded.
    open spec fn from_spec(triple: (PresentationRequestSentState, Presentation, Status))
        -> FinishedState {
        FinishedState {
            presentation_request: triple.0.presentation_request,
            presentation: Some(triple.1),
            status: triple.2,
        }
    }
}

impl From<(PresentationRequestSentState, ProblemReport)> for FinishedState {
    fn from(pair: (PresentationRequestSentState, ProblemReport)) -> (finished: FinishedState) {
        let (state, problem_report) = pair;
        FinishedState {
            presentation_request: state.presentation_request,
            presentation: None,
            status: Status::Declined(problem_report),
        }
    }
}

impl FromSpecImpl<(PresentationRequestSentState, ProblemReport)> for FinishedState {
    open spec fn obeys_from_spec() -> bool {
        true
    }

    /// The presentation ended declined, with the request and the report.
    open spec fn from_spec(pair: (PresentationRequestSentState, ProblemReport)) -> FinishedState {
        FinishedState {
            presentation_request: pair.0.presentation_request,
            presentation: None,
            status: Status::Declined(pair.1),
        }
    }
}

/// What a `PresentationRequestSentState` is: its value, with texts as sequences of characters.
pub struct PresentationRequestSentStateView {
    pub presentation_request: PresentationRequestView,
}

impl View for PresentationRequestSentState {
    type V = PresentationRequestSentStateView;

    open spec fn view(&self) -> PresentationRequestSentStateView {
        PresentationRequestSentStateView {
            presentation_request: self.presentation_request@,
        }
    }
}

impl DeepView for PresentationRequestSentState {
    type V = PresentationRequestSentStateView;

    open spec fn deep_view(&self) -> PresentationRequestSentStateView {
        self@
    }
}

impl PresentationRequestSentStateView {
    /// The document in which the state is persisted.
    pub open spec fn to_doc(self) -> JsonDoc {
        JsonDoc::Object(
            Map::<Seq<char>, JsonDoc>::empty().insert(
                "presentation_request"@,
                self.presentation_request.to_doc(),
            ),
        )
    }

    /// The state that a document persists: an object whose members hold it.
    pub open spec fn from_doc(document: JsonDoc) -> Option<PresentationRequestSentStateView> {
        if document is Object
            && PresentationRequestView::from_doc(document.member("presentation_request"@)) is Some {
            Some(
                PresentationRequestSentStateView {
                    presentation_request: PresentationRequestView::from_doc(
                        document.member("presentation_request"@),
                    )->0,
                },
            )
        } else {
            None
        }
    }

    /// What was persisted is what is read back.
    pub proof fn read_back(self)
        ensures
            PresentationRequestSentStateView::from_doc(self.to_doc()) == Some(self),
            self.to_doc() is Object,
    {
        reveal_strlit("presentation_request");
        assert("presentation_request"@.len() == 20);
        values_are_read_back();
        self.presentation_request.read_back();
    }
}

impl PresentationRequestSentState {
    /// Writes the state as a document.
    pub fn to_document(&self) -> (document: JsonValue)
        ensures
            document@ == self@.to_doc(),
    {
        let mut document = JsonValue::object();
        document.insert(
            String::from_str("presentation_request"),
            self.presentation_request.to_document(),
        );
        document
    }

    /// Reads the state from a document.
    pub fn from_document(document: &JsonValue) -> (read: Option<PresentationRequestSentState>)
        ensures
            match PresentationRequestSentStateView::from_doc(document@) {
                Some(view) => read is Some && read->0@ == view,
                None => read is None,
            },
    {
        if !document.is_object() {
            return None;
        }
        let presentation_request = match PresentationRequest::read(
            document.get("presentation_request"),
        ) {
            Some(value) => value,
            None => {
                return None;
            },
        };
        Some(PresentationRequestSentState { presentation_request })
    }

    /// Reads the state from a member that may be missing.
    pub fn read(member: Option<&JsonValue>) -> (read: Option<PresentationRequestSentState>)
        ensures
            match PresentationRequestSentStateView::from_doc(member_doc(member)) {
                Some(view) => read is Some && read->0@ == view,
                None => read is None,
            },
    {
        match member {
            Some(document) => PresentationRequestSentState::from_document(document),
            None => None,
        }
    }
}

} // verus!
