//! The prover after a presentation request arrived.

use vstd::prelude::*;
use vstd::std_specs::convert::FromSpecImpl;
use vstd::string::StringExecFns;

use crate::error::VcxResult;
use crate::messages::attachment::{content_for, AttachmentId};
use crate::messages::error::ProblemReport;
use crate::messages::proof_presentation::presentation::Presentation;
use crate::messages::proof_presentation::presentation_request::{
    PresentationRequest, PresentationRequestView,
};
use crate::messages::status::Status;
use crate::protocols::proof_presentation::prover::states::finished::FinishedState;
use crate::protocols::proof_presentation::prover::states::presentation_preparation_failed::PresentationPreparationFailedState;
use crate::protocols::proof_presentation::prover::states::presentation_prepared::PresentationPreparedState;
use crate::utils::codec::{member_doc, values_are_read_back};
use crate::utils::json::{JsonDoc, JsonValue};

verus! {

/// A presentation request arrived; no proof was made yet.
#[derive(Debug, Clone, PartialEq)]
pub struct PresentationRequestReceived {
    pub presentation_request: PresentationRequest,
}

impl PresentationRequestReceived {
    /// The state that holds `presentation_request`.
    pub fn new(presentation_request: PresentationRequest) -> (state: PresentationRequestReceived)
        ensures
            state == (PresentationRequestReceived { presentation_request }),
    {
        Self { presentation_request }
    }

    /// The proof request that the credential backend is to answer: the
    /// content of the attachment of the stored request. The state is not
    /// changed.
    ///
    /// Fails as [`PresentationRequest::request_content`] does.
    pub fn proof_request(&self) -> (content: VcxResult<String>)
        ensures
            match content_for(
                self.presentation_request.request_presentations_attach@,
                AttachmentId::PresentationRequest,
            ) {
                Ok(text) => content is Ok && content->Ok_0@ == text,
                Err(kind) => content is Err && content->Err_0.kind() == kind,
            },
    {
        self.presentation_request.request_content()
    }
}

impl From<(PresentationRequestReceived, ProblemReport)> for PresentationPreparationFailedState {
    fn from(pair: (PresentationRequestReceived, ProblemReport)) -> (failed:
        PresentationPreparationFailedState) {
        let (state, problem_report) = pair;
        PresentationPreparationFailedState {
            presentation_request: state.presentation_request,
            problem_report,
        }
    }
}

impl FromSpecImpl<(PresentationRequestReceived, ProblemReport)> for PresentationPreparationFailedState {
    open spec fn obeys_from_spec() -> bool {
        true
    }

    /// The request is carried over and the reason is recorded.
    open spec fn from_spec(pair: (PresentationRequestReceived, ProblemReport))
        -> PresentationPreparationFailedState {
        PresentationPreparationFailedState {
            presentation_request: pair.0.presentation_request,
            problem_report: pair.1,
        }
    }
}

impl From<(PresentationRequestReceived, Presentation)> for PresentationPreparedState {
    fn from(pair: (PresentationRequestReceived, Presentation)) -> (prepared:
        PresentationPreparedState) {
        let (state, presentation) = pair;
        PresentationPreparedState { presentation_request: state.presentation_request, presentation }
    }
}

impl FromSpecImpl<(PresentationRequestReceived, Presentation)> for PresentationPreparedState {
    open spec fn obeys_from_spec() -> bool {
        true
    }

    /// The request is carried over and the proof is recorded.
    open spec fn from_spec(pair: (PresentationRequestReceived, Presentation))
        -> PresentationPreparedState {
        PresentationPreparedState {
            presentation_request: pair.0.presentation_request,
            presentation: pair.1,
        }
    }
}

impl From<PresentationRequestReceived> for FinishedState {
    fn from(state: PresentationRequestReceived) -> (finished: FinishedState) {
        FinishedState {
            presentation_request: Some(state.presentation_request),
            presentation: None,
            status: Status::Success,
        }
    }
}

impl FromSpecImpl<PresentationRequestReceived> for FinishedState {
    open spec fn obeys_from_spec() -> bool {
        true
    }

    /// The presentation ended in success without a proof.
    open spec fn from_spec(state: PresentationRequestReceived) -> FinishedState {
        FinishedState {
            presentation_request: Some(state.presentation_request),
            presentation: None,
            status: Status::Success,
        }
    }
}

impl From<(PresentationRequestReceived, ProblemReport)> for FinishedState {
    fn from(pair: (PresentationRequestReceived, ProblemReport)) -> (finished: FinishedState) {
        let (state, problem_report) = pair;
        FinishedState {
            presentation_request: Some(state.presentation_request),
            presentation: None,
            status: Status::Declined(problem_report),
        }
    }
}

impl FromSpecImpl<(PresentationRequestReceived, ProblemReport)> for FinishedState {
    open spec fn obeys_from_spec() -> bool {
        true
    }

    /// The presentation ended declined, with the request and the report.
    open spec fn from_spec(pair: (PresentationRequestReceived, ProblemReport)) -> FinishedState {
        FinishedState {
            presentation_request: Some(pair.0.presentation_request),
            presentation: None,
            status: Status::Declined(pair.1),
        }
    }
}

/// What a `PresentationRequestReceived` is: its value, with texts as sequences of characters.
pub struct PresentationRequestReceivedView {
    pub presentation_request: PresentationRequestView,
}

impl View for PresentationRequestReceived {
    type V = PresentationRequestReceivedView;

    open spec fn view(&self) -> PresentationRequestReceivedView {
        PresentationRequestReceivedView {
            presentation_request: self.presentation_request@,
        }
    }
}

impl DeepView for PresentationRequestReceived {
    type V = PresentationRequestReceivedView;

    open spec fn deep_view(&self) -> PresentationRequestReceivedView {
        self@
    }
}

impl PresentationRequestReceivedView {
    /// The document in which the state is persisted.
    pub open spec fn to_doc(self) -> JsonDoc {
        JsonDoc::Object(
            Map::<Seq<char>, JsonDoc>::empty().insert(
                "presentation_request"@,
                self.presentation_request.to_doc(),
            ),
        )
    }

    /// The state that a document persists: an object whose members hold it.
    pub open spec fn from_doc(document: JsonDoc) -> Option<PresentationRequestReceivedView> {
        if document is Object
            && PresentationRequestView::from_doc(document.member("presentation_request"@)) is Some {
            Some(
                PresentationRequestReceivedView {
                    presentation_request: PresentationRequestView::from_doc(
                        document.member("presentation_request"@),
                    )->0,
                },
            )
        } else {
            None
        }
    }

    /// What was persisted is what is read back.
    pub proof fn read_back(self)
        ensures
            PresentationRequestReceivedView::from_doc(self.to_doc()) == Some(self),
            self.to_doc() is Object,
    {
        reveal_strlit("presentation_request");
        assert("presentation_request"@.len() == 20);
        values_are_read_back();
        self.presentation_request.read_back();
    }
}

impl PresentationRequestReceived {
    /// Writes the state as a document.
    pub fn to_document(&self) -> (document: JsonValue)
        ensures
            document@ == self@.to_doc(),
    {
        let mut document = JsonValue::object();
        document.insert(
            String::from_str("presentation_request"),
            self.presentation_request.to_document(),
        );
        document
    }

    /// Reads the state from a document.
    pub fn from_document(document: &JsonValue) -> (read: Option<PresentationRequestReceived>)
        ensures
            match PresentationRequestReceivedView::from_doc(document@) {
                Some(view) => read is Some && read->0@ == view,
                None => read is None,
            },
    {
        if !document.is_object() {
            return None;
        }
        let presentation_request = match PresentationRequest::read(
            document.get("presentation_request"),
        ) {
            Some(value) => value,
            None => {
                return None;
            },
        };
        Some(PresentationRequestReceived { presentation_request })
    }

    /// Reads the state from a member that may be missing.
    pub fn read(member: Option<&JsonValue>) -> (read: Option<PresentationRequestReceived>)
        ensures
            match PresentationRequestReceivedView::from_doc(member_doc(member)) {
                Some(view) => read is Some && read->0@ == view,
                None => read is None,
            },
    {
        match member {
            Some(document) => PresentationRequestReceived::from_document(document),
            None => None,
        }
    }
}

} // verus!
