use aries_vcx::error::{VcxError, VcxErrorKind};
use aries_vcx::messages::a2a::MessageId;
use aries_vcx::messages::attachment::{AttachmentId, Attachments};
use aries_vcx::messages::error::ProblemReport;
use aries_vcx::messages::proof_presentation::presentation::Presentation;
use aries_vcx::messages::proof_presentation::presentation_request::PresentationRequest;
use aries_vcx::messages::status::Status;
use aries_vcx::protocols::proof_presentation::prover::state_machine::{
    generated_event, ProverEvent, ProverFullState, ProverSM,
};
use aries_vcx::protocols::proof_presentation::prover::states::finished::FinishedState;
use aries_vcx::protocols::proof_presentation::prover::states::presentation_preparation_failed::PresentationPreparationFailedState;
use aries_vcx::protocols::proof_presentation::prover::states::presentation_prepared::PresentationPreparedState;
use aries_vcx::protocols::proof_presentation::prover::states::presentation_request_received::PresentationRequestReceived;

fn presentation_request() -> PresentationRequest {
    let mut attach = Attachments::new();
    attach.add_base64_encoded_content(AttachmentId::PresentationRequest, "{\"name\":\"proof of age\"}");
    PresentationRequest {
        id: MessageId("request-7".to_string()),
        comment: Some("please".to_string()),
        request_presentations_attach: attach,
        thread: None,
    }
}

fn presentation() -> Presentation {
    Presentation::create_with_id(MessageId("presentation-1".to_string()), "request-7", "{\"proof\":{}}")
}

fn report(description: &str) -> ProblemReport {
    ProblemReport::create_with_id(MessageId::id()).set_description(description.to_string())
}

#[test]
fn preparation_failure_keeps_the_request() {
    let mut prover = ProverSM::new(presentation_request(), "prover".to_string());
    assert_eq!(prover.thread_id, "request-7");
    let received = match &prover.state {
        ProverFullState::PresentationRequestReceived(state) => state.clone(),
        other => panic!("unexpected state {:?}", other),
    };
    assert_eq!(received.proof_request().unwrap(), "{\"name\":\"proof of age\"}");

    // the backend answers with a failure
    let generated = Err(VcxError::from_msg(VcxErrorKind::LibindyInvalidStructure, "no matching credential"));
    let event = generated_event(generated, MessageId::id(), &prover.thread_id);
    let expected_report = ProblemReport::create_with_id(MessageId::id())
        .set_thread_id("request-7")
        .set_description("no matching credential".to_string())
        .set_code(1080);
    assert_eq!(event, ProverEvent::PreparationFailed(expected_report.clone()));

    prover.handle(event).unwrap();
    assert_eq!(
        prover.state,
        ProverFullState::PresentationPreparationFailed(PresentationPreparationFailedState {
            presentation_request: presentation_request(),
            problem_report: expected_report.clone(),
        })
    );
    assert_eq!(prover.presentation_request(), Some(&presentation_request()));
    assert!(!prover.is_terminal_state());

    // the failed instance does not prepare again
    let failed = prover.clone();
    for event in [
        ProverEvent::PresentationPrepared(presentation()),
        ProverEvent::PreparationFailed(report("again")),
        ProverEvent::NoPresentationRequired,
        ProverEvent::Declined(report("no")),
    ] {
        assert_eq!(prover.handle(event).unwrap_err().kind(), VcxErrorKind::InvalidState);
        assert_eq!(prover, failed);
    }

    prover.handle(ProverEvent::Delivered).unwrap();
    assert_eq!(
        prover.state,
        ProverFullState::Finished(FinishedState {
            presentation_request: Some(presentation_request()),
            presentation: None,
            status: Status::Declined(expected_report),
        })
    );
    assert!(prover.is_terminal_state());
}

#[test]
fn prepared_presentation_is_delivered() {
    let mut prover = ProverSM::new(presentation_request(), "prover".to_string());
    let event = generated_event(Ok("{\"proof\":{}}".to_string()), MessageId("presentation-1".to_string()), "request-7");
    assert_eq!(event, ProverEvent::PresentationPrepared(presentation()));
    prover.handle(event).unwrap();
    assert_eq!(
        prover.state,
        ProverFullState::PresentationPrepared(PresentationPreparedState {
            presentation_request: presentation_request(),
            presentation: presentation(),
        })
    );
    prover.handle(ProverEvent::Delivered).unwrap();
    assert_eq!(
        prover.state,
        ProverFullState::Finished(FinishedState {
            presentation_request: Some(presentation_request()),
            presentation: Some(presentation()),
            status: Status::Success,
        })
    );
    assert_eq!(prover.source_id, "prover");
    assert_eq!(prover.thread_id, "request-7");
    let finished = prover.clone();
    for event in [
        ProverEvent::Delivered,
        ProverEvent::NoPresentationRequired,
        ProverEvent::PresentationPrepared(presentation()),
        ProverEvent::PreparationFailed(report("x")),
        ProverEvent::Declined(report("x")),
    ] {
        assert_eq!(prover.handle(event).unwrap_err().kind(), VcxErrorKind::InvalidState);
        assert_eq!(prover, finished);
    }
}

#[test]
fn request_can_end_without_presentation() {
    let mut accepted = ProverSM::new(presentation_request(), "prover".to_string());
    accepted.handle(ProverEvent::NoPresentationRequired).unwrap();
    assert_eq!(
        accepted.state,
        ProverFullState::Finished(FinishedState {
            presentation_request: Some(presentation_request()),
            presentation: None,
            status: Status::Success,
        })
    );

    let mut declined = ProverSM::new(presentation_request(), "prover".to_string());
    declined.handle(ProverEvent::Declined(report("not today"))).unwrap();
    assert_eq!(
        declined.state,
        ProverFullState::Finished(FinishedState {
            presentation_request: Some(presentation_request()),
            presentation: None,
            status: Status::Declined(report("not today")),
        })
    );

    let mut early = ProverSM::new(presentation_request(), "prover".to_string());
    let before = early.clone();
    assert_eq!(early.handle(ProverEvent::Delivered).unwrap_err().kind(), VcxErrorKind::InvalidState);
    assert_eq!(early, before);
}

#[test]
fn prover_states_convert_by_moving_their_data() {
    let received = PresentationRequestReceived::new(presentation_request());
    assert_eq!(received.presentation_request, presentation_request());
    let failed = PresentationPreparationFailedState::from((received.clone(), report("why")));
    assert_eq!(
        failed,
        PresentationPreparationFailedState { presentation_request: presentation_request(), problem_report: report("why") }
    );
    let prepared = PresentationPreparedState::from((received.clone(), presentation()));
    assert_eq!(
        prepared,
        PresentationPreparedState { presentation_request: presentation_request(), presentation: presentation() }
    );
    let finished = FinishedState::from(received.clone());
    assert_eq!(
        finished,
        FinishedState { presentation_request: Some(presentation_request()), presentation: None, status: Status::Success }
    );
    let declined = FinishedState::from((received, report("no")));
    assert_eq!(
        declined,
        FinishedState {
            presentation_request: Some(presentation_request()),
            presentation: None,
            status: Status::Declined(report("no")),
        }
    );
}

#[test]
fn presentation_carries_the_proof() {
    let message = presentation();
    assert_eq!(message.presentation_content().unwrap(), "{\"proof\":{}}");
    assert!(message.from_thread("request-7"));
    assert!(!message.from_thread("request-8"));
    assert_eq!(message.comment, None);
    assert_eq!(message.please_ack, None);

    let mut request = presentation_request();
    assert_eq!(request.request_content().unwrap(), "{\"name\":\"proof of age\"}");
    request.request_presentations_attach.0[0].encoded_content = "%%%".to_string();
    assert_eq!(request.request_content().unwrap_err().kind(), VcxErrorKind::InvalidAttachmentEncoding);
    let broken = PresentationRequestReceived::new(request);
    assert_eq!(broken.proof_request().unwrap_err().kind(), VcxErrorKind::InvalidAttachmentEncoding);
}
