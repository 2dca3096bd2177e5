use aries_vcx::error::{VcxError, VcxErrorKind};
use aries_vcx::messages::a2a::MessageId;
use aries_vcx::messages::attachment::{AttachmentId, Attachments};
use aries_vcx::messages::error::ProblemReport;
use aries_vcx::messages::issuance::credential_offer::CredentialOffer;
use aries_vcx::messages::issuance::credential_request::CredentialRequest;
use aries_vcx::messages::proof_presentation::presentation::Presentation;
use aries_vcx::messages::proof_presentation::presentation_request::PresentationRequest;
use aries_vcx::messages::status::Status;
use aries_vcx::messages::thread::Thread;
use aries_vcx::protocols::issuance::issuer::state_machine::{IssuerEvent, IssuerFullState, IssuerSM};
use aries_vcx::protocols::issuance::issuer::states::finished::FinishedState as IssuerFinished;
use aries_vcx::protocols::issuance::issuer::states::offer_sent::OfferSentState;
use aries_vcx::protocols::issuance::issuer::states::request_received::RequestReceivedState;
use aries_vcx::protocols::proof_presentation::presentation_verifier::state_machine::{
    verified_event, VerifierEvent, VerifierFullState, VerifierSM,
};
use aries_vcx::protocols::proof_presentation::presentation_verifier::states::finished::FinishedState;
use aries_vcx::protocols::proof_presentation::presentation_verifier::states::presentation_request_sent::{
    verification_status, PresentationRequestSentState,
};

fn offer() -> CredentialOffer {
    let mut offers_attach = Attachments::new();
    offers_attach.add_base64_encoded_content(AttachmentId::CredentialOffer, "{\"schema_id\":\"s1\"}");
    CredentialOffer { id: MessageId("offer-1".to_string()), comment: None, offers_attach, thread: None }
}

fn request(thid: &str) -> CredentialRequest {
    let mut requests_attach = Attachments::new();
    requests_attach.add_base64_encoded_content(AttachmentId::CredentialRequest, "{\"prover_did\":\"d\"}");
    CredentialRequest {
        id: MessageId("request-1".to_string()),
        comment: None,
        requests_attach,
        thread: Thread::new().set_thid(thid.to_string()),
    }
}

fn report(thid: &str) -> ProblemReport {
    ProblemReport::create_with_id(MessageId::id()).set_description("no, thanks".to_string()).set_thread_id(thid)
}

fn presentation_request() -> PresentationRequest {
    let mut attach = Attachments::new();
    attach.add_base64_encoded_content(AttachmentId::PresentationRequest, "{\"name\":\"proof of age\"}");
    PresentationRequest { id: MessageId("request-7".to_string()), comment: None, request_presentations_attach: attach, thread: None }
}

fn presentation(thid: &str) -> Presentation {
    Presentation::create_with_id(MessageId("presentation-1".to_string()), thid, "{\"proof\":{}}")
}

#[test]
fn issuer_delivers_the_credential() {
    let mut issuer = IssuerSM::new(offer(), "{\"name\":\"Alice\"}".to_string(), "issuer".to_string());
    assert_eq!(issuer.thread_id, "offer-1");
    assert_eq!(issuer.state, IssuerFullState::OfferSent(OfferSentState::new(offer(), "{\"name\":\"Alice\"}".to_string())));
    issuer.handle(IssuerEvent::CredentialRequest(request("offer-1"))).unwrap();
    assert_eq!(
        issuer.state,
        IssuerFullState::RequestReceived(RequestReceivedState {
            offer: offer(),
            cred_data: "{\"name\":\"Alice\"}".to_string(),
            request: request("offer-1"),
        })
    );
    assert!(!issuer.is_terminal_state());
    issuer.handle(IssuerEvent::CredentialSent(Some("rev-1".to_string()))).unwrap();
    assert_eq!(
        issuer.state,
        IssuerFullState::Finished(IssuerFinished { cred_id: Some("rev-1".to_string()), status: Status::Success })
    );
    assert!(issuer.is_terminal_state());
    assert_eq!(issuer.source_id, "issuer");
    assert_eq!(IssuerSM::from_string(&issuer.to_string()).unwrap(), issuer);
}

#[test]
fn issuer_takes_a_decline_until_the_end() {
    let fresh = IssuerSM::new(offer(), "{}".to_string(), "issuer".to_string());
    let mut requested = fresh.clone();
    requested.handle(IssuerEvent::CredentialRequest(request("offer-1"))).unwrap();
    for mut issuer in [fresh.clone(), requested.clone()] {
        let before = issuer.clone();
        assert_eq!(issuer.handle(IssuerEvent::ProblemReport(report("other"))).unwrap_err().kind(), VcxErrorKind::InvalidThread);
        assert_eq!(issuer, before);
        assert_eq!(IssuerSM::from_string(&issuer.to_string()).unwrap(), issuer);
        issuer.handle(IssuerEvent::ProblemReport(report("offer-1"))).unwrap();
        assert_eq!(
            issuer.state,
            IssuerFullState::Finished(IssuerFinished { cred_id: None, status: Status::Declined(report("offer-1")) })
        );
        assert_eq!(IssuerSM::from_string(&issuer.to_string()).unwrap(), issuer);
        let finished = issuer.clone();
        for event in [
            IssuerEvent::ProblemReport(report("offer-1")),
            IssuerEvent::CredentialRequest(request("offer-1")),
            IssuerEvent::CredentialSent(None),
        ] {
            assert_eq!(issuer.handle(event).unwrap_err().kind(), VcxErrorKind::InvalidState);
            assert_eq!(issuer, finished);
        }
    }
    let mut issuer = fresh.clone();
    assert_eq!(issuer.handle(IssuerEvent::CredentialSent(None)).unwrap_err().kind(), VcxErrorKind::InvalidState);
    assert_eq!(issuer.handle(IssuerEvent::CredentialRequest(request("offer-2"))).unwrap_err().kind(), VcxErrorKind::InvalidThread);
    assert_eq!(issuer, fresh);
    let mut issuer = requested.clone();
    assert_eq!(issuer.handle(IssuerEvent::CredentialRequest(request("offer-1"))).unwrap_err().kind(), VcxErrorKind::InvalidState);
    assert_eq!(issuer, requested);
}

#[test]
fn verifier_records_what_the_backend_found() {
    let fresh = VerifierSM::new(presentation_request(), "verifier".to_string());
    assert_eq!(fresh.thread_id, "request-7");
    assert_eq!(
        fresh.state,
        VerifierFullState::PresentationRequestSent(PresentationRequestSentState::new(presentation_request()))
    );
    assert_eq!(fresh.presentation_status(), None);
    assert_eq!(VerifierSM::from_string(&fresh.to_string()).unwrap(), fresh);

    let failure = VcxError::from_msg(VcxErrorKind::LibindyInvalidStructure, "ledger is down");
    for (verified, status) in [
        (Ok(true), Status::Success),
        (Ok(false), Status::Failed(VcxError::from_msg(VcxErrorKind::InvalidProof, "Presentation verification failed"))),
        (Err(failure.clone()), Status::Failed(failure.clone())),
    ] {
        assert_eq!(verification_status(verified.clone()), status);
        let event = verified_event(presentation("request-7"), verified);
        assert_eq!(event, VerifierEvent::Presentation(presentation("request-7"), status.clone()));
        let mut verifier = fresh.clone();
        verifier.handle(event.clone()).unwrap();
        assert_eq!(
            verifier.state,
            VerifierFullState::Finished(FinishedState {
                presentation_request: presentation_request(),
                presentation: Some(presentation("request-7")),
                status: status.clone(),
            })
        );
        assert_eq!(verifier.presentation_status(), Some(&status));
        assert!(verifier.is_terminal_state());
        assert_eq!(VerifierSM::from_string(&verifier.to_string()).unwrap(), verifier);
        let finished = verifier.clone();
        assert_eq!(verifier.handle(event).unwrap_err().kind(), VcxErrorKind::InvalidState);
        assert_eq!(verifier.handle(VerifierEvent::ProblemReport(report("request-7"))).unwrap_err().kind(), VcxErrorKind::InvalidState);
        assert_eq!(verifier, finished);
    }
}

#[test]
fn verifier_takes_a_decline_on_its_thread_only() {
    let mut verifier = VerifierSM::new(presentation_request(), "verifier".to_string());
    let before = verifier.clone();
    assert_eq!(verifier.handle(VerifierEvent::ProblemReport(report("request-8"))).unwrap_err().kind(), VcxErrorKind::InvalidThread);
    assert_eq!(
        verifier.handle(verified_event(presentation("request-8"), Ok(true))).unwrap_err().kind(),
        VcxErrorKind::InvalidThread
    );
    assert_eq!(verifier, before);
    verifier.handle(VerifierEvent::ProblemReport(report("request-7"))).unwrap();
    assert_eq!(
        verifier.state,
        VerifierFullState::Finished(FinishedState {
            presentation_request: presentation_request(),
            presentation: None,
            status: Status::Declined(report("request-7")),
        })
    );
    assert_eq!(VerifierSM::from_string(&verifier.to_string()).unwrap(), verifier);
}
