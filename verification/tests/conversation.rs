use aries_vcx::error::VcxErrorKind;
use aries_vcx::messages::a2a::MessageId;
use aries_vcx::messages::attachment::{AttachmentId, Attachments};
use aries_vcx::messages::error::ProblemReport;
use aries_vcx::messages::issuance::credential::Credential;
use aries_vcx::messages::issuance::credential_offer::CredentialOffer;
use aries_vcx::messages::issuance::credential_request::CredentialRequest;
use aries_vcx::messages::proof_presentation::presentation::Presentation;
use aries_vcx::messages::proof_presentation::presentation_request::PresentationRequest;
use aries_vcx::messages::status::Status;
use aries_vcx::messages::thread::Thread;
use aries_vcx::protocols::conversation::Conversation;
use aries_vcx::protocols::issuance::holder::state_machine::{HolderEvent, HolderFullState, HolderSM};
use aries_vcx::protocols::issuance::issuer::state_machine::{IssuerEvent, IssuerSM};
use aries_vcx::protocols::proof_presentation::presentation_verifier::state_machine::{
    verified_event, VerifierEvent, VerifierSM,
};

fn offer() -> CredentialOffer {
    let mut offers_attach = Attachments::new();
    offers_attach.add_base64_encoded_content(AttachmentId::CredentialOffer, "{}");
    CredentialOffer { id: MessageId("offer-1".to_string()), comment: None, offers_attach, thread: None }
}

fn credential(thid: &str, sender_order: u32) -> Credential {
    let mut credential = Credential::create_with_id(MessageId("c".to_string()))
        .set_thread_id(thid)
        .set_credential("{}".to_string())
        .unwrap();
    credential.thread.sender_order = sender_order;
    credential
}

fn report(thid: &str, sender_order: u32) -> ProblemReport {
    let mut report = ProblemReport::create_with_id(MessageId::id()).set_thread_id(thid);
    report.thread.sender_order = sender_order;
    report
}

fn holder() -> Conversation<HolderSM> {
    Conversation::new(HolderSM::new(offer(), "holder".to_string()))
}

#[test]
fn conversation_is_on_the_thread_of_its_machine() {
    let conversation = holder();
    assert_eq!(conversation.thread, Thread::new().set_thid("offer-1".to_string()));
    assert_eq!(conversation.machine, HolderSM::new(offer(), "holder".to_string()));
}

#[test]
fn own_actions_are_not_counted() {
    let mut conversation = holder();
    conversation.receive("issuer", HolderEvent::CredentialRequestSent("m".to_string(), "d".to_string())).unwrap();
    assert!(matches!(conversation.machine.state, HolderFullState::RequestSent(_)));
    assert_eq!(conversation.thread.received_order("issuer"), None);
    assert_eq!(conversation.thread, Thread::new().set_thid("offer-1".to_string()));
}

#[test]
fn accepted_message_is_counted_and_its_redelivery_rejected() {
    let mut conversation = holder();
    conversation.receive("issuer", HolderEvent::CredentialRequestSent("m".to_string(), "d".to_string())).unwrap();
    conversation
        .receive("issuer", HolderEvent::Credential("id-1".to_string(), credential("offer-1", 2), None))
        .unwrap();
    assert_eq!(conversation.thread.received_order("issuer"), Some(2));
    assert!(conversation.machine.is_terminal_state());

    let before = conversation.clone();
    let failure = conversation
        .receive("issuer", HolderEvent::Credential("id-1".to_string(), credential("offer-1", 2), None))
        .unwrap_err();
    assert_eq!(failure.kind(), VcxErrorKind::InvalidThread);
    assert_eq!(conversation, before);
    // a later message passes the correlation check and reaches the machine, which has ended
    let failure = conversation.receive("issuer", HolderEvent::ProblemReport(report("offer-1", 3))).unwrap_err();
    assert_eq!(failure.kind(), VcxErrorKind::InvalidState);
    assert_eq!(conversation, before);
}

#[test]
fn message_that_the_machine_rejects_is_not_counted() {
    let mut conversation = holder();
    let before = conversation.clone();
    let failure = conversation
        .receive("issuer", HolderEvent::Credential("id-1".to_string(), credential("offer-1", 5), None))
        .unwrap_err();
    assert_eq!(failure.kind(), VcxErrorKind::InvalidState);
    assert_eq!(conversation, before);
    assert_eq!(conversation.thread.received_order("issuer"), None);

    // once the machine is ready, the same message is taken
    conversation.receive("issuer", HolderEvent::CredentialRequestSent("m".to_string(), "d".to_string())).unwrap();
    conversation
        .receive("issuer", HolderEvent::Credential("id-1".to_string(), credential("offer-1", 5), None))
        .unwrap();
    assert_eq!(conversation.thread.received_order("issuer"), Some(5));
}

#[test]
fn out_of_order_and_out_of_thread_messages_are_rejected() {
    let offer = offer();
    let mut conversation = Conversation::new(IssuerSM::new(offer, "{}".to_string(), "issuer".to_string()));
    let request = |thid: &str, order: u32| {
        let mut requests_attach = Attachments::new();
        requests_attach.add_base64_encoded_content(AttachmentId::CredentialRequest, "{}");
        let mut thread = Thread::new().set_thid(thid.to_string());
        thread.sender_order = order;
        CredentialRequest { id: MessageId("r".to_string()), comment: None, requests_attach, thread }
    };
    let before = conversation.clone();
    assert_eq!(
        conversation.receive("holder", IssuerEvent::CredentialRequest(request("other", 1))).unwrap_err().kind(),
        VcxErrorKind::InvalidThread
    );
    assert_eq!(conversation, before);
    conversation.receive("holder", IssuerEvent::CredentialRequest(request("offer-1", 4))).unwrap();
    assert_eq!(conversation.thread.received_order("holder"), Some(4));
    let requested = conversation.clone();
    for order in [0, 3, 4] {
        assert_eq!(
            conversation.receive("holder", IssuerEvent::ProblemReport(report("offer-1", order))).unwrap_err().kind(),
            VcxErrorKind::InvalidThread
        );
        assert_eq!(conversation, requested);
    }
    // another party has a counter of its own
    conversation.receive("mediator", IssuerEvent::ProblemReport(report("offer-1", 0))).unwrap();
    assert_eq!(conversation.thread.received_order("mediator"), Some(0));
    assert_eq!(conversation.thread.received_order("holder"), Some(4));
    assert!(conversation.machine.is_terminal_state());
}

#[test]
fn verifier_conversation_takes_the_presentation_once() {
    let mut attach = Attachments::new();
    attach.add_base64_encoded_content(AttachmentId::PresentationRequest, "{}");
    let request = PresentationRequest { id: MessageId("request-7".to_string()), comment: None, request_presentations_attach: attach, thread: None };
    let mut conversation = Conversation::new(VerifierSM::new(request, "verifier".to_string()));
    let mut presentation = Presentation::create_with_id(MessageId("p".to_string()), "request-7", "{}");
    presentation.thread.sender_order = 1;
    conversation.receive("prover", verified_event(presentation.clone(), Ok(true))).unwrap();
    assert_eq!(conversation.machine.presentation_status(), Some(&Status::Success));
    assert_eq!(conversation.thread.received_order("prover"), Some(1));
    let finished = conversation.clone();
    assert_eq!(
        conversation.receive("prover", VerifierEvent::Presentation(presentation, Status::Success)).unwrap_err().kind(),
        VcxErrorKind::InvalidThread
    );
    assert_eq!(conversation, finished);
}
