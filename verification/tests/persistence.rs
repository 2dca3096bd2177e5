use aries_vcx::did_doc::DidDoc;
use aries_vcx::error::{VcxError, VcxErrorKind};
use aries_vcx::messages::a2a::MessageId;
use aries_vcx::messages::ack::PleaseAck;
use aries_vcx::messages::attachment::{Attachment, AttachmentId, Attachments};
use aries_vcx::messages::connection::invite::Invitation;
use aries_vcx::messages::connection::request::{ConnectionData, Request};
use aries_vcx::messages::connection::response::{ConnectionSignature, Response, SignedResponse};
use aries_vcx::messages::error::ProblemReport;
use aries_vcx::messages::issuance::credential::test_utils::_credential;
use aries_vcx::messages::issuance::credential::Credential;
use aries_vcx::messages::issuance::credential_offer::CredentialOffer;
use aries_vcx::messages::proof_presentation::presentation::Presentation;
use aries_vcx::messages::proof_presentation::presentation_request::PresentationRequest;
use aries_vcx::messages::status::Status;
use aries_vcx::messages::thread::{ReceivedOrder, Thread};
use aries_vcx::messages::timing::Timing;
use aries_vcx::protocols::connection::invitee::state_machine::{InviteeEvent, InviteeFullState, SmConnectionInvitee};
use aries_vcx::protocols::connection::inviter::state_machine::{InviterEvent, InviterFullState, SmConnectionInviter};
use aries_vcx::protocols::connection::inviter::states::initial::InitialState;
use aries_vcx::protocols::issuance::holder::state_machine::{HolderEvent, HolderFullState, HolderSM};
use aries_vcx::protocols::issuance::holder::states::finished::FinishedHolderState;
use aries_vcx::protocols::proof_presentation::prover::state_machine::{ProverEvent, ProverFullState, ProverSM};
use aries_vcx::protocols::proof_presentation::prover::states::finished::FinishedState;
use aries_vcx::utils::json::JsonValue;
use aries_vcx::utils::serialization::ObjectWithVersion;

fn thread(thid: &str) -> Thread {
    let mut thread = Thread::new().set_thid(thid.to_string());
    thread.pthid = Some("parent".to_string());
    thread.sender_order = 3;
    thread.received_orders = vec![
        ReceivedOrder { party: "did:b".to_string(), order: 0 },
        ReceivedOrder { party: "did:a".to_string(), order: 4294967295 },
    ];
    thread
}

fn invitation() -> Invitation {
    Invitation::create_with_id(MessageId("t1".to_string()))
        .set_label("inviter \"quoted\"".to_string())
        .set_service_endpoint("https://inviter.example/agent".to_string())
        .set_keys(vec!["key-1".to_string(), "key-2".to_string()], vec![])
}

fn did_doc(id: &str) -> DidDoc {
    DidDoc {
        id: id.to_string(),
        recipient_keys: vec!["rk".to_string()],
        routing_keys: vec!["m1".to_string(), "m2".to_string()],
        service_endpoint: "https://x.example".to_string(),
    }
}

fn request() -> Request {
    Request {
        id: MessageId("request-1".to_string()),
        label: "invitee".to_string(),
        connection: ConnectionData { did: "did:invitee".to_string(), did_doc: did_doc("did:invitee") },
        thread: Some(thread("t1")),
    }
}

fn signed_response() -> SignedResponse {
    SignedResponse {
        id: MessageId("response-1".to_string()),
        thread: thread("t1"),
        connection_sig: ConnectionSignature {
            signature: "c2ln".to_string(),
            sig_data: "ZGF0YQ==".to_string(),
            signer: "key-1".to_string(),
        },
    }
}

fn response() -> Response {
    Response {
        id: MessageId("response-1".to_string()),
        thread: thread("t1"),
        connection: ConnectionData { did: "did:inviter".to_string(), did_doc: did_doc("did:inviter") },
    }
}

fn report() -> ProblemReport {
    let mut report = ProblemReport::create_with_id(MessageId("report-1".to_string()))
        .set_description("credential revoked".to_string())
        .set_code(1081);
    report.thread = thread("offer-1");
    report
}

fn connection_report() -> ProblemReport {
    let mut report = report();
    report.thread = thread("t1");
    report
}

fn offer() -> CredentialOffer {
    let mut offers_attach = Attachments::new();
    offers_attach.add_base64_encoded_content(AttachmentId::CredentialOffer, "{\"schema_id\":\"s1\"}");
    CredentialOffer { id: MessageId("offer-1".to_string()), comment: Some("an offer".to_string()), offers_attach, thread: None }
}

fn credential() -> Credential {
    _credential()
        .set_thread_id("offer-1")
        .ask_for_ack()
        .set_timing(Timing::new().set_out_time("2021-01-01".to_string()).set_delay_milli(5).set_expires_time("never".to_string()))
}

fn presentation_request() -> PresentationRequest {
    let mut attach = Attachments::new();
    attach.add_base64_encoded_content(AttachmentId::PresentationRequest, "{\"name\":\"proof\"}");
    PresentationRequest { id: MessageId("request-7".to_string()), comment: None, request_presentations_attach: attach, thread: Some(Thread::new()) }
}

fn presentation() -> Presentation {
    let mut presentation = Presentation::create_with_id(MessageId("p-1".to_string()), "request-7", "{\"proof\":{}}");
    presentation.please_ack = Some(PleaseAck { on_receipt: true, on_outcome: false });
    presentation
}

fn inviter_states() -> Vec<SmConnectionInviter> {
    let mut machine = SmConnectionInviter::new();
    let mut states = vec![machine.clone()];
    for event in [
        InviterEvent::Invitation(invitation()),
        InviterEvent::Request(request(), signed_response()),
        InviterEvent::ResponseSent,
        InviterEvent::Ack(thread("t1")),
        InviterEvent::ProblemReport(connection_report()),
    ] {
        machine.handle(event).unwrap();
        states.push(machine.clone());
    }
    states
}

fn invitee_states() -> Vec<SmConnectionInvitee> {
    let mut machine = SmConnectionInvitee::new();
    let mut states = vec![machine.clone()];
    for event in [
        InviteeEvent::Invitation(invitation()),
        InviteeEvent::Request(request()),
        InviteeEvent::Response(response()),
        InviteeEvent::Ack,
        InviteeEvent::ProblemReport(connection_report()),
    ] {
        machine.handle(event).unwrap();
        states.push(machine.clone());
    }
    states
}

fn holder_states() -> Vec<HolderSM> {
    let mut machine = HolderSM::new(offer(), "holder".to_string());
    let mut states = vec![machine.clone()];
    machine.handle(HolderEvent::CredentialRequestSent("{\"n\":1}".to_string(), "{\"value\":{}}".to_string())).unwrap();
    states.push(machine.clone());
    let mut declined = machine.clone();
    declined.handle(HolderEvent::ProblemReport(report())).unwrap();
    states.push(declined);
    machine.handle(HolderEvent::Credential("cred-1".to_string(), credential(), Some("{\"id\":\"rr\"}".to_string()))).unwrap();
    states.push(machine.clone());
    machine.state = HolderFullState::Finished(FinishedHolderState {
        cred_id: None,
        credential: None,
        status: Status::Failed(VcxError::from_msg(VcxErrorKind::IOError, "wallet is closed")),
        rev_reg_def_json: None,
    });
    states.push(machine);
    states
}

fn prover_states() -> Vec<ProverSM> {
    let fresh = ProverSM::new(presentation_request(), "prover".to_string());
    let mut states = vec![fresh.clone()];
    let mut prepared = fresh.clone();
    prepared.handle(ProverEvent::PresentationPrepared(presentation())).unwrap();
    states.push(prepared.clone());
    prepared.handle(ProverEvent::Delivered).unwrap();
    states.push(prepared);
    let mut failed = fresh.clone();
    failed.handle(ProverEvent::PreparationFailed(report())).unwrap();
    states.push(failed.clone());
    failed.handle(ProverEvent::Delivered).unwrap();
    states.push(failed);
    let mut accepted = fresh.clone();
    accepted.handle(ProverEvent::NoPresentationRequired).unwrap();
    states.push(accepted);
    let mut declined = fresh;
    declined.handle(ProverEvent::Declined(report())).unwrap();
    states.push(declined);
    let mut empty = ProverSM::new(presentation_request(), String::new());
    empty.state = ProverFullState::Finished(FinishedState { presentation_request: None, presentation: None, status: Status::Success });
    states.push(empty);
    states
}

#[test]
fn every_inviter_state_is_read_back() {
    let states = inviter_states();
    assert_eq!(states.len(), 6);
    for machine in states {
        let text = machine.to_string();
        assert_eq!(SmConnectionInviter::from_string(&text).unwrap(), machine);
        assert_eq!(SmConnectionInviter::from_document(&machine.to_document()), Some(machine.clone()));
        assert_eq!(InviterFullState::from_document(&machine.state.to_document()), Some(machine.state.clone()));
    }
}

#[test]
fn every_invitee_state_is_read_back() {
    let states = invitee_states();
    assert_eq!(states.len(), 6);
    for machine in states {
        let text = machine.to_string();
        assert_eq!(SmConnectionInvitee::from_string(&text).unwrap(), machine);
        assert_eq!(InviteeFullState::from_document(&machine.state.to_document()), Some(machine.state.clone()));
    }
}

#[test]
fn every_holder_state_is_read_back() {
    let states = holder_states();
    assert_eq!(states.len(), 5);
    for machine in states {
        let text = machine.to_string();
        assert_eq!(HolderSM::from_string(&text).unwrap(), machine);
        assert_eq!(HolderFullState::from_document(&machine.state.to_document()), Some(machine.state.clone()));
    }
}

#[test]
fn every_prover_state_is_read_back() {
    let states = prover_states();
    assert_eq!(states.len(), 8);
    for machine in states {
        let text = machine.to_string();
        assert_eq!(ProverSM::from_string(&text).unwrap(), machine);
        assert_eq!(ProverFullState::from_document(&machine.state.to_document()), Some(machine.state.clone()));
    }
}

#[test]
fn persisted_layout_is_version_and_data() {
    let machine = SmConnectionInviter::new();
    assert_eq!(machine.to_string(), "{\"data\":{\"state\":{\"Initial\":{\"problem_report\":null}}},\"version\":\"2.0\"}");
    let holder = &holder_states()[1];
    assert_eq!(
        holder.to_string(),
        "{\"data\":{\"source_id\":\"holder\",\"state\":{\"RequestSent\":{\"cred_def_json\":\"{\\\"value\\\":{}}\",\"req_meta\":\"{\\\"n\\\":1}\"}},\"thread_id\":\"offer-1\"},\"version\":\"2.0\"}"
    );
}

#[test]
fn what_is_no_persisted_machine_is_not_read() {
    let text = SmConnectionInviter::new().to_string();
    for bad in [
        String::new(),
        "{}".to_string(),
        text.replace("2.0", "1.0"),
        text.replace("Initial", "Unheard"),
        text.replace("\"state\"", "\"stat\""),
        text.replace("null", "7"),
        "{\"version\":\"2.0\",\"data\":null}".to_string(),
        "{\"version\":\"2.0\",\"data\":{\"state\":{}}}".to_string(),
        "{\"version\":\"2.0\",\"data\":{\"state\":{\"Invited\":{}}}}".to_string(),
    ] {
        assert_eq!(SmConnectionInviter::from_string(&bad).unwrap_err().kind(), VcxErrorKind::InvalidJson, "{}", bad);
    }
    // a machine of another role or family is no machine of this one
    assert!(SmConnectionInviter::from_string(&holder_states()[0].to_string()).is_err());
    assert!(HolderSM::from_string(&prover_states()[0].to_string()).is_err());
    assert!(ProverSM::from_string(&SmConnectionInvitee::new().to_string()).is_err());
    // a missing optional member reads like null
    assert_eq!(
        SmConnectionInviter::from_string("{\"version\":\"2.0\",\"data\":{\"state\":{\"Initial\":{}}}}").unwrap(),
        SmConnectionInviter { state: InviterFullState::Initial(InitialState::new(None)) }
    );
}

#[test]
fn messages_and_decorators_are_read_back() {
    assert_eq!(Thread::from_document(&thread("t").to_document()), Some(thread("t")));
    assert_eq!(Thread::from_document(&Thread::new().to_document()), Some(Thread::new()));
    assert_eq!(
        thread("t").to_document().to_text(),
        "{\"pthid\":\"parent\",\"received_orders\":{\"did:a\":4294967295,\"did:b\":0},\"sender_order\":3,\"thid\":\"t\"}"
    );
    assert_eq!(Invitation::from_document(&invitation().to_document()), Some(invitation()));
    assert_eq!(Request::from_document(&request().to_document()), Some(request()));
    assert_eq!(Response::from_document(&response().to_document()), Some(response()));
    assert_eq!(SignedResponse::from_document(&signed_response().to_document()), Some(signed_response()));
    assert_eq!(ProblemReport::from_document(&report().to_document()), Some(report()));
    assert_eq!(CredentialOffer::from_document(&offer().to_document()), Some(offer()));
    assert_eq!(Credential::from_document(&credential().to_document()), Some(credential()));
    assert_eq!(PresentationRequest::from_document(&presentation_request().to_document()), Some(presentation_request()));
    assert_eq!(Presentation::from_document(&presentation().to_document()), Some(presentation()));
    assert_eq!(DidDoc::from_document(&did_doc("d").to_document()), Some(did_doc("d")));
    let timing = Timing::new().set_delay_milli(0);
    assert_eq!(Timing::from_document(&timing.to_document()), Some(timing));
    for status in [Status::Success, Status::Declined(report()), Status::Failed(VcxError::from_kind(VcxErrorKind::InvalidState))] {
        assert_eq!(Status::from_document(&status.to_document()), Some(status));
    }
    for id in [
        AttachmentId::CredentialOffer,
        AttachmentId::CredentialRequest,
        AttachmentId::Credential,
        AttachmentId::PresentationRequest,
        AttachmentId::Presentation,
    ] {
        assert_eq!(AttachmentId::from_document(&id.to_document()), Some(id));
        assert_eq!(id.to_document(), JsonValue::from_str(id.wire_name()));
        let attachment = Attachment::json(id, "{}");
        assert_eq!(Attachment::from_document(&attachment.to_document()), Some(attachment));
    }
}

#[test]
fn messages_have_their_wire_names() {
    let credential = Credential::create_with_id(MessageId::id()).set_credential("{}".to_string()).unwrap();
    assert_eq!(
        credential.to_document().to_text(),
        "{\"@id\":\"testid\",\"comment\":null,\"credentials~attach\":[{\"@id\":\"libindy-cred-0\",\"data\":{\"base64\":\"e30=\"},\"mime-type\":\"application/json\"}],\"~please_ack\":null,\"~thread\":{\"pthid\":null,\"received_orders\":{},\"sender_order\":0,\"thid\":null},\"~timing\":null}"
    );
    let read = Credential::from_document(
        &JsonValue::from_text("{\"@id\":\"x\",\"credentials~attach\":[],\"~thread\":{\"sender_order\":2,\"received_orders\":{\"a\":1}}}").unwrap(),
    )
    .unwrap();
    assert_eq!(read.id, MessageId("x".to_string()));
    assert_eq!(read.thread.sender_order, 2);
    assert_eq!(read.thread.received_order("a"), Some(1));
    assert_eq!(read.comment, None);
    for bad in [
        "{\"credentials~attach\":[],\"~thread\":{\"sender_order\":2,\"received_orders\":{}}}",
        "{\"@id\":\"x\",\"~thread\":{\"sender_order\":2,\"received_orders\":{}}}",
        "{\"@id\":\"x\",\"credentials~attach\":[],\"~thread\":{\"sender_order\":-2,\"received_orders\":{}}}",
        "{\"@id\":\"x\",\"credentials~attach\":[],\"~thread\":{\"sender_order\":4294967296,\"received_orders\":{}}}",
        "{\"@id\":\"x\",\"credentials~attach\":[],\"~thread\":{\"sender_order\":2,\"received_orders\":{\"a\":\"1\"}}}",
        "{\"@id\":\"x\",\"credentials~attach\":[{}],\"~thread\":{\"sender_order\":2,\"received_orders\":{}}}",
        "{\"@id\":\"x\",\"credentials~attach\":[{\"@id\":\"unknown\",\"mime-type\":\"a\",\"data\":{\"base64\":\"\"}}],\"~thread\":{\"sender_order\":2,\"received_orders\":{}}}",
        "{\"@id\":\"x\",\"comment\":1,\"credentials~attach\":[],\"~thread\":{\"sender_order\":2,\"received_orders\":{}}}",
        "[]",
    ] {
        assert_eq!(Credential::from_document(&JsonValue::from_text(bad).unwrap()), None, "{}", bad);
    }
}

#[test]
fn failures_are_persisted_by_the_name_of_their_kind() {
    let failure = VcxError::from_msg(VcxErrorKind::InvalidAttachmentEncoding, "bad");
    assert_eq!(failure.to_document().to_text(), "{\"kind\":\"InvalidAttachmentEncoding\",\"msg\":\"bad\"}");
    for kind in [
        VcxErrorKind::InvalidState,
        VcxErrorKind::NotReady,
        VcxErrorKind::InvalidJson,
        VcxErrorKind::SerializationError,
        VcxErrorKind::InvalidThread,
        VcxErrorKind::InvalidAttachmentEncoding,
        VcxErrorKind::UnknownAttachmentEncoding,
        VcxErrorKind::InvalidProof,
        VcxErrorKind::InvalidProofHandle,
        VcxErrorKind::InvalidHandle,
        VcxErrorKind::InvalidProofCredentialData,
        VcxErrorKind::InvalidSchema,
        VcxErrorKind::InvalidRevocationDetails,
        VcxErrorKind::InvalidRevocationTimestamp,
        VcxErrorKind::EncodeError,
        VcxErrorKind::LibindyInvalidStructure,
        VcxErrorKind::IOError,
        VcxErrorKind::LoggingError,
    ] {
        assert_eq!(VcxErrorKind::from_document(&kind.to_document()), Some(kind));
        let failure = VcxError::from_kind(kind);
        assert_eq!(VcxError::from_document(&failure.to_document()), Some(failure));
    }
    assert_eq!(VcxErrorKind::from_document(&JsonValue::from_str("Unheard")), None);
    assert_eq!(VcxErrorKind::from_document(&JsonValue::Null), None);
}

#[test]
fn machines_are_read_from_objects_of_the_present_version() {
    let machine = holder_states()[1].clone();
    let object = ObjectWithVersion { version: "2.0".to_string(), data: machine.to_document() };
    assert_eq!(HolderSM::from_object(object.clone()).unwrap(), machine);
    let old = ObjectWithVersion { version: "1.0".to_string(), ..object.clone() };
    assert_eq!(HolderSM::from_object(old).unwrap_err().kind(), VcxErrorKind::InvalidJson);
    let empty = ObjectWithVersion { version: "2.0".to_string(), data: JsonValue::object() };
    assert_eq!(HolderSM::from_object(empty).unwrap_err().kind(), VcxErrorKind::InvalidJson);
    assert_eq!(ProverSM::from_object(object).unwrap_err().kind(), VcxErrorKind::InvalidJson);
}
