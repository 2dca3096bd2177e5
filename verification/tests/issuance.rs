use aries_vcx::error::VcxErrorKind;
use aries_vcx::messages::a2a::MessageId;
use aries_vcx::messages::attachment::{AttachmentId, Attachments};
use aries_vcx::messages::error::ProblemReport;
use aries_vcx::messages::issuance::credential::Credential;
use aries_vcx::messages::issuance::credential_offer::CredentialOffer;
use aries_vcx::messages::issuance::credential_request::CredentialRequest;
use aries_vcx::messages::status::Status;
use aries_vcx::messages::thread::Thread;
use aries_vcx::protocols::issuance::holder::state_machine::{HolderEvent, HolderFullState, HolderSM};
use aries_vcx::protocols::issuance::holder::states::finished::FinishedHolderState;
use aries_vcx::protocols::issuance::holder::states::offer_received::OfferReceivedState;
use aries_vcx::protocols::issuance::holder::states::request_sent::{revocation_supported, RequestSentState};
use aries_vcx::utils::json::JsonValue;

fn offer() -> CredentialOffer {
    let mut offers_attach = Attachments::new();
    offers_attach.add_base64_encoded_content(AttachmentId::CredentialOffer, "{\"schema_id\":\"s1\"}");
    CredentialOffer { id: MessageId("offer-1".to_string()), comment: None, offers_attach, thread: None }
}

fn credential(thid: &str) -> Credential {
    Credential::create_with_id(MessageId("cred-msg".to_string()))
        .set_thread_id(thid)
        .set_credential("{\"values\":{}}".to_string())
        .unwrap()
}

fn report(thid: &str, description: &str) -> ProblemReport {
    ProblemReport::create_with_id(MessageId::id())
        .set_description(description.to_string())
        .set_thread_id(thid)
}

fn request_sent(cred_def_json: &str) -> RequestSentState {
    RequestSentState { req_meta: "{\"nonce\":\"1\"}".to_string(), cred_def_json: cred_def_json.to_string() }
}

fn holder_in_request_sent() -> HolderSM {
    let mut holder = HolderSM::new(offer(), "holder".to_string());
    holder
        .handle(HolderEvent::CredentialRequestSent("{\"nonce\":\"1\"}".to_string(), "{\"value\":{}}".to_string()))
        .unwrap();
    holder
}

#[test]
fn issuance_decline_ends_without_credential() {
    let mut holder = holder_in_request_sent();
    assert_eq!(holder.state, HolderFullState::RequestSent(request_sent("{\"value\":{}}")));
    let declined = report("offer-1", "credential revoked");
    holder.handle(HolderEvent::ProblemReport(declined.clone())).unwrap();
    assert_eq!(
        holder.state,
        HolderFullState::Finished(FinishedHolderState {
            cred_id: None,
            credential: None,
            status: Status::Declined(declined),
            rev_reg_def_json: None,
        })
    );
    assert!(holder.is_terminal_state());
    assert_eq!(holder.is_revokable().unwrap(), false);
}

#[test]
fn issuance_success_records_the_credential() {
    let mut holder = HolderSM::new(offer(), "holder".to_string());
    assert_eq!(holder.thread_id, "offer-1");
    assert_eq!(holder.source_id, "holder");
    assert_eq!(holder.state, HolderFullState::OfferReceived(OfferReceivedState::new(offer())));
    assert!(!holder.is_terminal_state());
    assert_eq!(holder.is_revokable().unwrap_err().kind(), VcxErrorKind::InvalidState);

    holder
        .handle(HolderEvent::CredentialRequestSent("meta".to_string(), "{\"value\":{\"revocation\":{}}}".to_string()))
        .unwrap();
    assert_eq!(
        holder.state,
        HolderFullState::RequestSent(RequestSentState {
            req_meta: "meta".to_string(),
            cred_def_json: "{\"value\":{\"revocation\":{}}}".to_string(),
        })
    );
    assert_eq!(holder.is_revokable().unwrap(), true);

    holder
        .handle(HolderEvent::Credential("cred-id-1".to_string(), credential("offer-1"), Some("{\"id\":\"rr\"}".to_string())))
        .unwrap();
    assert_eq!(
        holder.state,
        HolderFullState::Finished(FinishedHolderState {
            cred_id: Some("cred-id-1".to_string()),
            credential: Some(credential("offer-1")),
            status: Status::Success,
            rev_reg_def_json: Some("{\"id\":\"rr\"}".to_string()),
        })
    );
    assert_eq!(holder.is_revokable().unwrap(), true);
    assert_eq!(holder.thread_id, "offer-1");
    assert_eq!(holder.source_id, "holder");
}

#[test]
fn finished_state_is_made_of_what_arrived() {
    let finished = FinishedHolderState::from((request_sent("{}"), "id-7".to_string(), credential("t"), None));
    assert_eq!(
        finished,
        FinishedHolderState {
            cred_id: Some("id-7".to_string()),
            credential: Some(credential("t")),
            status: Status::Success,
            rev_reg_def_json: None,
        }
    );
    assert!(!finished.is_revokable());
    let sent = RequestSentState::from((OfferReceivedState::new(offer()), "m".to_string(), "d".to_string()));
    assert_eq!(sent, RequestSentState { req_meta: "m".to_string(), cred_def_json: "d".to_string() });
    let declined = FinishedHolderState::from((OfferReceivedState::new(offer()), report("t", "no")));
    assert_eq!(declined.status, Status::Declined(report("t", "no")));
    assert_eq!(declined.credential, None);
    assert_eq!(declined.cred_id, None);
    assert_eq!(declined.rev_reg_def_json, None);
}

#[test]
fn holder_rejects_what_is_out_of_turn_or_out_of_thread() {
    let mut holder = HolderSM::new(offer(), "holder".to_string());
    let fresh = holder.clone();
    let failure = holder.handle(HolderEvent::Credential("id".to_string(), credential("offer-1"), None)).unwrap_err();
    assert_eq!(failure.kind(), VcxErrorKind::InvalidState);
    assert_eq!(holder, fresh);
    assert_eq!(
        holder.handle(HolderEvent::ProblemReport(report("elsewhere", "no"))).unwrap_err().kind(),
        VcxErrorKind::InvalidThread
    );
    assert_eq!(holder, fresh);

    let mut holder = holder_in_request_sent();
    let sent = holder.clone();
    assert_eq!(
        holder.handle(HolderEvent::CredentialRequestSent("m".to_string(), "d".to_string())).unwrap_err().kind(),
        VcxErrorKind::InvalidState
    );
    assert_eq!(
        holder.handle(HolderEvent::Credential("id".to_string(), credential("offer-2"), None)).unwrap_err().kind(),
        VcxErrorKind::InvalidThread
    );
    assert_eq!(holder, sent);

    holder.handle(HolderEvent::Credential("id".to_string(), credential("offer-1"), None)).unwrap();
    let finished = holder.clone();
    for event in [
        HolderEvent::CredentialRequestSent("m".to_string(), "d".to_string()),
        HolderEvent::Credential("id".to_string(), credential("offer-1"), None),
        HolderEvent::ProblemReport(report("offer-1", "late")),
        HolderEvent::ProblemReport(report("offer-9", "late")),
    ] {
        assert_eq!(holder.handle(event).unwrap_err().kind(), VcxErrorKind::InvalidState);
        assert_eq!(holder, finished);
    }
}

#[test]
fn revocation_is_read_from_the_credential_definition() {
    assert_eq!(request_sent("{\"value\":{\"revocation\":{\"g\":\"1\"}}}").is_revokable().unwrap(), true);
    assert_eq!(request_sent("{\"value\":{\"revocation\":0}}").is_revokable().unwrap(), true);
    assert_eq!(request_sent("{\"value\":{\"revocation\":null}}").is_revokable().unwrap(), false);
    assert_eq!(request_sent("{\"value\":{\"primary\":{}}}").is_revokable().unwrap(), false);
    assert_eq!(request_sent("{\"value\":7}").is_revokable().unwrap(), false);
    assert_eq!(request_sent("{}").is_revokable().unwrap(), false);
    assert_eq!(request_sent("[]").is_revokable().unwrap(), false);
    assert_eq!(request_sent("null").is_revokable().unwrap(), false);
    assert_eq!(request_sent("").is_revokable().unwrap_err().kind(), VcxErrorKind::SerializationError);
    assert_eq!(request_sent("{\"value\":").is_revokable().unwrap_err().kind(), VcxErrorKind::SerializationError);
    assert_eq!(request_sent("not json").is_revokable().unwrap_err().kind(), VcxErrorKind::SerializationError);
    assert!(revocation_supported(&JsonValue::from_text("{\"value\":{\"revocation\":[]}}").unwrap()));
    assert!(!revocation_supported(&JsonValue::Null));
}

#[test]
fn offer_and_request_carry_one_attachment() {
    assert_eq!(offer().offer_content().unwrap(), "{\"schema_id\":\"s1\"}");
    assert_eq!(offer().get_thread_id(), "offer-1");
    let mut threaded = offer();
    threaded.thread = Some(Thread::new().set_thid("th".to_string()));
    assert_eq!(threaded.get_thread_id(), "th");

    let mut requests_attach = Attachments::new();
    requests_attach.add_base64_encoded_content(AttachmentId::CredentialRequest, "{\"prover_did\":\"d\"}");
    let request = CredentialRequest {
        id: MessageId::id(),
        comment: None,
        requests_attach,
        thread: Thread::new().set_thid("offer-1".to_string()),
    };
    assert_eq!(request.request_content().unwrap(), "{\"prover_did\":\"d\"}");
    let mut wrong = request.clone();
    wrong.requests_attach = offer().offers_attach;
    assert_eq!(wrong.request_content().unwrap_err().kind(), VcxErrorKind::InvalidJson);
}
