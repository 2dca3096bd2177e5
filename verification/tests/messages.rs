use aries_vcx::messages::a2a::{A2AMessage, MessageId};
use aries_vcx::messages::ack::PleaseAck;
use aries_vcx::messages::attachment::{Attachment, AttachmentId, Attachments};
use aries_vcx::messages::basic_message::message::BasicMessage;
use aries_vcx::messages::error::ProblemReport;
use aries_vcx::messages::issuance::credential::test_utils::{_attachment, _comment, _credential};
use aries_vcx::messages::issuance::credential::Credential;
use aries_vcx::messages::localization::Localization;
use aries_vcx::messages::status::Status;
use aries_vcx::messages::timing::Timing;
use aries_vcx::error::{VcxError, VcxErrorKind};

fn _content() -> String {
    String::from("Your hovercraft is full of eels.")
}

fn thread_id() -> String {
    MessageId::id().0
}

#[test]
fn test_basic_message_build_works() {
    let basic_message: BasicMessage = BasicMessage::default()
        .set_content(_content())
        .set_time()
        .set_default_localization();
    assert_eq!(_content(), basic_message.content);
}

#[test]
fn test_credential_build_works() {
    let mut credential: Credential = Credential::create()
        .set_comment(_comment())
        .set_thread_id(&thread_id())
        .set_credential(_attachment().to_text())
        .unwrap();
    // identifiers are drawn at random; the sample carries the fixed one
    credential.id = MessageId::id();

    assert_eq!(_credential(), credential);
}

#[test]
fn message_ids_are_fresh() {
    let first = MessageId::new();
    let second = MessageId::new();
    assert_eq!(first.0.len(), 36);
    assert_ne!(first, second);
    assert_ne!(Credential::create().id, Credential::create().id);
    assert_eq!(MessageId::id().0, "testid");
}

#[test]
fn basic_message_builders_touch_one_field_each() {
    let message = BasicMessage::create_with_id(MessageId::id());
    assert_eq!(message.sent_time, "");
    assert_eq!(message.content, "");
    assert_eq!(message.l10n, None);
    assert_eq!(message.thread, None);
    assert_eq!(message.timing, None);

    let timed = message.clone().set_time();
    assert!(!timed.sent_time.is_empty());
    assert!(timed.sent_time.ends_with('Z'));
    assert_eq!(timed.clone().set_sent_time(String::new()), message);

    let localized = message.clone().set_default_localization();
    assert_eq!(localized.l10n, Some(Localization { locale: "en".to_string() }));

    let threaded = message.clone().set_thread_id("th1");
    assert_eq!(threaded.thread.unwrap().thid, Some("th1".to_string()));

    let sent = message.clone().set_sent_time("2020-01-01T00:00:00Z".to_string());
    assert_eq!(sent.sent_time, "2020-01-01T00:00:00Z");
    match sent.to_a2a_message() {
        A2AMessage::BasicMessage(inner) => assert_eq!(inner, sent),
        other => panic!("unexpected message {:?}", other),
    }
}

#[test]
fn credential_builders() {
    let credential = Credential::create_with_id(MessageId::id());
    assert_eq!(credential.comment, None);
    assert_eq!(credential.credentials_attach, Attachments::new());
    assert_eq!(credential.please_ack, None);
    assert_eq!(credential.timing, None);
    assert!(credential.from_thread(""));
    assert_eq!(credential.get_thread_id(), "");

    let credential = credential
        .set_thread_id("thread-1")
        .ask_for_ack()
        .set_timing(Timing::new().set_delay_milli(15))
        .set_credential("{\"a\":1}".to_string())
        .unwrap();
    assert!(credential.from_thread("thread-1"));
    assert!(!credential.from_thread("thread-2"));
    assert_eq!(credential.get_thread_id(), "thread-1");
    assert_eq!(credential.please_ack, Some(PleaseAck { on_receipt: false, on_outcome: false }));
    assert_eq!(credential.timing.as_ref().unwrap().delay_milli, Some(15));
    assert_eq!(credential.credentials_attach.0.len(), 1);
    assert_eq!(credential.credentials_attach.0[0].encoded_content, "eyJhIjoxfQ==");
    assert_eq!(credential.credential_content().unwrap(), "{\"a\":1}");
    match credential.to_a2a_message() {
        A2AMessage::Credential(inner) => assert_eq!(inner, credential),
        other => panic!("unexpected message {:?}", other),
    }
}

#[test]
fn sample_credential_carries_the_sample_document() {
    let credential = _credential();
    assert_eq!(credential.id, MessageId::id());
    assert_eq!(credential.comment, Some("comment".to_string()));
    assert_eq!(credential.thread.thid, Some("testid".to_string()));
    let content = credential.credential_content().unwrap();
    assert_eq!(content, _attachment().to_text());
    assert!(content.starts_with("{\"cred_def_id\":\"NcYxiDXkpYi6ov5FcYDi1e:3:CL:"));
    assert!(content.contains("\"values\":{\"name\":{\"encoded\":\"1139481716457488690172217916278103335\",\"raw\":\"Name\"}}"));
}

#[test]
fn credential_of_another_purpose_is_a_failure() {
    let mut credential = Credential::create();
    credential.credentials_attach.add(Attachment::json(AttachmentId::Presentation, "{}"));
    assert_eq!(credential.credential_content().unwrap_err().kind(), VcxErrorKind::InvalidJson);

    let mut two = Credential::create();
    two.credentials_attach.add(Attachment::json(AttachmentId::Credential, "{}"));
    two.credentials_attach.add(Attachment::json(AttachmentId::Credential, "{}"));
    assert_eq!(two.credential_content().unwrap_err().kind(), VcxErrorKind::InvalidJson);

    assert_eq!(Credential::create().credential_content().unwrap_err().kind(), VcxErrorKind::InvalidJson);
}

#[test]
fn problem_report_builders() {
    let report = ProblemReport::create_with_id(MessageId::id())
        .set_description("credential revoked".to_string())
        .set_code(1081)
        .set_thread_id("t1");
    assert_eq!(report.id, MessageId::id());
    assert_eq!(report.description, Some("credential revoked".to_string()));
    assert_eq!(report.code, Some(1081));
    assert_eq!(report.thread.thid, Some("t1".to_string()));
    assert_eq!(ProblemReport::create().description, None);
}

#[test]
fn status_codes() {
    let report = ProblemReport::create();
    assert_eq!(Status::Success.code(), 1);
    assert_eq!(Status::Failed(VcxError::from_kind(VcxErrorKind::InvalidState)).code(), 2);
    assert_eq!(Status::Declined(report).code(), 3);
}
