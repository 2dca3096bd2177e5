use aries_vcx::error::VcxErrorKind;
use aries_vcx::messages::attachment::{Attachment, AttachmentId, Attachments};
use aries_vcx::utils::base64::{decode, decode_text, encode, encode_to_text};
use aries_vcx::utils::json::JsonValue;

fn samples() -> Vec<Vec<u8>> {
    let mut samples: Vec<Vec<u8>> = vec![
        vec![],
        vec![0],
        vec![255],
        vec![0, 0],
        vec![255, 255],
        vec![0, 0, 0],
        vec![255, 255, 255],
        b"f".to_vec(),
        b"fo".to_vec(),
        b"foo".to_vec(),
        b"foob".to_vec(),
        b"fooba".to_vec(),
        b"foobar".to_vec(),
        "Zażółć gęślą jaźń".as_bytes().to_vec(),
    ];
    let mut all: Vec<u8> = Vec::new();
    for b in 0..=255u8 {
        all.push(b);
        samples.push(all.clone());
        samples.push(vec![b, b.wrapping_mul(31), b.wrapping_add(7)]);
    }
    samples
}

#[test]
fn encoding_is_standard_base64() {
    assert_eq!(encode(b""), b"".to_vec());
    assert_eq!(encode(b"f"), b"Zg==".to_vec());
    assert_eq!(encode(b"fo"), b"Zm8=".to_vec());
    assert_eq!(encode(b"foo"), b"Zm9v".to_vec());
    assert_eq!(encode(b"foob"), b"Zm9vYg==".to_vec());
    assert_eq!(encode(b"fooba"), b"Zm9vYmE=".to_vec());
    assert_eq!(encode(b"foobar"), b"Zm9vYmFy".to_vec());
    assert_eq!(encode(&[0xfb, 0xff, 0xbf]), b"+/+/".to_vec());
    assert_eq!(encode_to_text(&[0xfb, 0xff]), "+/8=");
}

#[test]
fn encoding_agrees_with_the_base64_crate() {
    for sample in samples() {
        let expected = base64::encode(&sample);
        assert_eq!(encode_to_text(&sample), expected);
        assert_eq!(encode(&sample), expected.as_bytes().to_vec());
    }
}

#[test]
fn decoding_inverts_encoding() {
    for sample in samples() {
        assert_eq!(decode(&encode(&sample)), Some(sample.clone()));
        assert_eq!(decode_text(&encode_to_text(&sample)), Some(sample.clone()));
        assert_eq!(base64::decode(encode_to_text(&sample)).unwrap(), sample);
    }
}

#[test]
fn corrupted_payload_does_not_decode() {
    assert_eq!(decode_text("Zm9v"), Some(b"foo".to_vec()));
    assert_eq!(decode_text("Zm9"), None);
    assert_eq!(decode_text("Zm9v="), None);
    assert_eq!(decode_text("Zm9v===="), None);
    assert_eq!(decode_text("Zm9!"), None);
    assert_eq!(decode_text("Zm 9v"), None);
    assert_eq!(decode_text("Zm9v\n"), None);
    assert_eq!(decode_text("=m9v"), None);
    assert_eq!(decode_text("Z=9v"), None);
    assert_eq!(decode_text("Zm=v"), None);
    assert_eq!(decode_text("===="), None);
    assert_eq!(decode_text("Zg=="), Some(b"f".to_vec()));
    // bits that no byte accounts for
    assert_eq!(decode_text("Zh=="), None);
    assert_eq!(decode_text("Zm9="), None);
    assert_eq!(decode_text("Zm8="), Some(b"fo".to_vec()));
    assert_eq!(decode_text("Zg"), None);
    assert_eq!(decode_text("Zm9vé"), None);
    assert_eq!(decode_text("Zm9v-_"), None);
    for text in ["Zm9", "Zm9!", "Zm 9v", "=m9v", "Zm9v====", "Zm9vé"] {
        assert!(base64::decode(text).is_err());
    }
}

#[test]
fn attachment_gives_back_its_document() {
    for content in ["", "{}", "{\"name\":\"Alice\"}", "plain text", "żółw 🐢", "a\nb"] {
        for id in [
            AttachmentId::CredentialOffer,
            AttachmentId::CredentialRequest,
            AttachmentId::Credential,
            AttachmentId::PresentationRequest,
            AttachmentId::Presentation,
        ] {
            let attachment = Attachment::json(id, content);
            assert_eq!(attachment.id, id);
            assert_eq!(attachment.mime_type, "application/json");
            assert_eq!(attachment.encoded_content, base64::encode(content));
            assert_eq!(attachment.content().unwrap(), content);
        }
    }
}

#[test]
fn corrupted_attachment_is_an_encoding_failure() {
    let mut attachment = Attachment::json(AttachmentId::Credential, "{\"name\":\"Alice\"}");
    attachment.encoded_content.pop();
    assert_eq!(attachment.content().unwrap_err().kind(), VcxErrorKind::InvalidAttachmentEncoding);
    attachment.encoded_content = "@@@@".to_string();
    assert_eq!(attachment.content().unwrap_err().kind(), VcxErrorKind::InvalidAttachmentEncoding);
    // base64, but not of a text
    attachment.encoded_content = base64::encode([0xff, 0xfe, 0xfd]);
    assert_eq!(attachment.content().unwrap_err().kind(), VcxErrorKind::InvalidAttachmentEncoding);
    attachment.encoded_content = base64::encode("fine");
    assert_eq!(attachment.content().unwrap(), "fine");
}

#[test]
fn unknown_content_type_is_refused() {
    let mut attachment = Attachment::json(AttachmentId::Credential, "{}");
    attachment.mime_type = "application/xml".to_string();
    assert_eq!(attachment.content().unwrap_err().kind(), VcxErrorKind::UnknownAttachmentEncoding);
    attachment.mime_type = String::new();
    assert_eq!(attachment.content().unwrap_err().kind(), VcxErrorKind::UnknownAttachmentEncoding);
    // the content type is looked at before the payload
    attachment.encoded_content = "###".to_string();
    assert_eq!(attachment.content().unwrap_err().kind(), VcxErrorKind::UnknownAttachmentEncoding);
}

#[test]
fn json_documents_travel_as_text() {
    let mut attachments = Attachments::new();
    assert!(attachments.get().is_none());
    assert_eq!(attachments.content().unwrap_err().kind(), VcxErrorKind::InvalidJson);

    let mut object = JsonValue::object();
    object.insert("b".to_string(), JsonValue::from_u64(2));
    object.insert("a".to_string(), JsonValue::from_str("x"));
    attachments.add_base64_encoded_json_attachment(AttachmentId::Presentation, object).unwrap();
    assert_eq!(attachments.content().unwrap(), "{\"a\":\"x\",\"b\":2}");
    assert_eq!(attachments.content_for(AttachmentId::Presentation).unwrap(), "{\"a\":\"x\",\"b\":2}");
    assert_eq!(attachments.content_for(AttachmentId::Credential).unwrap_err().kind(), VcxErrorKind::InvalidJson);
    assert_eq!(attachments.get().unwrap().id, AttachmentId::Presentation);

    let before = attachments.clone();
    for other in [JsonValue::Null, JsonValue::Bool(true), JsonValue::from_u64(1), JsonValue::Array(vec![])] {
        let failure = attachments.add_base64_encoded_json_attachment(AttachmentId::Credential, other).unwrap_err();
        assert_eq!(failure.kind(), VcxErrorKind::InvalidJson);
        assert_eq!(attachments, before);
    }

    attachments.add_base64_encoded_json_attachment(AttachmentId::Credential, JsonValue::from_str("text")).unwrap();
    assert_eq!(attachments.0.len(), 2);
    assert_eq!(attachments.0[1].content().unwrap(), "text");
    assert_eq!(attachments.content_for(AttachmentId::Presentation).unwrap_err().kind(), VcxErrorKind::InvalidJson);
    assert_eq!(attachments.duplicate(), attachments);
}

#[test]
fn purposes_have_wire_names() {
    assert_eq!(AttachmentId::CredentialOffer.wire_name(), "libindy-cred-offer-0");
    assert_eq!(AttachmentId::CredentialRequest.wire_name(), "libindy-cred-request-0");
    assert_eq!(AttachmentId::Credential.wire_name(), "libindy-cred-0");
    assert_eq!(AttachmentId::PresentationRequest.wire_name(), "libindy-request-presentation-0");
    assert_eq!(AttachmentId::Presentation.wire_name(), "libindy-presentation-0");
}
