use aries_vcx::error::{VcxError, VcxErrorKind};
use aries_vcx::utils::error::{
    error_message, registered, Error, INVALID_ATTACHMENT_ENCODING, INVALID_JSON, INVALID_PREDICATE,
    INVALID_STATE, REV_REG_DEF_NOT_FOUND, SUCCESS, UNKNOWN_ERROR,
};

#[test]
fn registered_messages_are_found() {
    assert_eq!(error_message(&SUCCESS), "Success");
    assert_eq!(error_message(&0), "Success");
    assert_eq!(error_message(&1001), "Unknown Error");
    assert_eq!(error_message(&INVALID_JSON), "Invalid JSON string");
    assert_eq!(error_message(&INVALID_STATE), "Object is in invalid state for requested operation");
    assert_eq!(error_message(&INVALID_ATTACHMENT_ENCODING), "Failed to decode attachment");
    assert_eq!(error_message(&1106), "Agent pairwise information not found");
    assert_eq!(error_message(&212), "Error from Indy: Wallet Item not found");
}

#[test]
fn unregistered_numbers_give_the_unknown_error() {
    assert_eq!(error_message(&1), "Unknown Error");
    assert_eq!(error_message(&1096), "Unknown Error");
    assert_eq!(error_message(&1105), "Unknown Error");
    assert_eq!(error_message(&u32::MAX), "Unknown Error");
    // defined, but not registered for lookup
    assert_eq!(error_message(&INVALID_PREDICATE), "Unknown Error");
    assert_eq!(error_message(&REV_REG_DEF_NOT_FOUND), "Unknown Error");
    assert_eq!(error_message(&1113), "Unknown Error");
    assert!(!registered(INVALID_PREDICATE));
    assert!(!registered(5));
    assert!(registered(UNKNOWN_ERROR));
}

#[test]
fn defined_errors_keep_their_own_message() {
    let error = Error::defined(INVALID_PREDICATE).unwrap();
    assert_eq!(error.get_code(), 1047);
    assert_eq!(error.message, "Predicate in proof is invalid");
    assert_eq!(Error::defined(1107).unwrap().message, "No revocation definition found");
    assert!(Error::defined(1097).is_none());
    assert!(Error::defined(2).is_none());
    let success = Error::defined(0).unwrap();
    assert_eq!(success.get_code(), 0);
    assert_eq!(success.message, "Success");
}

#[test]
fn error_text_names_message_and_number() {
    assert_eq!(Error::defined(1016).unwrap().describe(), "Invalid JSON string: (Error Num:1016)");
    assert_eq!(Error::defined(0).unwrap().describe(), "Success: (Error Num:0)");
    assert_eq!(Error::defined(1047).unwrap().describe(), "Unknown Error: (Error Num:1047)");
    let own = Error { code_num: 4_000_000_000, message: "mine" };
    assert_eq!(own.get_code(), 4_000_000_000);
    assert_eq!(own.describe(), "Unknown Error: (Error Num:4000000000)");
}

#[test]
fn kinds_have_registered_codes() {
    assert_eq!(VcxErrorKind::InvalidState.code(), 1081);
    assert_eq!(VcxErrorKind::InvalidJson.code(), 1016);
    assert_eq!(VcxErrorKind::SerializationError.code(), 1050);
    assert_eq!(VcxErrorKind::InvalidAttachmentEncoding.code(), 1100);
    assert_eq!(VcxErrorKind::UnknownAttachmentEncoding.code(), 1101);
    assert_eq!(VcxErrorKind::NotReady.code(), 1005);
    assert_eq!(VcxErrorKind::InvalidProof.code(), 1023);
    assert_eq!(VcxErrorKind::InvalidProofHandle.code(), 1017);
    assert_eq!(VcxErrorKind::InvalidRevocationDetails.code(), 1091);
    assert_eq!(VcxErrorKind::InvalidRevocationTimestamp.code(), 1093);
    assert_eq!(VcxErrorKind::LoggingError.code(), 1090);
    assert_eq!(VcxErrorKind::IOError.code(), 1074);
}

#[test]
fn failures_carry_kind_and_message() {
    let failure = VcxError::from_msg(VcxErrorKind::InvalidJson, "not a document");
    assert_eq!(failure.kind(), VcxErrorKind::InvalidJson);
    assert_eq!(failure.message(), "not a document");
    let plain = VcxError::from_kind(VcxErrorKind::NotReady);
    assert_eq!(plain.kind(), VcxErrorKind::NotReady);
    assert_eq!(plain.message(), "Object not ready for specified action");
    let mapped = failure.map(VcxErrorKind::InvalidProof, "Proof had invalid format");
    assert_eq!(mapped.kind(), VcxErrorKind::InvalidProof);
    assert_eq!(mapped.message(), "Proof had invalid format");
}
