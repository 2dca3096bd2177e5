use aries_vcx::api_lib::{ProofStateType, VcxStateType};
use aries_vcx::error::{VcxError, VcxErrorKind};
use aries_vcx::messages::proofs::proof_message::{get_credential_info, CredInfo, ProofMessage};
use aries_vcx::messages::proofs::proof_request::{ProofRequestMessage, ProofRequestVersion};
use aries_vcx::messages::thread::Thread;
use aries_vcx::utils::json::JsonValue;
use aries_vcx::utils::serialization::ObjectWithVersion;
use aries_vcx::vcx_proof::validation::{
    build_documents, build_documents_json, check_revealed_attribute, ledger_questions, read_ledger_answers,
    revocable_credentials, LedgerAnswer, LedgerAnswers, LedgerDocument, LedgerEntry, LedgerObject, LedgerQuestion,
    ReadAnswer,
};
use aries_vcx::vcx_proof::{
    apply_agent_info, from_string, generate_nonce, parse_proof_payload, proof_data, to_string, Delivery,
    MyAgentInfo, NextStep, Proof, RevocationInterval,
};
use openssl::bn::BigNum;

const REQUESTED_ATTRS: &str = "[{\"name\":\"address1\"},{\"name\":\"zip\"}]";
const REQUESTED_PREDICATES: &str = "[{\"name\":\"age\",\"p_type\":\"GE\",\"p_value\":22}]";
const CRED_DEF_ID: &str = "V4SGRU86Z58d6TV7PBUe6f:3:CL:47:tag1";
const CRED_DEF_JSON: &str = "{\"id\":\"V4SGRU86Z58d6TV7PBUe6f:3:CL:47:tag1\",\"schemaId\":\"47\",\"type\":\"CL\",\"tag\":\"tag1\",\"value\":{\"primary\":{\"n\":\"1\"}},\"ver\":\"1.0\"}";
const SCHEMA_ID: &str = "V4SGRU86Z58d6TV7PBUe6f:2:FaberVcx:55.94.78";
const SCHEMA_JSON: &str = "{\"ver\":\"1.0\",\"id\":\"V4SGRU86Z58d6TV7PBUe6f:2:FaberVcx:55.94.78\",\"name\":\"FaberVcx\",\"version\":\"55.94.78\",\"attrNames\":[\"email\",\"name\"],\"seqNo\":59}";
const REV_REG_ID: &str = "V4SGRU86Z58d6TV7PBUe6f:4:V4SGRU86Z58d6TV7PBUe6f:3:CL:1281:tag1:CL_ACCUM:tag1";
const REV_REG_JSON: &str = "{\"value\":{\"accum\":\"2 0A0752AD393CCA8E840459E79BCF48F16ECEF17C00E9B639AC6CE2CCC93954C9\"}}";

fn rev_def_json() -> String {
    format!("{{\"id\":\"{}\",\"revocDefType\":\"CL_ACCUM\",\"tag\":\"tag1\",\"credDefId\":\"{}\",\"value\":{{\"maxCredNum\":5}}}}", REV_REG_ID, CRED_DEF_ID)
}

fn answer(requested: &str, timestamp: Option<u64>, id: &str, json: &str, time: u64) -> LedgerAnswer {
    LedgerAnswer {
        requested: requested.to_string(),
        timestamp,
        outcome: Ok(LedgerDocument { id: id.to_string(), json: json.to_string(), timestamp: time }),
    }
}

fn failed(requested: &str, timestamp: Option<u64>, kind: VcxErrorKind) -> LedgerAnswer {
    LedgerAnswer { requested: requested.to_string(), timestamp, outcome: Err(VcxError::from_kind(kind)) }
}

fn expected_object(key: &str, json: serde_json::Value) -> String {
    let mut map = serde_json::Map::new();
    map.insert(key.to_string(), json);
    serde_json::Value::Object(map).to_string()
}

fn default_proof() -> Proof {
    Proof::create(
        "1".to_string(),
        REQUESTED_ATTRS.to_owned(),
        REQUESTED_PREDICATES.to_owned(),
        "{\"support_revocation\":false}".to_string(),
        "Optional".to_owned(),
    )
    .unwrap()
}

fn agent_info() -> MyAgentInfo {
    MyAgentInfo {
        my_pw_did: Some("GxtnGN6ypZYgEqcftSQFnC".to_string()),
        my_pw_vk: Some("91qMFrZjXDoi2Vc8Mm14Ys112tEZdDegBZZoembFEATE".to_string()),
        their_pw_did: Some("8XFh8yBzrpJQmNyZzgoTqB".to_string()),
        their_pw_vk: Some("EkVTa7SCJ5SntpYyX7CSb2pcBhiVGT9kWSagA8a9T69A".to_string()),
        pw_agent_did: Some("FhrSrYtQcw3p9xwf7NYemf".to_string()),
        pw_agent_vk: Some("91qMFrZjXDoi2Vc8Mm14Ys112tEZdDegBZZoembFEATE".to_string()),
        connection_handle: Some(7),
    }
}

#[test]
fn test_create_proof_succeeds() {
    Proof::create(
        "1".to_string(),
        REQUESTED_ATTRS.to_owned(),
        REQUESTED_PREDICATES.to_owned(),
        r#"{"support_revocation":false}"#.to_string(),
        "Optional".to_owned(),
    )
    .unwrap();
}

#[test]
fn test_revocation_details() {
    // No Revocation
    Proof::create(
        "1".to_string(),
        REQUESTED_ATTRS.to_owned(),
        REQUESTED_PREDICATES.to_owned(),
        r#"{"support_revocation":false}"#.to_string(),
        "Optional".to_owned(),
    )
    .unwrap();

    // Support Revocation Success
    let mut revocation_details = serde_json::Map::new();
    revocation_details.insert("to".to_string(), serde_json::Value::from(1234));
    Proof::create(
        "1".to_string(),
        REQUESTED_ATTRS.to_owned(),
        REQUESTED_PREDICATES.to_owned(),
        serde_json::Value::Object(revocation_details).to_string(),
        "Optional".to_owned(),
    )
    .unwrap();
}

#[test]
fn test_from_string_succeeds() {
    let proof = Proof::create(
        "1".to_string(),
        REQUESTED_ATTRS.to_owned(),
        REQUESTED_PREDICATES.to_owned(),
        r#"{"support_revocation":false}"#.to_string(),
        "Optional".to_owned(),
    )
    .unwrap();
    let proof_data = proof.to_string();
    let proof2 = Proof::from_string(&proof_data).unwrap();
    let proof_data2 = proof2.to_string();
    assert_eq!(proof_data, proof_data2);
}

#[test]
fn test_nonce() {
    let nonce = generate_nonce().unwrap();
    assert!(BigNum::from_dec_str(&nonce).unwrap().num_bits() < 81)
}

#[test]
fn nonces_are_decimal_and_differ() {
    let first = generate_nonce().unwrap();
    let second = generate_nonce().unwrap();
    assert!(!first.is_empty());
    assert!(first.chars().all(|c| c.is_ascii_digit()));
    assert!(first.len() <= 25);
    assert_ne!(first, second);
}

#[test]
fn test_build_credential_defs_json_with_multiple_credentials() {
    let cred1 = CredInfo {
        schema_id: "schema_key1".to_string(),
        cred_def_id: "cred_def_key1".to_string(),
        rev_reg_id: None,
        timestamp: None,
    };
    let cred2 = CredInfo {
        schema_id: "schema_key2".to_string(),
        cred_def_id: "cred_def_key2".to_string(),
        rev_reg_id: None,
        timestamp: None,
    };
    let credentials = vec![cred1, cred2];
    // the ledger holds one credential definition, whichever is asked for
    let answers = vec![
        answer("cred_def_key1", None, CRED_DEF_ID, CRED_DEF_JSON, 0),
        answer("cred_def_key2", None, CRED_DEF_ID, CRED_DEF_JSON, 0),
    ];
    let credential_json = Proof::build_credential_defs_json(&credentials, &answers).unwrap();

    let json: serde_json::Value = serde_json::from_str(CRED_DEF_JSON).unwrap();
    let expected = expected_object(CRED_DEF_ID, json);
    assert_eq!(credential_json, expected);
}

#[test]
fn test_build_schemas_json_with_multiple_schemas() {
    let cred1 = CredInfo {
        schema_id: "schema_key1".to_string(),
        cred_def_id: "cred_def_key1".to_string(),
        rev_reg_id: None,
        timestamp: None,
    };
    let cred2 = CredInfo {
        schema_id: "schema_key2".to_string(),
        cred_def_id: "cred_def_key2".to_string(),
        rev_reg_id: None,
        timestamp: None,
    };
    let credentials = vec![cred1, cred2];
    let answers = vec![
        answer("schema_key1", None, SCHEMA_ID, SCHEMA_JSON, 0),
        answer("schema_key2", None, SCHEMA_ID, SCHEMA_JSON, 0),
    ];
    let schema_json = Proof::build_schemas_json(&credentials, &answers).unwrap();

    let json: serde_json::Value = serde_json::from_str(SCHEMA_JSON).unwrap();
    let expected = expected_object(SCHEMA_ID, json);
    assert_eq!(schema_json, expected);
}

#[test]
fn test_build_rev_reg_defs_json() {
    let cred1 = CredInfo {
        schema_id: "schema_key1".to_string(),
        cred_def_id: "cred_def_key1".to_string(),
        rev_reg_id: Some("id1".to_string()),
        timestamp: None,
    };
    let cred2 = CredInfo {
        schema_id: "schema_key2".to_string(),
        cred_def_id: "cred_def_key2".to_string(),
        rev_reg_id: Some("id2".to_string()),
        timestamp: None,
    };
    let credentials = vec![cred1, cred2];
    let answers = vec![
        answer("id1", None, REV_REG_ID, &rev_def_json(), 0),
        answer("id2", None, REV_REG_ID, &rev_def_json(), 0),
    ];
    let rev_reg_defs_json = Proof::build_rev_reg_defs_json(&credentials, &answers).unwrap();

    let json: serde_json::Value = serde_json::from_str(&rev_def_json()).unwrap();
    let expected = expected_object(REV_REG_ID, json);
    assert_eq!(rev_reg_defs_json, expected);
}

#[test]
fn test_build_rev_reg_json() {
    let cred1 = CredInfo {
        schema_id: "schema_key1".to_string(),
        cred_def_id: "cred_def_key1".to_string(),
        rev_reg_id: Some("id1".to_string()),
        timestamp: Some(1),
    };
    let cred2 = CredInfo {
        schema_id: "schema_key2".to_string(),
        cred_def_id: "cred_def_key2".to_string(),
        rev_reg_id: Some("id2".to_string()),
        timestamp: Some(2),
    };
    let credentials = vec![cred1, cred2];
    // the ledger holds one registry, of time 1, whichever is asked for
    let answers = vec![
        answer("id1", Some(1), REV_REG_ID, REV_REG_JSON, 1),
        answer("id2", Some(2), REV_REG_ID, REV_REG_JSON, 1),
    ];
    let rev_reg_json = Proof::build_rev_reg_json(&credentials, &answers).unwrap();

    let json: serde_json::Value = serde_json::from_str(REV_REG_JSON).unwrap();
    let mut inner = serde_json::Map::new();
    inner.insert("1".to_string(), json);
    let expected = expected_object(REV_REG_ID, serde_json::Value::Object(inner));
    assert_eq!(rev_reg_json, expected);
}

fn proof_json(raw: &str, encoded: &str) -> String {
    format!(
        "{{\"requested_proof\":{{\"revealed_attrs\":{{\"address1_1\":{{\"sub_proof_index\":0,\"raw\":\"{}\",\"encoded\":\"{}\"}},\"zip_2\":{{\"sub_proof_index\":0,\"raw\":\"84000\",\"encoded\":\"84000\"}}}}}},\"identifiers\":[{{\"schema_id\":\"{}\",\"cred_def_id\":\"{}\",\"rev_reg_id\":null,\"timestamp\":null}}]}}",
        raw, encoded, SCHEMA_ID, CRED_DEF_ID
    )
}

const ADDRESS: &str = "101 Tela Lane";
// the digest of the address, read as a number
const ADDRESS_ENCODED: &str = "63690509275174663089934667471948380740244018358024875547775652380902762701972";

fn ledger() -> LedgerAnswers {
    LedgerAnswers {
        credential_defs: vec![answer(CRED_DEF_ID, None, CRED_DEF_ID, CRED_DEF_JSON, 0)],
        schemas: vec![answer(SCHEMA_ID, None, SCHEMA_ID, SCHEMA_JSON, 0)],
        rev_reg_defs: vec![],
        rev_regs: vec![],
    }
}

fn validate(proof: &mut Proof) -> Result<u32, VcxError> {
    let inputs = Proof::validate_indy_proof(
        &proof.build_proof_json().unwrap(),
        &proof.build_proof_req_json().unwrap(),
        &ledger(),
    );
    // the backend finds every proof good that is given to it
    proof.proof_validation(inputs.map(|_| true))
}

#[test]
fn test_proof_validate_attribute() {
    let mut proof = default_proof();
    proof.proof_request = Some(ProofRequestMessage { proof_request_data: "{\"name\":\"Optional\"}".to_string() });
    let encoded = aries_vcx::utils::encoding::encode(ADDRESS).unwrap();
    assert_eq!(encoded, ADDRESS_ENCODED);

    // valid proof_obj
    {
        let mut proof_msg = ProofMessage::new();
        proof_msg.libindy_proof = proof_json(ADDRESS, &encoded);
        proof.proof = Some(proof_msg);

        let _rc = validate(&mut proof).unwrap();
        assert_eq!(proof.proof_state, ProofStateType::ProofValidated);
    }

    // change Raw value
    {
        let mut proof_msg = ProofMessage::new();
        proof_msg.libindy_proof = proof_json("Other Value", &encoded);
        proof.proof = Some(proof_msg);

        let rc = validate(&mut proof);
        assert_eq!(rc.unwrap_err().kind(), VcxErrorKind::InvalidProof);
        assert_eq!(proof.get_proof_state(), 2);
        assert_eq!(proof.proof_state, ProofStateType::ProofInvalid);
    }

    // change Encoded value
    {
        let mut proof_msg = ProofMessage::new();
        proof_msg.libindy_proof =
            proof_json(ADDRESS, "1111111111111111111111111111111111111111111111111111111111");
        proof.proof = Some(proof_msg);

        let rc = validate(&mut proof);
        rc.unwrap_err();
        assert_eq!(proof.get_proof_state(), 2);
    }
}

#[test]
fn proof_is_created_initialized() {
    let proof = default_proof();
    assert_eq!(proof.source_id, "1");
    assert_eq!(proof.requested_attrs, REQUESTED_ATTRS);
    assert_eq!(proof.requested_predicates, REQUESTED_PREDICATES);
    assert_eq!(proof.name, "Optional");
    assert_eq!(proof.msg_uid, "");
    assert_eq!(proof.ref_msg_id, "");
    assert_eq!(proof.state, VcxStateType::VcxStateInitialized);
    assert_eq!(proof.get_state(), 1);
    assert_eq!(proof.proof_state, ProofStateType::ProofUndefined);
    assert_eq!(proof.get_proof_state(), 0);
    assert_eq!(proof.version, "1.0");
    assert!(BigNum::from_dec_str(&proof.nonce).unwrap().num_bits() < 81);
    assert_eq!(proof.proof, None);
    assert_eq!(proof.proof_request, None);
    assert_eq!(proof.revocation_interval, RevocationInterval { from: None, to: None });
    assert_eq!(proof.my_did, None);
    assert_eq!(proof.their_vk, None);
    assert_eq!(proof.thread, Some(Thread::new()));
    assert_eq!(proof.get_proof().unwrap_err().kind(), VcxErrorKind::InvalidProofHandle);
    assert_eq!(proof.build_proof_json().unwrap_err().kind(), VcxErrorKind::InvalidProof);
    assert_eq!(proof.build_proof_req_json().unwrap_err().kind(), VcxErrorKind::InvalidProof);

    let fixed = Proof::create_with_nonce(
        "s".to_string(),
        "[]".to_string(),
        "[]".to_string(),
        RevocationInterval { from: Some(1), to: None },
        "n".to_string(),
        "123".to_string(),
    );
    assert_eq!(fixed.nonce, "123");
    assert_eq!(fixed.revocation_interval, RevocationInterval { from: Some(1), to: None });
    assert_eq!(fixed.state, VcxStateType::VcxStateInitialized);
}

fn create_with(attrs: &str, details: &str) -> Result<Proof, VcxError> {
    Proof::create("my source id".to_string(), attrs.to_string(), "{}".to_string(), details.to_string(), "my name".to_string())
}

#[test]
fn revocation_details_are_read_as_an_interval() {
    assert_eq!(create_with("", "{\"support_revocation\":false}").unwrap_err().kind(), VcxErrorKind::InvalidJson);
    assert_eq!(create_with("[]", "").unwrap_err().kind(), VcxErrorKind::InvalidJson);
    assert_eq!(create_with("[]", "{\"to\":").unwrap_err().kind(), VcxErrorKind::InvalidJson);
    assert_eq!(create_with("[]", "{\"to\":\"1234\"}").unwrap_err().kind(), VcxErrorKind::InvalidJson);
    assert_eq!(create_with("[]", "{\"from\":-1}").unwrap_err().kind(), VcxErrorKind::InvalidJson);
    assert_eq!(create_with("[]", "{\"from\":1.5}").unwrap_err().kind(), VcxErrorKind::InvalidJson);
    assert_eq!(create_with("[]", "7").unwrap_err().kind(), VcxErrorKind::InvalidJson);
    assert_eq!(create_with("[]", "[1]").unwrap_err().kind(), VcxErrorKind::InvalidJson);
    assert_eq!(create_with("[]", "[1,2,3]").unwrap_err().kind(), VcxErrorKind::InvalidJson);

    let interval = |details: &str| create_with("[]", details).unwrap().revocation_interval;
    assert_eq!(interval("{\"to\":1234}"), RevocationInterval { from: None, to: Some(1234) });
    assert_eq!(interval("{\"from\":5,\"to\":null}"), RevocationInterval { from: Some(5), to: None });
    assert_eq!(interval("{\"from\":0,\"to\":18446744073709551615}"), RevocationInterval { from: Some(0), to: Some(u64::MAX) });
    assert_eq!(interval("{}"), RevocationInterval { from: None, to: None });
    assert_eq!(interval("[3,null]"), RevocationInterval { from: Some(3), to: None });
    assert_eq!(
        RevocationInterval::from_document(&JsonValue::from_text("{\"from\":1,\"to\":2,\"x\":[]}").unwrap()),
        Some(RevocationInterval { from: Some(1), to: Some(2) })
    );
    assert_eq!(RevocationInterval::from_document(&JsonValue::Null), None);
}

fn request() -> ProofRequestMessage {
    ProofRequestMessage { proof_request_data: "{\"name\":\"Optional\"}".to_string() }
}

const THEIR_DID: &str = "8XFh8yBzrpJQmNyZzgoTqB";

/// A proof whose request went out under the identifier `uid-1`.
fn sent_proof() -> Proof {
    let mut proof = default_proof();
    assert_eq!(proof.send_proof_request(&agent_info(), request(), Ok("uid-1".to_string())), Ok(0));
    proof
}

/// The message with the payload `payload` that the counterpart sent on the
/// thread `thid` as its message number `order`.
fn delivery(payload: String, thid: &str, order: u32) -> Delivery {
    let mut thread = Thread::new().set_thid(thid.to_string());
    thread.sender_order = order;
    Delivery { payload, thread, sender: THEIR_DID.to_string() }
}

#[test]
fn request_is_sent_only_from_the_initialized_state() {
    let mut proof = default_proof();
    assert_eq!(proof.proof_request_title("Acme").unwrap(), "Acme wants you to share: Optional");

    assert_eq!(proof.send_proof_request(&agent_info(), request(), Ok("uid-1".to_string())), Ok(0));
    assert_eq!(proof.my_did, Some("GxtnGN6ypZYgEqcftSQFnC".to_string()));
    assert_eq!(proof.my_vk, agent_info().my_pw_vk);
    assert_eq!(proof.their_did, Some(THEIR_DID.to_string()));
    assert_eq!(proof.their_vk, agent_info().their_pw_vk);
    assert_eq!(proof.agent_did, Some("FhrSrYtQcw3p9xwf7NYemf".to_string()));
    assert_eq!(proof.agent_vk, agent_info().pw_agent_vk);
    assert_eq!(proof.proof_request, Some(request()));
    assert_eq!(proof.msg_uid, "uid-1");
    assert_eq!(proof.state, VcxStateType::VcxStateOfferSent);
    assert_eq!(proof.get_state(), 2);
    // the answer is awaited on the thread that the request opened
    assert_eq!(proof.thread, Some(Thread::new().set_thid("uid-1".to_string())));

    let sent = proof.clone();
    assert_eq!(proof.proof_request_title("Acme").unwrap_err().kind(), VcxErrorKind::NotReady);
    assert_eq!(
        proof.send_proof_request(&agent_info(), request(), Ok("uid-2".to_string())).unwrap_err().kind(),
        VcxErrorKind::NotReady
    );
    assert_eq!(proof, sent);
}

#[test]
fn failed_send_leaves_the_proof_as_it_was() {
    let mut proof = default_proof();
    let before = proof.clone();
    let failure = VcxError::from_msg(VcxErrorKind::IOError, "Cannot send proof request");
    assert_eq!(proof.send_proof_request(&agent_info(), request(), Err(failure.clone())), Err(failure));
    assert_eq!(proof, before);
    assert_eq!(proof.my_did, None);
    assert_eq!(proof.proof_request, None);
    assert_eq!(proof.get_state(), 1);

    // it can be tried again
    assert_eq!(proof.send_proof_request(&agent_info(), request(), Ok("uid-1".to_string())), Ok(0));
    assert_eq!(proof.get_state(), 2);

    // a proof without a thread gets the one that the request opens
    let mut bare = default_proof();
    bare.thread = None;
    bare.send_proof_request(&agent_info(), request(), Ok("uid-3".to_string())).unwrap();
    assert_eq!(bare.thread.unwrap().get_thid(), "uid-3");
}

#[test]
fn agent_info_is_recorded() {
    let mut proof = default_proof();
    let before = proof.clone();
    apply_agent_info(&mut proof, &agent_info());
    assert_eq!(proof.my_did, agent_info().my_pw_did);
    assert_eq!(proof.my_vk, agent_info().my_pw_vk);
    assert_eq!(proof.their_did, agent_info().their_pw_did);
    assert_eq!(proof.their_vk, agent_info().their_pw_vk);
    assert_eq!(proof.agent_did, agent_info().pw_agent_did);
    assert_eq!(proof.agent_vk, agent_info().pw_agent_vk);
    assert_eq!(proof.nonce, before.nonce);
    assert_eq!(proof.state, before.state);
}

#[test]
fn format_version_follows_the_counterpart() {
    let mut proof = default_proof();
    assert_eq!(proof.proof_request_format_version(), None);
    proof.their_did = Some("8XFh8yBzrpJQmNyZzgoTqB".to_string());
    assert_eq!(proof.proof_request_format_version(), None);
    proof.their_did = Some("did:sov:8XFh8yBzrpJQmNyZzgoTqB".to_string());
    assert_eq!(proof.proof_request_format_version(), Some(ProofRequestVersion::V2));
    assert_eq!(Proof::format_version_for(&None), None);
    assert_eq!(Proof::format_version_for(&Some("8XFh8yBzrpJQmNyZzgoTqB".to_string())), None);
    assert_eq!(
        Proof::format_version_for(&Some("did:sov:8XFh8yBzrpJQmNyZzgoTqB".to_string())),
        Some(ProofRequestVersion::V2)
    );
    proof.set_proof_request(ProofRequestMessage { proof_request_data: "{}".to_string() });
    assert_eq!(proof.build_proof_req_json().unwrap(), "{}");
}

fn payload(libindy_proof: &str) -> String {
    let mut object = JsonValue::object();
    object.insert("version".to_string(), JsonValue::from_str("0.1"));
    object.insert("libindy_proof".to_string(), JsonValue::from_str(libindy_proof));
    object.to_text()
}

#[test]
fn state_is_brought_up_to_date_step_by_step() {
    let mut proof = default_proof();
    // nothing is out yet: there is nothing to fetch
    assert_eq!(proof.update_state(None), Ok(NextStep::Done(1)));
    assert_eq!(proof.next_step(), NextStep::Done(1));
    proof.send_proof_request(&agent_info(), request(), Ok("uid-1".to_string())).unwrap();
    assert_eq!(proof.get_proof_request_status(None), Ok(NextStep::FetchMessage));
    assert_eq!(proof.state, VcxStateType::VcxStateOfferSent);

    let libindy_proof = proof_json("84000", "84000");
    assert_eq!(
        proof.get_proof_request_status(Some(delivery(payload(&libindy_proof), "uid-1", 0))),
        Ok(NextStep::Validate)
    );
    assert_eq!(proof.state, VcxStateType::VcxStateAccepted);
    assert_eq!(proof.get_proof().unwrap(), libindy_proof);
    assert_eq!(proof.proof.as_ref().unwrap().version, Some("0.1".to_string()));
    assert_eq!(proof.proof_state, ProofStateType::ProofUndefined);
    assert_eq!(proof.thread.as_ref().unwrap().received_order(THEIR_DID), Some(0));
    // the validation is outstanding until a verdict is there
    assert_eq!(proof.update_state(None), Ok(NextStep::Validate));

    assert_eq!(proof.validated(Ok(true)), Ok(4));
    assert_eq!(proof.proof_state, ProofStateType::ProofValidated);
    assert_eq!(proof.state, VcxStateType::VcxStateAccepted);

    // an accepted proof takes no further message
    let accepted = proof.clone();
    assert_eq!(
        proof.update_state(Some(delivery(payload("{}"), "uid-1", 1))).unwrap_err().kind(),
        VcxErrorKind::InvalidState
    );
    assert_eq!(proof.update_state(None), Ok(NextStep::Done(4)));
    assert_eq!(proof, accepted);
}

#[test]
fn redelivered_proof_is_rejected() {
    let mut proof = sent_proof();
    let message = delivery(payload("{}"), "uid-1", 2);
    assert_eq!(proof.get_proof_request_status(Some(message.clone())), Ok(NextStep::Validate));
    assert_eq!(proof.thread.as_ref().unwrap().received_order(THEIR_DID), Some(2));

    // the same message once more
    let accepted = proof.clone();
    assert_eq!(proof.get_proof_request_status(Some(message.clone())).unwrap_err().kind(), VcxErrorKind::InvalidThread);
    assert_eq!(proof.update_state(Some(message)).unwrap_err().kind(), VcxErrorKind::InvalidThread);
    assert_eq!(proof, accepted);
    assert_eq!(proof.thread.as_ref().unwrap().received_order(THEIR_DID), Some(2));

    // also while the proof still takes messages
    let mut waiting = sent_proof();
    waiting.thread.as_mut().unwrap().accept(&delivery(String::new(), "uid-1", 2).thread, THEIR_DID).unwrap();
    let before = waiting.clone();
    for order in [0, 1, 2] {
        assert_eq!(
            waiting.get_proof_request_status(Some(delivery(payload("{}"), "uid-1", order))).unwrap_err().kind(),
            VcxErrorKind::InvalidThread
        );
        assert_eq!(waiting, before);
    }
    assert_eq!(waiting.get_proof_request_status(Some(delivery(payload("{}"), "uid-1", 3))), Ok(NextStep::Validate));
    assert_eq!(waiting.thread.as_ref().unwrap().received_order(THEIR_DID), Some(3));
}

#[test]
fn counter_of_the_sender_is_taken_from_the_message() {
    let mut proof = sent_proof();
    let before = proof.clone();
    assert_eq!(proof.get_proof_request_status(Some(delivery(payload("{}"), "uid-1", 41))), Ok(NextStep::Validate));
    let thread = proof.thread.clone().unwrap();
    assert_eq!(thread.received_order(THEIR_DID), Some(41));
    assert_eq!(thread.get_thid(), "uid-1");
    assert_eq!(thread.sender_order, before.thread.as_ref().unwrap().sender_order);
    assert_eq!(thread.received_orders.len(), 1);
    assert_eq!(proof.msg_uid, before.msg_uid);
    assert_eq!(proof.their_did, before.their_did);
}

#[test]
fn proof_of_another_thread_is_rejected() {
    let mut proof = sent_proof();
    let before = proof.clone();
    assert_eq!(
        proof.get_proof_request_status(Some(delivery(payload("{}"), "uid-2", 0))).unwrap_err().kind(),
        VcxErrorKind::InvalidThread
    );
    let mut unthreaded = delivery(payload("{}"), "uid-1", 0);
    unthreaded.thread = Thread::new();
    assert_eq!(proof.get_proof_request_status(Some(unthreaded)).unwrap_err().kind(), VcxErrorKind::InvalidThread);
    assert_eq!(proof, before);

    // before the request went out there is no thread to be on
    let mut fresh = default_proof();
    let before = fresh.clone();
    assert_eq!(
        fresh.get_proof_request_status(Some(delivery(payload("{}"), "uid-1", 0))).unwrap_err().kind(),
        VcxErrorKind::InvalidThread
    );
    fresh.thread = None;
    assert_eq!(
        fresh.get_proof_request_status(Some(delivery(payload("{}"), "uid-1", 0))).unwrap_err().kind(),
        VcxErrorKind::InvalidThread
    );
    fresh.thread = before.thread.clone();
    assert_eq!(fresh, before);
}

#[test]
fn malformed_payload_is_a_failure() {
    let mut proof = sent_proof();
    let before = proof.clone();
    for text in ["{\"x\":1}", "no json", ""] {
        assert_eq!(
            proof.get_proof_request_status(Some(delivery(text.to_string(), "uid-1", 0))).unwrap_err().kind(),
            VcxErrorKind::InvalidJson
        );
        assert_eq!(proof, before);
    }
    // whatever thread it came on
    assert_eq!(
        proof.get_proof_request_status(Some(delivery("no json".to_string(), "uid-2", 0))).unwrap_err().kind(),
        VcxErrorKind::InvalidJson
    );
    assert_eq!(proof, before);
    // the message was not counted: it can come again, mended
    assert_eq!(proof.get_proof_request_status(Some(delivery(payload("{}"), "uid-1", 0))), Ok(NextStep::Validate));
}

#[test]
fn validation_outcomes_are_recorded() {
    let accepted = || {
        let mut proof = sent_proof();
        proof.get_proof_request_status(Some(delivery(payload("{}"), "uid-1", 0))).unwrap();
        proof
    };
    let mut invalid = accepted();
    assert_eq!(invalid.validated(Ok(false)), Ok(4));
    assert_eq!(invalid.proof_state, ProofStateType::ProofInvalid);

    // a failure of the backend is handed on, and the validation can be tried again
    let mut failed = accepted();
    let before = failed.clone();
    let failure = VcxError::from_msg(VcxErrorKind::LibindyInvalidStructure, "backend");
    assert_eq!(failed.validated(Err(failure.clone())), Err(failure.clone()));
    assert_eq!(failed, before);
    assert_eq!(failed.update_state(None), Ok(NextStep::Validate));
    assert_eq!(failed.proof_validation(Err(failure.clone())), Err(failure));
    assert_eq!(failed, before);
    assert_eq!(failed.validated(Ok(true)), Ok(4));
    assert_eq!(failed.proof_state, ProofStateType::ProofValidated);

    // a proof that cannot be right is marked invalid
    let mut wrong = accepted();
    assert_eq!(wrong.validated(Err(VcxError::from_kind(VcxErrorKind::InvalidProof))), Ok(3));
    assert_eq!(wrong.state, VcxStateType::VcxStateRequestReceived);
    assert_eq!(wrong.proof_state, ProofStateType::ProofInvalid);

    let mut direct = accepted();
    let failure = direct.proof_validation(Err(VcxError::from_kind(VcxErrorKind::InvalidProof))).unwrap_err();
    assert_eq!(failure.kind(), VcxErrorKind::InvalidProof);
    assert_eq!(failure.message(), "Proof had invalid format");
    assert_eq!(direct.proof_state, ProofStateType::ProofInvalid);
    assert_eq!(direct.state, VcxStateType::VcxStateAccepted);
    assert_eq!(direct.proof_validation(Ok(true)).unwrap(), 0);
    assert_eq!(direct.proof_state, ProofStateType::ProofValidated);

    let mut without_request = accepted();
    without_request.proof_request = None;
    let before = without_request.clone();
    assert_eq!(without_request.proof_validation(Ok(true)).unwrap_err().kind(), VcxErrorKind::InvalidProof);
    assert_eq!(without_request, before);
    assert_eq!(without_request.validated(Ok(true)), Ok(3));
    assert_eq!(without_request.proof_state, ProofStateType::ProofInvalid);

    let mut without_proof = default_proof();
    let before = without_proof.clone();
    assert_eq!(without_proof.proof_validation(Ok(true)).unwrap_err().kind(), VcxErrorKind::InvalidProof);
    assert_eq!(without_proof, before);
}

#[test]
fn questions_are_listed_for_the_credentials() {
    let credentials = vec![cred("s1", "c1", None, None), cred("s2", "c2", Some("r2"), None), cred("s3", "c3", Some("r3"), Some(9))];
    let ask = |requested: &str, timestamp: Option<u64>| LedgerQuestion { requested: requested.to_string(), timestamp };
    assert_eq!(
        ledger_questions(LedgerObject::CredentialDef, &credentials),
        vec![ask("c1", None), ask("c2", None), ask("c3", None)]
    );
    assert_eq!(ledger_questions(LedgerObject::Schema, &credentials), vec![ask("s1", None), ask("s2", None), ask("s3", None)]);
    assert_eq!(ledger_questions(LedgerObject::RevRegDef, &credentials), vec![ask("r2", None), ask("r3", None)]);
    assert_eq!(ledger_questions(LedgerObject::RevReg, &credentials), vec![ask("r3", Some(9))]);
    assert_eq!(ledger_questions(LedgerObject::Schema, &vec![]), vec![]);
    assert_eq!(revocable_credentials(&credentials), credentials[1..].to_vec());

    // answers to the questions are found by the credentials that asked
    let document = |id: &str| Ok(LedgerDocument { id: id.to_string(), json: "{}".to_string(), timestamp: 9 });
    let answers: Vec<LedgerAnswer> = ledger_questions(LedgerObject::RevReg, &credentials)
        .iter()
        .map(|question| question.answered(document(&question.requested)))
        .collect();
    assert_eq!(answers, vec![answer("r3", Some(9), "r3", "{}", 9)]);
    assert_eq!(Proof::build_rev_reg_json(&credentials[2..].to_vec(), &answers).unwrap(), "{\"r3\":{\"9\":{}}}");
    let answers: Vec<LedgerAnswer> = ledger_questions(LedgerObject::Schema, &credentials)
        .iter()
        .map(|question| question.answered(document(&question.requested)))
        .collect();
    assert_eq!(Proof::build_schemas_json(&credentials, &answers).unwrap(), "{\"s1\":{},\"s2\":{},\"s3\":{}}");
}

#[test]
fn proof_messages_are_read_from_payloads() {
    let message = parse_proof_payload("{\"libindy_proof\":\"{}\",\"to_did\":\"a\",\"from_did\":null,\"extra\":1}").unwrap();
    assert_eq!(
        message,
        ProofMessage {
            version: None,
            to_did: Some("a".to_string()),
            from_did: None,
            proof_request_id: None,
            libindy_proof: "{}".to_string(),
            state: None,
        }
    );
    for bad in ["", "[]", "{}", "{\"libindy_proof\":1}", "{\"libindy_proof\":\"{}\",\"version\":2}", "\"libindy_proof\""] {
        assert_eq!(parse_proof_payload(bad).unwrap_err().kind(), VcxErrorKind::InvalidJson);
        assert_eq!(ProofMessage::from_str(bad).unwrap_err().kind(), VcxErrorKind::InvalidJson);
    }
    assert_eq!(ProofMessage::new().libindy_proof, "");
}

#[test]
fn credentials_are_read_from_the_identifiers() {
    let infos = get_credential_info(&proof_json("a", "b")).unwrap();
    assert_eq!(
        infos,
        vec![CredInfo { schema_id: SCHEMA_ID.to_string(), cred_def_id: CRED_DEF_ID.to_string(), rev_reg_id: None, timestamp: None }]
    );
    let infos = get_credential_info(
        "{\"identifiers\":[{\"schema_id\":\"s\",\"cred_def_id\":\"c\",\"rev_reg_id\":\"r\",\"timestamp\":12},{\"schema_id\":\"s2\",\"cred_def_id\":\"c2\",\"rev_reg_id\":7,\"timestamp\":\"x\"}]}",
    )
    .unwrap();
    assert_eq!(
        infos,
        vec![
            CredInfo { schema_id: "s".to_string(), cred_def_id: "c".to_string(), rev_reg_id: Some("r".to_string()), timestamp: Some(12) },
            CredInfo { schema_id: "s2".to_string(), cred_def_id: "c2".to_string(), rev_reg_id: None, timestamp: None },
        ]
    );
    assert_eq!(get_credential_info("{}").unwrap(), vec![]);
    assert_eq!(get_credential_info("{\"identifiers\":{}}").unwrap(), vec![]);
    assert_eq!(get_credential_info("{\"identifiers\":[]}").unwrap(), vec![]);
    assert_eq!(get_credential_info("{\"identifiers\":[{\"schema_id\":\"s\"}]}").unwrap_err().kind(), VcxErrorKind::InvalidProofCredentialData);
    assert_eq!(get_credential_info("{\"identifiers\":[{\"schema_id\":\"s\",\"cred_def_id\":\"c\"},3]}").unwrap_err().kind(), VcxErrorKind::InvalidProofCredentialData);
    assert_eq!(get_credential_info("{\"identifiers\"").unwrap_err().kind(), VcxErrorKind::InvalidJson);
}

#[test]
fn revealed_attributes_must_match_their_encoding() {
    assert!(Proof::validate_proof_revealed_attributes(&proof_json(ADDRESS, ADDRESS_ENCODED)).is_ok());
    assert!(Proof::validate_proof_revealed_attributes(&proof_json("84000", "84000")).is_ok());
    assert!(Proof::validate_proof_revealed_attributes(&proof_json("0084", "84")).is_ok());
    assert!(Proof::validate_proof_revealed_attributes(&proof_json("+17", "17")).is_ok());
    assert!(Proof::validate_proof_revealed_attributes("{}").is_ok());
    assert!(Proof::validate_proof_revealed_attributes("{\"requested_proof\":{\"revealed_attrs\":[1]}}").is_ok());
    assert!(Proof::validate_proof_revealed_attributes("{\"requested_proof\":{\"revealed_attrs\":{}}}").is_ok());
    for (raw, encoded) in [("84000", "84001"), ("0084", "0084"), (ADDRESS, "1"), ("Other Value", ADDRESS_ENCODED), ("-5", "-5")] {
        assert_eq!(
            Proof::validate_proof_revealed_attributes(&proof_json(raw, encoded)).unwrap_err().kind(),
            VcxErrorKind::InvalidProof
        );
    }
    for text in [
        "{\"requested_proof\":{\"revealed_attrs\":{\"a\":{\"raw\":\"1\"}}}}",
        "{\"requested_proof\":{\"revealed_attrs\":{\"a\":{\"encoded\":\"1\"}}}}",
        "{\"requested_proof\":{\"revealed_attrs\":{\"a\":{\"raw\":1,\"encoded\":\"1\"}}}}",
        "{\"requested_proof\":{\"revealed_attrs\":{\"a\":{\"raw\":\"1\",\"encoded\":1}}}}",
        "{\"requested_proof\":{\"revealed_attrs\":{\"a\":7}}}",
    ] {
        assert_eq!(Proof::validate_proof_revealed_attributes(text).unwrap_err().kind(), VcxErrorKind::InvalidProof);
    }
    assert_eq!(Proof::validate_proof_revealed_attributes("{").unwrap_err().kind(), VcxErrorKind::InvalidJson);

    let info = JsonValue::from_text("{\"raw\":\"x\",\"encoded\":\"12\"}").unwrap();
    assert!(check_revealed_attribute(&info, Ok("12".to_string())).is_ok());
    assert_eq!(check_revealed_attribute(&info, Ok("13".to_string())).unwrap_err().kind(), VcxErrorKind::InvalidProof);
    assert_eq!(
        check_revealed_attribute(&info, Err(VcxError::from_kind(VcxErrorKind::EncodeError))).unwrap_err().kind(),
        VcxErrorKind::EncodeError
    );
    assert_eq!(
        check_revealed_attribute(&JsonValue::Null, Err(VcxError::from_kind(VcxErrorKind::EncodeError))).unwrap_err().kind(),
        VcxErrorKind::InvalidProof
    );
}

fn cred(schema: &str, cred_def: &str, rev_reg: Option<&str>, timestamp: Option<u64>) -> CredInfo {
    CredInfo {
        schema_id: schema.to_string(),
        cred_def_id: cred_def.to_string(),
        rev_reg_id: rev_reg.map(|r| r.to_string()),
        timestamp,
    }
}

#[test]
fn documents_are_collected_in_order_and_once() {
    let credentials = vec![cred("s1", "c1", Some("r1"), Some(10)), cred("s2", "c2", Some("r2"), Some(20)), cred("s1", "c1", Some("r1"), Some(10))];
    let answers = vec![
        answer("c1", None, "c1", "{\"n\":1}", 0),
        answer("c2", None, "c2", "{\"n\":2}", 0),
        answer("c1", None, "c1", "{\"n\":3}", 0),
    ];
    assert_eq!(
        Proof::build_credential_defs_json(&credentials, &answers).unwrap(),
        "{\"c1\":{\"n\":1},\"c2\":{\"n\":2}}"
    );
    assert_eq!(build_documents_json(LedgerObject::CredentialDef, &vec![], &vec![]).unwrap(), "{}");

    let registries = vec![
        answer("r1", Some(10), "r1", "{\"a\":\"x\"}", 10),
        answer("r2", Some(20), "r2", "{\"a\":\"y\"}", 19),
    ];
    assert_eq!(
        Proof::build_rev_reg_json(&credentials, &registries).unwrap(),
        "{\"r1\":{\"10\":{\"a\":\"x\"}},\"r2\":{\"19\":{\"a\":\"y\"}}}"
    );
    // an answer for another time is no answer
    let late = vec![answer("r1", Some(11), "r1", "{}", 11)];
    assert_eq!(Proof::build_rev_reg_json(&credentials, &late).unwrap_err().kind(), VcxErrorKind::InvalidRevocationDetails);
}

#[test]
fn collection_fails_by_kind() {
    let plain = vec![cred("s1", "c1", None, None)];
    let dated = vec![cred("s1", "c1", Some("r1"), None)];
    let full = vec![cred("s1", "c1", Some("r1"), Some(5))];

    // nothing was asked of the ledger
    assert_eq!(Proof::build_credential_defs_json(&plain, &vec![]).unwrap_err().kind(), VcxErrorKind::InvalidProofCredentialData);
    assert_eq!(Proof::build_schemas_json(&plain, &vec![]).unwrap_err().kind(), VcxErrorKind::InvalidSchema);
    assert_eq!(Proof::build_rev_reg_defs_json(&dated, &vec![]).unwrap_err().kind(), VcxErrorKind::InvalidRevocationDetails);
    assert_eq!(Proof::build_rev_reg_json(&full, &vec![]).unwrap_err().kind(), VcxErrorKind::InvalidRevocationDetails);

    // the ledger failed
    assert_eq!(
        Proof::build_credential_defs_json(&plain, &vec![failed("c1", None, VcxErrorKind::IOError)]).unwrap_err().kind(),
        VcxErrorKind::IOError
    );
    assert_eq!(
        Proof::build_schemas_json(&plain, &vec![failed("s1", None, VcxErrorKind::IOError)]).unwrap_err().kind(),
        VcxErrorKind::InvalidSchema
    );
    assert_eq!(
        Proof::build_rev_reg_defs_json(&dated, &vec![failed("r1", None, VcxErrorKind::IOError)]).unwrap_err().kind(),
        VcxErrorKind::InvalidRevocationDetails
    );
    assert_eq!(
        Proof::build_rev_reg_json(&full, &vec![failed("r1", Some(5), VcxErrorKind::IOError)]).unwrap_err().kind(),
        VcxErrorKind::InvalidRevocationDetails
    );

    // the ledger holds no JSON
    assert_eq!(
        Proof::build_credential_defs_json(&plain, &vec![answer("c1", None, "c1", "{", 0)]).unwrap_err().kind(),
        VcxErrorKind::InvalidProofCredentialData
    );
    assert_eq!(Proof::build_schemas_json(&plain, &vec![answer("s1", None, "s1", "{", 0)]).unwrap_err().kind(), VcxErrorKind::InvalidSchema);
    assert_eq!(Proof::build_rev_reg_defs_json(&dated, &vec![answer("r1", None, "r1", "{", 0)]).unwrap_err().kind(), VcxErrorKind::InvalidSchema);
    assert_eq!(Proof::build_rev_reg_json(&full, &vec![answer("r1", Some(5), "r1", "{", 5)]).unwrap_err().kind(), VcxErrorKind::InvalidJson);

    // the credential does not say what is needed
    assert_eq!(Proof::build_rev_reg_defs_json(&plain, &vec![]).unwrap_err().kind(), VcxErrorKind::InvalidRevocationDetails);
    assert_eq!(Proof::build_rev_reg_json(&plain, &vec![]).unwrap_err().kind(), VcxErrorKind::InvalidRevocationDetails);
    assert_eq!(Proof::build_rev_reg_json(&dated, &vec![]).unwrap_err().kind(), VcxErrorKind::InvalidRevocationTimestamp);
}

#[test]
fn backend_is_given_the_documents_of_the_ledger() {
    let inputs = Proof::validate_indy_proof(&proof_json("84000", "84000"), "{\"name\":\"Optional\"}", &ledger()).unwrap();
    assert_eq!(inputs.proof_json, proof_json("84000", "84000"));
    assert_eq!(inputs.proof_req_json, "{\"name\":\"Optional\"}");
    assert_eq!(inputs.credential_defs_json, expected_object(CRED_DEF_ID, serde_json::from_str(CRED_DEF_JSON).unwrap()));
    assert_eq!(inputs.schemas_json, expected_object(SCHEMA_ID, serde_json::from_str(SCHEMA_JSON).unwrap()));
    // the credential names no revocation registry
    assert_eq!(inputs.rev_reg_defs_json, "{}");
    assert_eq!(inputs.rev_regs_json, "{}");

    assert_eq!(
        Proof::validate_indy_proof(&proof_json("84000", "1"), "{}", &ledger()).unwrap_err().kind(),
        VcxErrorKind::InvalidProof
    );
    assert_eq!(Proof::validate_indy_proof("", "{}", &ledger()).unwrap_err().kind(), VcxErrorKind::InvalidJson);
    assert_eq!(
        Proof::validate_indy_proof("{\"identifiers\":[{}]}", "{}", &ledger()).unwrap_err().kind(),
        VcxErrorKind::InvalidProofCredentialData
    );
}

fn revocable_proof_json(timestamp: &str) -> String {
    proof_json("84000", "84000")
        .replace("\"rev_reg_id\":null", &format!("\"rev_reg_id\":\"{}\"", REV_REG_ID))
        .replace("\"timestamp\":null", &format!("\"timestamp\":{}", timestamp))
}

#[test]
fn failure_of_the_ledger_is_surfaced() {
    let proof = proof_json("84000", "84000");
    let kind = |answers: LedgerAnswers, proof: &str| Proof::validate_indy_proof(proof, "{}", &answers).unwrap_err().kind();

    // the ledger failed
    let mut answers = ledger();
    answers.credential_defs = vec![failed(CRED_DEF_ID, None, VcxErrorKind::IOError)];
    assert_eq!(kind(answers, &proof), VcxErrorKind::IOError);
    let mut answers = ledger();
    answers.schemas = vec![failed(SCHEMA_ID, None, VcxErrorKind::IOError)];
    assert_eq!(kind(answers, &proof), VcxErrorKind::InvalidSchema);
    // the ledger holds no JSON
    let mut answers = ledger();
    answers.schemas = vec![answer(SCHEMA_ID, None, SCHEMA_ID, "{", 0)];
    assert_eq!(kind(answers, &proof), VcxErrorKind::InvalidSchema);
    // the answer is missing
    let mut answers = ledger();
    answers.credential_defs = vec![];
    assert_eq!(kind(answers, &proof), VcxErrorKind::InvalidProofCredentialData);

    // a credential that names a registry needs the documents of revocation
    let revocable = revocable_proof_json("1");
    assert_eq!(kind(ledger(), &revocable), VcxErrorKind::InvalidRevocationDetails);
    let mut answers = ledger();
    answers.rev_reg_defs = vec![answer(REV_REG_ID, None, REV_REG_ID, &rev_def_json(), 0)];
    answers.rev_regs = vec![failed(REV_REG_ID, Some(1), VcxErrorKind::IOError)];
    assert_eq!(kind(answers, &revocable), VcxErrorKind::InvalidRevocationDetails);
    let mut answers = ledger();
    answers.rev_reg_defs = vec![answer(REV_REG_ID, None, REV_REG_ID, &rev_def_json(), 0)];
    answers.rev_regs = vec![answer(REV_REG_ID, Some(1), REV_REG_ID, REV_REG_JSON, 1)];
    assert_eq!(kind(answers, &revocable_proof_json("null")), VcxErrorKind::InvalidRevocationTimestamp);

    let mut answers = ledger();
    answers.rev_reg_defs = vec![answer(REV_REG_ID, None, REV_REG_ID, &rev_def_json(), 0)];
    answers.rev_regs = vec![answer(REV_REG_ID, Some(1), REV_REG_ID, REV_REG_JSON, 1)];
    let inputs = Proof::validate_indy_proof(&revocable, "{}", &answers).unwrap();
    assert_eq!(inputs.rev_reg_defs_json, expected_object(REV_REG_ID, serde_json::from_str(&rev_def_json()).unwrap()));
    let mut inner = serde_json::Map::new();
    inner.insert("1".to_string(), serde_json::from_str(REV_REG_JSON).unwrap());
    assert_eq!(inputs.rev_regs_json, expected_object(REV_REG_ID, serde_json::Value::Object(inner)));
}

#[test]
fn proofs_are_persisted_under_their_version() {
    let mut data = JsonValue::object();
    data.insert("verifier_sm".to_string(), JsonValue::object());
    let text = to_string(data.clone());
    assert_eq!(text, "{\"data\":{\"verifier_sm\":{}},\"version\":\"2.0\"}");
    assert_eq!(from_string(&text).unwrap(), data);

    let s = serde_json::from_str::<serde_json::Value>(&text).unwrap();
    assert_eq!(s["version"], "2.0");
    assert!(s["data"]["verifier_sm"].is_object());

    assert_eq!(from_string("").unwrap_err().kind(), VcxErrorKind::InvalidJson);
    for other in [
        "{\"version\":\"1.0\",\"data\":{}}",
        "{\"version\":\"3.0\",\"data\":{}}",
        "{\"version\":\"9.9\",\"data\":{}}",
        "{\"version\":2.0,\"data\":{}}",
        "{\"version\":\"2.0\"}",
        "{\"data\":{}}",
        "[\"2.0\",{}]",
    ] {
        assert_eq!(from_string(other).unwrap_err().kind(), VcxErrorKind::InvalidJson);
    }
    assert_eq!(from_string("{\"version\":\"2.0\",\"data\":null,\"more\":1}").unwrap(), JsonValue::Null);

    let object = ObjectWithVersion::deserialize("{\"version\":\"1.0\",\"data\":[1]}").unwrap();
    assert_eq!(object.version, "1.0");
    assert_eq!(object.data, JsonValue::Array(vec![JsonValue::from_u64(1)]));
    assert_eq!(proof_data(object.clone()).unwrap_err().kind(), VcxErrorKind::InvalidJson);
    assert_eq!(ObjectWithVersion::deserialize(&object.clone().serialize()).unwrap(), object);
    assert_eq!(ObjectWithVersion::from_document(&object.clone().to_document()), Some(object));
}

#[test]
fn proof_is_read_back_as_it_was_persisted() {
    let mut proof = default_proof();
    assert_eq!(Proof::from_string(&proof.to_string()).unwrap(), proof);
    proof
        .send_proof_request(
            &agent_info(),
            ProofRequestMessage { proof_request_data: "{\"name\":\"x\"}".to_string() },
            Ok("uid-1".to_string()),
        )
        .unwrap();
    proof.revocation_interval = RevocationInterval { from: Some(0), to: Some(u64::MAX) };
    assert_eq!(Proof::from_string(&proof.to_string()).unwrap(), proof);
    proof.get_proof_request_status(Some(delivery(payload("{}"), "uid-1", 5))).unwrap();
    proof.validated(Ok(false)).unwrap();
    proof.proof.as_mut().unwrap().state = Some(VcxStateType::VcxStateRejected);
    let text = proof.to_string();
    assert_eq!(Proof::from_string(&text).unwrap(), proof);
    assert_eq!(Proof::from_document(&proof.to_document()), Some(proof.clone()));

    let s = serde_json::from_str::<serde_json::Value>(&text).unwrap();
    assert_eq!(s["version"], "2.0");
    assert_eq!(s["data"]["source_id"], "1");
    assert_eq!(s["data"]["state"], "VcxStateAccepted");
    assert_eq!(s["data"]["proof_state"], "ProofInvalid");
    assert_eq!(s["data"]["prover_did"], "GxtnGN6ypZYgEqcftSQFnC");
    assert_eq!(s["data"]["remote_did"], "8XFh8yBzrpJQmNyZzgoTqB");
    assert_eq!(s["data"]["revocation_interval"]["to"], u64::MAX);
    assert_eq!(s["data"]["proof"]["state"], "VcxStateRejected");

    assert_eq!(Proof::from_string("").unwrap_err().kind(), VcxErrorKind::InvalidJson);
    assert_eq!(Proof::from_string(&text.replace("2.0", "1.0")).unwrap_err().kind(), VcxErrorKind::InvalidJson);
    assert_eq!(Proof::from_string(&text.replace("ProofInvalid", "ProofUnheard")).unwrap_err().kind(), VcxErrorKind::InvalidJson);
    assert_eq!(Proof::from_string(&text.replace("\"nonce\"", "\"none\"")).unwrap_err().kind(), VcxErrorKind::InvalidJson);
    assert_eq!(Proof::from_string("{\"version\":\"2.0\",\"data\":{}}").unwrap_err().kind(), VcxErrorKind::InvalidJson);
}

#[test]
fn answers_are_read_before_they_are_collected() {
    let answers = vec![
        answer("c1", None, "id-1", "{\"n\":1}", 7),
        answer("c2", Some(3), "id-2", "no json", 8),
        failed("c3", None, VcxErrorKind::IOError),
    ];
    let read = read_ledger_answers(&answers);
    assert_eq!(
        read,
        vec![
            ReadAnswer {
                requested: "c1".to_string(),
                timestamp: None,
                outcome: Ok(LedgerEntry { id: "id-1".to_string(), document: JsonValue::from_text("{\"n\":1}"), timestamp: 7 }),
            },
            ReadAnswer {
                requested: "c2".to_string(),
                timestamp: Some(3),
                outcome: Ok(LedgerEntry { id: "id-2".to_string(), document: None, timestamp: 8 }),
            },
            ReadAnswer { requested: "c3".to_string(), timestamp: None, outcome: Err(VcxError::from_kind(VcxErrorKind::IOError)) },
        ]
    );
    assert!(read[0].outcome.as_ref().unwrap().document.is_some());

    let mut document = JsonValue::object();
    document.insert("n".to_string(), JsonValue::from_u64(1));
    let mut expected = JsonValue::object();
    expected.insert("id-1".to_string(), document.clone());
    assert_eq!(build_documents(LedgerObject::CredentialDef, &vec![cred("s", "c1", None, None)], &read), Ok(expected));
    assert_eq!(
        build_documents(LedgerObject::CredentialDef, &vec![cred("s", "c3", None, None)], &read).unwrap_err().kind(),
        VcxErrorKind::IOError
    );

    // a registry is stored under its time, in an object of its own
    let registry = vec![ReadAnswer {
        requested: "r".to_string(),
        timestamp: Some(5),
        outcome: Ok(LedgerEntry { id: "reg".to_string(), document: Some(document.clone()), timestamp: 4 }),
    }];
    let mut dated = JsonValue::object();
    dated.insert("4".to_string(), document);
    let mut expected = JsonValue::object();
    expected.insert("reg".to_string(), dated);
    assert_eq!(build_documents(LedgerObject::RevReg, &vec![cred("s", "c", Some("r"), Some(5))], &registry), Ok(expected));
    // an unreadable document fails only where it is needed
    assert_eq!(
        build_documents(LedgerObject::RevReg, &vec![cred("s", "c", Some("c2"), Some(3))], &read).unwrap_err().kind(),
        VcxErrorKind::InvalidJson
    );
    assert_eq!(build_documents(LedgerObject::Schema, &vec![], &read), Ok(JsonValue::object()));
}

#[test]
fn proof_message_is_recorded_with_its_state() {
    let mut proof = default_proof();
    let before = proof.clone();

    let mut message = ProofMessage::new();
    message.libindy_proof = "{}".to_string();
    message.state = Some(VcxStateType::VcxStateRejected);
    assert_eq!(proof.receive_proof_message(message.clone()), NextStep::Done(9));
    assert_eq!(proof.state, VcxStateType::VcxStateRejected);
    assert_eq!(proof.proof, Some(message.clone()));

    message.state = None;
    assert_eq!(proof.receive_proof_message(message.clone()), NextStep::Validate);
    assert_eq!(proof.state, VcxStateType::VcxStateAccepted);
    assert_eq!(proof.proof, Some(message));
    assert_eq!(proof.nonce, before.nonce);

    let data = proof.to_document();
    assert_eq!(Proof::from_data(&data).unwrap(), proof);
    assert_eq!(Proof::from_data(&JsonValue::Null).unwrap_err().kind(), VcxErrorKind::InvalidJson);
}
