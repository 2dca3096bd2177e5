use aries_vcx::api_lib::{ProofStateType, VcxStateType};
use aries_vcx::utils::decimal::{decimal_string, parse_u32};
use aries_vcx::utils::encoding::{encode, encode_digest};
use aries_vcx::utils::qualifier::is_fully_qualified;
use aries_vcx::utils::text::{clone_opt_text, clone_texts, text_eq};

#[test]
fn numbers_are_written_in_decimal() {
    for n in [0u64, 1, 9, 10, 11, 99, 100, 101, 4294967295, 4294967296, u64::MAX] {
        assert_eq!(decimal_string(n), n.to_string());
    }
}

#[test]
fn numbers_are_read_as_std_reads_them() {
    for text in [
        "0", "7", "007", "+7", "+0", "4294967295", "4294967296", "04294967295", "99999999999999999999999",
        "", "+", "-", "-0", "-1", "++1", "1+", " 1", "1 ", "1.0", "0x10", "one", "１２", "1_000", "+-1",
    ] {
        assert_eq!(parse_u32(text), text.parse::<u32>().ok(), "{:?}", text);
    }
    assert_eq!(parse_u32("4294967295"), Some(u32::MAX));
    assert_eq!(parse_u32("4294967296"), None);
}

#[test]
fn values_are_encoded_as_numbers() {
    assert_eq!(encode("0").unwrap(), "0");
    assert_eq!(encode("84000").unwrap(), "84000");
    assert_eq!(encode("0084").unwrap(), "84");
    assert_eq!(encode("+5").unwrap(), "5");
    assert_eq!(encode("4294967295").unwrap(), "4294967295");
    for raw in ["", "4294967296", "-1", "Alice", "101 Tela Lane", "1.5", "żółw"] {
        let digest = openssl::sha::sha256(raw.as_bytes());
        let expected = openssl::bn::BigNum::from_slice(&digest).unwrap().to_dec_str().unwrap().to_string();
        assert_eq!(encode(raw).unwrap(), expected);
        assert_ne!(encode(raw).unwrap(), raw);
    }
    assert_eq!(encode("").unwrap(), "102987336249554097029535212322581322789799900648198034993379397001115665086549");
    assert_eq!(encode("Alice").unwrap(), "27034640024117331033063128044004318218486816931520886405535659934417438781507");
}

#[test]
fn digests_are_read_most_significant_byte_first() {
    assert_eq!(encode_digest(&[]).unwrap(), "0");
    assert_eq!(encode_digest(&[0]).unwrap(), "0");
    assert_eq!(encode_digest(&[1, 0]).unwrap(), "256");
    assert_eq!(encode_digest(&[0, 1]).unwrap(), "1");
    assert_eq!(encode_digest(&[255, 255, 255, 255, 255, 255, 255, 255]).unwrap(), u64::MAX.to_string());
    assert_eq!(encode_digest(&[1, 0, 0, 0, 0, 0, 0, 0, 0]).unwrap(), "18446744073709551616");
}

#[test]
fn qualified_identifiers_are_told() {
    for (entity, qualified) in [
        ("did:sov:8XFh8yBzrpJQmNyZzgoTqB", true),
        ("did:sov:", true),
        ("a:b:", true),
        ("a1:2b:x:y:z", true),
        ("did:sov: with space and ünïcode", true),
        ("schema:sov:did:sov:NcYxi:2:gvt:1.0", true),
        ("8XFh8yBzrpJQmNyZzgoTqB", false),
        ("", false),
        (":", false),
        ("::", false),
        ("a:b", false),
        ("a::c", false),
        (":b:c", false),
        ("Did:sov:x", false),
        ("did:Sov:x", false),
        ("did:s-v:x", false),
        ("d d:sov:x", false),
        ("did:sov:x\ny", false),
        ("did:sov:\n", false),
        ("did:sov", false),
    ] {
        assert_eq!(is_fully_qualified(entity), qualified, "{:?}", entity);
    }
}

#[test]
fn states_are_numbered() {
    let states = [
        VcxStateType::VcxStateNone,
        VcxStateType::VcxStateInitialized,
        VcxStateType::VcxStateOfferSent,
        VcxStateType::VcxStateRequestReceived,
        VcxStateType::VcxStateAccepted,
        VcxStateType::VcxStateUnfulfilled,
        VcxStateType::VcxStateExpired,
        VcxStateType::VcxStateRevoked,
        VcxStateType::VcxStateRedirected,
        VcxStateType::VcxStateRejected,
    ];
    for (number, state) in states.iter().enumerate() {
        assert_eq!(state.code() as usize, number);
    }
    assert_eq!(ProofStateType::ProofUndefined.code(), 0);
    assert_eq!(ProofStateType::ProofValidated.code(), 1);
    assert_eq!(ProofStateType::ProofInvalid.code(), 2);
}

#[test]
fn texts_are_compared_and_copied() {
    assert!(text_eq("", ""));
    assert!(text_eq("żółw", "żółw"));
    assert!(!text_eq("a", "A"));
    assert!(!text_eq("a", "ab"));
    assert_eq!(clone_opt_text(&Some("x".to_string())), Some("x".to_string()));
    assert_eq!(clone_opt_text(&None), None);
    assert_eq!(clone_texts(&vec!["a".to_string(), "".to_string()]), vec!["a".to_string(), "".to_string()]);
}
