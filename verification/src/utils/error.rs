//! Numeric error codes and their human-readable messages.
//!
//! Every error of the library has a number and a message. Most of them are
//! also registered for lookup by number; asking for the message of a number
//! that is not registered gives the message of [`UNKNOWN_ERROR`].

use vstd::prelude::*;
use vstd::string::StringExecFns;

use crate::utils::decimal::{decimal_string, decimal_text};

verus! {

pub const SUCCESS: u32 = 0;
pub const INDY_WALLET_RECORD_NOT_FOUND: u32 = 212;
pub const INDY_DUPLICATE_WALLET_RECORD: u32 = 213;
pub const UNKNOWN_ERROR: u32 = 1001;
pub const CONNECTION_ERROR: u32 = 1002;
pub const INVALID_CONNECTION_HANDLE: u32 = 1003;
pub const INVALID_CONFIGURATION: u32 = 1004;
pub const NOT_READY: u32 = 1005;
pub const NO_ENDPOINT: u32 = 1006;
pub const INVALID_OPTION: u32 = 1007;
pub const INVALID_DID: u32 = 1008;
pub const INVALID_VERKEY: u32 = 1009;
pub const POST_MSG_FAILURE: u32 = 1010;
pub const INVALID_NONCE: u32 = 1011;
pub const INVALID_KEY_DELEGATE: u32 = 1012;
pub const INVALID_URL: u32 = 1013;
pub const NOT_BASE58: u32 = 1014;
pub const INVALID_ISSUER_CREDENTIAL_HANDLE: u32 = 1015;
pub const INVALID_JSON: u32 = 1016;
pub const INVALID_PROOF_HANDLE: u32 = 1017;
pub const INVALID_CREDENTIAL_REQUEST: u32 = 1018;
pub const INVALID_MSGPACK: u32 = 1019;
pub const INVALID_MESSAGES: u32 = 1020;
pub const INVALID_ATTRIBUTES_STRUCTURE: u32 = 1021;
pub const BIG_NUMBER_ERROR: u32 = 1022;
pub const INVALID_PROOF: u32 = 1023;
pub const INVALID_GENESIS_TXN_PATH: u32 = 1024;
pub const POOL_LEDGER_CONNECT: u32 = 1025;
pub const CREATE_POOL_CONFIG: u32 = 1026;
pub const INVALID_PROOF_CREDENTIAL_DATA: u32 = 1027;
pub const INDY_SUBMIT_REQUEST_ERR: u32 = 1028;
pub const BUILD_CREDENTIAL_DEF_REQ_ERR: u32 = 1029;
pub const NO_POOL_OPEN: u32 = 1030;
pub const INVALID_SCHEMA: u32 = 1031;
pub const FAILED_PROOF_COMPLIANCE: u32 = 1032;
pub const INVALID_HTTP_RESPONSE: u32 = 1033;
pub const CREATE_CREDENTIAL_DEF_ERR: u32 = 1034;
pub const UNKNOWN_LIBINDY_ERROR: u32 = 1035;
pub const INVALID_CREDENTIAL_DEF_JSON: u32 = 1036;
pub const INVALID_CREDENTIAL_DEF_HANDLE: u32 = 1037;
pub const TIMEOUT_LIBINDY_ERROR: u32 = 1038;
pub const CREDENTIAL_DEF_ALREADY_CREATED: u32 = 1039;
pub const INVALID_SCHEMA_SEQ_NO: u32 = 1040;
pub const INVALID_SCHEMA_CREATION: u32 = 1041;
pub const INVALID_SCHEMA_HANDLE: u32 = 1042;
pub const INVALID_MASTER_SECRET: u32 = 1043;
pub const ALREADY_INITIALIZED: u32 = 1044;
pub const INVALID_INVITE_DETAILS: u32 = 1045;
pub const INVALID_SELF_ATTESTED_VAL: u32 = 1046;
pub const INVALID_PREDICATE: u32 = 1047;
pub const INVALID_OBJ_HANDLE: u32 = 1048;
pub const INVALID_DISCLOSED_PROOF_HANDLE: u32 = 1049;
pub const SERIALIZATION_ERROR: u32 = 1050;
pub const WALLET_ALREADY_EXISTS: u32 = 1051;
pub const WALLET_ALREADY_OPEN: u32 = 1052;
pub const INVALID_CREDENTIAL_HANDLE: u32 = 1053;
pub const INVALID_CREDENTIAL_JSON: u32 = 1054;
pub const CREATE_CREDENTIAL_REQUEST_ERROR: u32 = 1055;
pub const CREATE_PROOF_ERROR: u32 = 1056;
pub const INVALID_WALLET_HANDLE: u32 = 1057;
pub const INVALID_WALLET_CREATION: u32 = 1058;
pub const INVALID_POOL_NAME: u32 = 1059;
pub const CANNOT_DELETE_CONNECTION: u32 = 1060;
pub const CREATE_CONNECTION_ERROR: u32 = 1061;
pub const INVALID_WALLET_SETUP: u32 = 1062;
pub const COMMON_ERROR: u32 = 1063;
pub const INSUFFICIENT_TOKEN_AMOUNT: u32 = 1064;
pub const UNKNOWN_TXN_TYPE: u32 = 1065;
pub const INVALID_PAYMENT_ADDRESS: u32 = 1066;
pub const INVALID_LIBINDY_PARAM: u32 = 1067;
pub const INVALID_PAYMENT: u32 = 1068;
pub const MISSING_WALLET_KEY: u32 = 1069;
pub const OBJECT_CACHE_ERROR: u32 = 1070;
pub const NO_PAYMENT_INFORMATION: u32 = 1071;
pub const DUPLICATE_WALLET_RECORD: u32 = 1072;
pub const WALLET_RECORD_NOT_FOUND: u32 = 1073;
pub const IOERROR: u32 = 1074;
pub const WALLET_ACCESS_FAILED: u32 = 1075;
pub const MISSING_WALLET_NAME: u32 = 1076;
pub const MISSING_EXPORTED_WALLET_PATH: u32 = 1077;
pub const MISSING_BACKUP_KEY: u32 = 1078;
pub const WALLET_NOT_FOUND: u32 = 1079;
pub const LIBINDY_INVALID_STRUCTURE: u32 = 1080;
pub const INVALID_STATE: u32 = 1081;
pub const INVALID_LEDGER_RESPONSE: u32 = 1082;
pub const DID_ALREADY_EXISTS_IN_WALLET: u32 = 1083;
pub const DUPLICATE_MASTER_SECRET: u32 = 1084;
pub const THREAD_ERROR: u32 = 1085;
pub const INVALID_PROOF_REQUEST: u32 = 1086;
pub const MISSING_PAYMENT_METHOD: u32 = 1087;
pub const DUPLICATE_SCHEMA: u32 = 1088;
pub const UKNOWN_LIBINDY_TRANSACTION_REJECTION: u32 = 1089;
pub const LOGGING_ERROR: u32 = 1090;
pub const INVALID_REVOCATION_DETAILS: u32 = 1091;
pub const INVALID_REV_ENTRY: u32 = 1092;
pub const INVALID_REVOCATION_TIMESTAMP: u32 = 1093;
pub const UNKNOWN_SCHEMA_REJECTION: u32 = 1094;
pub const INVALID_REV_REG_DEF_CREATION: u32 = 1095;
pub const INVALID_ATTACHMENT_ENCODING: u32 = 1100;
pub const UNKNOWN_ATTACHMENT_ENCODING: u32 = 1101;
pub const UNKNOWN_MIME_TYPE: u32 = 1102;
pub const ACTION_NOT_SUPPORTED: u32 = 1103;
pub const INVALID_REDIRECT_DETAILS: u32 = 1104;
pub const NO_AGENT_INFO: u32 = 1106;
pub const REV_REG_DEF_NOT_FOUND: u32 = 1107;
pub const REV_DELTA_NOT_FOUND: u32 = 1108;
pub const POISONED_LOCK: u32 = 1109;
pub const CREATE_PUBLIC_AGENT: u32 = 1110;
pub const INVALID_MESSAGE_FORMAT: u32 = 1111;
pub const CREATE_OUT_OF_BAND: u32 = 1112;
pub const CREATE_AGENT: u32 = 1113;

/// A numeric error code together with its message.
#[derive(Clone, Copy, Debug)]
pub struct Error {
    pub code_num: u32,
    pub message: &'static str,
}

/// The message that belongs to each defined error number.
pub open spec fn defined_message(code_num: u32) -> Option<&'static str> {
    match code_num {
        0u32 => Some("Success"),
        212u32 => Some("Error from Indy: Wallet Item not found"),
        213u32 => Some("Error from Indy: Duplicate Wallet Record"),
        1001u32 => Some("Unknown Error"),
        1002u32 => Some("Error with Connection"),
        1003u32 => Some("Invalid Connection Handle"),
        1004u32 => Some("Invalid Configuration"),
        1005u32 => Some("Object not ready for specified action"),
        1006u32 => Some("No Endpoint set for Connection Object"),
        1007u32 => Some("Invalid Option"),
        1008u32 => Some("Invalid DID"),
        1009u32 => Some("Invalid VERKEY"),
        1010u32 => Some("Message failed in post"),
        1011u32 => Some("Invalid NONCE"),
        1012u32 => Some("Invalid DELEGATE"),
        1013u32 => Some("Invalid URL"),
        1014u32 => Some("Value needs to be base58"),
        1015u32 => Some("Invalid Credential Issuer Handle"),
        1016u32 => Some("Invalid JSON string"),
        1017u32 => Some("Invalid Proof Handle"),
        1018u32 => Some("Invalid Credential Request"),
        1019u32 => Some("Invalid MessagePack"),
        1020u32 => Some("Error Retrieving messages from API"),
        1021u32 => Some("Attributes provided to Credential Offer are not correct, possibly malformed"),
        1022u32 => Some("Could not encode string to a big integer."),
        1023u32 => Some("Proof had invalid format"),
        1024u32 => Some("Must have valid genesis txn file path"),
        1025u32 => Some("Connection to Pool Ledger."),
        1026u32 => Some("Formatting for Pool Config are incorrect."),
        1027u32 => Some("The Proof received does not have valid credentials listed."),
        1028u32 => Some("Call to indy submit request failed"),
        1029u32 => Some("Call to indy credential def request failed"),
        1030u32 => Some("No Pool open. Can't return handle."),
        1031u32 => Some("Schema was invalid or corrupt"),
        1032u32 => Some("Proof is not compliant to proof request"),
        1033u32 => Some("Invalid HTTP response."),
        1034u32 => Some("Call to create Credential Definition failed"),
        1035u32 => Some("Unknown libindy error"),
        1036u32 => Some("Credential Def not in valid json"),
        1037u32 => Some("Invalid Credential Definition handle"),
        1038u32 => Some("Waiting for callback timed out"),
        1039u32 => Some("Can't create, Credential Def already exists in wallet"),
        1040u32 => Some("No Schema for that schema sequence number"),
        1041u32 => Some("Could not create schema"),
        1042u32 => Some("Invalid Schema Handle"),
        1043u32 => Some("Invalid master secret"),
        1044u32 => Some("Library already initialized"),
        1045u32 => Some("Invalid invite details structure"),
        1046u32 => Some("Self Attested Value invalid"),
        1047u32 => Some("Predicate in proof is invalid"),
        1048u32 => Some("Obj was not found with handle"),
        1049u32 => Some("Obj was not found with handle"),
        1050u32 => Some("Unable to serialize"),
        1051u32 => Some("Indy wallet already exists"),
        1052u32 => Some("Indy wallet already open"),
        1053u32 => Some("Invalid credential handle"),
        1054u32 => Some("Invalid credential json"),
        1055u32 => Some("could not create credential request"),
        1056u32 => Some("could not create proof"),
        1057u32 => Some("Invalid Wallet or Search Handle"),
        1058u32 => Some("Error Creating a wallet"),
        1059u32 => Some("Pool Name in config was invalid"),
        1060u32 => Some("Cannot Delete Connection. Check status of connection is appropriate to be deleted from agency."),
        1061u32 => Some("Could not create connection"),
        1062u32 => Some("Invalid wallet keys...have you provisioned correctly?"),
        1063u32 => Some("Common Error"),
        1064u32 => Some("Insufficient amount of tokens to process request"),
        1065u32 => Some("Unknown ledger transaction type"),
        1066u32 => Some("Invalid payment address"),
        1067u32 => Some("Parameter passed to libindy was invalid"),
        1068u32 => Some("Invalid Payment Details"),
        1069u32 => Some("Configuration is missing wallet key"),
        1070u32 => Some("Object cache error"),
        1071u32 => Some("No payment information associated with object"),
        1072u32 => Some("Record already exists in the wallet"),
        1073u32 => Some("Wallet record not found"),
        1074u32 => Some("IO Error, possibly creating a backup wallet"),
        1075u32 => Some("Attempt to open wallet with invalid credentials"),
        1076u32 => Some("Missing wallet name in config"),
        1077u32 => Some("Missing exported wallet path in config"),
        1078u32 => Some("Missing exported backup key in config"),
        1079u32 => Some("Wallet Not Found"),
        1080u32 => Some("Object (json, config, key, credential and etc...) passed to libindy has invalid structure"),
        1081u32 => Some("Object is in invalid state for requested operation"),
        1082u32 => Some("Invalid response from ledger for paid transaction"),
        1083u32 => Some("Attempted to add a DID to wallet when that DID already exists in wallet"),
        1084u32 => Some("Attempted to add a Master Secret that already existed in wallet"),
        1085u32 => Some("Unable to create thread"),
        1086u32 => Some("Proof Request Passed into Libindy Call Was Invalid"),
        1087u32 => Some("Configuration is missing the Payment Method parameter"),
        1088u32 => Some("Duplicate Schema: Ledger Already Contains Schema For Given DID, Version, and Name Combination"),
        1089u32 => Some("Unknown Libindy Rejection"),
        1090u32 => Some("Logging Error"),
        1091u32 => Some("Invalid Revocation Details"),
        1092u32 => Some("Unable to Update Revocation Delta On Ledger"),
        1093u32 => Some("Invalid Credential Revocation timestamp"),
        1094u32 => Some("Unknown Rejection of Schema Creation, refer to libindy documentation"),
        1095u32 => Some("Failed to create Revocation Registration Definition"),
        1100u32 => Some("Failed to decode attachment"),
        1101u32 => Some("This type of attachment can not be used"),
        1102u32 => Some("Unknown mime type"),
        1103u32 => Some("Action is not supported"),
        1104u32 => Some("Invalid redirect details structure"),
        1106u32 => Some("Agent pairwise information not found"),
        1107u32 => Some("No revocation definition found"),
        1108u32 => Some("No revocation delta found in storage for this revocation registry. Were any credentials locally revoked?"),
        1109u32 => Some("Attempted to lock a poisoned lock"),
        1110u32 => Some("Error creating public agent"),
        1111u32 => Some("Invalid message format"),
        1112u32 => Some("Error creating out of band message"),
        1113u32 => Some("Error creating agent in agency"),
        _ => None,
    }
}

/// Whether messages can be looked up by this number.
///
/// A few defined errors carry a message of their own but are not registered.
pub open spec fn is_registered(code_num: u32) -> bool {
    defined_message(code_num) is Some && !(
        code_num == INVALID_SELF_ATTESTED_VAL
        || code_num == INVALID_PREDICATE
        || code_num == REV_REG_DEF_NOT_FOUND
        || code_num == REV_DELTA_NOT_FOUND
        || code_num == POISONED_LOCK
        || code_num == CREATE_PUBLIC_AGENT
        || code_num == INVALID_MESSAGE_FORMAT
        || code_num == CREATE_OUT_OF_BAND
        || code_num == CREATE_AGENT
    )
}

/// What [`error_message`] answers for a number.
pub open spec fn registered_message(code_num: u32) -> &'static str {
    if is_registered(code_num) {
        defined_message(code_num)->0
    } else {
        "Unknown Error"
    }
}

impl Error {
    /// The error defined under `code_num`, if there is one.
    pub fn defined(code_num: u32) -> (found: Option<Error>)
        ensures
            match defined_message(code_num) {
                Some(message) => found == Some(Error { code_num, message }),
                None => found is None,
            },
    {
        let message = match code_num {
            0u32 => "Success",
            212u32 => "Error from Indy: Wallet Item not found",
            213u32 => "Error from Indy: Duplicate Wallet Record",
            1001u32 => "Unknown Error",
            1002u32 => "Error with Connection",
            1003u32 => "Invalid Connection Handle",
            1004u32 => "Invalid Configuration",
            1005u32 => "Object not ready for specified action",
            1006u32 => "No Endpoint set for Connection Object",
            1007u32 => "Invalid Option",
            1008u32 => "Invalid DID",
            1009u32 => "Invalid VERKEY",
            1010u32 => "Message failed in post",
            1011u32 => "Invalid NONCE",
            1012u32 => "Invalid DELEGATE",
            1013u32 => "Invalid URL",
            1014u32 => "Value needs to be base58",
            1015u32 => "Invalid Credential Issuer Handle",
            1016u32 => "Invalid JSON string",
            1017u32 => "Invalid Proof Handle",
            1018u32 => "Invalid Credential Request",
            1019u32 => "Invalid MessagePack",
            1020u32 => "Error Retrieving messages from API",
            1021u32 => "Attributes provided to Credential Offer are not correct, possibly malformed",
            1022u32 => "Could not encode string to a big integer.",
            1023u32 => "Proof had invalid format",
            1024u32 => "Must have valid genesis txn file path",
            1025u32 => "Connection to Pool Ledger.",
            1026u32 => "Formatting for Pool Config are incorrect.",
            1027u32 => "The Proof received does not have valid credentials listed.",
            1028u32 => "Call to indy submit request failed",
            1029u32 => "Call to indy credential def request failed",
            1030u32 => "No Pool open. Can't return handle.",
            1031u32 => "Schema was invalid or corrupt",
            1032u32 => "Proof is not compliant to proof request",
            1033u32 => "Invalid HTTP response.",
            1034u32 => "Call to create Credential Definition failed",
            1035u32 => "Unknown libindy error",
            1036u32 => "Credential Def not in valid json",
            1037u32 => "Invalid Credential Definition handle",
            1038u32 => "Waiting for callback timed out",
            1039u32 => "Can't create, Credential Def already exists in wallet",
            1040u32 => "No Schema for that schema sequence number",
            1041u32 => "Could not create schema",
            1042u32 => "Invalid Schema Handle",
            1043u32 => "Invalid master secret",
            1044u32 => "Library already initialized",
            1045u32 => "Invalid invite details structure",
            1046u32 => "Self Attested Value invalid",
            1047u32 => "Predicate in proof is invalid",
            1048u32 => "Obj was not found with handle",
            1049u32 => "Obj was not found with handle",
            1050u32 => "Unable to serialize",
            1051u32 => "Indy wallet already exists",
            1052u32 => "Indy wallet already open",
            1053u32 => "Invalid credential handle",
            1054u32 => "Invalid credential json",
            1055u32 => "could not create credential request",
            1056u32 => "could not create proof",
            1057u32 => "Invalid Wallet or Search Handle",
            1058u32 => "Error Creating a wallet",
            1059u32 => "Pool Name in config was invalid",
            1060u32 => "Cannot Delete Connection. Check status of connection is appropriate to be deleted from agency.",
            1061u32 => "Could not create connection",
            1062u32 => "Invalid wallet keys...have you provisioned correctly?",
            1063u32 => "Common Error",
            1064u32 => "Insufficient amount of tokens to process request",
            1065u32 => "Unknown ledger transaction type",
            1066u32 => "Invalid payment address",
            1067u32 => "Parameter passed to libindy was invalid",
            1068u32 => "Invalid Payment Details",
            1069u32 => "Configuration is missing wallet key",
            1070u32 => "Object cache error",
            1071u32 => "No payment information associated with object",
            1072u32 => "Record already exists in the wallet",
            1073u32 => "Wallet record not found",
            1074u32 => "IO Error, possibly creating a backup wallet",
            1075u32 => "Attempt to open wallet with invalid credentials",
            1076u32 => "Missing wallet name in config",
            1077u32 => "Missing exported wallet path in config",
            1078u32 => "Missing exported backup key in config",
            1079u32 => "Wallet Not Found",
            1080u32 => "Object (json, config, key, credential and etc...) passed to libindy has invalid structure",
            1081u32 => "Object is in invalid state for requested operation",
            1082u32 => "Invalid response from ledger for paid transaction",
            1083u32 => "Attempted to add a DID to wallet when that DID already exists in wallet",
            1084u32 => "Attempted to add a Master Secret that already existed in wallet",
            1085u32 => "Unable to create thread",
            1086u32 => "Proof Request Passed into Libindy Call Was Invalid",
            1087u32 => "Configuration is missing the Payment Method parameter",
            1088u32 => "Duplicate Schema: Ledger Already Contains Schema For Given DID, Version, and Name Combination",
            1089u32 => "Unknown Libindy Rejection",
            1090u32 => "Logging Error",
            1091u32 => "Invalid Revocation Details",
            1092u32 => "Unable to Update Revocation Delta On Ledger",
            1093u32 => "Invalid Credential Revocation timestamp",
            1094u32 => "Unknown Rejection of Schema Creation, refer to libindy documentation",
            1095u32 => "Failed to create Revocation Registration Definition",
            1100u32 => "Failed to decode attachment",
            1101u32 => "This type of attachment can not be used",
            1102u32 => "Unknown mime type",
            1103u32 => "Action is not supported",
            1104u32 => "Invalid redirect details structure",
            1106u32 => "Agent pairwise information not found",
            1107u32 => "No revocation definition found",
            1108u32 => "No revocation delta found in storage for this revocation registry. Were any credentials locally revoked?",
            1109u32 => "Attempted to lock a poisoned lock",
            1110u32 => "Error creating public agent",
            1111u32 => "Invalid message format",
            1112u32 => "Error creating out of band message",
            1113u32 => "Error creating agent in agency",
            _ => { return None; },
        };
        Some(Error { code_num, message })
    }

    /// The numeric code of this error.
    pub fn get_code(&self) -> (code: u32)
        ensures
            code == self.code_num,
    {
        self.code_num
    }

    /// The text shown for this error: the registered message of its number,
    /// then the number itself.
    pub fn describe(&self) -> (text: String)
        ensures
            text@ == registered_message(self.code_num)@ + ": (Error Num:"@ + decimal_text(
                self.code_num as nat,
            ) + ")"@,
    {
        let mut text = error_message(&self.code_num);
        text.append(": (Error Num:");
        let digits = decimal_string(self.code_num as u64);
        text.append(digits.as_str());
        text.append(")");
        text
    }
}

/// Whether messages can be looked up by `code_num`.
pub fn registered(code_num: u32) -> (known: bool)
    ensures
        known == is_registered(code_num),
{
    match Error::defined(code_num) {
        None => false,
        Some(_) => !(
            code_num == INVALID_SELF_ATTESTED_VAL
            || code_num == INVALID_PREDICATE
            || code_num == REV_REG_DEF_NOT_FOUND
            || code_num == REV_DELTA_NOT_FOUND
            || code_num == POISONED_LOCK
            || code_num == CREATE_PUBLIC_AGENT
            || code_num == INVALID_MESSAGE_FORMAT
            || code_num == CREATE_OUT_OF_BAND
            || code_num == CREATE_AGENT
        ),
    }
}

/// The message registered for `code_num`, or the message of
/// [`UNKNOWN_ERROR`] where none is registered.
pub fn error_message(code_num: &u32) -> (message: String)
    ensures
        message@ == registered_message(*code_num)@,
{
    if registered(*code_num) {
        match Error::defined(*code_num) {
            Some(error) => String::from_str(error.message),
            None => String::from_str("Unknown Error"),
        }
    } else {
        String::from_str("Unknown Error")
    }
}

} // verus!
