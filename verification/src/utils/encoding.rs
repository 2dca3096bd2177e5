//! The numeric encoding of attribute values, on top of the big numbers and
//! the digest of OpenSSL.

use vstd::arithmetic::power2::pow2;
use vstd::prelude::*;
use vstd::string::StringSliceAdditionalSpecFns;

use crate::error::{VcxError, VcxErrorKind, VcxResult};
use crate::utils::decimal::{decimal_string, decimal_text, parse_u32, parsed_u32};

verus! {

/// `openssl::bn::BigNum`, of which nothing is seen here but the number it
/// holds.
#[verifier::external_type_specification]
#[verifier::external_body]
pub struct ExBigNum(openssl::bn::BigNum);

/// The number that a `BigNum` holds.
pub uninterp spec fn bignum_value(number: openssl::bn::BigNum) -> int;

/// The SHA-256 digest of a byte string, as `openssl::sha::sha256` computes it.
pub uninterp spec fn sha256_digest(data: Seq<u8>) -> Seq<u8>;

/// The number that bytes stand for, most significant byte first.
pub open spec fn big_endian_value(bytes: Seq<u8>) -> nat
    decreases bytes.len(),
{
    if bytes.len() == 0 {
        0
    } else {
        big_endian_value(bytes.drop_last()) * 256 + bytes.last() as nat
    }
}

/// Calls `BigNum::new`, which allocates a number with the value 0, or fails.
#[verifier::external_body]
pub(crate) fn bignum_new() -> (number: Option<openssl::bn::BigNum>)
    ensures
        number matches Some(n) ==> bignum_value(n) == 0,
{
    openssl::bn::BigNum::new().ok()
}

/// Calls `BigNumRef::rand` for a number of `bits` bits whose top bit may be
/// zero and which need not be odd. On success the number is drawn at random
/// below two to the power of `bits`; on failure nothing is claimed of it.
#[verifier::external_body]
pub(crate) fn bignum_rand(number: &mut openssl::bn::BigNum, bits: i32) -> (drawn: bool)
    requires
        bits > 0,
    ensures
        drawn ==> 0 <= bignum_value(*final(number)) < pow2(bits as nat),
{
    number.rand(bits, openssl::bn::MsbOption::MAYBE_ZERO, false).is_ok()
}

/// Calls `BigNum::from_slice`, which reads an unsigned number from bytes,
/// most significant byte first, or fails.
#[verifier::external_body]
pub(crate) fn bignum_from_slice(bytes: &[u8]) -> (number: Option<openssl::bn::BigNum>)
    requires
        bytes@.len() <= i32::MAX,
    ensures
        number matches Some(n) ==> bignum_value(n) == big_endian_value(bytes@),
{
    openssl::bn::BigNum::from_slice(bytes).ok()
}

/// Calls `BigNumRef::to_dec_str`, which writes the number in decimal, or
/// fails. Only the text of a number that is not negative is described.
#[verifier::external_body]
pub(crate) fn bignum_to_dec_str(number: &openssl::bn::BigNum) -> (text: Option<String>)
    ensures
        text matches Some(t) ==> (bignum_value(*number) >= 0 ==> t@ == decimal_text(
            bignum_value(*number) as nat,
        )),
{
    number.to_dec_str().ok().map(|text| text.to_string())
}

/// Calls `openssl::sha::sha256`. The digest has 32 bytes.
#[verifier::external_body]
pub(crate) fn sha256(data: &[u8]) -> (digest: Vec<u8>)
    ensures
        digest@ == sha256_digest(data@),
        digest@.len() == 32,
{
    openssl::sha::sha256(data).to_vec()
}

/// The encoding of a value that is no 32-bit number: its digest, read as a
/// number, in decimal.
pub open spec fn digest_encoding(raw: Seq<u8>) -> Seq<char> {
    decimal_text(big_endian_value(sha256_digest(raw)))
}

/// The encoding of the digest `digest` of a value.
///
/// Fails with `EncodeError` where OpenSSL cannot allocate the number or its
/// text.
pub fn encode_digest(digest: &[u8]) -> (encoded: VcxResult<String>)
    requires
        digest@.len() <= i32::MAX,
    ensures
        encoded matches Ok(text) ==> text@ == decimal_text(big_endian_value(digest@)),
        encoded matches Err(failure) ==> failure.kind() == VcxErrorKind::EncodeError,
{
    match bignum_from_slice(digest) {
        Some(number) => match bignum_to_dec_str(&number) {
            Some(text) => Ok(text),
            None => Err(VcxError::from_msg(VcxErrorKind::EncodeError, "Cannot encode string")),
        },
        None => Err(VcxError::from_msg(VcxErrorKind::EncodeError, "Cannot encode string")),
    }
}

/// The numeric encoding of the attribute value `s`: a value that reads as an
/// unsigned 32-bit number is that number in decimal; any other value is its
/// SHA-256 digest, read as a number, in decimal.
///
/// A number is always encoded. For other values the encoding fails with
/// `EncodeError` where OpenSSL cannot allocate the number or its text.
pub fn encode(s: &str) -> (encoded: VcxResult<String>)
    ensures
        match parsed_u32(s@) {
            Some(number) => encoded is Ok && encoded->Ok_0@ == decimal_text(number as nat),
            None => {
                &&& encoded matches Ok(text) ==> text@ == digest_encoding(s.spec_bytes())
                &&& encoded matches Err(failure) ==> failure.kind() == VcxErrorKind::EncodeError
            },
        },
{
    match parse_u32(s) {
        Some(number) => Ok(decimal_string(number as u64)),
        None => {
            let digest = sha256(s.as_bytes());
            encode_digest(digest.as_slice())
        },
    }
}

} // verus!
