//! Base64 with the standard alphabet and padding, on bytes and on text.
//!
//! Encoding is total. Decoding accepts exactly the texts that encoding
//! produces: a text decodes to the bytes whose encoding it is, and to nothing
//! otherwise.
//!
//! This strictness is intended. A text without its padding, with a line
//! break or another character outside the alphabet, or whose last character
//! holds bits that encoding leaves zero, is not decoded, although more
//! lenient decoders read such texts: in this way every sequence of bytes has
//! one text, every accepted text has one sequence of bytes, and a payload
//! that was decoded encodes to the very text it came in.

use vstd::prelude::*;
use vstd::string::StringSliceAdditionalSpecFns;
use vstd::utf8::{
    decode_utf8, encode_utf8, encode_utf8_decode_utf8, encode_utf8_valid_utf8, is_ascii_chars,
    is_ascii_chars_encode_utf8, valid_utf8,
};

verus! {

/// The padding character, `=`.
pub const PAD: u8 = 61;

/// The character that stands for the six-bit value `v`.
pub open spec fn symbol(v: u8) -> u8 {
    if v < 26 {
        (v + 65) as u8
    } else if v < 52 {
        (v + 71) as u8
    } else if v < 62 {
        (v - 4) as u8
    } else if v == 62 {
        43
    } else {
        47
    }
}

/// The six-bit value that the character `s` stands for; zero for a character
/// outside the alphabet.
pub open spec fn value(s: u8) -> u8 {
    if 65 <= s <= 90 {
        (s - 65) as u8
    } else if 97 <= s <= 122 {
        (s - 71) as u8
    } else if 48 <= s <= 57 {
        (s + 4) as u8
    } else if s == 43 {
        62
    } else if s == 47 {
        63
    } else {
        0
    }
}

/// The first six-bit value of a group: the upper six bits of its first byte.
pub open spec fn sextet0(a: u8) -> u8 {
    a >> 2
}

/// The second six-bit value of a group: the lower two bits of its first
/// byte, then the upper four bits of its second.
pub open spec fn sextet1(a: u8, b: u8) -> u8 {
    ((a & 3) << 4) | (b >> 4)
}

/// The third six-bit value of a group: the lower four bits of its second
/// byte, then the upper two bits of its third.
pub open spec fn sextet2(b: u8, c: u8) -> u8 {
    ((b & 15) << 2) | (c >> 6)
}

/// The fourth six-bit value of a group: the lower six bits of its third byte.
pub open spec fn sextet3(c: u8) -> u8 {
    c & 63
}

/// The first byte that four six-bit values give.
pub open spec fn octet0(s0: u8, s1: u8) -> u8 {
    (s0 << 2) | (s1 >> 4)
}

/// The second byte that four six-bit values give.
pub open spec fn octet1(s1: u8, s2: u8) -> u8 {
    ((s1 & 15) << 4) | (s2 >> 2)
}

/// The third byte that four six-bit values give.
pub open spec fn octet2(s2: u8, s3: u8) -> u8 {
    ((s2 & 3) << 6) | s3
}

/// The byte at `k`, or zero past the end.
pub open spec fn byte_at(data: Seq<u8>, k: int) -> u8 {
    if 0 <= k < data.len() {
        data[k]
    } else {
        0
    }
}

/// The character at position `k` of the encoding of `data`: each group of
/// three bytes gives four characters, and a last group that is short of bytes
/// is filled up with padding.
pub open spec fn encoded_at(data: Seq<u8>, k: int) -> u8 {
    let i = k / 4;
    let a = byte_at(data, 3 * i);
    let b = byte_at(data, 3 * i + 1);
    let c = byte_at(data, 3 * i + 2);
    if k % 4 == 0 {
        symbol(sextet0(a))
    } else if k % 4 == 1 {
        symbol(sextet1(a, b))
    } else if k % 4 == 2 {
        if 3 * i + 1 < data.len() {
            symbol(sextet2(b, c))
        } else {
            PAD
        }
    } else {
        if 3 * i + 2 < data.len() {
            symbol(sextet3(c))
        } else {
            PAD
        }
    }
}

/// The base64 encoding of `data`.
pub open spec fn encoded(data: Seq<u8>) -> Seq<u8> {
    Seq::new(4 * ((data.len() + 2) / 3) as nat, |k: int| encoded_at(data, k))
}

/// How many padding characters end `text`: at most two.
pub open spec fn padding(text: Seq<u8>) -> nat {
    if text.len() >= 2 && text[text.len() - 1] == PAD {
        if text[text.len() - 2] == PAD {
            2
        } else {
            1
        }
    } else {
        0
    }
}

/// The byte at position `k` that the groups of four characters of `text` give,
/// read without any check.
pub open spec fn decoded_at(text: Seq<u8>, k: int) -> u8 {
    let i = k / 3;
    let v0 = value(text[4 * i]);
    let v1 = value(text[4 * i + 1]);
    let v2 = value(text[4 * i + 2]);
    let v3 = value(text[4 * i + 3]);
    if k % 3 == 0 {
        octet0(v0, v1)
    } else if k % 3 == 1 {
        octet1(v1, v2)
    } else {
        octet2(v2, v3)
    }
}

/// The bytes that `text` would stand for if it were an encoding.
pub open spec fn read_unchecked(text: Seq<u8>) -> Seq<u8> {
    if text.len() % 4 == 0 && text.len() > 0 {
        Seq::new((3 * (text.len() / 4) - padding(text)) as nat, |k: int| decoded_at(text, k))
    } else {
        Seq::empty()
    }
}

/// The bytes of which `text` is the encoding, if it is one.
pub open spec fn decoded(text: Seq<u8>) -> Option<Seq<u8>> {
    if encoded(read_unchecked(text)) == text {
        Some(read_unchecked(text))
    } else {
        None
    }
}

/// The text whose characters have the given ASCII codes.
pub open spec fn ascii_text(bytes: Seq<u8>) -> Seq<char> {
    Seq::new(bytes.len(), |i: int| bytes[i] as char)
}

proof fn lemma_sextets(a: u8, b: u8, c: u8)
    ensures
        sextet0(a) < 64,
        sextet1(a, b) < 64,
        sextet2(b, c) < 64,
        sextet3(c) < 64,
        octet0(sextet0(a), sextet1(a, b)) == a,
        octet1(sextet1(a, b), sextet2(b, c)) == b,
        octet2(sextet2(b, c), sextet3(c)) == c,
{
    assert(a >> 2 < 64) by (bit_vector);
    assert(((a & 3) << 4) | (b >> 4) < 64) by (bit_vector);
    assert(((b & 15) << 2) | (c >> 6) < 64) by (bit_vector);
    assert(c & 63 < 64) by (bit_vector);
    assert(((a >> 2) << 2) | ((((a & 3) << 4) | (b >> 4)) >> 4) == a) by (bit_vector);
    assert((((((a & 3) << 4) | (b >> 4)) & 15) << 4) | ((((b & 15) << 2) | (c >> 6)) >> 2) == b)
        by (bit_vector);
    assert((((((b & 15) << 2) | (c >> 6)) & 3) << 6) | (c & 63) == c) by (bit_vector);
}

proof fn lemma_symbol(v: u8)
    requires
        v < 64,
    ensures
        value(symbol(v)) == v,
        symbol(v) != PAD,
        symbol(v) < 128,
{
}

/// Every character of an encoding is an ASCII character.
pub proof fn encoded_is_ascii(data: Seq<u8>)
    ensures
        forall|k: int| 0 <= k < encoded(data).len() ==> #[trigger] encoded(data)[k] < 128,
{
    assert forall|k: int| 0 <= k < encoded(data).len() implies #[trigger] encoded(data)[k]
        < 128 by {
        let i = k / 4;
        let a = byte_at(data, 3 * i);
        let b = byte_at(data, 3 * i + 1);
        let c = byte_at(data, 3 * i + 2);
        lemma_sextets(a, b, c);
        lemma_symbol(sextet0(a));
        lemma_symbol(sextet1(a, b));
        lemma_symbol(sextet2(b, c));
        lemma_symbol(sextet3(c));
    }
}

proof fn lemma_read_back(data: Seq<u8>)
    ensures
        read_unchecked(encoded(data)) == data,
{
    let text = encoded(data);
    let n = data.len() as int;
    let groups = (n + 2) / 3;
    assert(text.len() == 4 * groups);
    if n == 0 {
        assert(read_unchecked(text) =~= data);
    } else {
        let last = groups - 1;
        assert(text[4 * last + 3] == encoded_at(data, 4 * last + 3));
        assert(text[4 * last + 2] == encoded_at(data, 4 * last + 2));
        let la = byte_at(data, 3 * last);
        let lb = byte_at(data, 3 * last + 1);
        let lc = byte_at(data, 3 * last + 2);
        lemma_sextets(la, lb, lc);
        lemma_symbol(sextet2(lb, lc));
        lemma_symbol(sextet3(lc));
        assert(padding(text) == if n % 3 == 1 {
            2nat
        } else if n % 3 == 2 {
            1nat
        } else {
            0nat
        });
        assert(read_unchecked(text).len() == n);
        assert forall|k: int| 0 <= k < n implies read_unchecked(text)[k] == data[k] by {
            let i = k / 3;
            let a = byte_at(data, 3 * i);
            let b = byte_at(data, 3 * i + 1);
            let c = byte_at(data, 3 * i + 2);
            lemma_sextets(a, b, c);
            lemma_symbol(sextet0(a));
            lemma_symbol(sextet1(a, b));
            lemma_symbol(sextet2(b, c));
            lemma_symbol(sextet3(c));
            assert(text[4 * i] == encoded_at(data, 4 * i));
            assert(text[4 * i + 1] == encoded_at(data, 4 * i + 1));
            assert(text[4 * i + 2] == encoded_at(data, 4 * i + 2));
            assert(text[4 * i + 3] == encoded_at(data, 4 * i + 3));
        }
        assert(read_unchecked(text) =~= data);
    }
}

/// Decoding takes every encoding back to the bytes it was made from.
pub proof fn decoding_inverts_encoding(data: Seq<u8>)
    ensures
        decoded(encoded(data)) == Some(data),
{
    lemma_read_back(data);
}

/// A text decodes to `data` exactly when it is the encoding of `data`.
pub proof fn decoded_iff_encoded(text: Seq<u8>, data: Seq<u8>)
    ensures
        decoded(text) == Some(data) <==> text == encoded(data),
{
    if text == encoded(data) {
        lemma_read_back(data);
    }
}

/// The ASCII text of an encoding is stored, as UTF-8, in the bytes of the
/// encoding itself.
pub proof fn encoded_text_bytes(data: Seq<u8>)
    ensures
        encode_utf8(ascii_text(encoded(data))) == encoded(data),
        valid_utf8(encoded(data)),
        decode_utf8(encoded(data)) == ascii_text(encoded(data)),
{
    let bytes = encoded(data);
    let chars = ascii_text(bytes);
    encoded_is_ascii(data);
    assert forall|i: int| 0 <= i < chars.len() implies '\0' <= #[trigger] chars[i]
        <= '\u{7f}' by {
        assert(bytes[i] < 128);
    }
    assert(is_ascii_chars(chars));
    is_ascii_chars_encode_utf8(chars);
    assert forall|i: int| 0 <= i < bytes.len() implies encode_utf8(chars)[i] == bytes[i] by {
        assert(chars[i] as u8 == encode_utf8(chars)[i]);
        assert(bytes[i] < 128);
    }
    assert(encode_utf8(chars) =~= bytes);
    encode_utf8_valid_utf8(chars);
    encode_utf8_decode_utf8(chars);
}

fn symbol_of(v: u8) -> (s: u8)
    requires
        v < 64,
    ensures
        s == symbol(v),
{
    if v < 26 {
        v + 65
    } else if v < 52 {
        v + 71
    } else if v < 62 {
        v - 4
    } else if v == 62 {
        43
    } else {
        47
    }
}

fn value_of(s: u8) -> (v: u8)
    ensures
        v == value(s),
        v < 64,
{
    if 65 <= s && s <= 90 {
        s - 65
    } else if 97 <= s && s <= 122 {
        s - 71
    } else if 48 <= s && s <= 57 {
        s + 4
    } else if s == 43 {
        62
    } else if s == 47 {
        63
    } else {
        0
    }
}

/// Encodes `data`.
pub fn encode(data: &[u8]) -> (text: Vec<u8>)
    ensures
        text@ == encoded(data@),
{
    let n = data.len();
    let groups = n / 3 + (if n % 3 == 0 {
        0
    } else {
        1
    });
    let mut text: Vec<u8> = Vec::new();
    let mut g: usize = 0;
    while g < groups
        invariant
            n == data.len(),
            groups == (n + 2) / 3,
            g <= groups,
            text.len() == 4 * g,
            forall|k: int| 0 <= k < text.len() ==> text[k] == encoded_at(data@, k),
        decreases groups - g,
    {
        let i = 3 * g;
        let a = data[i];
        let b = if n - i > 1 {
            data[i + 1]
        } else {
            0
        };
        let c = if n - i > 2 {
            data[i + 2]
        } else {
            0
        };
        proof {
            lemma_sextets(a, b, c);
        }
        let ghost before = text@;
        text.push(symbol_of(a >> 2));
        text.push(symbol_of(((a & 3) << 4) | (b >> 4)));
        if n - i > 1 {
            text.push(symbol_of(((b & 15) << 2) | (c >> 6)));
        } else {
            text.push(PAD);
        }
        if n - i > 2 {
            text.push(symbol_of(c & 63));
        } else {
            text.push(PAD);
        }
        proof {
            assert(a == byte_at(data@, 3 * g));
            assert(b == byte_at(data@, 3 * g + 1));
            assert(c == byte_at(data@, 3 * g + 2));
            assert forall|k: int| 0 <= k < text.len() implies text[k] == encoded_at(data@, k) by {
                if k < 4 * g {
                    assert(text[k] == before[k]);
                } else {
                    assert(k / 4 == g as int);
                }
            }
        }
        g += 1;
    }
    assert(text@ =~= encoded(data@));
    text
}

/// Whether two byte strings are the same.
fn same_bytes(a: &[u8], b: &[u8]) -> (same: bool)
    ensures
        same == (a@ == b@),
{
    if a.len() != b.len() {
        return false;
    }
    let mut i: usize = 0;
    while i < a.len()
        invariant
            a.len() == b.len(),
            i <= a.len(),
            forall|j: int| 0 <= j < i ==> a[j] == b[j],
        decreases a.len() - i,
    {
        if a[i] != b[i] {
            return false;
        }
        i += 1;
    }
    assert(a@ =~= b@);
    true
}

/// Decodes `text`: the bytes of which it is the encoding, or `None` where it
/// is no encoding of anything.
pub fn decode(text: &[u8]) -> (data: Option<Vec<u8>>)
    ensures
        match data {
            Some(d) => decoded(text@) == Some(d@),
            None => decoded(text@) is None,
        },
{
    let n = text.len();
    let mut out: Vec<u8> = Vec::new();
    if n % 4 == 0 && n > 0 {
        let groups = n / 4;
        let mut g: usize = 0;
        while g < groups
            invariant
                n == text.len(),
                groups == n / 4,
                n % 4 == 0,
                g <= groups,
                out.len() == 3 * g,
                forall|k: int| 0 <= k < out.len() ==> out[k] == decoded_at(text@, k),
            decreases groups - g,
        {
            let v0 = value_of(text[4 * g]);
            let v1 = value_of(text[4 * g + 1]);
            let v2 = value_of(text[4 * g + 2]);
            let v3 = value_of(text[4 * g + 3]);
            let ghost before = out@;
            proof {
                assert(v0 << 2 == (v0 << 2) & 255) by (bit_vector);
            }
            out.push((v0 << 2) | (v1 >> 4));
            out.push(((v1 & 15) << 4) | (v2 >> 2));
            out.push(((v2 & 3) << 6) | v3);
            proof {
                assert forall|k: int| 0 <= k < out.len() implies out[k] == decoded_at(
                    text@,
                    k,
                ) by {
                    if k < 3 * g {
                        assert(out[k] == before[k]);
                    } else {
                        assert(k / 3 == g as int);
                    }
                }
            }
            g += 1;
        }
        if text[n - 1] == PAD {
            out.pop();
            if text[n - 2] == PAD {
                out.pop();
            }
        }
    }
    assert(out@ =~= read_unchecked(text@));
    let again = encode(out.as_slice());
    if same_bytes(again.as_slice(), text) {
        Some(out)
    } else {
        None
    }
}

/// Calls `String::from_utf8`, which gives the text that the bytes hold where
/// they are valid UTF-8, and fails otherwise.
#[verifier::external_body]
pub(crate) fn text_from_utf8(bytes: Vec<u8>) -> (text: Option<String>)
    ensures
        text is Some <==> valid_utf8(bytes@),
        text matches Some(t) ==> t@ == decode_utf8(bytes@),
{
    String::from_utf8(bytes).ok()
}

/// Encodes `data` as text.
pub fn encode_to_text(data: &[u8]) -> (text: String)
    ensures
        text@ == ascii_text(encoded(data@)),
{
    let bytes = encode(data);
    proof {
        encoded_text_bytes(data@);
    }
    match text_from_utf8(bytes) {
        Some(text) => text,
        None => String::new(),
    }
}

/// Decodes the text `text`: the bytes of which it is the encoding, or `None`
/// where it is no encoding of anything.
pub fn decode_text(text: &str) -> (data: Option<Vec<u8>>)
    ensures
        match data {
            Some(d) => decoded(text.spec_bytes()) == Some(d@),
            None => decoded(text.spec_bytes()) is None,
        },
{
    decode(text.as_bytes())
}

/// The text of an encoding decodes to the bytes it was made from.
pub proof fn text_decoding_inverts_encoding(data: Seq<u8>)
    ensures
        decoded(encode_utf8(ascii_text(encoded(data)))) == Some(data),
{
    encoded_text_bytes(data);
    decoding_inverts_encoding(data);
}

} // verus!
