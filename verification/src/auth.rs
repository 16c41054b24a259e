use vstd::prelude::*;
use vstd::utf8::encode_utf8;
use hmac::{Hmac, Mac};
use sha2::Sha256;

verus! {

/// Name for the HMAC-SHA256 tag of `message` under `key`.
pub uninterp spec fn hmac_sha256(key: Seq<u8>, message: Seq<u8>) -> Seq<u8>;

/// Calls `Mac::new_from_slice` and `Mac::verify_slice` of `Hmac<Sha256>`
/// (hmac 0.12): the result is true exactly when `tag` is the HMAC-SHA256 of
/// `message` under `key`. `Hmac` accepts keys of every length, so the error
/// arm of `new_from_slice` is never taken; the comparison itself runs in
/// constant time, which no clause here states.
#[verifier::external_body]
fn hmac_sha256_matches(key: &[u8], message: &[u8], tag: &[u8]) -> (matches: bool)
    ensures
        matches == (tag@ == hmac_sha256(key@, message@)),
{
    match <Hmac<Sha256> as Mac>::new_from_slice(key) {
        Ok(mac) => mac.chain_update(message).verify_slice(tag).is_ok(),
        Err(_) => false,
    }
}

/// Value of one hexadecimal digit, in either case.
pub open spec fn hex_digit_value(c: u8) -> Option<u8> {
    if 48 <= c <= 57 {
        Some((c - 48) as u8)
    } else if 97 <= c <= 102 {
        Some((c - 87) as u8)
    } else if 65 <= c <= 70 {
        Some((c - 55) as u8)
    } else {
        None
    }
}

/// `text` is an even number of hexadecimal digits.
pub open spec fn is_hex(text: Seq<u8>) -> bool {
    &&& text.len() % 2 == 0
    &&& forall|i: int| 0 <= i < text.len() ==> (#[trigger] hex_digit_value(text[i])) is Some
}

/// Byte `i` of a hexadecimal text: digits `2i` (high) and `2i + 1` (low).
pub open spec fn hex_byte(text: Seq<u8>, i: int) -> u8 {
    (hex_digit_value(text[2 * i])->0 * 16 + hex_digit_value(text[2 * i + 1])->0) as u8
}

/// The bytes a hexadecimal text spells, or `None` where it is not one.
pub open spec fn hex_decode(text: Seq<u8>) -> Option<Seq<u8>> {
    if is_hex(text) {
        Some(Seq::new(text.len() / 2, |i: int| hex_byte(text, i)))
    } else {
        None
    }
}

fn digit_value(c: u8) -> (v: Option<u8>)
    ensures
        v == hex_digit_value(c),
{
    if 48 <= c && c <= 57 {
        Some(c - 48)
    } else if 97 <= c && c <= 102 {
        Some(c - 87)
    } else if 65 <= c && c <= 70 {
        Some(c - 55)
    } else {
        None
    }
}

/// Decodes a hexadecimal text (upper or lower case, no prefix, no
/// separators) into the bytes it spells.
pub fn decode_hex(text: &[u8]) -> (bytes: Option<Vec<u8>>)
    ensures
        match bytes {
            Some(b) => hex_decode(text@) == Some(b@),
            None => hex_decode(text@) is None,
        },
{
    if text.len() % 2 != 0 {
        return None;
    }
    let n = text.len() / 2;
    let mut out: Vec<u8> = Vec::new();
    let mut i: usize = 0;
    while i < n
        invariant
            n == text@.len() / 2,
            text@.len() % 2 == 0,
            i <= n,
            out@.len() == i,
            forall|j: int| 0 <= j < 2 * i ==> (#[trigger] hex_digit_value(text@[j])) is Some,
            forall|j: int| 0 <= j < i ==> out@[j] == #[trigger] hex_byte(text@, j),
        decreases n - i,
    {
        let hi = digit_value(text[2 * i]);
        let lo = digit_value(text[2 * i + 1]);
        match (hi, lo) {
            (Some(h), Some(l)) => {
                out.push(h * 16 + l);
            },
            _ => {
                return None;
            },
        }
        i = i + 1;
    }
    assert(out@ =~= Seq::new(text@.len() / 2, |j: int| hex_byte(text@, j)));
    Some(out)
}

/// Why a signature could not be checked at all.
#[derive(PartialEq, Eq, Structural, Clone, Copy, Debug)]
pub enum SignatureError {
    /// The signature header is not hexadecimal.
    NotHex,
}

/// The verdict on a signature: `Err` when it is not hexadecimal, else
/// whether the bytes it spells are the HMAC-SHA256 of `body` under the
/// UTF-8 bytes of `key`.
pub open spec fn signature_verdict(body: Seq<u8>, signature: Seq<u8>, key: Seq<char>) -> Result<bool, SignatureError> {
    match hex_decode(signature) {
        Some(tag) => Ok(tag == hmac_sha256(encode_utf8(key), body)),
        None => Err(SignatureError::NotHex),
    }
}

/// Checks the hexadecimal HMAC-SHA256 signature that a broker sent with
/// `body` against the broker's `key`.
pub fn verify_hmac(body: &[u8], signature: &[u8], key: &str) -> (verdict: Result<bool, SignatureError>)
    ensures
        verdict == signature_verdict(body@, signature@, key@),
{
    match decode_hex(signature) {
        Some(tag) => Ok(hmac_sha256_matches(key.as_bytes(), body, tag.as_slice())),
        None => Err(SignatureError::NotHex),
    }
}

} // verus!
