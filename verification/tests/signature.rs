use hmac::{Hmac, Mac};
use instrument::auth::{decode_hex, verify_hmac, SignatureError};
use sha2::Sha256;

fn tag_hex(key: &str, body: &[u8]) -> String {
    let mut mac = <Hmac<Sha256> as Mac>::new_from_slice(key.as_bytes()).unwrap();
    mac.update(body);
    let tag = mac.finalize().into_bytes();
    tag.iter().map(|b| format!("{:02x}", b)).collect()
}

#[test]
fn decode_hex_reads_both_cases() {
    assert_eq!(decode_hex(b"00ff7A"), Some(vec![0x00, 0xff, 0x7a]));
    assert_eq!(decode_hex(b"BEEF"), Some(vec![0xbe, 0xef]));
    assert_eq!(decode_hex(b""), Some(vec![]));
}

#[test]
fn decode_hex_refuses_odd_length_and_other_characters() {
    assert_eq!(decode_hex(b"abc"), None);
    assert_eq!(decode_hex(b"zz"), None);
    assert_eq!(decode_hex(b"0x12"), None);
}

#[test]
fn verify_hmac_accepts_the_tag_of_the_body() {
    let body = br#"{"market":"soja_juillet_2025"}"#;
    let sig = tag_hex("secret-key", body);
    assert_eq!(verify_hmac(body, sig.as_bytes(), "secret-key"), Ok(true));
    assert_eq!(verify_hmac(body, sig.to_uppercase().as_bytes(), "secret-key"), Ok(true));
}

#[test]
fn verify_hmac_rejects_another_key_or_body() {
    let body = b"order";
    let sig = tag_hex("secret-key", body);
    assert_eq!(verify_hmac(body, sig.as_bytes(), "other-key"), Ok(false));
    assert_eq!(verify_hmac(b"orders", sig.as_bytes(), "secret-key"), Ok(false));
    // the body itself, hex-encoded, is no signature
    let plain: String = body.iter().map(|b| format!("{:02x}", b)).collect();
    assert_eq!(verify_hmac(body, plain.as_bytes(), "secret-key"), Ok(false));
}

#[test]
fn verify_hmac_known_vector() {
    // RFC 4231, test case 2
    let sig = b"5bdcc146bf60754e6a042426089575c75a003f089d2739839dec58b964ec3843";
    assert_eq!(verify_hmac(b"what do ya want for nothing?", sig, "Jefe"), Ok(true));
}

#[test]
fn verify_hmac_fails_on_non_hex_signature() {
    assert_eq!(verify_hmac(b"order", b"not-hex!", "k"), Err(SignatureError::NotHex));
}
