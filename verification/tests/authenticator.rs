use aghast::auth::{authenticate, RequestError, VerifyKey};
use ed25519_dalek::{Signer, SigningKey};

fn keypair() -> (SigningKey, VerifyKey) {
    let seed: [u8; 32] = [7; 32];
    let sk = SigningKey::from_bytes(&seed);
    let key_hex = hex::encode(sk.verifying_key().to_bytes());
    let key = VerifyKey::from_hex(&key_hex).expect("a freshly generated key parses");
    (sk, key)
}

fn sign(sk: &SigningKey, timestamp: &str, body: &[u8]) -> String {
    let mut payload = timestamp.as_bytes().to_vec();
    payload.extend_from_slice(body);
    hex::encode(sk.sign(&payload).to_bytes())
}

#[test]
fn untampered_body_with_correct_key_and_headers_verifies() {
    let (sk, key) = keypair();
    let timestamp = "1700000000".to_string();
    let body = b"{\"type\":1}".to_vec();
    let sig_hex = sign(&sk, &timestamp, &body);
    let r = authenticate(&key, Some(&timestamp), Some(&sig_hex), &body);
    assert!(r.is_ok());
}

#[test]
fn single_flipped_body_byte_fails_verification() {
    let (sk, key) = keypair();
    let timestamp = "1700000000".to_string();
    let body = b"{\"type\":1}".to_vec();
    let sig_hex = sign(&sk, &timestamp, &body);
    let mut tampered = body.clone();
    tampered[3] ^= 0x01;
    let r = authenticate(&key, Some(&timestamp), Some(&sig_hex), &tampered);
    assert_eq!(r.unwrap_err(), RequestError::BadSignature);
}

#[test]
fn tampered_timestamp_fails_verification() {
    let (sk, key) = keypair();
    let body = b"body".to_vec();
    let sig_hex = sign(&sk, "1700000000", &body);
    let other_ts = "1700000001".to_string();
    let r = authenticate(&key, Some(&other_ts), Some(&sig_hex), &body);
    assert_eq!(r.unwrap_err(), RequestError::BadSignature);
}

#[test]
fn missing_headers_are_rejected_before_verification() {
    let (sk, key) = keypair();
    let timestamp = "1700000000".to_string();
    let body = b"body".to_vec();
    let sig_hex = sign(&sk, &timestamp, &body);
    assert_eq!(
        authenticate(&key, None, Some(&sig_hex), &body).unwrap_err(),
        RequestError::BadSignature
    );
    assert_eq!(
        authenticate(&key, Some(&timestamp), None, &body).unwrap_err(),
        RequestError::BadSignature
    );
}

#[test]
fn malformed_signature_encoding_is_rejected() {
    let (_, key) = keypair();
    let timestamp = "1700000000".to_string();
    let body = b"body".to_vec();
    for bad in ["", "zz", "abc", &"ab".repeat(63), &"xy".repeat(64)] {
        let bad = bad.to_string();
        assert_eq!(
            authenticate(&key, Some(&timestamp), Some(&bad), &body).unwrap_err(),
            RequestError::BadSignature
        );
    }
}

#[test]
fn wrong_key_fails_verification() {
    let (sk, _) = keypair();
    let other = SigningKey::from_bytes(&[9; 32]);
    let other_key = VerifyKey::from_hex(&hex::encode(other.verifying_key().to_bytes())).unwrap();
    let timestamp = "1700000000".to_string();
    let body = b"body".to_vec();
    let sig_hex = sign(&sk, &timestamp, &body);
    assert!(authenticate(&other_key, Some(&timestamp), Some(&sig_hex), &body).is_err());
}

#[test]
fn verify_key_parsing_needs_64_hex_digits() {
    assert!(VerifyKey::from_hex("").is_none());
    assert!(VerifyKey::from_hex("abcd").is_none());
    assert!(VerifyKey::from_hex(&"g".repeat(64)).is_none());
    assert!(VerifyKey::from_hex(&"ab".repeat(32)).is_some());
}

#[test]
fn request_errors_map_to_the_right_status() {
    assert_eq!(RequestError::BadSignature.status_code(), 401);
    assert_eq!(RequestError::BadJson.status_code(), 400);
    assert_eq!(RequestError::BadJson.message(), "Bad JSON body");
}
