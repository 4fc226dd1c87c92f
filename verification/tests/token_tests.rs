use amusic::errors::ErrorKind;
use amusic::music::Client;

use base64::Engine;
use ring::signature::KeyPair;

fn fresh_key_pem() -> String {
    let rng = ring::rand::SystemRandom::new();
    let doc = ring::signature::EcdsaKeyPair::generate_pkcs8(
        &ring::signature::ECDSA_P256_SHA256_FIXED_SIGNING,
        &rng,
    )
    .unwrap();
    pem::encode(&pem::Pem::new("PRIVATE KEY", doc.as_ref()))
}

fn decode_part(part: &str) -> Vec<u8> {
    base64::engine::general_purpose::URL_SAFE_NO_PAD
        .decode(part)
        .unwrap()
}

#[test]
fn issued_claims_match_time_and_window() {
    let pem_text = fresh_key_pem();
    let client = Client::new(
        "TEAM1".to_owned(),
        "KEY1".to_owned(),
        pem_text,
        "us".to_owned(),
    );
    let token = client.generate_token(1000).unwrap();
    let parts: Vec<&str> = token.split('.').collect();
    assert_eq!(parts.len(), 3);
    let header = String::from_utf8(decode_part(parts[0])).unwrap();
    assert_eq!(header, "{\"alg\":\"ES256\",\"kid\":\"KEY1\"}");
    let claims = String::from_utf8(decode_part(parts[1])).unwrap();
    assert_eq!(claims, "{\"iss\":\"TEAM1\",\"iat\":1000,\"exp\":4600}");
    let sig = decode_part(parts[2]);
    assert_eq!(sig.len(), 64);
}

#[test]
fn issued_signature_verifies_against_public_key() {
    let rng = ring::rand::SystemRandom::new();
    let doc = ring::signature::EcdsaKeyPair::generate_pkcs8(
        &ring::signature::ECDSA_P256_SHA256_FIXED_SIGNING,
        &rng,
    )
    .unwrap();
    let key_pair = ring::signature::EcdsaKeyPair::from_pkcs8(
        &ring::signature::ECDSA_P256_SHA256_FIXED_SIGNING,
        doc.as_ref(),
        &rng,
    )
    .unwrap();
    let pem_text = pem::encode(&pem::Pem::new("PRIVATE KEY", doc.as_ref()));
    let client = Client::new(
        "TEAM1".to_owned(),
        "KEY1".to_owned(),
        pem_text,
        "us".to_owned(),
    );
    let token = client.generate_token(42).unwrap();
    let dot = token.rfind('.').unwrap();
    let message = &token[..dot];
    let sig = decode_part(&token[dot + 1..]);
    let public_key = ring::signature::UnparsedPublicKey::new(
        &ring::signature::ECDSA_P256_SHA256_FIXED,
        key_pair.public_key().as_ref(),
    );
    public_key.verify(message.as_bytes(), &sig).unwrap();
}

#[test]
fn malformed_pem_fails_with_key_error() {
    let client = Client::new(
        "TEAM1".to_owned(),
        "KEY1".to_owned(),
        "this is not pem at all".to_owned(),
        "us".to_owned(),
    );
    let err = client.generate_token(1000).unwrap_err();
    assert_eq!(err.kind, ErrorKind::Key);
}

#[test]
fn empty_pem_fails_with_key_error() {
    let client = Client::new(
        "TEAM1".to_owned(),
        "KEY1".to_owned(),
        String::new(),
        "us".to_owned(),
    );
    let err = client.generate_token(1000).unwrap_err();
    assert_eq!(err.kind, ErrorKind::Key);
}

#[test]
fn valid_pem_with_junk_contents_fails_with_signing_error() {
    let pem_text = pem::encode(&pem::Pem::new("PRIVATE KEY", vec![1u8, 2, 3, 4]));
    let client = Client::new(
        "TEAM1".to_owned(),
        "KEY1".to_owned(),
        pem_text,
        "us".to_owned(),
    );
    let err = client.generate_token(1000).unwrap_err();
    assert_eq!(err.kind, ErrorKind::Signing);
}

#[test]
fn empty_issuer_fails_with_claim_error() {
    let client = Client::new(
        String::new(),
        "KEY1".to_owned(),
        fresh_key_pem(),
        "us".to_owned(),
    );
    let err = client.generate_token(1000).unwrap_err();
    assert_eq!(err.kind, ErrorKind::Claim);
}

#[test]
fn quoted_issuer_fails_with_claim_error() {
    let client = Client::new(
        "TEA\"M".to_owned(),
        "KEY1".to_owned(),
        fresh_key_pem(),
        "us".to_owned(),
    );
    let err = client.generate_token(1000).unwrap_err();
    assert_eq!(err.kind, ErrorKind::Claim);
}

#[test]
fn largest_time_renders_full_decimals() {
    let pem_text = fresh_key_pem();
    let client = Client::new(
        "TEAM1".to_owned(),
        "KEY1".to_owned(),
        pem_text,
        "us".to_owned(),
    );
    let now = u64::MAX - 3600;
    let token = client.generate_token(now).unwrap();
    let parts: Vec<&str> = token.split('.').collect();
    let claims = String::from_utf8(decode_part(parts[1])).unwrap();
    let expected = format!(
        "{{\"iss\":\"TEAM1\",\"iat\":{},\"exp\":{}}}",
        now,
        u64::MAX
    );
    assert_eq!(claims, expected);
}
