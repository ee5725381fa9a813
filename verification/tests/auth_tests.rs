use fund_transparency::auth::{
    create_session_token, create_session_token_at, generate_nonce, hash_password, subject_from_payload,
    validate_session_token, validate_session_token_at, verify_password,
};

#[test]
fn test_hash_and_verify_roundtrip() {
    let password = "correct-horse-battery-staple";
    let hash = hash_password(password).expect("hashing should succeed");
    assert!(verify_password(password, &hash));
}

#[test]
fn test_wrong_password_fails() {
    let hash = hash_password("secret").expect("hashing should succeed");
    assert!(!verify_password("wrong", &hash));
}

#[test]
fn test_invalid_hash_returns_false() {
    assert!(!verify_password("anything", "not-a-valid-hash"));
}

#[test]
fn test_token_create_and_validate_roundtrip() {
    let secret = b"test-secret-key-1234";
    let token = create_session_token("user42", secret, 3600);
    let result = validate_session_token(&token, secret);
    assert_eq!(result, Some("user42".to_string()));
}

#[test]
fn test_token_wrong_secret_fails() {
    let token = create_session_token("user42", b"secret-a", 3600);
    let result = validate_session_token(&token, b"secret-b");
    assert_eq!(result, None);
}

#[test]
fn test_tampered_token_fails() {
    let secret = b"my-secret";
    let token = create_session_token("user1", secret, 3600);
    let tampered = format!("{}x", token);
    assert_eq!(validate_session_token(&tampered, secret), None);
}

#[test]
fn test_token_invalid_format_returns_none() {
    let secret = b"key";
    assert_eq!(validate_session_token("no-dot-here", secret), None);
    assert_eq!(validate_session_token("", secret), None);
    assert_eq!(validate_session_token("a.b.c", secret), None);
}

#[test]
fn test_nonce_is_32_char_hex() {
    let nonce = generate_nonce();
    assert_eq!(nonce.len(), 32);
    assert!(nonce.chars().all(|c| c.is_ascii_hexdigit()));
}

#[test]
fn test_two_nonces_differ() {
    let a = generate_nonce();
    let b = generate_nonce();
    assert_ne!(a, b);
}

#[test]
fn token_roundtrip() {
    let secret = b"test-secret-key-for-hmac-signing";
    let token = create_session_token("user123", secret, 3600);
    let result = validate_session_token(&token, secret);
    assert_eq!(result, Some("user123".to_string()));
}

#[test]
fn token_rejects_bad_signature() {
    let secret = b"test-secret-key-for-hmac-signing";
    let token = create_session_token("user123", secret, 3600);
    let result = validate_session_token(&token, b"wrong-secret-key-not-matching!");
    assert_eq!(result, None);
}

#[test]
fn password_hash_verify() {
    let hash = hash_password("my-secure-password").unwrap();
    assert!(verify_password("my-secure-password", &hash));
    assert!(!verify_password("wrong-password", &hash));
}

#[test]
fn token_valid_until_its_expiry_second_only() {
    let secret = b"test-secret-key-for-hmac-signing";
    let token = create_session_token_at("user123", secret, 1_000);
    assert_eq!(validate_session_token_at(&token, secret, 999), Some("user123".to_string()));
    assert_eq!(validate_session_token_at(&token, secret, 1_000), Some("user123".to_string()));
    assert_eq!(validate_session_token_at(&token, secret, 1_001), None);
}

#[test]
fn token_has_payload_dot_hex_signature() {
    let token = create_session_token_at("u", b"k", 5);
    // base64url("u|5") = "dXw1"
    let (payload, sig) = token.split_once('.').unwrap();
    assert_eq!(payload, "dXw1");
    assert_eq!(sig.len(), 64);
    assert!(sig.chars().all(|c| c.is_ascii_hexdigit() && !c.is_ascii_uppercase()));
}

#[test]
fn token_with_extra_text_is_refused() {
    let secret = b"s";
    let token = create_session_token_at("alice", secret, 10);
    assert_eq!(validate_session_token_at(&format!("{}0", token), secret, 0), None);
}

#[test]
fn payload_names_its_user_until_expiry() {
    assert_eq!(subject_from_payload(Some(b"alice|100".to_vec()), 100), Some("alice".to_string()));
    assert_eq!(subject_from_payload(Some(b"alice|100".to_vec()), 101), None);
    assert_eq!(subject_from_payload(Some(b"a|b|100".to_vec()), 0), None);
    assert_eq!(subject_from_payload(Some(b"no-bar".to_vec()), 0), None);
    assert_eq!(subject_from_payload(Some(vec![0xff, b'|', b'1']), 0), None);
    assert_eq!(subject_from_payload(None, 0), None);
}
