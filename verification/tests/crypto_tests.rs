use fund_transparency::crypto::{
    decrypt, decrypt_bytes, decrypt_reviewer_note, encrypt, encrypt_bytes, encrypt_reviewer_note, key_from_file_bytes,
};

#[test]
fn encrypt_decrypt_roundtrip() {
    let key: [u8; 32] = [0x42; 32];
    let plaintext = "Sensitive finance note about expense";
    let encrypted = encrypt(plaintext, &key).unwrap();
    assert_ne!(encrypted, plaintext);
    let decrypted = decrypt(&encrypted, &key).unwrap();
    assert_eq!(decrypted, plaintext);
}

#[test]
fn encrypt_decrypt_bytes_roundtrip() {
    let key: [u8; 32] = [0x42; 32];
    let plaintext = b"PDF binary data here";
    let encrypted = encrypt_bytes(plaintext, &key).unwrap();
    assert_ne!(encrypted, plaintext);
    let decrypted = decrypt_bytes(&encrypted, &key).unwrap();
    assert_eq!(decrypted, plaintext);
}

#[test]
fn encrypted_bytes_carry_nonce_and_tag() {
    let key: [u8; 32] = [7; 32];
    let encrypted = encrypt_bytes(b"abc", &key).unwrap();
    assert_eq!(encrypted.len(), 12 + 3 + 16);
}

#[test]
fn decrypt_bytes_refuses_short_blob() {
    let key: [u8; 32] = [7; 32];
    assert_eq!(decrypt_bytes(&[0u8; 12], &key), Err("Ciphertext too short".to_string()));
}

#[test]
fn decrypt_with_wrong_key_fails() {
    let encrypted = encrypt("note", &[1u8; 32]).unwrap();
    assert!(decrypt(&encrypted, &[2u8; 32]).is_err());
}

#[test]
fn reviewer_note_roundtrip_and_passthrough() {
    let key: [u8; 32] = [9; 32];
    let stored = encrypt_reviewer_note(Some("looks fine"), &key);
    assert!(stored.is_some());
    assert_eq!(decrypt_reviewer_note(stored, &key), Some("looks fine".to_string()));
    assert_eq!(encrypt_reviewer_note(None, &key), None);
    assert_eq!(decrypt_reviewer_note(None, &key), None);
}

#[test]
fn key_file_needs_32_bytes() {
    let err = key_from_file_bytes(&[1u8; 5], "/tmp/k.bin").unwrap_err();
    assert_eq!(
        err,
        "Encryption key file '/tmp/k.bin' is malformed: expected at least 32 bytes, got 5. Delete the file to auto-generate a new key, or provide a valid 32-byte key."
    );
    let mut data = vec![3u8; 40];
    data[0] = 9;
    let key = key_from_file_bytes(&data, "k").unwrap();
    assert_eq!(key[0], 9);
    assert_eq!(key[31], 3);
}

#[test]
fn encrypted_text_is_padded_base64_of_nonce_and_tag() {
    let key: [u8; 32] = [5; 32];
    for note in ["", "a", "ab", "abc", "décision"] {
        let c = encrypt(note, &key).unwrap();
        let n = note.len() + 28;
        assert_eq!(c.len(), 4 * ((n + 2) / 3));
        assert!(!c.is_empty());
        assert_ne!(c, note);
    }
}
