//! Encryption at rest with AES-256-GCM: `nonce || ciphertext`, optionally base64-wrapped.
use vstd::prelude::*;
use vstd::utf8::{valid_utf8, decode_utf8, encode_utf8};
use aes_gcm::aead::{Aead, KeyInit};
use aes_gcm::{Aes256Gcm, Nonce};
use rand::Rng;
use crate::codec::{b64_padded_len, b64std_encode, b64std_decode, b64std_encode_bytes, b64std_decode_text, utf8_to_string, utf8_bytes, u64_to_decimal, decimal};
use crate::auth::opt_chars;
use crate::text::{chars_of, string_of, extend_chars};

verus! {

// ── Trusted calls ──

/// What AES-256-GCM encryption (no associated data) returns for a key, a 12-byte nonce and a
/// plaintext: the ciphertext followed by the 16-byte tag.
pub uninterp spec fn aes_gcm_seal(key: Seq<u8>, nonce: Seq<u8>, plaintext: Seq<u8>) -> Seq<u8>;

/// What AES-256-GCM decryption returns: the plaintext, or `None` where the tag does not verify.
pub uninterp spec fn aes_gcm_open(key: Seq<u8>, nonce: Seq<u8>, ciphertext: Seq<u8>) -> Option<Seq<u8>>;

/// Twelve bytes from the thread-local random generator, used as a GCM nonce.
#[verifier::external_body]
fn random_12_bytes() -> (res: Vec<u8>)
    ensures
        res@.len() == 12,
{
    let bytes: [u8; 12] = rand::thread_rng().gen();
    bytes.to_vec()
}

/// The longest plaintext AES-GCM encrypts, in bytes (`aes_gcm::P_MAX`, 2^36).
pub const MAX_SEALED_BYTES: u64 = 0x10_0000_0000;

/// `Aes256Gcm::new_from_slice(key)` then `encrypt(Nonce::from_slice(nonce), plaintext)`.
/// Claims: it succeeds exactly when the plaintext is at most `P_MAX` bytes (the check in
/// `encrypt_in_place_detached`; a 32-byte key is always accepted and a `Vec` buffer always
/// grows); the ciphertext is then the named seal of the inputs, 16 bytes longer than the
/// plaintext (the appended tag), and opening it with the same key and nonce gives the
/// plaintext back; the error text is the crate's. The output buffer is allocated with room
/// for the tag, so the plaintext must leave that room below `isize::MAX`.
#[verifier::external_body]
fn aes_gcm_encrypt(key: &[u8; 32], nonce: &[u8], plaintext: &[u8]) -> (res: Result<Vec<u8>, String>)
    requires
        nonce@.len() == 12,
        plaintext@.len() + 16 <= isize::MAX,
    ensures
        res is Ok <==> plaintext@.len() <= MAX_SEALED_BYTES,
        res matches Ok(c) ==> c@ == aes_gcm_seal(key@, nonce@, plaintext@)
            && c@.len() == plaintext@.len() + 16
            && aes_gcm_open(key@, nonce@, c@) == Some(plaintext@),
{
    let cipher = Aes256Gcm::new_from_slice(key).map_err(|e| e.to_string())?;
    cipher.encrypt(Nonce::from_slice(nonce), plaintext).map_err(|e| e.to_string())
}

/// `Aes256Gcm::new_from_slice(key)` then `decrypt(Nonce::from_slice(nonce), ciphertext)`:
/// `Ok` with the plaintext exactly when the named open succeeds; the error text is the crate's.
#[verifier::external_body]
fn aes_gcm_decrypt(key: &[u8; 32], nonce: &[u8], ciphertext: &[u8]) -> (res: Result<Vec<u8>, String>)
    requires
        nonce@.len() == 12,
    ensures
        match res {
            Ok(p) => aes_gcm_open(key@, nonce@, ciphertext@) == Some(p@),
            Err(_) => aes_gcm_open(key@, nonce@, ciphertext@) is None,
        },
{
    let cipher = Aes256Gcm::new_from_slice(key).map_err(|e| e.to_string())?;
    cipher.decrypt(Nonce::from_slice(nonce), ciphertext).map_err(|e| e.to_string())
}

// ── Specification ──

/// What `decrypt_bytes` yields for a `nonce || ciphertext` blob.
pub open spec fn decrypt_bytes_spec(encrypted: Seq<u8>, key: Seq<u8>) -> Option<Seq<u8>> {
    if encrypted.len() < 13 {
        None
    } else {
        aes_gcm_open(key, encrypted.take(12), encrypted.skip(12))
    }
}

/// What `decrypt` yields for base64 text of a `nonce || ciphertext` blob.
pub open spec fn decrypt_spec(encoded: Seq<char>, key: Seq<u8>) -> Option<Seq<char>> {
    match b64std_decode(encoded) {
        None => None,
        Some(blob) => match decrypt_bytes_spec(blob, key) {
            None => None,
            Some(p) => if valid_utf8(p) { Some(decode_utf8(p)) } else { None },
        },
    }
}

/// The message for a blob too short to hold a nonce and any ciphertext.
pub open spec fn too_short_message() -> Seq<char> {
    "Ciphertext too short"@
}

// ── Functions ──

/// Every character takes at least one byte in UTF-8.
proof fn lemma_utf8_at_least_one_byte_per_char(s: Seq<char>)
    ensures
        encode_utf8(s).len() >= s.len(),
    decreases s.len(),
{
    if s.len() > 0 {
        lemma_utf8_at_least_one_byte_per_char(s.drop_first());
    }
}

/// Splits `v` at `k` into two new vectors.
fn split_bytes(v: &Vec<u8>, k: usize) -> (res: (Vec<u8>, Vec<u8>))
    requires
        k <= v@.len(),
    ensures
        res.0@ == v@.take(k as int),
        res.1@ == v@.skip(k as int),
{
    let mut a: Vec<u8> = Vec::new();
    let mut b: Vec<u8> = Vec::new();
    let mut i: usize = 0;
    while i < v.len()
        invariant
            k <= v@.len(),
            i <= v@.len(),
            a@ == v@.take(if i < k { i as int } else { k as int }),
            b@ == (if i < k { Seq::empty() } else { v@.subrange(k as int, i as int) }),
        decreases v@.len() - i,
    {
        if i < k {
            a.push(v[i]);
            assert(v@.take(i + 1) == v@.take(i as int).push(v@[i as int]));
        } else {
            b.push(v[i]);
            assert(v@.subrange(k as int, i + 1) == v@.subrange(k as int, i as int).push(v@[i as int]));
        }
        i += 1;
    }
    assert(v@.subrange(k as int, v@.len() as int) == v@.skip(k as int));
    (a, b)
}

/// Encrypts raw bytes under a fresh random nonce, giving `nonce || ciphertext`.
/// Whatever comes back decrypts to the plaintext under the same key.
pub fn encrypt_bytes(plaintext: &[u8], key: &[u8; 32]) -> (res: Result<Vec<u8>, String>)
    requires
        plaintext@.len() + 16 <= isize::MAX,
    ensures
        res is Ok <==> plaintext@.len() <= MAX_SEALED_BYTES,
        res matches Ok(c) ==> c@.len() == plaintext@.len() + 28
            && decrypt_bytes_spec(c@, key@) == Some(plaintext@)
            && exists|n: Seq<u8>| n.len() == 12 && c@ == n + aes_gcm_seal(key@, n, plaintext@),
{
    let nonce = random_12_bytes();
    let sealed = match aes_gcm_encrypt(key, nonce.as_slice(), plaintext) {
        Ok(c) => c,
        Err(e) => return Err(e),
    };
    let mut combined = nonce.clone();
    let mut i: usize = 0;
    while i < sealed.len()
        invariant
            i <= sealed@.len(),
            combined@ == nonce@ + sealed@.take(i as int),
        decreases sealed@.len() - i,
    {
        combined.push(sealed[i]);
        assert(sealed@.take(i + 1) == sealed@.take(i as int).push(sealed@[i as int]));
        i += 1;
    }
    proof {
        assert(sealed@.take(sealed@.len() as int) == sealed@);
        assert(combined@.take(12) =~= nonce@);
        assert(combined@.skip(12) =~= sealed@);
    }
    Ok(combined)
}

/// Decrypts `nonce || ciphertext`; blobs shorter than 13 bytes are refused.
pub fn decrypt_bytes(encrypted: &[u8], key: &[u8; 32]) -> (res: Result<Vec<u8>, String>)
    ensures
        match res {
            Ok(p) => decrypt_bytes_spec(encrypted@, key@) == Some(p@),
            Err(m) => decrypt_bytes_spec(encrypted@, key@) is None
                && (encrypted@.len() < 13 ==> m@ == too_short_message()),
        },
{
    if encrypted.len() < 13 {
        return Err(String::from_str("Ciphertext too short"));
    }
    let mut all: Vec<u8> = Vec::new();
    let mut i: usize = 0;
    while i < encrypted.len()
        invariant
            i <= encrypted@.len(),
            all@ == encrypted@.take(i as int),
        decreases encrypted@.len() - i,
    {
        all.push(encrypted[i]);
        assert(encrypted@.take(i + 1) == encrypted@.take(i as int).push(encrypted@[i as int]));
        i += 1;
    }
    assert(encrypted@.take(encrypted@.len() as int) == encrypted@);
    let (nonce, body) = split_bytes(&all, 12);
    aes_gcm_decrypt(key, nonce.as_slice(), body.as_slice())
}

/// Encrypts text, giving base64 of `nonce || ciphertext`.
/// Whatever comes back decrypts to the same text under the same key; it is never empty, never
/// the plaintext itself, and decodes to 12 + len + 16 bytes.
pub fn encrypt(plaintext: &str, key: &[u8; 32]) -> (res: Result<String, String>)
    requires
        b64_padded_len(encode_utf8(plaintext@).len() + 28int) <= isize::MAX,
    ensures
        res is Ok <==> encode_utf8(plaintext@).len() <= MAX_SEALED_BYTES,
        res matches Ok(s) ==> decrypt_spec(s@, key@) == Some(plaintext@)
            && exists|n: Seq<u8>| n.len() == 12
                && s@ == b64std_encode(n + aes_gcm_seal(key@, n, encode_utf8(plaintext@))),
        res matches Ok(s) ==> s@.len() == b64_padded_len(encode_utf8(plaintext@).len() + 28int)
            && s@.len() > 0
            && s@ != plaintext@
            && (b64std_decode(s@) matches Some(blob) && blob.len() == 12 + encode_utf8(plaintext@).len() + 16),
{
    let bytes = utf8_bytes(plaintext);
    let combined = match encrypt_bytes(bytes.as_slice(), key) {
        Ok(c) => c,
        Err(e) => return Err(e),
    };
    let res = b64std_encode_bytes(combined.as_slice());
    proof {
        vstd::utf8::encode_utf8_valid_utf8(plaintext@);
        vstd::utf8::encode_utf8_decode_utf8(plaintext@);
        lemma_utf8_at_least_one_byte_per_char(plaintext@);
        let m = encode_utf8(plaintext@).len() + 28;
        assert(4 * ((m + 2) / 3) >= m) by (nonlinear_arith) requires m >= 0;
    }
    Ok(res)
}

/// Decrypts base64 of `nonce || ciphertext` back to text.
pub fn decrypt(encoded: &str, key: &[u8; 32]) -> (res: Result<String, String>)
    ensures
        match res {
            Ok(p) => decrypt_spec(encoded@, key@) == Some(p@),
            Err(m) => decrypt_spec(encoded@, key@) is None
                && (b64std_decode(encoded@) matches Some(blob) && blob.len() < 13 ==> m@ == too_short_message()),
        },
{
    let combined = match b64std_decode_text(encoded) {
        Err(e) => return Err(e),
        Ok(c) => c,
    };
    let plain = match decrypt_bytes(combined.as_slice(), key) {
        Ok(p) => p,
        Err(e) => return Err(e),
    };
    utf8_to_string(plain)
}

/// What a stored decision note reads as: absent and empty notes read as `None`, others as
/// their decryption, `None` where that fails.
pub open spec fn shown_note(encrypted: Option<Seq<char>>, key: Seq<u8>) -> Option<Seq<char>> {
    match encrypted {
        None => None,
        Some(e) => if e.len() == 0 { None } else { decrypt_spec(e, key) },
    }
}

/// Reads back an expense decision note stored encrypted: absent, empty or undecryptable notes
/// read as `None`.
pub fn decrypt_reviewer_note(encrypted: Option<String>, key: &[u8; 32]) -> (res: Option<String>)
    ensures
        opt_chars(res) == shown_note(opt_chars(encrypted), key@),
{
    match encrypted {
        None => None,
        Some(enc) => {
            if enc.as_str().is_empty() {
                return None;
            }
            match decrypt(enc.as_str(), key) {
                Ok(p) => Some(p),
                Err(_) => None,
            }
        },
    }
}

/// Encrypts an expense decision note for storage: absent or empty notes, and notes that fail to
/// encrypt, are stored as `None`; a stored note reads back (`shown_note`) as the note written.
pub fn encrypt_reviewer_note(note: Option<&str>, key: &[u8; 32]) -> (res: Option<String>)
    requires
        note matches Some(n) ==> b64_padded_len(encode_utf8(n@).len() + 28int) <= isize::MAX,
    ensures
        match note {
            None => res is None,
            Some(n) => (n@.len() == 0 ==> res is None)
                && (n@.len() > 0 ==> (res is Some <==> encode_utf8(n@).len() <= MAX_SEALED_BYTES))
                && (res matches Some(c) ==> decrypt_spec(c@, key@) == Some(n@)),
        },
        note matches Some(n) ==> (res is Some ==> shown_note(opt_chars(res), key@) == Some(n@)),
{
    match note {
        None => None,
        Some(n) => {
            if n.is_empty() {
                None
            } else {
                match encrypt(n, key) {
                    Ok(c) => Some(c),
                    Err(_) => None,
                }
            }
        },
    }
}

/// The first 32 bytes of a key file as an AES-256 key; files shorter than 32 bytes are
/// refused with a message naming the path and the length found.
pub fn key_from_file_bytes(data: &[u8], key_path: &str) -> (res: Result<[u8; 32], String>)
    ensures
        match res {
            Ok(k) => data@.len() >= 32 && k@ == data@.take(32),
            Err(m) => data@.len() < 32 && m@ == malformed_key_message(key_path@, data@.len() as nat),
        },
{
    if data.len() < 32 {
        let mut msg = chars_of("Encryption key file '");
        let path = chars_of(key_path);
        extend_chars(&mut msg, &path);
        let mid = chars_of("' is malformed: expected at least 32 bytes, got ");
        extend_chars(&mut msg, &mid);
        let n = u64_to_decimal(data.len() as u64);
        extend_chars(&mut msg, &n);
        let tail = chars_of(". Delete the file to auto-generate a new key, or provide a valid 32-byte key.");
        extend_chars(&mut msg, &tail);
        return Err(string_of(msg.as_slice()));
    }
    let mut key = [0u8; 32];
    let mut i: usize = 0;
    while i < 32
        invariant
            i <= 32,
            data@.len() >= 32,
            forall|j: int| 0 <= j < i ==> key@[j] == data@[j],
        decreases 32 - i,
    {
        key[i] = data[i];
        i += 1;
    }
    assert(key@ =~= data@.take(32));
    Ok(key)
}

/// The message for a key file that is too short.
pub open spec fn malformed_key_message(path: Seq<char>, len: nat) -> Seq<char> {
    "Encryption key file '"@ + path + "' is malformed: expected at least 32 bytes, got "@ + decimal(len)
        + ". Delete the file to auto-generate a new key, or provide a valid 32-byte key."@
}

} // verus!
