//! Password hashing, signed session tokens and request nonces.
use vstd::prelude::*;
use vstd::utf8::{valid_utf8, decode_utf8, encode_utf8};
use hmac::{Hmac, Mac};
use sha2::Sha256;
use argon2::{Argon2, PasswordHash, PasswordHasher, PasswordVerifier};
use argon2::password_hash::SaltString;
use argon2::password_hash::rand_core::OsRng;
use rand::Rng;
use crate::codec::{
    hex_lower, hex_encode, is_lower_hex_char, lemma_hex_lower_shape, b64url_encode, b64url_decode,
    b64url_encode_bytes, b64url_decode_text, is_b64url_char, utf8_to_string, utf8_bytes, decimal,
    parse_u64_spec, u64_to_decimal, parse_u64, lemma_parse_decimal, b64_padded_len,
    lemma_encode_utf8_concat, lemma_decimal_u64_bytes, lemma_decimal, is_digit,
};
use crate::text::{chars_of, string_of, first_index, lemma_first_index, lemma_first_index_at, find_char, sub_chars, extend_chars, chars_eq};

verus! {

// ── Trusted calls ──

/// What HMAC-SHA256 (`hmac::Hmac<sha2::Sha256>`) computes for a key and a message.
pub uninterp spec fn hmac_sha256(key: Seq<u8>, msg: Seq<u8>) -> Seq<u8>;

/// HMAC-SHA256 of `msg` under `key` (`Hmac::<Sha256>::new_from_slice`, `update`, `finalize`).
/// Claims: the tag is the named function of key and message and is 32 bytes long (SHA-256's
/// output size). `new_from_slice` accepts keys of any length for HMAC, so the `expect` never fires.
#[verifier::external_body]
pub(crate) fn hmac_sha256_bytes(key: &[u8], msg: &[u8]) -> (res: Vec<u8>)
    ensures
        res@ == hmac_sha256(key@, msg@),
        res@.len() == 32,
{
    let mut mac = <Hmac<Sha256> as Mac>::new_from_slice(key).expect("HMAC accepts any key length");
    mac.update(msg);
    mac.finalize().into_bytes().to_vec()
}

#[verifier::external_type_specification]
#[verifier::external_body]
pub struct ExSystemTime(std::time::SystemTime);

/// The system clock's current time (`SystemTime::now`). Nothing is stated of it.
#[verifier::external_body]
fn system_now() -> (res: std::time::SystemTime)
{
    std::time::SystemTime::now()
}

/// Whole seconds from the Unix epoch to `t` (`t.duration_since(UNIX_EPOCH)`, then
/// `Duration::as_secs`); `None` for a time before the epoch, where `duration_since` returns its
/// error. Claims only that the value fits in an `i64`: Unix `SystemTime` keeps its seconds in
/// a signed 64-bit `tv_sec`.
#[verifier::external_body]
fn secs_since_epoch(t: &std::time::SystemTime) -> (res: Option<u64>)
    ensures
        res matches Some(s) ==> s <= i64::MAX,
{
    t.duration_since(std::time::UNIX_EPOCH).ok().map(|d| d.as_secs())
}

/// Seconds since the Unix epoch from the system clock; a clock set before the epoch reads as
/// second 0 (where the panicking `unwrap` of a plain `duration_since` call would stop).
pub(crate) fn now_unix_secs() -> (res: u64)
    ensures
        res <= i64::MAX,
{
    let t = system_now();
    match secs_since_epoch(&t) {
        Some(s) => s,
        None => 0,
    }
}

/// Whether argon2 (`Argon2::default().verify_password`) accepts `password` against the PHC
/// string `hash`; false also where `hash` does not parse.
pub uninterp spec fn argon2_verifies(password: Seq<char>, hash: Seq<char>) -> bool;

/// Hashes a password with argon2 (default parameters) and a fresh random salt, as a PHC string.
/// Claims: a hash that is returned verifies against the same password. The hash itself
/// depends on the random salt, so nothing else is stated of it; the error text is the crate's.
#[verifier::external_body]
pub fn hash_password(password: &str) -> (res: Result<String, String>)
    ensures
        res matches Ok(h) ==> argon2_verifies(password@, h@),
{
    let salt = SaltString::generate(&mut OsRng);
    Argon2::default()
        .hash_password(password.as_bytes(), &salt)
        .map(|h| h.to_string())
        .map_err(|e| e.to_string())
}

/// Whether a text can begin a PHC string: `PasswordHash::parse` refuses any text whose part
/// before the first `$` is not empty, the empty text included.
pub open spec fn phc_leading_dollar(s: Seq<char>) -> bool {
    s.len() > 0 && s[0] == '$'
}

/// Verifies a password against an argon2 PHC string (`PasswordHash::new`, then
/// `Argon2::default().verify_password`); an unparsable hash gives `false`. Claims: the result
/// is the named verification, and it is `false` for every text that does not start with `$`,
/// which `PasswordHash::parse` refuses. That no other password verifies against a hash rests
/// on argon2's strength and is not claimed.
#[verifier::external_body]
pub fn verify_password(password: &str, hash: &str) -> (res: bool)
    ensures
        res == argon2_verifies(password@, hash@),
        !phc_leading_dollar(hash@) ==> !res,
{
    match PasswordHash::new(hash) {
        Ok(parsed) => Argon2::default().verify_password(password.as_bytes(), &parsed).is_ok(),
        Err(_) => false,
    }
}

/// Sixteen bytes from the thread-local random generator (`rand::thread_rng().gen()`).
#[verifier::external_body]
fn random_16_bytes() -> (res: Vec<u8>)
    ensures
        res@.len() == 16,
{
    let bytes: [u8; 16] = rand::thread_rng().gen();
    bytes.to_vec()
}

// ── Session tokens ──

/// The signed payload of a token: `user_id|expires`.
pub open spec fn token_payload(user_id: Seq<char>, expires: u64) -> Seq<char> {
    user_id + seq!['|'] + decimal(expires as nat)
}

/// The signature part of a token: lowercase hex of the HMAC of the encoded payload's bytes.
pub open spec fn token_signature(secret: Seq<u8>, encoded: Seq<char>) -> Seq<char> {
    hex_lower(hmac_sha256(secret, encode_utf8(encoded)))
}

/// A session token: `base64url(payload) "." hex(hmac(secret, base64url(payload)))`.
pub open spec fn session_token(user_id: Seq<char>, secret: Seq<u8>, expires: u64) -> Seq<char> {
    let encoded = b64url_encode(encode_utf8(token_payload(user_id, expires)));
    encoded + seq!['.'] + token_signature(secret, encoded)
}

/// The user a decoded token payload names at time `now`: the bytes must be UTF-8 text
/// `user|expires` (split at the first `|`), `expires` must parse as a `u64`, and `now` must not
/// be past it.
pub open spec fn payload_subject(decoded: Option<Seq<u8>>, now: u64) -> Option<Seq<char>> {
    match decoded {
        None => None,
        Some(bytes) => if !valid_utf8(bytes) {
            None
        } else {
            let payload = decode_utf8(bytes);
            match first_index(payload, '|') {
                None => None,
                Some(j) => match parse_u64_spec(payload.skip(j + 1)) {
                    None => None,
                    Some(expires) => if now > expires {
                        None
                    } else {
                        Some(payload.take(j))
                    },
                },
            }
        },
    }
}

/// The user a token names, when checked with `secret` at time `now`: split at the first `.`,
/// the signature must match, and the payload, decoded from base64url, must name a user whose
/// expiry `now` is not past.
pub open spec fn token_subject(token: Seq<char>, secret: Seq<u8>, now: u64) -> Option<Seq<char>> {
    match first_index(token, '.') {
        None => None,
        Some(i) => {
            let encoded = token.take(i);
            let sig = token.skip(i + 1);
            if sig != token_signature(secret, encoded) {
                None
            } else {
                payload_subject(b64url_decode(encoded), now)
            }
        },
    }
}

/// The bytes of an optional byte vector.
pub open spec fn opt_bytes(o: Option<Vec<u8>>) -> Option<Seq<u8>> {
    match o {
        Some(v) => Some(v@),
        None => None,
    }
}

/// Lifts an optional `String` to its character sequence.
pub open spec fn opt_chars(o: Option<String>) -> Option<Seq<char>> {
    match o {
        Some(s) => Some(s@),
        None => None,
    }
}

/// The facts about a freshly built token that its laws rest on.
proof fn lemma_token_laws(user_id: Seq<char>, secret: Seq<u8>, expires: u64, encoded: Seq<char>, now: u64, extra: Seq<char>)
    requires
        encoded == b64url_encode(encode_utf8(token_payload(user_id, expires))),
        forall|i: int| 0 <= i < encoded.len() ==> is_b64url_char(#[trigger] encoded[i]),
        b64url_decode(encoded) == Some(encode_utf8(token_payload(user_id, expires))),
        forall|i: int| 0 <= i < user_id.len() ==> user_id[i] != '|',
    ensures
        token_subject(session_token(user_id, secret, expires), secret, now)
            == (if now <= expires { Some(user_id) } else { None }),
        extra.len() > 0 ==> token_subject(session_token(user_id, secret, expires) + extra, secret, now) is None,
{
    let sig = token_signature(secret, encoded);
    let token = session_token(user_id, secret, expires);
    assert(token == encoded + seq!['.'] + sig);
    let n = encoded.len() as int;
    assert forall|j: int| 0 <= j < n implies token[j] != '.' by {
        assert(token[j] == encoded[j]);
        assert(is_b64url_char(encoded[j]));
    }
    assert(token[n] == '.');
    lemma_first_index_at(token, '.', n);
    assert(token.take(n) =~= encoded);
    assert(token.skip(n + 1) =~= sig);
    let payload = token_payload(user_id, expires);
    vstd::utf8::encode_utf8_valid_utf8(payload);
    vstd::utf8::encode_utf8_decode_utf8(payload);
    let m = user_id.len() as int;
    assert(payload[m] == '|');
    assert forall|j: int| 0 <= j < m implies payload[j] != '|' by {
        assert(payload[j] == user_id[j]);
    }
    lemma_first_index_at(payload, '|', m);
    assert(payload.take(m) =~= user_id);
    assert(payload.skip(m + 1) =~= decimal(expires as nat));
    lemma_parse_decimal(expires);
    // A longer token keeps the same encoded part but carries a longer signature.
    if extra.len() > 0 {
        let t2 = token + extra;
        assert forall|j: int| 0 <= j < n implies t2[j] != '.' by {
            assert(t2[j] == token[j]);
        }
        assert(t2[n] == '.');
        lemma_first_index_at(t2, '.', n);
        assert(t2.take(n) =~= encoded);
        assert(t2.skip(n + 1).len() == sig.len() + extra.len());
    }
}

/// What a token issued for `user_id` with expiry `expires` guarantees, for a user id without
/// `|`: checked with the same secret it names its user exactly until it expires, and the token
/// with anything appended never validates.
pub open spec fn token_laws(token: Seq<char>, user_id: Seq<char>, secret: Seq<u8>, expires: u64) -> bool {
    (forall|i: int| 0 <= i < user_id.len() ==> user_id[i] != '|') ==> {
        &&& forall|now: u64|
            #[trigger] token_subject(token, secret, now) == (if now <= expires { Some(user_id) } else { None })
        &&& forall|now: u64, extra: Seq<char>|
            extra.len() > 0 ==> #[trigger] token_subject(token + extra, secret, now) is None
    }
}

/// Builds a session token for `user_id` that expires at Unix second `expires`.
/// A token names its user until it expires, and nothing appended to it validates.
pub fn create_session_token_at(user_id: &str, secret: &[u8], expires: u64) -> (res: String)
    requires
        b64_padded_len(encode_utf8(user_id@).len() + 21int) <= isize::MAX,
    ensures
        res@ == session_token(user_id@, secret@, expires),
        token_laws(res@, user_id@, secret@, expires),
{
    let mut payload = chars_of(user_id);
    payload.push('|');
    let digits = u64_to_decimal(expires);
    extend_chars(&mut payload, &digits);
    assert(payload@ == token_payload(user_id@, expires));
    let payload_text = string_of(payload.as_slice());
    let payload_bytes = utf8_bytes(payload_text.as_str());
    proof {
        let tail = seq!['|'] + decimal(expires as nat);
        assert(token_payload(user_id@, expires) =~= user_id@ + tail);
        lemma_encode_utf8_concat(user_id@, tail);
        lemma_decimal_u64_bytes(expires);
        lemma_decimal(expires as nat);
        assert(vstd::utf8::is_ascii_chars(tail)) by {
            assert forall|i| 0 <= i < tail.len() implies '\0' <= #[trigger] tail[i] <= '\u{7f}' by {
                if i > 0 {
                    assert(tail[i] == decimal(expires as nat)[i - 1]);
                    assert(is_digit(decimal(expires as nat)[i - 1]));
                }
            }
        }
        vstd::utf8::is_ascii_chars_encode_utf8(tail);
    }
    let encoded = b64url_encode_bytes(payload_bytes.as_slice());
    let encoded_bytes = utf8_bytes(encoded.as_str());
    let tag = hmac_sha256_bytes(secret, encoded_bytes.as_slice());
    let sig = hex_encode(tag.as_slice());
    let mut out = chars_of(encoded.as_str());
    out.push('.');
    let sig_chars = chars_of(sig.as_str());
    extend_chars(&mut out, &sig_chars);
    let res = string_of(out.as_slice());
    proof {
        assert(res@ == session_token(user_id@, secret@, expires));
        if forall|i: int| 0 <= i < user_id@.len() ==> user_id@[i] != '|' {
            assert forall|now: u64| #[trigger] token_subject(res@, secret@, now)
                == (if now <= expires { Some(user_id@) } else { None }) by {
                lemma_token_laws(user_id@, secret@, expires, encoded@, now, Seq::empty());
            }
            assert forall|now: u64, extra: Seq<char>|
                extra.len() > 0 implies #[trigger] token_subject(res@ + extra, secret@, now) is None by {
                lemma_token_laws(user_id@, secret@, expires, encoded@, now, extra);
            }
        }
    }
    res
}

/// Creates a signed session token for `user_id` that expires `ttl_secs` seconds from now.
pub fn create_session_token(user_id: &str, secret: &[u8], ttl_secs: u64) -> (res: String)
    requires
        ttl_secs <= u64::MAX - i64::MAX,
        b64_padded_len(encode_utf8(user_id@).len() + 21int) <= isize::MAX,
    ensures
        exists|expires: u64| expires >= ttl_secs
            && res@ == session_token(user_id@, secret@, expires)
            && token_laws(res@, user_id@, secret@, expires),
{
    let now = now_unix_secs();
    let expires = now + ttl_secs;
    create_session_token_at(user_id, secret, expires)
}

/// Checks a session token against `secret` at Unix second `now`, giving the user id it names.
pub fn validate_session_token_at(token: &str, secret: &[u8], now: u64) -> (res: Option<String>)
    ensures
        opt_chars(res) == token_subject(token@, secret@, now),
{
    let chars = chars_of(token);
    proof { lemma_first_index(chars@, '.'); }
    let dot = match find_char(&chars, '.') {
        None => return None,
        Some(i) => i,
    };
    let total = chars.len();
    assert(dot < total);
    let encoded_chars = sub_chars(&chars, 0, dot);
    let sig_chars = sub_chars(&chars, dot + 1, total);
    assert(encoded_chars@ == token@.take(dot as int));
    assert(sig_chars@ == token@.skip(dot + 1));
    let encoded = string_of(encoded_chars.as_slice());
    let encoded_bytes = utf8_bytes(encoded.as_str());
    let tag = hmac_sha256_bytes(secret, encoded_bytes.as_slice());
    let expected = hex_encode(tag.as_slice());
    let expected_chars = chars_of(expected.as_str());
    if !chars_eq(&sig_chars, &expected_chars) {
        return None;
    }
    let decoded = b64url_decode_text(encoded.as_str());
    subject_from_payload(decoded, now)
}

/// The user a decoded token payload names at time `now` (what follows the signature check).
pub fn subject_from_payload(decoded: Option<Vec<u8>>, now: u64) -> (res: Option<String>)
    ensures
        opt_chars(res) == payload_subject(opt_bytes(decoded), now),
{
    let decoded = match decoded {
        None => return None,
        Some(d) => d,
    };
    let payload = match utf8_to_string(decoded) {
        Err(_) => return None,
        Ok(p) => p,
    };
    let payload_chars = chars_of(payload.as_str());
    proof { lemma_first_index(payload_chars@, '|'); }
    let bar = match find_char(&payload_chars, '|') {
        None => return None,
        Some(j) => j,
    };
    let payload_len = payload_chars.len();
    assert(bar < payload_len);
    let user_chars = sub_chars(&payload_chars, 0, bar);
    let expires_chars = sub_chars(&payload_chars, bar + 1, payload_len);
    assert(user_chars@ == payload@.take(bar as int));
    assert(expires_chars@ == payload@.skip(bar + 1));
    let expires = match parse_u64(expires_chars.as_slice()) {
        None => return None,
        Some(e) => e,
    };
    if now > expires {
        return None;
    }
    Some(string_of(user_chars.as_slice()))
}

/// Checks a session token against `secret` at the current time, giving the user id it names.
pub fn validate_session_token(token: &str, secret: &[u8]) -> (res: Option<String>)
    ensures
        exists|now: u64| opt_chars(res) == token_subject(token@, secret@, now),
{
    let now = now_unix_secs();
    validate_session_token_at(token, secret, now)
}

// ── Nonces ──

/// A fresh request nonce: 16 random bytes as 32 lowercase hex digits.
pub fn generate_nonce() -> (res: String)
    ensures
        exists|b: Seq<u8>| b.len() == 16 && res@ == hex_lower(b),
        res@.len() == 32,
        forall|i: int| 0 <= i < res@.len() ==> is_lower_hex_char(#[trigger] res@[i]),
{
    let bytes = random_16_bytes();
    let res = hex_encode(bytes.as_slice());
    proof { lemma_hex_lower_shape(bytes@); }
    res
}

} // verus!
