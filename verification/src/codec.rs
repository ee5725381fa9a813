//! Byte and number encodings: lowercase hex, base64, UTF-8 and decimal numerals.
use vstd::prelude::*;
use vstd::utf8::{valid_utf8, decode_utf8, encode_utf8};
use base64::Engine;
use sha2::Digest;

verus! {

// ── Hex ──

/// The lowercase hex digit for a nibble.
pub open spec fn hex_digit(d: int) -> char {
    seq!['0', '1', '2', '3', '4', '5', '6', '7', '8', '9', 'a', 'b', 'c', 'd', 'e', 'f'][d]
}

/// Lowercase hex text of a byte string: two digits per byte, high nibble first.
pub open spec fn hex_lower(bytes: Seq<u8>) -> Seq<char>
    decreases bytes.len(),
{
    if bytes.len() == 0 {
        Seq::empty()
    } else {
        hex_lower(bytes.drop_last()) + seq![
            hex_digit(bytes.last() as int / 16),
            hex_digit(bytes.last() as int % 16),
        ]
    }
}

/// A character that `hex_lower` can produce.
pub open spec fn is_lower_hex_char(c: char) -> bool {
    ('0' <= c && c <= '9') || ('a' <= c && c <= 'f')
}

pub proof fn lemma_hex_lower_shape(bytes: Seq<u8>)
    ensures
        hex_lower(bytes).len() == 2 * bytes.len(),
        forall|i: int| 0 <= i < hex_lower(bytes).len() ==> is_lower_hex_char(#[trigger] hex_lower(bytes)[i]),
    decreases bytes.len(),
{
    if bytes.len() > 0 {
        lemma_hex_lower_shape(bytes.drop_last());
        let d1 = bytes.last() as int / 16;
        let d2 = bytes.last() as int % 16;
        assert(is_lower_hex_char(hex_digit(d1)));
        assert(is_lower_hex_char(hex_digit(d2)));
    }
}

/// The lowercase hex digit of a nibble.
fn hex_digit_of(d: u8) -> (c: char)
    requires
        d < 16,
    ensures
        c == hex_digit(d as int),
{
    let table: [char; 16] = ['0', '1', '2', '3', '4', '5', '6', '7', '8', '9', 'a', 'b', 'c', 'd', 'e', 'f'];
    assert(table@ == seq!['0', '1', '2', '3', '4', '5', '6', '7', '8', '9', 'a', 'b', 'c', 'd', 'e', 'f']);
    table[d as usize]
}

/// Lowercase hex text of bytes, as `hex::encode` writes it: two digits per byte, high nibble
/// first.
pub(crate) fn hex_encode(data: &[u8]) -> (res: String)
    ensures
        res@ == hex_lower(data@),
{
    let mut v: Vec<char> = Vec::new();
    let mut i: usize = 0;
    while i < data.len()
        invariant
            i <= data@.len(),
            v@ == hex_lower(data@.take(i as int)),
        decreases data@.len() - i,
    {
        let b = data[i];
        v.push(hex_digit_of(b / 16));
        v.push(hex_digit_of(b % 16));
        proof {
            let t = data@.take(i + 1);
            assert(t.drop_last() =~= data@.take(i as int));
            assert(t.last() == b);
        }
        i += 1;
    }
    assert(data@.take(data@.len() as int) =~= data@);
    crate::text::string_of(v.as_slice())
}

// ── SHA-256 ──

/// What SHA-256 computes for a byte string.
pub uninterp spec fn sha256(data: Seq<u8>) -> Seq<u8>;

/// The SHA-256 digest of `data` (`sha2::Sha256::new`, `update`, `finalize`).
/// Claims: the digest is the named function of the data and is 32 bytes long.
#[verifier::external_body]
pub(crate) fn sha256_bytes(data: &[u8]) -> (res: Vec<u8>)
    ensures
        res@ == sha256(data@),
        res@.len() == 32,
{
    let mut hasher = <sha2::Sha256 as Digest>::new();
    hasher.update(data);
    hasher.finalize().to_vec()
}

/// The lowercase hex text of the SHA-256 digest of `data`.
pub fn sha256_hex(data: &[u8]) -> (res: String)
    ensures
        res@ == hex_lower(sha256(data@)),
        res@.len() == 64,
        forall|i: int| 0 <= i < res@.len() ==> is_lower_hex_char(#[trigger] res@[i]),
{
    let digest = sha256_bytes(data);
    proof { lemma_hex_lower_shape(digest@); }
    hex_encode(digest.as_slice())
}

// ── Base64 ──

/// What `URL_SAFE_NO_PAD.encode` returns for a byte string.
pub uninterp spec fn b64url_encode(data: Seq<u8>) -> Seq<char>;

/// What `URL_SAFE_NO_PAD.decode` returns for a text (`None` where it reports an error).
pub uninterp spec fn b64url_decode(text: Seq<char>) -> Option<Seq<u8>>;

/// What `STANDARD.encode` returns for a byte string.
pub uninterp spec fn b64std_encode(data: Seq<u8>) -> Seq<char>;

/// What `STANDARD.decode` returns for a text (`None` where it reports an error).
pub uninterp spec fn b64std_decode(text: Seq<char>) -> Option<Seq<u8>>;

/// A character of the RFC 4648 URL-safe alphabet (`A-Z`, `a-z`, `0-9`, `-`, `_`).
pub open spec fn is_b64url_char(c: char) -> bool {
    ('A' <= c && c <= 'Z') || ('a' <= c && c <= 'z') || ('0' <= c && c <= '9') || c == '-' || c == '_'
}

/// `base64::engine::general_purpose::URL_SAFE_NO_PAD.encode`. Claims: the text is the
/// engine's encoding of `data`, written only with URL-safe alphabet characters (no padding),
/// and decoding it with the same engine gives `data` back. `encode` allocates a buffer of the
/// encoded length, which is at most the padded length, so that must fit below `isize::MAX`.
#[verifier::external_body]
pub(crate) fn b64url_encode_bytes(data: &[u8]) -> (res: String)
    requires
        b64_padded_len(data@.len() as int) <= isize::MAX,
    ensures
        res@ == b64url_encode(data@),
        forall|i: int| 0 <= i < res@.len() ==> is_b64url_char(#[trigger] res@[i]),
        b64url_decode(res@) == Some(data@),
{
    base64::engine::general_purpose::URL_SAFE_NO_PAD.encode(data)
}

/// `URL_SAFE_NO_PAD.decode`: `None` where the engine reports a decode error.
#[verifier::external_body]
pub(crate) fn b64url_decode_text(text: &str) -> (res: Option<Vec<u8>>)
    ensures
        match res {
            Some(v) => b64url_decode(text@) == Some(v@),
            None => b64url_decode(text@) is None,
        },
{
    base64::engine::general_purpose::URL_SAFE_NO_PAD.decode(text).ok()
}

/// The length of the padded base64 text of `n` bytes: four characters for every started
/// group of three bytes.
pub open spec fn b64_padded_len(n: int) -> int {
    4 * ((n + 2) / 3)
}

/// `base64::engine::general_purpose::STANDARD.encode`. Claims: the text is the engine's
/// encoding of `data`, `encoded_len(len, true)` characters long (four for every started group
/// of three bytes), and decoding it with the same engine gives `data` back. `encode`
/// allocates a buffer of that length, so the length must fit below `isize::MAX`.
#[verifier::external_body]
pub(crate) fn b64std_encode_bytes(data: &[u8]) -> (res: String)
    requires
        b64_padded_len(data@.len() as int) <= isize::MAX,
    ensures
        res@ == b64std_encode(data@),
        res@.len() == b64_padded_len(data@.len() as int),
        b64std_decode(res@) == Some(data@),
{
    base64::engine::general_purpose::STANDARD.encode(data)
}

/// `STANDARD.decode`: `Err` with the crate's error text where the engine reports a decode error.
#[verifier::external_body]
pub(crate) fn b64std_decode_text(text: &str) -> (res: Result<Vec<u8>, String>)
    ensures
        match res {
            Ok(v) => b64std_decode(text@) == Some(v@),
            Err(_) => b64std_decode(text@) is None,
        },
{
    base64::engine::general_purpose::STANDARD.decode(text).map_err(|e| e.to_string())
}

// ── UTF-8 ──

/// `String::from_utf8`: `Ok` exactly when the bytes are well-formed UTF-8, holding their
/// decoding; otherwise std's error text.
#[verifier::external_body]
pub(crate) fn utf8_to_string(bytes: Vec<u8>) -> (res: Result<String, String>)
    ensures
        res is Ok <==> valid_utf8(bytes@),
        res matches Ok(s) ==> s@ == decode_utf8(bytes@),
{
    String::from_utf8(bytes).map_err(|e| e.to_string())
}

/// The UTF-8 bytes of a string slice, as an owned vector.
pub fn utf8_bytes(s: &str) -> (v: Vec<u8>)
    ensures
        v@ == encode_utf8(s@),
{
    let b = s.as_bytes();
    let mut v: Vec<u8> = Vec::new();
    let mut i: usize = 0;
    while i < b.len()
        invariant
            i <= b@.len(),
            b@ == encode_utf8(s@),
            v@ == b@.take(i as int),
        decreases b@.len() - i,
    {
        v.push(b[i]);
        assert(b@.take(i + 1) == b@.take(i as int).push(b@[i as int]));
        i += 1;
    }
    assert(b@.take(b@.len() as int) == b@);
    v
}

// ── Decimal numerals ──

/// The decimal digit character for `d` in `0..10`.
pub open spec fn digit_char(d: int) -> char {
    seq!['0', '1', '2', '3', '4', '5', '6', '7', '8', '9'][d]
}

pub open spec fn is_digit(c: char) -> bool {
    '0' <= c && c <= '9'
}

/// The numeric value of a decimal digit character.
pub open spec fn digit_value(c: char) -> int {
    c as int - '0' as int
}

/// Shortest decimal numeral of a natural number (how `{}` formats an unsigned integer).
pub open spec fn decimal(n: nat) -> Seq<char>
    decreases n,
{
    if n < 10 {
        seq![digit_char(n as int)]
    } else {
        decimal(n / 10).push(digit_char((n % 10) as int))
    }
}

/// Value of a string of decimal digits.
pub open spec fn digits_value(s: Seq<char>) -> int
    decreases s.len(),
{
    if s.len() == 0 {
        0
    } else {
        10 * digits_value(s.drop_last()) + digit_value(s.last())
    }
}

pub open spec fn all_digits(s: Seq<char>) -> bool {
    forall|i: int| 0 <= i < s.len() ==> is_digit(#[trigger] s[i])
}

/// What `str::parse::<u64>` accepts and returns: an optional `+`, then one or more
/// decimal digits whose value fits in a `u64`.
pub open spec fn parse_u64_spec(s: Seq<char>) -> Option<u64> {
    let body = if s.len() > 0 && s[0] == '+' { s.drop_first() } else { s };
    if body.len() > 0 && all_digits(body) && digits_value(body) <= u64::MAX {
        Some(digits_value(body) as u64)
    } else {
        None
    }
}

/// UTF-8 encoding distributes over concatenation.
pub proof fn lemma_encode_utf8_concat(a: Seq<char>, b: Seq<char>)
    ensures
        encode_utf8(a + b) == encode_utf8(a) + encode_utf8(b),
    decreases a.len(),
{
    if a.len() == 0 {
        assert(a + b =~= b);
        assert(encode_utf8(a) =~= Seq::<u8>::empty());
        assert(encode_utf8(b) =~= encode_utf8(a) + encode_utf8(b));
    } else {
        assert((a + b).drop_first() =~= a.drop_first() + b);
        assert((a + b)[0] == a[0]);
        lemma_encode_utf8_concat(a.drop_first(), b);
        assert(encode_utf8(a + b) =~= encode_utf8(a) + encode_utf8(b));
    }
}

/// Ten to the power `k`.
pub open spec fn ten_pow(k: nat) -> nat
    decreases k,
{
    if k == 0 { 1 } else { 10 * ten_pow((k - 1) as nat) }
}

proof fn lemma_decimal_len_below(n: nat, k: nat)
    requires
        k >= 1,
        n < ten_pow(k),
    ensures
        decimal(n).len() <= k,
    decreases k,
{
    if n >= 10 {
        if k == 1 {
            assert(ten_pow(1) == 10 * ten_pow(0));
        } else {
            assert(ten_pow(k) == 10 * ten_pow((k - 1) as nat));
            lemma_decimal_len_below(n / 10, (k - 1) as nat);
        }
    }
}

/// The decimal numeral of a `u64` has at most 20 digits, each a single UTF-8 byte.
pub proof fn lemma_decimal_u64_bytes(n: u64)
    ensures
        decimal(n as nat).len() <= 20,
        encode_utf8(decimal(n as nat)).len() == decimal(n as nat).len(),
{
    reveal_with_fuel(ten_pow, 21);
    assert(ten_pow(20) == 100000000000000000000nat);
    lemma_decimal_len_below(n as nat, 20);
    lemma_decimal(n as nat);
    let d = decimal(n as nat);
    assert(vstd::utf8::is_ascii_chars(d)) by {
        assert forall|i| 0 <= i < d.len() implies '\0' <= #[trigger] d[i] <= '\u{7f}' by {
            assert(is_digit(d[i]));
        }
    }
    vstd::utf8::is_ascii_chars_encode_utf8(d);
}

proof fn lemma_digit_char(d: int)
    requires
        0 <= d < 10,
    ensures
        is_digit(digit_char(d)),
        digit_value(digit_char(d)) == d,
{
}

pub proof fn lemma_digits_value_nonneg(s: Seq<char>)
    requires
        all_digits(s),
    ensures
        digits_value(s) >= 0,
    decreases s.len(),
{
    if s.len() > 0 {
        lemma_digits_value_nonneg(s.drop_last());
    }
}

/// The decimal numeral of `n` is a digit string whose value is `n`, and it has no leading `+`.
pub proof fn lemma_decimal(n: nat)
    ensures
        decimal(n).len() > 0,
        all_digits(decimal(n)),
        digits_value(decimal(n)) == n,
    decreases n,
{
    if n < 10 {
        lemma_digit_char(n as int);
        assert(decimal(n).drop_last() =~= Seq::<char>::empty());
        assert(digits_value(decimal(n).drop_last()) == 0);
        assert(decimal(n).last() == digit_char(n as int));
    } else {
        lemma_decimal(n / 10);
        lemma_digit_char((n % 10) as int);
        assert(decimal(n).drop_last() =~= decimal(n / 10));
        assert(decimal(n).last() == digit_char((n % 10) as int));
        assert(digits_value(decimal(n)) == 10 * digits_value(decimal(n / 10)) + (n % 10));
        assert(n == 10 * (n / 10) + n % 10);
        assert forall|i: int| 0 <= i < decimal(n).len() implies is_digit(#[trigger] decimal(n)[i]) by {
            if i < decimal(n).len() - 1 {
                assert(decimal(n)[i] == decimal(n / 10)[i]);
            }
        }
    }
}

/// Parsing the decimal numeral of a `u64` gives the number back.
pub proof fn lemma_parse_decimal(n: u64)
    ensures
        parse_u64_spec(decimal(n as nat)) == Some(n),
{
    lemma_decimal(n as nat);
    assert(is_digit(decimal(n as nat)[0]));
}

/// The decimal numeral of `n`.
pub fn u64_to_decimal(n: u64) -> (v: Vec<char>)
    ensures
        v@ == decimal(n as nat),
    decreases n,
{
    let d = (n % 10) as u8;
    let c: char = if d == 0 { '0' } else if d == 1 { '1' } else if d == 2 { '2' } else if d == 3 { '3' }
        else if d == 4 { '4' } else if d == 5 { '5' } else if d == 6 { '6' } else if d == 7 { '7' }
        else if d == 8 { '8' } else { '9' };
    if n < 10 {
        let mut v: Vec<char> = Vec::new();
        v.push(c);
        v
    } else {
        let mut v = u64_to_decimal(n / 10);
        v.push(c);
        v
    }
}

/// The value of one decimal digit character.
fn digit_of(c: char) -> (d: u64)
    requires
        is_digit(c),
    ensures
        d == digit_value(c),
{
    (c as u32 - '0' as u32) as u64
}

/// `str::parse::<u64>`: an optional `+`, then one or more digits, within `u64` range.
pub fn parse_u64(s: &[char]) -> (r: Option<u64>)
    ensures
        r == parse_u64_spec(s@),
{
    let start: usize = if s.len() > 0 && s[0] == '+' { 1 } else { 0 };
    let ghost body = if s@.len() > 0 && s@[0] == '+' { s@.drop_first() } else { s@ };
    assert(body =~= s@.subrange(start as int, s@.len() as int));
    if start >= s.len() {
        return None;
    }
    let mut acc: u64 = 0;
    let mut i: usize = start;
    while i < s.len()
        invariant
            start <= i <= s@.len(),
            body == (if s@.len() > 0 && s@[0] == '+' { s@.drop_first() } else { s@ }),
            body =~= s@.subrange(start as int, s@.len() as int),
            all_digits(s@.subrange(start as int, i as int)),
            acc == digits_value(s@.subrange(start as int, i as int)),
        decreases s@.len() - i,
    {
        let c = s[i];
        if !('0' <= c && c <= '9') {
            assert(body[i - start] == c);
            assert(!is_digit(body[i - start]));
            assert(!all_digits(body));
            return None;
        }
        let ghost prefix = s@.subrange(start as int, i as int);
        let ghost next = s@.subrange(start as int, i + 1);
        assert(next.drop_last() =~= prefix);
        assert(next.last() == c);
        let d = digit_of(c);
        assert(all_digits(next)) by {
            assert forall|j: int| 0 <= j < next.len() implies is_digit(#[trigger] next[j]) by {
                if j < next.len() - 1 {
                    assert(next[j] == prefix[j]);
                }
            }
        }
        assert(digits_value(next) == 10 * acc + d);
        if acc > (u64::MAX - d) / 10 {
            // The value of the whole body is at least that of this prefix, which overflows.
            proof {
                assert(10 * acc + d > u64::MAX) by (nonlinear_arith)
                    requires acc > (u64::MAX - d) / 10, d <= 9;
                lemma_digits_prefix_bound(body, (i + 1 - start) as int);
                assert(body.subrange(0, (i + 1 - start) as int) =~= next);
                if all_digits(body) {
                    assert(digits_value(body) >= digits_value(next));
                    assert(digits_value(body) > u64::MAX);
                }
            }
            return None;
        }
        acc = acc * 10 + d;
        i += 1;
    }
    assert(s@.subrange(start as int, s@.len() as int) =~= body);
    Some(acc)
}

/// For a digit string, the value never decreases when digits are appended.
proof fn lemma_digits_prefix_bound(s: Seq<char>, k: int)
    requires
        0 <= k <= s.len(),
    ensures
        all_digits(s) ==> digits_value(s) >= digits_value(s.subrange(0, k)),
    decreases s.len() - k,
{
    if k < s.len() && all_digits(s) {
        lemma_digits_prefix_bound(s, k + 1);
        let p = s.subrange(0, k + 1);
        assert(p.drop_last() =~= s.subrange(0, k));
        assert(all_digits(s.subrange(0, k)));
        lemma_digits_value_nonneg(s.subrange(0, k));
        assert(is_digit(p.last()));
    }
    if k == s.len() {
        assert(s.subrange(0, k) =~= s);
    }
}

} // verus!

verus! {

/// Decimal numeral of an integer, with a leading `-` when negative (how `{}` formats `i64`).
pub open spec fn signed_decimal(i: int) -> Seq<char> {
    if i < 0 {
        seq!['-'] + decimal((-i) as nat)
    } else {
        decimal(i as nat)
    }
}

/// The decimal numeral of a signed integer.
pub fn i64_to_decimal(n: i64) -> (v: Vec<char>)
    ensures
        v@ == signed_decimal(n as int),
{
    if n < 0 {
        let mag: u64 = ((-(n + 1)) as u64) + 1;
        let digits = u64_to_decimal(mag);
        let mut v: Vec<char> = Vec::new();
        v.push('-');
        crate::text::extend_chars(&mut v, &digits);
        assert(v@ =~= seq!['-'] + decimal((-(n as int)) as nat));
        v
    } else {
        u64_to_decimal(n as u64)
    }
}


// ── Identifiers ──

/// Whether `s` is a UUID in its hyphenated lowercase text form: 36 characters, `-` at
/// positions 8, 13, 18 and 23, lowercase hexadecimal digits everywhere else.
pub open spec fn is_hyphenated_uuid(s: Seq<char>) -> bool {
    &&& s.len() == 36
    &&& forall|i: int| 0 <= i < 36 ==> (if i == 8 || i == 13 || i == 18 || i == 23 {
        s[i] == '-'
    } else {
        is_lower_hex_char(s[i])
    })
}

/// A fresh random (version 4) UUID as text (`uuid::Uuid::new_v4().to_string()`).
/// Claims the text form only: the crate's `Display` writes the hyphenated lowercase form
/// (`format_hyphenated` with `upper == false`). The value itself is random.
#[verifier::external_body]
pub(crate) fn new_uuid_v4() -> (res: String)
    ensures
        is_hyphenated_uuid(res@),
{
    uuid::Uuid::new_v4().to_string()
}

} // verus!
