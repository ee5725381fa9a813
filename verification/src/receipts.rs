//! Receipt uploads and reviews: accepted file types and sizes, the declared size, content
//! fingerprints, and the rule that a rejection needs a reason.
use vstd::prelude::*;
use crate::access::{Refusal, refusal, refusal_of, refused_with};
use crate::codec::{b64std_decode, b64std_decode_text, hex_lower, sha256, sha256_hex, signed_decimal, i64_to_decimal};
use crate::text::{chars_of, string_of, extend_chars, str_eq, trim, trim_chars};

verus! {

/// The largest receipt accepted, in bytes (10 MB).
pub const MAX_RECEIPT_BYTES: i64 = 10485760;

/// The MIME types a receipt may have: PDF, JPEG and PNG.
pub open spec fn allowed_receipt_type(t: Seq<char>) -> bool {
    t == "application/pdf"@ || t == "image/jpeg"@ || t == "image/png"@
}

/// The error text for a file type that is not accepted.
pub open spec fn bad_type_message(t: Seq<char>) -> Seq<char> {
    "Invalid file type '"@ + t + "'. Allowed: PDF, JPG, PNG"@
}

/// The error text for a file over the size limit.
pub open spec fn too_large_message(size: int) -> Seq<char> {
    "File too large ("@ + signed_decimal(size) + " bytes). Max 10 MB"@
}

/// Exactly three receipt types are accepted, PDF, JPEG and PNG: each of them is, and any
/// other text (another image type, a different case, extra characters) is not.
pub proof fn law_receipt_types(t: Seq<char>)
    ensures
        allowed_receipt_type("application/pdf"@),
        allowed_receipt_type("image/jpeg"@),
        allowed_receipt_type("image/png"@),
        t != "application/pdf"@ && t != "image/jpeg"@ && t != "image/png"@ ==> !allowed_receipt_type(t),
{
}

/// The checks made on what an upload declares, before its data is decoded: an accepted type
/// first, then a size within the limit.
pub fn check_receipt_metadata(file_type: &str, file_size: i64) -> (r: Result<(), Refusal>)
    ensures
        !allowed_receipt_type(file_type@) ==> refused_with(r, 400, bad_type_message(file_type@)),
        allowed_receipt_type(file_type@) && file_size > MAX_RECEIPT_BYTES
            ==> refused_with(r, 400, too_large_message(file_size as int)),
        r is Ok <==> (allowed_receipt_type(file_type@) && file_size <= MAX_RECEIPT_BYTES),
        r is Ok ==> (file_type@ == "application/pdf"@ || file_type@ == "image/jpeg"@ || file_type@ == "image/png"@)
            && file_size <= 10485760,
{
    if !(str_eq(file_type, "application/pdf") || str_eq(file_type, "image/jpeg") || str_eq(file_type, "image/png")) {
        let mut msg = chars_of("Invalid file type '");
        let t = chars_of(file_type);
        extend_chars(&mut msg, &t);
        let tail = chars_of("'. Allowed: PDF, JPG, PNG");
        extend_chars(&mut msg, &tail);
        return Err(refusal_of(400, msg));
    }
    if file_size > MAX_RECEIPT_BYTES {
        let mut msg = chars_of("File too large (");
        let n = i64_to_decimal(file_size);
        extend_chars(&mut msg, &n);
        let tail = chars_of(" bytes). Max 10 MB");
        extend_chars(&mut msg, &tail);
        return Err(refusal_of(400, msg));
    }
    Ok(())
}

/// The checks made on the decoded data: it must have decoded, and its length must be the
/// declared size.
pub fn check_receipt_data(decoded: Result<Vec<u8>, String>, file_size: i64) -> (r: Result<Vec<u8>, Refusal>)
    ensures
        match decoded {
            Err(_) => refused_with(r, 400, "Invalid base64 file data"@),
            Ok(d) => if d@.len() == file_size {
                r matches Ok(x) && x@ == d@
            } else {
                refused_with(r, 400, "Declared file_size does not match actual data length"@)
            },
        },
{
    match decoded {
        Err(_) => Err(refusal(400, "Invalid base64 file data")),
        Ok(d) => {
            if file_size < 0 || (d.len() as u64) != (file_size as u64) {
                Err(refusal(400, "Declared file_size does not match actual data length"))
            } else {
                Ok(d)
            }
        },
    }
}

/// Checks an upload as a whole: the declared type and size, then the base64 (standard
/// alphabet) data and its length. On success gives the decoded file.
pub fn check_receipt_upload(file_type: &str, file_size: i64, file_data_base64: &str) -> (r: Result<Vec<u8>, Refusal>)
    ensures
        !allowed_receipt_type(file_type@) ==> refused_with(r, 400, bad_type_message(file_type@)),
        allowed_receipt_type(file_type@) && file_size > MAX_RECEIPT_BYTES
            ==> refused_with(r, 400, too_large_message(file_size as int)),
        allowed_receipt_type(file_type@) && file_size <= MAX_RECEIPT_BYTES ==> match b64std_decode(file_data_base64@) {
            None => refused_with(r, 400, "Invalid base64 file data"@),
            Some(d) => if d.len() == file_size {
                r matches Ok(x) && x@ == d
            } else {
                refused_with(r, 400, "Declared file_size does not match actual data length"@)
            },
        },
{
    match check_receipt_metadata(file_type, file_size) {
        Err(e) => Err(e),
        Ok(()) => {
            let decoded = b64std_decode_text(file_data_base64);
            check_receipt_data(decoded, file_size)
        },
    }
}

/// The content fingerprint of a receipt: SHA-256 of the file, in lowercase hex. Two uploads
/// with the same content have the same fingerprint, which is how duplicates are refused.
pub fn receipt_fingerprint(data: &[u8]) -> (r: String)
    ensures
        r@ == hex_lower(sha256(data@)),
        r@.len() == 64,
{
    sha256_hex(data)
}

/// A receipt may be rejected only with a reason that is not blank.
pub fn check_rejection_reason(verified: bool, reason: Option<&str>) -> (r: Result<(), Refusal>)
    ensures
        r is Ok <==> (verified || (reason matches Some(t) && trim(t@).len() > 0)),
        r is Err ==> refused_with(r, 400, "Rejection reason is required when rejecting a receipt"@),
{
    if verified {
        return Ok(());
    }
    let blank = match reason {
        None => true,
        Some(t) => {
            let v = chars_of(t);
            let tv = trim_chars(&v);
            tv.len() == 0
        },
    };
    if blank {
        Err(refusal(400, "Rejection reason is required when rejecting a receipt"))
    } else {
        Ok(())
    }
}

} // verus!
