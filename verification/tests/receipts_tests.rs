use fund_transparency::receipts::{
    check_receipt_data, check_receipt_metadata, check_receipt_upload, check_rejection_reason, receipt_fingerprint,
};

#[test]
fn receipt_type_and_size_checks() {
    let e = check_receipt_metadata("text/plain", 10).unwrap_err();
    assert_eq!((e.status, e.error.as_str()), (400, "Invalid file type 'text/plain'. Allowed: PDF, JPG, PNG"));
    let e = check_receipt_metadata("image/png", 10 * 1024 * 1024 + 1).unwrap_err();
    assert_eq!((e.status, e.error.as_str()), (400, "File too large (10485761 bytes). Max 10 MB"));
    assert!(check_receipt_metadata("application/pdf", 10 * 1024 * 1024).is_ok());
    assert!(check_receipt_metadata("image/jpeg", 1).is_ok());
}

#[test]
fn receipt_data_must_decode_and_match_size() {
    assert_eq!(check_receipt_upload("image/png", 5, "aGVsbG8=").unwrap(), b"hello".to_vec());
    let e = check_receipt_upload("image/png", 6, "aGVsbG8=").unwrap_err();
    assert_eq!((e.status, e.error.as_str()), (400, "Declared file_size does not match actual data length"));
    let e = check_receipt_upload("image/png", 5, "not base64!").unwrap_err();
    assert_eq!((e.status, e.error.as_str()), (400, "Invalid base64 file data"));
    let e = check_receipt_data(Ok(vec![1, 2, 3]), -3).unwrap_err();
    assert_eq!(e.status, 400);
}

#[test]
fn fingerprint_is_sha256_of_bytes() {
    assert_eq!(receipt_fingerprint(b"abc"), "ba7816bf8f01cfea414140de5dae2223b00361a396177a9cb410ff61f20015ad");
    assert_eq!(receipt_fingerprint(b"same content"), receipt_fingerprint(b"same content"));
    assert_ne!(receipt_fingerprint(b"same content"), receipt_fingerprint(b"other content"));
}

#[test]
fn rejection_needs_nonblank_reason() {
    assert!(check_rejection_reason(true, None).is_ok());
    assert!(check_rejection_reason(false, Some("blurry scan")).is_ok());
    let e = check_rejection_reason(false, None).unwrap_err();
    assert_eq!((e.status, e.error.as_str()), (400, "Rejection reason is required when rejecting a receipt"));
    assert!(check_rejection_reason(false, Some("   ")).is_err());
}
