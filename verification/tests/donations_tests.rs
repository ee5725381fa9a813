use fund_transparency::donations::{check_donation, check_refund, new_pledge, pledge_number, refund_decision_outcome, reversal_amount};
use fund_transparency::enums::{PaymentMethod, ProjectStatus};

#[test]
fn donation_checks_in_order() {
    let e = check_donation(0, Some(ProjectStatus::Active), None, None, "p1").unwrap_err();
    assert_eq!((e.status, e.error.as_str()), (400, "Donation amount must be positive"));
    let e = check_donation(100, None, None, None, "p1").unwrap_err();
    assert_eq!((e.status, e.error.as_str()), (404, "Project not found"));
    let e = check_donation(100, Some(ProjectStatus::Funded), None, None, "p1").unwrap_err();
    assert_eq!((e.status, e.error.as_str()), (400, "Project is not accepting donations"));
    let e = check_donation(100, Some(ProjectStatus::Active), Some("bitcoin"), None, "p1").unwrap_err();
    assert_eq!((e.status, e.error.as_str()), (400, "Invalid payment method. Use: cash, check, card_terminal"));
    let e = check_donation(100, Some(ProjectStatus::Active), None, Some(None), "p1").unwrap_err();
    assert_eq!((e.status, e.error.as_str()), (404, "Budget line not found"));
    let e = check_donation(100, Some(ProjectStatus::Active), None, Some(Some("p2")), "p1").unwrap_err();
    assert_eq!((e.status, e.error.as_str()), (400, "Budget line does not belong to this project"));
}

#[test]
fn donation_budget_line_and_method() {
    assert_eq!(
        check_donation(500, Some(ProjectStatus::Active), Some("check"), Some(Some("p1")), "p1").unwrap(),
        PaymentMethod::Check
    );
    assert_eq!(check_donation(500, Some(ProjectStatus::Active), None, None, "p1").unwrap(), PaymentMethod::Cash);
}

#[test]
fn pledge_numbers() {
    assert_eq!(pledge_number("PLG-", "3f2a9c1d-aaaa-4bbb-8ccc-123456789abc"), "PLG-3F2A9C1D");
    assert_eq!(pledge_number("REF-", "abcdefgh"), "REF-ABCDEFGH");
    let (id, number) = new_pledge("PLG-");
    assert_eq!(id.len(), 36);
    assert_eq!(number, format!("PLG-{}", id[..8].to_uppercase()));
}

#[test]
fn refund_requires_original_donor() {
    assert!(check_refund(Some("donor1"), "donor1").is_ok());
    let e = check_refund(Some("donor1"), "other").unwrap_err();
    assert_eq!((e.status, e.error.as_str()), (403, "Only the original donor can request a refund for this donation"));
    let e = check_refund(None, "donor1").unwrap_err();
    assert_eq!((e.status, e.error.as_str()), (404, "Original donation not found"));
}

#[test]
fn reversal_records() {
    assert_eq!(reversal_amount(5000), -5000);
    assert_eq!(reversal_amount(-7), 7);
    assert_eq!(refund_decision_outcome(1, true).unwrap(), "Refund approved");
    assert_eq!(refund_decision_outcome(1, false).unwrap(), "Refund rejected");
    let e = refund_decision_outcome(0, true).unwrap_err();
    assert_eq!((e.status, e.error.as_str()), (404, "Refund not found or not a pending reversal"));
}

#[test]
fn pledge_number_shape() {
    for prefix in ["PLG-", "REF-"] {
        let (_, number) = new_pledge(prefix);
        assert_eq!(number.len(), 12);
        assert!(number.starts_with(prefix));
        assert!(number[4..].chars().all(|c| c.is_ascii_digit() || ('A'..='F').contains(&c)));
    }
}
