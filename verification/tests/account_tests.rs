use fund_transparency::account::{
    assigned_role, authenticate, bootstrap_allowed, check_registration, confirm_password, confirmation_required,
    decision_word, mask_email, parse_role_assignment, redemption_outcome, refund_action_name, sensitive_gate,
    ConfirmationStep,
};
use fund_transparency::auth::hash_password;
use fund_transparency::enums::Role;

#[test]
fn email_masking_in_ops_log() {
    assert_eq!(mask_email("john.doe@example.com"), "j***@example.com");
    assert_eq!(mask_email("a@b.co"), "a***@b.co");
    assert_eq!(mask_email("noemail"), "***");
}

#[test]
fn email_masking_edge_cases() {
    assert_eq!(mask_email("@host"), "****@host");
    assert_eq!(mask_email("x@y@z"), "x***@y@z");
}

#[test]
fn registration_needs_email_and_eight_byte_password() {
    assert!(check_registration("a@b.c", "12345678").is_ok());
    let e = check_registration("", "12345678").unwrap_err();
    assert_eq!(e.status, 400);
    assert_eq!(e.error, "Email required and password must be at least 8 characters");
    assert!(check_registration("a@b.c", "1234567").is_err());
    // four two-byte characters make eight bytes
    assert!(check_registration("a@b.c", "éééé").is_ok());
}

#[test]
fn register_never_creates_administrator() {
    assert_eq!(assigned_role(Role::Administrator), Role::Supporter);
    assert_eq!(assigned_role(Role::ProjectManager), Role::ProjectManager);
    assert_eq!(assigned_role(Role::FinanceReviewer), Role::FinanceReviewer);
    assert_eq!(assigned_role(Role::Supporter), Role::Supporter);
}

#[test]
fn login_failures_look_alike() {
    let hash = hash_password("pass1234").unwrap();
    assert!(authenticate("pass1234", Some(&hash)).is_ok());
    let a = authenticate("wrong", Some(&hash)).unwrap_err();
    let b = authenticate("pass1234", None).unwrap_err();
    assert_eq!((a.status, a.error.as_str()), (401, "Invalid credentials"));
    assert_eq!((b.status, b.error.as_str()), (401, "Invalid credentials"));
}

#[test]
fn password_reentry_errors() {
    let hash = hash_password("pass1234").unwrap();
    assert!(confirm_password("pass1234", Some(&hash)).is_ok());
    assert_eq!(confirm_password("x", Some(&hash)).unwrap_err().error, "Invalid password");
    assert_eq!(confirm_password("x", None).unwrap_err().error, "User not found");
}

#[test]
fn sensitive_gate_issues_then_redeems() {
    let hash = hash_password("pass1234").unwrap();
    assert!(matches!(sensitive_gate("pass1234", Some(&hash), None), Ok(ConfirmationStep::Issue)));
    match sensitive_gate("pass1234", Some(&hash), Some("tok".to_string())) {
        Ok(ConfirmationStep::Redeem(t)) => assert_eq!(t, "tok"),
        _ => panic!("expected a redemption step"),
    }
    assert_eq!(sensitive_gate("bad", Some(&hash), Some("tok".to_string())).unwrap_err().status, 401);
}

#[test]
fn confirmation_answers() {
    let r = confirmation_required("abc-123");
    assert_eq!(r.status, 428);
    assert_eq!(
        r.error,
        "{\"confirmation_token\":\"abc-123\",\"message\":\"Confirmation required. Resubmit with this token to execute.\"}"
    );
    assert!(redemption_outcome(true).is_ok());
    let e = redemption_outcome(false).unwrap_err();
    assert_eq!((e.status, e.error.as_str()), (409, "Invalid, expired, or already-used confirmation token"));
}

#[test]
fn decision_names() {
    assert_eq!(decision_word(true), "approved");
    assert_eq!(decision_word(false), "rejected");
    assert_eq!(refund_action_name(true), "approve_refund");
    assert_eq!(refund_action_name(false), "reject_refund");
}

#[test]
fn role_assignment_and_bootstrap() {
    assert_eq!(parse_role_assignment("finance_reviewer").unwrap(), Role::FinanceReviewer);
    let e = parse_role_assignment("superuser").unwrap_err();
    assert_eq!((e.status, e.error.as_str()), (400, "Invalid role"));
    assert!(bootstrap_allowed(0).is_ok());
    let e = bootstrap_allowed(1).unwrap_err();
    assert_eq!(e.status, 409);
    assert_eq!(e.error, "An administrator already exists. Use the role assignment endpoint instead.");
}
