use fund_transparency::access::{
    bearer_token, nonce_check, nonce_outcome, project_owner_check, rate_limit_key, role_allowed, staff_data_check,
    NonceCheck,
};
use fund_transparency::enums::Role;
use fund_transparency::ratelimit::RateLimitState;

#[test]
fn rate_limiter_separates_anonymous_by_key() {
    let mut rl = RateLimitState::new(2, 60);
    // Two different "anonymous" IPs
    assert!(rl.check("anon:1.2.3.4"));
    assert!(rl.check("anon:1.2.3.4"));
    assert!(!rl.check("anon:1.2.3.4")); // 3rd request: exhausted
    // Different IP still has its own budget
    assert!(rl.check("anon:5.6.7.8"));
    assert!(rl.check("anon:5.6.7.8"));
    assert!(!rl.check("anon:5.6.7.8")); // exhausted for this IP too
}

#[test]
fn rate_limiter_window_slides() {
    let mut rl = RateLimitState::new(1, 60);
    let sec: u64 = 1_000_000_000;
    assert!(rl.check_at("k", 0));
    assert!(!rl.check_at("k", 59 * sec));
    assert!(rl.check_at("k", 61 * sec));
}

#[test]
fn rate_limit_keys() {
    assert_eq!(rate_limit_key(Some("Bearer t"), Some("1.1.1.1"), None), "Bearer t");
    assert_eq!(rate_limit_key(None, Some(" 9.9.9.9 , 10.0.0.1"), Some("8.8.8.8")), "anon:9.9.9.9");
    assert_eq!(rate_limit_key(None, None, Some("8.8.8.8")), "anon:8.8.8.8");
    assert_eq!(rate_limit_key(None, None, None), "anon:unknown");
}

#[test]
fn bearer_prefix_is_stripped() {
    assert_eq!(bearer_token("Bearer abc"), "abc");
    assert_eq!(bearer_token("Bearer Bearer abc"), "abc");
    assert_eq!(bearer_token("abc"), "abc");
}

#[test]
fn nonce_gate() {
    assert!(matches!(nonce_check(true, false), NonceCheck::Pass));
    assert!(matches!(nonce_check(false, false), NonceCheck::Missing));
    assert!(matches!(nonce_check(false, true), NonceCheck::Consume));
    assert_eq!(nonce_outcome(true), None);
    assert_eq!(nonce_outcome(false), Some(409));
}

#[test]
fn roles_and_ownership() {
    assert!(role_allowed(Role::Administrator, &[Role::ProjectManager, Role::Administrator]));
    assert!(!role_allowed(Role::Supporter, &[Role::ProjectManager, Role::Administrator]));
    assert_eq!(project_owner_check(Some(Role::ProjectManager), "pm1", Some("pm1")), Ok(()));
    assert_eq!(project_owner_check(Some(Role::ProjectManager), "pm2", Some("pm1")), Err(403));
    assert_eq!(project_owner_check(Some(Role::Administrator), "a", Some("pm1")), Ok(()));
    assert_eq!(project_owner_check(Some(Role::ProjectManager), "pm1", None), Err(404));
    assert_eq!(staff_data_check(Some(Role::FinanceReviewer), "f", Some("pm1")), Ok(()));
}

#[test]
fn project_ownership_check() {
    // proj1 is managed by mgr1
    let manager = Some("mgr1");
    // mgr1 owns it
    assert!(project_owner_check(Some(Role::ProjectManager), "mgr1", manager).is_ok());
    // mgr2 does NOT own it
    assert!(project_owner_check(Some(Role::ProjectManager), "mgr2", manager).is_err());
    // admin bypasses ownership
    assert!(project_owner_check(Some(Role::Administrator), "admin1", manager).is_ok());
}
