use fund_transparency::display::{
    delete_click, donation_label, event_flags_label, fulfillment_status_label, nonempty, or_dash, pager, projects_path,
    proof_link, refund_click, refund_warning, report_query, short_id, total_pages, ClickOutcome,
};
use fund_transparency::enums::EventKind;
use fund_transparency::events::{burst_actor, burst_log_detail, classify_event, event_webhook_name, track_message};
use fund_transparency::display::{code_message, data_url_payload, delete_click_message, reason_to_send, receipt_file_check, refund_click_message, upload_message};
use fund_transparency::display::unread_summary;
use fund_transparency::types::Notification;
use fund_transparency::display::{dwell_event, impression_event};
use fund_transparency::display::{auth_guard, nav_sections, role_guard, staff_page_open, GuardOutcome};
use fund_transparency::enums::Role;

#[test]
fn burst_threshold_marks_suspicious() {
    assert!(!classify_event(0, 20).is_suspicious);
    assert!(classify_event(0, 21).is_suspicious);
}

#[test]
fn recent_match_marks_duplicate() {
    assert!(classify_event(1, 0).is_duplicate);
    assert!(!classify_event(0, 0).is_duplicate);
    assert_eq!(track_message(true), "Event recorded (duplicate)");
    assert_eq!(track_message(false), "Event recorded");
}

#[test]
fn event_names_and_logs() {
    assert_eq!(event_webhook_name(EventKind::DwellTime), "event.dwell_time");
    assert_eq!(burst_actor(None), "anonymous");
    assert_eq!(burst_actor(Some("u1")), "u1");
    assert_eq!(burst_log_detail("s-1"), "Suspicious event burst from session s-1");
}

#[test]
fn form_values_and_labels() {
    assert_eq!(nonempty(""), None);
    assert_eq!(nonempty("x"), Some("x".to_string()));
    assert_eq!(donation_label(false, None), "Donation");
    assert_eq!(donation_label(true, Some(true)), "Refund (Approved)");
    assert_eq!(donation_label(true, Some(false)), "Refund (Rejected)");
    assert_eq!(donation_label(true, None), "Refund (Pending)");
    assert_eq!(fulfillment_status_label(true), "Complete");
    assert_eq!(fulfillment_status_label(false), "In Progress");
    assert_eq!(or_dash(&None), "-");
    assert_eq!(or_dash(&Some("t".to_string())), "t");
    assert_eq!(proof_link("f1"), "/fulfillment/f1/proof");
    assert_eq!(event_flags_label(true, true), "DUP SUS");
    assert_eq!(event_flags_label(false, true), "SUS");
    assert_eq!(event_flags_label(false, false), "");
    assert_eq!(short_id("0123456789"), "01234567");
    assert_eq!(short_id("9f1c2d3e-aaaa-bbbb"), "9f1c2d3e");
}

#[test]
fn pagination() {
    assert_eq!(total_pages(0, 20), 0);
    assert_eq!(total_pages(41, 20), 3);
    assert_eq!(total_pages(-25, 10), -1);
    assert_eq!(total_pages(9, -4), -1);
    assert_eq!(total_pages(i64::MIN + 1, 1), i64::MIN + 1);
    let p = pager(1, 3);
    assert!(p.shown && p.previous_disabled && !p.next_disabled);
    assert_eq!(p.label, "Page 1 of 3");
    assert!(!pager(1, 1).shown);
    assert!(pager(3, 3).next_disabled);
}

#[test]
fn two_click_confirmations() {
    let armed = Some(("d1".to_string(), true));
    assert_eq!(refund_click(&None, "d1", true, "pw"), ClickOutcome::Arm);
    assert_eq!(refund_click(&armed, "d1", false, "pw"), ClickOutcome::Arm);
    assert_eq!(refund_click(&armed, "d1", true, ""), ClickOutcome::NeedPassword);
    assert_eq!(refund_click(&armed, "d1", true, "pw"), ClickOutcome::Submit);
    assert_eq!(delete_click(Some("c1"), "c2", "pw"), ClickOutcome::Arm);
    assert_eq!(delete_click(Some("c1"), "c1", "pw"), ClickOutcome::Submit);
    assert_eq!(
        refund_warning("d1", false),
        "You are about to reject refund d1. Enter your password and click the button again to confirm."
    );
}

#[test]
fn request_paths() {
    assert_eq!(projects_path(None, None, None, None, 1), "/projects?page=1");
    assert_eq!(
        projects_path(Some("health"), None, Some("12345"), Some("water"), 2),
        "/projects?page=2&cause=health&zip_code=12345&search=water"
    );
    assert_eq!(report_query(None, None, None, None), "");
    assert_eq!(report_query(Some("2024-01-01"), None, None, Some("active")), "?from=2024-01-01&status=active");
}

#[test]
fn page_messages() {
    assert_eq!(code_message("000042", "2024-01-01 10:10:00"), "Code: 000042 (expires: 2024-01-01 10:10:00)");
    assert_eq!(refund_click_message(ClickOutcome::Arm), Some("Please re-enter your password and click again to confirm."));
    assert_eq!(refund_click_message(ClickOutcome::NeedPassword), Some("Password is required to confirm this action"));
    assert_eq!(refund_click_message(ClickOutcome::Submit), None);
    assert_eq!(delete_click_message(ClickOutcome::NeedPassword), Some("Enter your password to confirm deletion"));
    assert_eq!(delete_click_message(ClickOutcome::Arm), None);
    assert_eq!(receipt_file_check("text/plain", 1), Some("Invalid file type: text/plain. Use PDF, JPG, or PNG.".to_string()));
    assert_eq!(receipt_file_check("image/png", 20 * 1024 * 1024), Some("File too large. Maximum 10 MB.".to_string()));
    assert_eq!(receipt_file_check("application/pdf", 100), None);
    assert_eq!(data_url_payload("data:image/png;base64,aGVsbG8="), "aGVsbG8=");
    assert_eq!(data_url_payload("no comma"), "");
    assert_eq!(reason_to_send(true, "x"), None);
    assert_eq!(reason_to_send(false, "blurry"), Some("blurry".to_string()));
    assert_eq!(
        upload_message("r.pdf", "ba7816bf8f01cfea414140de5dae2223b00361a396177a9cb410ff61f20015ad"),
        "Receipt uploaded: r.pdf (SHA256: ba7816bf8f01cfea)"
    );
}

#[test]
fn notification_heading() {
    let n = |read: bool| Notification {
        id: "n".to_string(),
        user_id: "u".to_string(),
        title: "t".to_string(),
        body: "b".to_string(),
        is_read: read,
        is_deferred: false,
        created_at: "2024-01-01 00:00:00".to_string(),
    };
    assert_eq!(unread_summary(&[n(true), n(false), n(false)]), "2 unread of 3 total");
    assert_eq!(unread_summary(&[]), "0 unread of 0 total");
}

#[test]
fn page_analytics_events() {
    assert!(impression_event("", "s").is_none());
    let e = impression_event("p1", "s1").unwrap();
    assert_eq!(e.event_kind, EventKind::Impression);
    assert_eq!((e.target_type.as_str(), e.target_id.as_str(), e.session_id.as_str()), ("project", "p1", "s1"));
    let d = dwell_event("p1", "s1", 1_000, 4_500).unwrap();
    assert_eq!(d.event_kind, EventKind::DwellTime);
    assert_eq!(d.dwell_ms, Some(3_500));
    assert!(dwell_event("", "s1", 0, 1).is_none());
}

#[test]
fn guards_and_navigation() {
    assert_eq!(auth_guard(false), GuardOutcome::Login);
    assert_eq!(auth_guard(true), GuardOutcome::Show);
    let allowed = [Role::FinanceReviewer, Role::Administrator];
    assert_eq!(role_guard(false, None, &allowed), GuardOutcome::Login);
    assert_eq!(role_guard(true, Some(Role::Supporter), &allowed), GuardOutcome::Denied);
    assert_eq!(role_guard(true, None, &allowed), GuardOutcome::Denied);
    assert_eq!(role_guard(true, Some(Role::Administrator), &allowed), GuardOutcome::Show);
    let n = nav_sections(Some(Role::FinanceReviewer));
    assert!(n.staff && n.finance && !n.admin);
    let n = nav_sections(Some(Role::Supporter));
    assert!(!n.staff && !n.finance && !n.admin);
    assert!(staff_page_open(Some(Role::ProjectManager)));
    assert!(!staff_page_open(Some(Role::FinanceReviewer)));
}
