use fund_transparency::types::WebhookConfig;
use fund_transparency::webhooks::{
    delivery_step, delivery_summary, is_local_url, new_webhook_secret, prepare_webhook, webhook_from_row,
    webhook_signature, webhooks_for_event,
};

#[test]
fn webhook_rejects_public_urls() {
    assert!(is_local_url("http://10.0.0.1/hook"));
    assert!(is_local_url("http://192.168.1.1/hook"));
    assert!(is_local_url("http://172.16.0.1/hook"));
    assert!(!is_local_url("http://8.8.8.8/hook"));
    assert!(!is_local_url("http://203.0.113.1/hook"));
}

#[test]
fn local_hosts_and_schemes() {
    assert!(is_local_url("http://localhost:8080/x"));
    assert!(is_local_url("http://printer.local/x"));
    assert!(is_local_url("http://[::1]:9000/x"));
    assert!(is_local_url("http://127.0.0.1/x"));
    assert!(is_local_url("http://169.254.1.1/x"));
    assert!(!is_local_url("https://localhost/x"));
    assert!(!is_local_url("http://example.com/x"));
    assert!(!is_local_url("http://172.32.0.1/x"));
    assert!(!is_local_url("not a url"));
    assert!(!is_local_url("http://[2001:db8::1]/x"));
}

fn hook(id: &str, enabled: bool, types: &[&str]) -> WebhookConfig {
    WebhookConfig {
        id: id.to_string(),
        name: id.to_string(),
        url: "http://localhost/".to_string(),
        secret: "s".to_string(),
        event_types: types.iter().map(|t| t.to_string()).collect(),
        enabled,
        created_at: "2024-01-01 00:00:00".to_string(),
    }
}

#[test]
fn hooks_for_event_keep_order() {
    let hooks = vec![
        hook("a", true, &["donation.created"]),
        hook("b", true, &["*"]),
        hook("c", false, &["donation.created"]),
        hook("d", true, &["event.view"]),
    ];
    let ids: Vec<String> = webhooks_for_event(hooks, "donation.created").into_iter().map(|h| h.id).collect();
    assert_eq!(ids, vec!["a".to_string(), "b".to_string()]);
}

#[test]
fn signatures_are_hex_hmac() {
    assert_eq!(
        webhook_signature("secret", "{\"a\":1}"),
        "aa9e2e3575f5d7098b6caccd790888c36d5fdb63342a73bada2d6a51747a8494"
    );
    let s = new_webhook_secret();
    assert_eq!(s.len(), 64);
    assert!(s.chars().all(|c| c.is_ascii_hexdigit()));
}

#[test]
fn delivery_summary_cuts_at_200_bytes() {
    let short = "x".repeat(200);
    assert_eq!(delivery_summary(&short), short);
    let long = "y".repeat(250);
    assert_eq!(delivery_summary(&long), format!("{}...", "y".repeat(200)));
}

#[test]
fn event_types_roundtrip() {
    let types = vec!["donation.created".to_string(), "event.\"quoted\"".to_string()];
    let hook = prepare_webhook("http://192.168.0.10/hook", &types).unwrap();
    assert_eq!(hook.event_types_json, "[\"donation.created\",\"event.\\\"quoted\\\"\"]");
    assert_eq!(hook.secret.len(), 64);
    let stored = webhook_from_row(
        "w1".to_string(),
        "n".to_string(),
        "http://192.168.0.10/hook".to_string(),
        hook.secret.clone(),
        &hook.event_types_json,
        1,
        "2024-01-01 00:00:00".to_string(),
    );
    assert_eq!(stored.event_types, types);
    assert!(stored.enabled);
    let unreadable = webhook_from_row("w2".to_string(), "n".to_string(), "u".to_string(), "s".to_string(), "not json", 0, "t".to_string());
    assert!(unreadable.event_types.is_empty());
    assert!(!unreadable.enabled);
}

#[test]
fn public_webhook_urls_are_refused() {
    let e = prepare_webhook("http://example.com/hook", &[]).unwrap_err();
    assert_eq!((e.status, e.error.as_str()), (400, "Webhooks are only supported for on-prem devices on the local network"));
}

#[test]
fn delivery_retry_schedule() {
    let s = delivery_step(1, Ok(204));
    assert!(s.success);
    assert_eq!(s.status_code, Some(204));
    assert_eq!(s.retry_after_secs, None);
    let s = delivery_step(1, Ok(500));
    assert!(!s.success);
    assert_eq!(s.retry_after_secs, Some(1));
    let s = delivery_step(2, Err("timeout".to_string()));
    assert_eq!(s.error, Some("timeout".to_string()));
    assert_eq!(s.status_code, None);
    assert_eq!(s.retry_after_secs, Some(2));
    let s = delivery_step(3, Ok(404));
    assert_eq!(s.retry_after_secs, Some(4));
    let s = delivery_step(4, Ok(404));
    assert_eq!(s.retry_after_secs, None);
    let s = delivery_step(4, Err("refused".to_string()));
    assert_eq!(s.retry_after_secs, None);
}
