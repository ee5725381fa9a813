use fund_transparency::enums::CheckpointKind;
use fund_transparency::fulfillment::{
    check_checkpoint_timing, checkpoint_code_text, checkpoint_column, checkpoint_timing_rule, new_checkpoint_code,
    record_checkpoint_at, service_proof, service_record_hash,
};
use fund_transparency::types::FulfillmentRecord;

fn record(arrival: Option<&str>, start: Option<&str>, end: Option<&str>, complete: bool) -> FulfillmentRecord {
    FulfillmentRecord {
        id: "f1".to_string(),
        project_id: "p1".to_string(),
        arrival_at: arrival.map(|s| s.to_string()),
        start_at: start.map(|s| s.to_string()),
        end_at: end.map(|s| s.to_string()),
        arrival_code: None,
        start_code: None,
        end_code: None,
        is_complete: complete,
        service_record_hash: if complete { Some("h".to_string()) } else { None },
        created_at: "2024-01-01 00:00:00".to_string(),
    }
}

#[test]
fn checkpoint_order_is_enforced() {
    let e = check_checkpoint_timing(CheckpointKind::Start, None, None, "2024-01-01 10:00:00").unwrap_err();
    assert_eq!((e.status, e.error.as_str()), (400, "Arrival must be recorded before start"));
    let e = check_checkpoint_timing(CheckpointKind::End, Some("2024-01-01 09:00:00"), None, "2024-01-01 10:00:00").unwrap_err();
    assert_eq!((e.status, e.error.as_str()), (400, "Start must be recorded before end"));
    assert!(check_checkpoint_timing(CheckpointKind::Arrival, None, None, "2024-01-01 10:00:00").is_ok());
}

#[test]
fn start_within_two_whole_hours_of_arrival() {
    let arrival = Some("2024-01-01 08:00:00");
    assert!(check_checkpoint_timing(CheckpointKind::Start, arrival, None, "2024-01-01 10:59:59").is_ok());
    let e = check_checkpoint_timing(CheckpointKind::Start, arrival, None, "2024-01-01 11:00:00").unwrap_err();
    assert_eq!((e.status, e.error.as_str()), (400, "Start must be within 2 hours of arrival"));
    // an unreadable arrival time does not block
    assert!(check_checkpoint_timing(CheckpointKind::Start, Some("garbage"), None, "2024-01-01 11:00:00").is_ok());
}

#[test]
fn end_strictly_after_start() {
    let start = Some("2024-01-01 10:00:00");
    let e = check_checkpoint_timing(CheckpointKind::End, None, start, "2024-01-01 10:00:00").unwrap_err();
    assert_eq!((e.status, e.error.as_str()), (400, "End timestamp must be strictly after start timestamp"));
    assert!(check_checkpoint_timing(CheckpointKind::End, None, start, "2024-01-01 10:00:01").is_ok());
}

#[test]
fn timing_rule_on_given_comparisons() {
    assert!(checkpoint_timing_rule(CheckpointKind::Start, true, false, Some(2), None).is_ok());
    assert!(checkpoint_timing_rule(CheckpointKind::Start, true, false, Some(3), None).is_err());
    assert!(checkpoint_timing_rule(CheckpointKind::Start, true, false, None, None).is_ok());
    assert!(checkpoint_timing_rule(CheckpointKind::End, false, true, None, Some(false)).is_ok());
    assert!(checkpoint_timing_rule(CheckpointKind::End, false, true, None, Some(true)).is_err());
}

#[test]
fn checkpoint_codes_are_six_digits() {
    assert_eq!(checkpoint_code_text(42), "000042");
    assert_eq!(checkpoint_code_text(999_999), "999999");
    let (code, svg) = new_checkpoint_code();
    assert_eq!(code.len(), 6);
    assert!(code.chars().all(|c| c.is_ascii_digit()));
    assert!(svg.unwrap().contains("<svg"));
}

#[test]
fn checkpoint_columns() {
    assert_eq!(checkpoint_column("arrival"), Some("arrival_at"));
    assert_eq!(checkpoint_column("start"), Some("start_at"));
    assert_eq!(checkpoint_column("end"), Some("end_at"));
    assert_eq!(checkpoint_column("lunch"), None);
}

#[test]
fn record_hash_needs_all_three_times() {
    let f = record(Some("a"), Some("s"), None, false);
    assert_eq!(service_record_hash(&f), None);
    let f = record(Some("2024-01-01 08:00:00"), Some("2024-01-01 09:00:00"), Some("2024-01-01 10:00:00"), false);
    // sha256("f1|p1|2024-01-01 08:00:00|2024-01-01 09:00:00|2024-01-01 10:00:00")
    let h = service_record_hash(&f).unwrap();
    assert_eq!(h, "a2bda9d5e511dac49818eb8a5946921fbf38357ed28316845a63077cb99a2e4b");
    let g = record(Some("2024-01-01 08:00:00"), Some("2024-01-01 09:00:00"), Some("2024-01-01 10:00:01"), false);
    assert_ne!(service_record_hash(&g).unwrap(), h);
}

#[test]
fn service_proof_needs_completion() {
    let f = record(Some("a"), None, None, false);
    let e = service_proof(&f, "Title", "now").unwrap_err();
    assert_eq!((e.status, e.error.as_str()), (400, "Fulfillment not yet complete"));
    let f = record(Some("a"), Some("b"), None, true);
    let p = service_proof(&f, "Title", "now").unwrap();
    assert_eq!(p.arrival_at, "a");
    assert_eq!(p.start_at, "b");
    assert_eq!(p.end_at, "");
    assert_eq!(p.service_record_hash, "h");
    assert_eq!(p.project_title, "Title");
}

#[test]
fn recording_checkpoints_keeps_their_order() {
    let f = record(None, None, None, false);
    let e = record_checkpoint_at(f.clone(), CheckpointKind::End, "2024-01-01 10:00:00").unwrap_err();
    assert_eq!((e.status, e.error.as_str()), (400, "Start must be recorded before end"));
    let f = record_checkpoint_at(f, CheckpointKind::Arrival, "2024-01-01 08:00:00").unwrap();
    assert_eq!(f.arrival_at.as_deref(), Some("2024-01-01 08:00:00"));
    assert!(f.start_at.is_none() && !f.is_complete);
    let f = record_checkpoint_at(f, CheckpointKind::Start, "2024-01-01 09:00:00").unwrap();
    assert_eq!(f.start_at.as_deref(), Some("2024-01-01 09:00:00"));
    let e = record_checkpoint_at(f.clone(), CheckpointKind::End, "2024-01-01 09:00:00").unwrap_err();
    assert_eq!((e.status, e.error.as_str()), (400, "End timestamp must be strictly after start timestamp"));
    let f = record_checkpoint_at(f, CheckpointKind::End, "2024-01-01 10:00:00").unwrap();
    assert!(f.is_complete);
    assert_eq!(
        f.service_record_hash.as_deref(),
        Some("a2bda9d5e511dac49818eb8a5946921fbf38357ed28316845a63077cb99a2e4b")
    );
}
