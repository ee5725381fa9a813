use fund_transparency::notify::{
    is_within_dnd, local_hhmm, notification_deferred, notification_deferred_at, offset_in_range, update_notice,
    utc_offset_secs,
};
use fund_transparency::types::default_timezone;

#[test]
fn dnd_windows() {
    assert!(is_within_dnd("22:30", "21:00", "07:00"));
    assert!(is_within_dnd("06:59", "21:00", "07:00"));
    assert!(!is_within_dnd("12:00", "21:00", "07:00"));
    assert!(is_within_dnd("13:00", "12:00", "14:00"));
    assert!(!is_within_dnd("14:00", "12:00", "14:00"));
}

#[test]
fn timezone_offsets() {
    assert_eq!(utc_offset_secs("UTC"), 0);
    assert_eq!(utc_offset_secs(" gmt "), 0);
    assert_eq!(utc_offset_secs("+05:30"), 19800);
    assert_eq!(utc_offset_secs("-08:00"), -28800);
    assert_eq!(utc_offset_secs("+24:00"), 0);
    assert_eq!(utc_offset_secs("Europe/Paris"), 0);
    assert!(offset_in_range("+05:30"));
    assert!(!offset_in_range("+999999:00"));
    assert_eq!(default_timezone(), "UTC");
}

#[test]
fn local_clock() {
    // 2024-01-01 22:30:00 UTC
    let ts: i64 = 1_704_148_200;
    assert_eq!(local_hhmm(ts, 0), "22:30");
    assert_eq!(local_hhmm(ts, 19800), "04:00");
}

#[test]
fn quiet_window_defers_at_night() {
    let ts: i64 = 1_704_148_200; // 22:30 UTC
    assert!(notification_deferred_at("21:00", "07:00", "UTC", ts));
    assert!(notification_deferred_at("21:00", "07:00", "+05:30", ts)); // 04:00 local is quiet too
}

#[test]
fn quiet_window_allows_midday() {
    let ts: i64 = 1_704_110_400; // 12:00 UTC
    assert!(!notification_deferred_at("21:00", "07:00", "UTC", ts));
    assert!(!notification_deferred_at("21:00", "07:00", "+05:30", ts)); // 17:30 local
    assert!(!notification_deferred(None));
}

#[test]
fn update_notices() {
    let (title, body) = update_notice("Bought seeds", "Pat");
    assert_eq!(title, "New update: Bought seeds");
    assert_eq!(body, "Pat posted an update on a project you follow");
}

#[test]
fn quiet_window_and_its_complement_split_the_day() {
    for now in ["00:00", "06:59", "07:00", "12:00", "20:59", "21:00", "23:59"] {
        assert_ne!(is_within_dnd(now, "21:00", "07:00"), is_within_dnd(now, "07:00", "21:00"));
        assert_ne!(is_within_dnd(now, "09:00", "17:00"), is_within_dnd(now, "17:00", "09:00"));
    }
}
