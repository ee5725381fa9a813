use fund_transparency::codec::{i64_to_decimal, parse_u64, u64_to_decimal};
use fund_transparency::enums::{
    CheckpointKind, DisclosureStatus, EventKind, ModerationStatus, PaymentMethod, ProjectStatus, ReceiptStatus, Role,
};

#[test]
fn enum_names_roundtrip() {
    for r in [Role::Supporter, Role::ProjectManager, Role::FinanceReviewer, Role::Administrator] {
        assert_eq!(Role::from_str(r.as_str()), Some(r));
    }
    assert_eq!(Role::from_str("root"), None);
    assert_eq!(ProjectStatus::from_str(ProjectStatus::Active.as_str()), Some(ProjectStatus::Active));
    assert_eq!(DisclosureStatus::from_str("approved"), Some(DisclosureStatus::Approved));
    assert_eq!(PaymentMethod::CardTerminal.as_str(), "card_terminal");
    assert_eq!(ReceiptStatus::from_str(ReceiptStatus::Rejected.as_str()), Some(ReceiptStatus::Rejected));
    assert_eq!(CheckpointKind::from_str("end"), Some(CheckpointKind::End));
    assert_eq!(EventKind::SessionStart.as_str(), "session_start");
    assert_eq!(ModerationStatus::from_str("pending_review"), Some(ModerationStatus::PendingReview));
}

#[test]
fn codecs() {
    assert_eq!(u64_to_decimal(1207).into_iter().collect::<String>(), "1207");
    assert_eq!(u64_to_decimal(0).into_iter().collect::<String>(), "0");
    assert_eq!(i64_to_decimal(-9).into_iter().collect::<String>(), "-9");
    assert_eq!(i64_to_decimal(i64::MIN).into_iter().collect::<String>(), "-9223372036854775808");
    assert_eq!(parse_u64(&['4', '2']), Some(42));
    assert_eq!(parse_u64(&['4', 'x']), None);
    assert_eq!(parse_u64(&[]), None);
}
