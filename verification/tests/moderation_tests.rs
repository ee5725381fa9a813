use fund_transparency::moderation::{
    admit_comment, check_sensitive_words, join_sensitive_words, parse_sensitive_words, words_in_lowered_text,
};
use fund_transparency::types::ModerationConfig;

#[test]
fn sensitive_word_filter() {
    let words = vec!["spam".to_string(), "scam".to_string()];
    let matched = check_sensitive_words("This is a scam project", &words);
    assert_eq!(matched, vec!["scam".to_string()]);

    let clean = check_sensitive_words("This is a great project", &words);
    assert!(clean.is_empty());
}

#[test]
fn sensitive_words_match_case_insensitively_and_skip_empty() {
    let words = vec!["".to_string(), "SCAM".to_string(), "fraud".to_string()];
    let matched = check_sensitive_words("A Fraudulent scam", &words);
    assert_eq!(matched, vec!["SCAM".to_string(), "fraud".to_string()]);
}

#[test]
fn stored_word_list_roundtrip() {
    let words = vec!["spam".to_string(), "scam".to_string()];
    let stored = join_sensitive_words(&words);
    assert_eq!(stored, "spam,scam");
    assert_eq!(parse_sensitive_words(&stored), words);
    assert_eq!(parse_sensitive_words(" a , ,b,"), vec!["a".to_string(), "b".to_string()]);
    assert!(parse_sensitive_words("").is_empty());
}

fn config(enabled: bool, pre: bool) -> ModerationConfig {
    ModerationConfig {
        comments_enabled: enabled,
        require_pre_moderation: pre,
        sensitive_words: vec!["spam".to_string(), "scam".to_string()],
    }
}

#[test]
fn comments_disabled_are_refused() {
    let e = admit_comment(&config(false, false), "hello").unwrap_err();
    assert_eq!(e.status, 403);
    assert_eq!(e.error, "Comments are currently disabled");
}

#[test]
fn comment_with_sensitive_words_is_refused_naming_them() {
    let e = admit_comment(&config(true, false), "spam and SCAM").unwrap_err();
    assert_eq!(e.status, 400);
    assert_eq!(e.error, "Comment contains disallowed words: spam, scam");
}

#[test]
fn comment_admission_follows_pre_moderation() {
    let a = admit_comment(&config(true, true), "fine words").unwrap();
    assert_eq!(a.moderation_status, "pending_review");
    assert_eq!(a.message, "Comment submitted for moderation review");
    let b = admit_comment(&config(true, false), "fine words").unwrap();
    assert_eq!(b.moderation_status, "approved");
    assert_eq!(b.message, "Comment posted");
}

#[test]
fn matching_in_lowered_text() {
    let words = vec!["Scam".to_string(), "".to_string(), "x".to_string()];
    let lowered = vec!["scam".to_string(), "".to_string(), "y".to_string()];
    assert_eq!(words_in_lowered_text("a scam here", &words, &lowered), vec!["Scam".to_string()]);
}
