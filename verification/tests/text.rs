use benten::engine::BentenConfig;
use benten::text::{pop_last, same_text, starts_with, visible};
use benten::BentenError;

#[test]
fn starts_with_compares_characters() {
    assert!(starts_with("qqq", "qq"));
    assert!(starts_with("qq", "qq"));
    assert!(starts_with("qq", ""));
    assert!(!starts_with("q", "qq"));
    assert!(!starts_with("aq", "q"));
    assert!(starts_with("日月", "日"));
    assert!(!starts_with("日月", "月"));
}

#[test]
fn pop_last_takes_one_character() {
    let mut s = "日月".to_string();
    pop_last(&mut s);
    assert_eq!(s, "日");
    pop_last(&mut s);
    assert_eq!(s, "");
    pop_last(&mut s);
    assert_eq!(s, "");
}

#[test]
fn same_text_is_equality() {
    assert!(same_text("COMMIT", "COMMIT"));
    assert!(!same_text("COMMIT", "COMMI"));
    assert!(!same_text("NEXT", "PREV"));
    assert!(same_text("", ""));
}

#[test]
fn visible_drops_white_space() {
    assert_eq!(visible("japanese\n"), "japanese");
    assert_eq!(visible(" ka na\t\r\n"), "kana");
    assert_eq!(visible("\u{3000}日\u{a0}"), "日");
    assert_eq!(visible(""), "");
}

#[test]
fn config_id_is_cleaned() {
    let cfg = BentenConfig::new("japanese\n", "/etc/benten".to_string());
    assert_eq!(cfg.id, "japanese");
    assert_eq!(cfg.dir, "/etc/benten");
}

#[test]
fn error_message_is_the_text() {
    assert_eq!(BentenError::IoError("no file".to_string()).message(), "no file");
    assert_eq!(BentenError::ParseError("bad".to_string()).message(), "bad");
    assert_eq!(BentenError::MethodNotFound("kana".to_string()).message(), "kana");
}
