use bxt_rs::pattern::{Pattern, Patterns};

fn pattern(text: &str) -> Pattern {
    Pattern::parse(text).expect("pattern text parses")
}

#[test]
fn parse_reads_bytes_and_wildcards() {
    let p = pattern("55 8B ?? 0f");
    let memory = [0x55u8, 0x8B, 0x42, 0x0F];
    assert_eq!(p.find(&memory), Some(0));
    let other = [0x55u8, 0x8B, 0x42, 0x0E];
    assert_eq!(p.find(&other), None);
}

#[test]
fn parse_accepts_the_empty_text() {
    let p = pattern("");
    assert_eq!(p.find(&[]), Some(0));
    assert_eq!(p.find(&[1, 2, 3]), Some(0));
}

#[test]
fn parse_rejects_malformed_text() {
    assert!(Pattern::parse("5").is_none());
    assert!(Pattern::parse("55  8B").is_none());
    assert!(Pattern::parse("GG").is_none());
    assert!(Pattern::parse("55 ").is_none());
    assert!(Pattern::parse("55,8B").is_none());
    assert!(Pattern::parse("?5").is_none());
    assert!(Pattern::parse("558B").is_none());
}

#[test]
fn find_gives_the_first_occurrence() {
    let p = pattern("AA ?? CC");
    let memory = [0u8, 0xAA, 0x01, 0xCC, 0xAA, 0x02, 0xCC];
    assert_eq!(p.find(&memory), Some(1));
    assert!(p.matches_at(&memory, 4));
    assert!(!p.matches_at(&memory, 2));
    assert!(!p.matches_at(&memory, 5));
}

#[test]
fn find_fails_on_memory_shorter_than_the_pattern() {
    let p = pattern("AA BB CC");
    assert_eq!(p.find(&[0xAA, 0xBB]), None);
    assert!(!p.matches_at(&[0xAA, 0xBB, 0xCC], 1));
}

#[test]
fn find_matches_at_the_very_end() {
    let p = pattern("BB CC");
    assert_eq!(p.find(&[0xAA, 0xBB, 0xCC]), Some(1));
}

#[test]
fn patterns_prefer_the_earlier_pattern() {
    let texts = vec!["CC DD", "AA BB"];
    let patterns = Patterns::from_texts(&texts);
    assert_eq!(patterns.len(), 2);
    // The second pattern occurs first in memory, but the first one is preferred.
    let memory = [0xAAu8, 0xBB, 0x00, 0xCC, 0xDD];
    assert_eq!(patterns.find(&memory), Some((3, 0)));
    let only_second = [0xAAu8, 0xBB, 0x00];
    assert_eq!(patterns.find(&only_second), Some((0, 1)));
    assert_eq!(patterns.find(&[0u8; 8]), None);
}

#[test]
fn patterns_skip_text_that_does_not_parse_but_keep_positions() {
    let texts = vec!["ZZ", "AA BB"];
    let patterns = Patterns::from_texts(&texts);
    assert_eq!(patterns.find(&[0x00, 0xAA, 0xBB]), Some((1, 1)));
}

#[test]
fn no_patterns_find_nothing() {
    let texts: Vec<&str> = Vec::new();
    let patterns = Patterns::from_texts(&texts);
    assert_eq!(patterns.len(), 0);
    assert_eq!(patterns.find(&[1, 2, 3]), None);
}
