use magical_rs::async_dyn_magic::{all_matches_next, first_match_next, scan_start, AsyncDynMagic, ScanStep};

#[test]
fn first_match_scan_steps() {
    assert_eq!(scan_start(0), ScanStep::Exhausted);
    assert_eq!(scan_start(3), ScanStep::Evaluate(0));
    assert_eq!(first_match_next(3, 0, false), ScanStep::Evaluate(1));
    assert_eq!(first_match_next(3, 1, true), ScanStep::Found(1));
    assert_eq!(first_match_next(3, 2, false), ScanStep::Exhausted);
    assert_eq!(all_matches_next(3, 1), ScanStep::Evaluate(2));
    assert_eq!(all_matches_next(3, 2), ScanStep::Exhausted);
}

#[test]
fn async_rule_accessors() {
    let rule = AsyncDynMagic::new(|bytes: &[u8]| bytes.len() > 2, String::from("tag"), 16);
    assert_eq!(rule.kind(), "tag");
    assert_eq!(*rule.kind_arc(), "tag");
    assert_eq!(rule.max_bytes_read(), 16);
    assert!((rule.matcher())(b"abc"));
}
