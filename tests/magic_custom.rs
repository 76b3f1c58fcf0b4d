use magical_rs::magic_custom::{match_types_custom, CustomMatchRules, MagicCustom};

type Pred = fn(&[u8]) -> bool;

#[derive(Debug, Clone, Copy, PartialEq)]
enum ShoujuFile {
    MahouShouju,
    Unknown,
}

fn is_shoujo_girl(bytes: &[u8]) -> bool {
    bytes.starts_with(b"MagicalGirl")
}

fn not_shoujo_girl(bytes: &[u8]) -> bool {
    !bytes.starts_with(b"MagicalGirl")
}

fn never(_bytes: &[u8]) -> bool {
    false
}

fn always(_bytes: &[u8]) -> bool {
    true
}

fn shoujo_rule(rules: CustomMatchRules<Pred>) -> MagicCustom<ShoujuFile, Pred> {
    MagicCustom {
        signatures: vec![],
        offsets: vec![],
        max_bytes_read: 2048,
        kind: ShoujuFile::MahouShouju,
        rules,
    }
}

#[test]
fn test_match_types_custom() {
    #[derive(Debug, Clone, Copy, PartialEq)]
    enum FileKind {
        Png,
        Unknown,
    }

    let png_rule: MagicCustom<FileKind, Pred> = MagicCustom {
        signatures: vec![vec![0x89, 0x50, 0x4E, 0x47, 0x0D, 0x0A, 0x1A, 0x0A]],
        offsets: vec![0],
        max_bytes_read: 2048,
        kind: FileKind::Png,
        rules: CustomMatchRules::Default,
    };

    let png_bytes: &[u8] = &[0x89, 0x50, 0x4E, 0x47, 0x0D, 0x0A, 0x1A, 0x0A, 0x00, 0x00, 0x00, 0x0D];

    let result = match_types_custom(png_bytes, &[png_rule], FileKind::Unknown);

    assert_eq!(result, FileKind::Png);
    assert_ne!(result, FileKind::Unknown);
}

#[test]
fn test_with_custom_rules() {
    let rule = shoujo_rule(CustomMatchRules::WithFn(is_shoujo_girl));

    let magical_girl = b"MagicalGirl";
    let result = match_types_custom(magical_girl, &[rule], ShoujuFile::Unknown);

    assert_eq!(result, ShoujuFile::MahouShouju);
    assert_ne!(result, ShoujuFile::Unknown);
}

#[test]
fn test_no_std_custom() {
    let rule = shoujo_rule(CustomMatchRules::WithFn(is_shoujo_girl));

    let magical_girl = b"MagicalGirl";
    let result = match_types_custom(magical_girl, &[rule], ShoujuFile::Unknown);

    assert_eq!(result, ShoujuFile::MahouShouju);
    assert_ne!(result, ShoujuFile::Unknown);
}

#[test]
fn test_with_any_matches() {
    #[derive(Clone, Copy, Debug, PartialEq, Eq)]
    enum CuteGirlKind {
        ShoujoFile,
        UnknownFallback,
    }

    let rule: MagicCustom<CuteGirlKind, Pred> = MagicCustom {
        signatures: vec![b"MagicalGirl".to_vec()],
        offsets: vec![0],
        max_bytes_read: 69,
        kind: CuteGirlKind::ShoujoFile,
        rules: CustomMatchRules::AnyMatches(vec![is_shoujo_girl, not_shoujo_girl]),
    };

    let result = match_types_custom(b"MagicalGirl", &[rule], CuteGirlKind::UnknownFallback);

    assert_eq!(result, CuteGirlKind::ShoujoFile);
}

#[test]
fn custom_predicate_falls_back_when_rejected() {
    let rule = shoujo_rule(CustomMatchRules::WithFn(is_shoujo_girl));
    assert_eq!(match_types_custom(b"Not it", &[rule], ShoujuFile::Unknown), ShoujuFile::Unknown);
}

#[test]
fn any_of_false_true_matches_and_all_of_does_not() {
    let any = shoujo_rule(CustomMatchRules::AnyMatches(vec![never, always]));
    let all = shoujo_rule(CustomMatchRules::AllMatches(vec![never, always]));
    assert!(any.matches_custom(b"anything"));
    assert!(!all.matches_custom(b"anything"));
    assert_eq!(match_types_custom(b"x", &[all], ShoujuFile::Unknown), ShoujuFile::Unknown);
    assert_eq!(match_types_custom(b"x", &[any], ShoujuFile::Unknown), ShoujuFile::MahouShouju);
}

#[test]
fn all_of_true_true_matches_and_empty_lists() {
    let all = shoujo_rule(CustomMatchRules::AllMatches(vec![always, is_shoujo_girl]));
    assert!(all.matches_custom(b"MagicalGirl!"));
    assert!(!all.matches_custom(b"Magical"));
    let empty_any = shoujo_rule(CustomMatchRules::AnyMatches(vec![]));
    let empty_all = shoujo_rule(CustomMatchRules::AllMatches(vec![]));
    assert!(!empty_any.matches_custom(b"x"));
    assert!(empty_all.matches_custom(b"x"));
}

#[test]
fn custom_default_rule_checks_offsets_and_bounds() {
    let rule: MagicCustom<u32, Pred> = MagicCustom {
        signatures: vec![b"ab".to_vec(), b"xyz".to_vec()],
        offsets: vec![1, 4],
        max_bytes_read: 7,
        kind: 7,
        rules: CustomMatchRules::Default,
    };
    assert!(rule.matches_custom(b"-ab"));
    assert!(rule.matches_custom(b"----xyz"));
    assert!(!rule.matches_custom(b"----xy"));
    assert!(!rule.matches_custom(b"ab"));
    assert!(!rule.matches_custom(b""));
}

#[test]
fn first_matching_custom_rule_wins() {
    let first: MagicCustom<u32, Pred> = MagicCustom {
        signatures: vec![b"Magic".to_vec()],
        offsets: vec![0],
        max_bytes_read: 5,
        kind: 1,
        rules: CustomMatchRules::Default,
    };
    let second: MagicCustom<u32, Pred> = MagicCustom {
        signatures: vec![],
        offsets: vec![],
        max_bytes_read: 11,
        kind: 2,
        rules: CustomMatchRules::WithFn(is_shoujo_girl),
    };
    let rules = [first, second];
    assert_eq!(match_types_custom(b"MagicalGirl", &rules, 0), 1);
    assert_eq!(match_types_custom(b"Mag", &rules, 0), 0);
    let none: [MagicCustom<u32, Pred>; 0] = [];
    assert_eq!(match_types_custom(b"MagicalGirl", &none, 3), 3);
}
