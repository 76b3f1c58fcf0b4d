use std::any::Any;

use magical_rs::dyn_magic::{match_dyn_types, match_dyn_types_all, DynMagicCustom};

type Matcher = Box<dyn Fn(&[u8]) -> bool + Send + Sync>;
type Kind = Box<dyn Any + Send + Sync>;
type Rule = DynMagicCustom<Matcher, Kind>;

#[test]
fn test_dyn_magic_matches() {
    let rule_fn = |bytes: &[u8]| bytes.starts_with(b"Shoujo");
    let rule = DynMagicCustom::new(rule_fn, "Magical", 32);

    assert!(rule.matches(b"Shoujo<3"));
    assert!(!rule.matches(b"Not Shoujo Here..."));
}

#[test]
fn test_dyn_magic_downcast() {
    let rule_fn = |bytes: &[u8]| bytes.len() >= 3 && &bytes[0..3] == b"BIN";
    let kind: Kind = Box::new(String::from("BINARY_FORMAT"));
    let rule = DynMagicCustom::new(rule_fn, kind, 64);

    let kind = rule.kind();
    let as_string = (**kind).downcast_ref::<String>();

    assert_eq!(as_string, Some(&"BINARY_FORMAT".to_string()));
}

#[test]
fn test_match_dyn_types_all() {
    let rules: Vec<Rule> = vec![
        Rule::new(Box::new(|byte: &[u8]| byte.contains(&b'X')), Box::new("has_x"), 32),
        Rule::new(Box::new(|byte: &[u8]| byte.contains(&b'Y')), Box::new("has_y"), 32),
        Rule::new(Box::new(|byte: &[u8]| byte.contains(&b'Z')), Box::new("has_z"), 32),
    ];

    let data = b"XYZ";
    let matches = match_dyn_types_all(data, &rules);

    assert_eq!(matches.len(), 3);

    let types: Vec<&str> = matches
        .iter()
        .map(|any| (***any).downcast_ref::<&str>().unwrap())
        .copied()
        .collect();

    assert!(types.contains(&"has_x"));
    assert!(types.contains(&"has_y"));
    assert!(types.contains(&"has_z"));
}

#[test]
fn test_dyn_detect_file() {
    let rules: Vec<Rule> = vec![
        Rule::new(
            Box::new(|bytes: &[u8]| bytes.starts_with(b"PNG")),
            Box::new("image/png"),
            8,
        ),
        Rule::new(
            Box::new(|bytes: &[u8]| bytes.starts_with(b"Shoujo")),
            Box::new(String::from("MagicalGirl")),
            6969,
        ),
    ];

    let data = b"Shoujo";
    let result = match_dyn_types(data, &rules)
        .and_then(|kind| (**kind).downcast_ref::<String>())
        .unwrap();

    assert_eq!(result, &"MagicalGirl".to_string());
}

#[test]
fn dyn_downcast_to_other_type_is_empty() {
    let kind: Kind = Box::new(String::from("MagicalGirl"));
    let rule = DynMagicCustom::new(|bytes: &[u8]| bytes.is_empty(), kind, 1);
    assert!((**rule.kind()).downcast_ref::<&str>().is_none());
    assert!((**rule.kind()).downcast_ref::<u32>().is_none());
    assert_eq!(rule.max_bytes_read(), 1);
}

#[test]
fn dyn_first_match_keeps_rule_order_and_none() {
    type Numbered = DynMagicCustom<Matcher, u32>;
    let rules: Vec<Numbered> = vec![
        Numbered::new(Box::new(|b: &[u8]| b.contains(&b'A')), 1, 4),
        Numbered::new(Box::new(|b: &[u8]| b.contains(&b'B')), 2, 4),
        Numbered::new(Box::new(|b: &[u8]| b.contains(&b'A')), 3, 4),
    ];
    assert_eq!(match_dyn_types(b"BA", &rules), Some(&1));
    assert_eq!(match_dyn_types(b"B", &rules), Some(&2));
    assert_eq!(match_dyn_types(b"C", &rules), None);
    assert_eq!(match_dyn_types_all(b"AB", &rules), vec![&1, &2, &3]);
    assert_eq!(match_dyn_types_all(b"A", &rules), vec![&1, &3]);
    assert!(match_dyn_types_all(b"", &rules).is_empty());
}
