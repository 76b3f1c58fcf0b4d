use magical_rs::bytes_read::{max_bytes, with_bytes_read, DEFAULT_MAX_BYTES_READ, ISO_MAX_BYTES_READ};
use magical_rs::magic::NoStdFileKind;
use magical_rs::signatures::{signature_found_at, signature_kind, NoStdMatchRules};
use magical_rs::webp::is_webp;

#[test]
fn png_header_is_png() {
    let bytes: &[u8] = &[0x89, 0x50, 0x4E, 0x47, 0x0D, 0x0A, 0x1A, 0x0A, 0x00, 0x00, 0x00, 0x0D];
    assert_eq!(NoStdFileKind::match_types(bytes), NoStdFileKind::Png);
}

#[test]
fn unknown_bytes_are_unknown() {
    assert_eq!(NoStdFileKind::match_types(&[0x00, 0x01, 0x02, 0x03]), NoStdFileKind::Unknown);
    assert_eq!(NoStdFileKind::match_types(&[]), NoStdFileKind::Unknown);
    assert_eq!(NoStdFileKind::match_types(&[0x89]), NoStdFileKind::Unknown);
}

#[test]
fn iso_at_high_offset_needs_full_read() {
    let mut iso = vec![0u8; 36865];
    iso[32769..32774].copy_from_slice(&[0x43, 0x44, 0x30, 0x30, 0x31]);
    assert_eq!(NoStdFileKind::match_types(&iso), NoStdFileKind::ISO);
    assert_eq!(NoStdFileKind::match_types(&iso[..2048]), NoStdFileKind::Unknown);
}

#[test]
fn iso_at_last_offset() {
    let mut iso = vec![0u8; ISO_MAX_BYTES_READ];
    iso[36865..36870].copy_from_slice(b"CD001");
    assert_eq!(NoStdFileKind::match_types(&iso), NoStdFileKind::ISO);
    assert_eq!(NoStdFileKind::match_types(&iso[..36869]), NoStdFileKind::Unknown);
}

#[test]
fn tar_magic_at_257() {
    let mut tar = vec![0u8; 262];
    tar[257..262].copy_from_slice(b"ustar");
    assert_eq!(NoStdFileKind::match_types(&tar), NoStdFileKind::Tar);
    assert_eq!(NoStdFileKind::match_types(&tar[..261]), NoStdFileKind::Unknown);
}

#[test]
fn every_default_rule_detects_its_signatures() {
    let table = signature_kind();
    assert_eq!(table.len(), 46);
    for rule in &table {
        if let NoStdMatchRules::Default = rule.rules {
            for sig in &rule.signatures {
                for &off in &rule.offsets {
                    let mut buf = vec![0u8; off + sig.len()];
                    buf[off..].copy_from_slice(sig);
                    assert_eq!(NoStdFileKind::match_types(&buf), rule.kind, "{:?}", rule.kind);
                }
            }
        }
    }
}

#[test]
fn earlier_rule_wins_on_overlap() {
    // "BM" is a bitmap; "BZ" a bzip stream; "MZ" an MS-DOS executable.
    assert_eq!(NoStdFileKind::match_types(b"BMxx"), NoStdFileKind::Bitmap);
    assert_eq!(NoStdFileKind::match_types(b"BZh9"), NoStdFileKind::Bzip);
    assert_eq!(NoStdFileKind::match_types(b"MZ"), NoStdFileKind::MSDOS);
}

#[test]
fn webp_detection() {
    let mut webp = b"RIFF".to_vec();
    webp.extend_from_slice(&[0x08, 0x00, 0x00, 0x00]);
    webp.extend_from_slice(b"WEBPVP8 ");
    assert!(is_webp(&webp));
    assert_eq!(NoStdFileKind::match_types(&webp), NoStdFileKind::WEBP);

    let mut small = webp.clone();
    small[4] = 4;
    assert!(!is_webp(&small));
    let mut big = webp.clone();
    big[4] = 0;
    big[7] = 1;
    assert!(is_webp(&big));
    let mut wrong = webp.clone();
    wrong[8] = b'X';
    assert!(!is_webp(&wrong));
    assert!(!is_webp(&webp[..11]));
}

#[test]
fn read_budgets() {
    assert_eq!(max_bytes(&[32769, 34817, 36865], b"CD001"), 36870);
    assert_eq!(max_bytes(&[0, 257], b"ustar"), 262);
    assert_eq!(max_bytes(&[], b"ab"), 2);
    assert_eq!(ISO_MAX_BYTES_READ, 36870);
    let size = with_bytes_read();
    assert_eq!(size, 36870);
    assert!(size >= DEFAULT_MAX_BYTES_READ);
    for rule in &signature_kind() {
        assert!(rule.max_bytes_read <= size);
    }
}

#[test]
fn signature_bounds() {
    assert!(signature_found_at(b"abc", b"bc", 1));
    assert!(!signature_found_at(b"abc", b"bc", 2));
    assert!(!signature_found_at(b"abc", b"x", usize::MAX));
    assert!(signature_found_at(b"abc", b"", 3));
}

#[test]
fn matching_twice_gives_the_same_kind() {
    let bytes: &[u8] = &[0x1F, 0x8B, 0x08];
    let first = NoStdFileKind::match_types(bytes);
    let second = NoStdFileKind::match_types(bytes);
    assert_eq!(first, NoStdFileKind::Gzip);
    assert_eq!(first, second);
}
