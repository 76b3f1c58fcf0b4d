use magical_rs::bytes_read::DEFAULT_MAX_BYTES_READ;
use magical_rs::magic::NoStdFileKind;

#[test]
fn test_no_std() {
    let png_bytes: &[u8] = &[0x89, 0x50, 0x4E, 0x47, 0x0D, 0x0A, 0x1A, 0x0A, 0x00, 0x00, 0x00, 0x0D];
    let result = NoStdFileKind::no_std_match_with_max_read_rule(png_bytes, DEFAULT_MAX_BYTES_READ);

    assert_eq!(result, NoStdFileKind::Png);
    assert_ne!(result, NoStdFileKind::Unknown);
}

#[test]
fn test_no_std_with_custom_bytes_read() {
    let png_bytes: &[u8] = &[0x89, 0x50, 0x4E, 0x47, 0x0D, 0x0A, 0x1A, 0x0A, 0x00, 0x00, 0x00, 0x0D];
    let my_max_bytes_read: usize = 8;
    let result = NoStdFileKind::no_std_match_with_custom_max_read(png_bytes, my_max_bytes_read);

    assert_eq!(result, NoStdFileKind::Png);
    assert_ne!(result, NoStdFileKind::Unknown);
}

#[test]
fn budget_below_rule_needs_excludes_it() {
    let png_bytes: &[u8] = &[0x89, 0x50, 0x4E, 0x47, 0x0D, 0x0A, 0x1A, 0x0A];
    assert_eq!(NoStdFileKind::no_std_match_with_max_read_rule(png_bytes, 100), NoStdFileKind::Unknown);
    assert_eq!(NoStdFileKind::no_std_match_with_max_read_rule(png_bytes, 2047), NoStdFileKind::Unknown);
    assert_eq!(NoStdFileKind::no_std_match_with_max_read_rule(png_bytes, 2048), NoStdFileKind::Png);
}

#[test]
fn mp3_rule_needs_only_tar_budget() {
    let mp3: &[u8] = &[0xFF, 0xF3, 0x10, 0x20];
    assert_eq!(NoStdFileKind::no_std_match_with_max_read_rule(mp3, 262), NoStdFileKind::MP3);
    assert_eq!(NoStdFileKind::no_std_match_with_max_read_rule(mp3, 261), NoStdFileKind::Unknown);
}

#[test]
fn long_enough_variant_rejects_short_buffers() {
    let tiny: &[u8] = &[0x89, 0x50];
    assert_eq!(NoStdFileKind::no_std_match_with_custom_max_read(tiny, 16), NoStdFileKind::Unknown);
    let png_bytes: &[u8] = &[0x89, 0x50, 0x4E, 0x47, 0x0D, 0x0A, 0x1A, 0x0A];
    assert_eq!(NoStdFileKind::no_std_match_with_custom_max_read(png_bytes, 9), NoStdFileKind::Unknown);
    assert_eq!(NoStdFileKind::no_std_match_with_custom_max_read(png_bytes, 0), NoStdFileKind::Png);
}

#[test]
fn bounded_iso_needs_iso_budget() {
    let mut iso = vec![0u8; 36870];
    iso[32769..32774].copy_from_slice(&[0x43, 0x44, 0x30, 0x30, 0x31]);
    assert_eq!(NoStdFileKind::no_std_match_with_max_read_rule(&iso, 36870), NoStdFileKind::ISO);
    assert_eq!(NoStdFileKind::no_std_match_with_max_read_rule(&iso, 36869), NoStdFileKind::Unknown);
    assert_eq!(NoStdFileKind::no_std_match_with_custom_max_read(&iso, 36870), NoStdFileKind::ISO);
}
