use vstd::prelude::*;

use crate::signatures::{
    signature_at, signature_kind, spec_signature_kind, views, MagicView, NoStdMagic, NoStdMatchRules,
};

verus! {

/// The formats that the built-in signature table recognises, and `Unknown` for no match.
#[derive(Clone, Copy, Debug, PartialEq, Eq, Structural)]
pub enum NoStdFileKind {
    Png,
    Bitmap,
    Gzip,
    Bzip,
    PkgZip,
    Tar,
    MSDOS,
    Jpg,
    Class,
    MP3,
    ISO,
    RPM,
    SQLite,
    XML,
    ICO,
    WASM,
    Deb,
    RAR,
    ScriptExecute,
    ELF,
    OGG,
    _8BPS,
    BLENDER,
    TrueTypeFont,
    OpenTypeFont,
    ModuleForEvenvironmentModules,
    WindowImagingFormat,
    Slob,
    SerializedJavaData,
    CreativeVoiceFile,
    AuAudioFileFormat,
    OpenGLIrisPerformer,
    NoodlesoftHazel,
    VBScriptEncoded,
    WEBP,
    AppleIconImage,
    GIF,
    JPEG2000,
    PDF,
    AppleDiskImage,
    Cabinet,
    MatroskaMediaContainer,
    RichTextFormat,
    PhotoCapTemplate,
    AceCompressed,
    FlashVideo,
    Unknown,
}

/// Kind of the first rule of `table` that needs at most `allowed` header bytes and accepts
/// `bytes`; `Unknown` where there is none.
pub open spec fn first_match_within(table: Seq<MagicView>, bytes: Seq<u8>, allowed: int) -> NoStdFileKind
    decreases table.len(),
{
    if table.len() == 0 {
        NoStdFileKind::Unknown
    } else if table[0].max_bytes_read <= allowed && table[0].spec_matches(bytes) {
        table[0].kind
    } else {
        first_match_within(table.drop_first(), bytes, allowed)
    }
}

/// Kind of the first rule of `table` that accepts `bytes`; `Unknown` where there is none.
pub open spec fn first_match(table: Seq<MagicView>, bytes: Seq<u8>) -> NoStdFileKind {
    first_match_within(table, bytes, usize::MAX as int)
}

/// What `match_types` returns for `bytes`.
pub open spec fn spec_match_types(bytes: Seq<u8>) -> NoStdFileKind {
    first_match(spec_signature_kind(), bytes)
}

/// What `no_std_match_with_max_read_rule` returns for `bytes` and `allowed`.
pub open spec fn spec_match_with_max_read_rule(bytes: Seq<u8>, allowed: int) -> NoStdFileKind {
    first_match_within(spec_signature_kind(), bytes, allowed)
}

/// What `no_std_match_with_custom_max_read` returns for `bytes` and `allowed`.
pub open spec fn spec_match_with_custom_max_read(bytes: Seq<u8>, allowed: int) -> NoStdFileKind {
    if bytes.len() < allowed {
        NoStdFileKind::Unknown
    } else {
        spec_match_types(bytes)
    }
}

/// First-match scan of `table`, skipping rules that need more than `allowed` bytes.
fn scan_within(table: &Vec<NoStdMagic>, bytes: &[u8], allowed: usize) -> (r: NoStdFileKind)
    ensures
        r == first_match_within(views(table@), bytes@, allowed as int),
{
    let ghost all = views(table@);
    assert(all.subrange(0, all.len() as int) =~= all);
    let mut i: usize = 0;
    while i < table.len()
        invariant
            i <= table@.len(),
            all == views(table@),
            first_match_within(all.subrange(i as int, all.len() as int), bytes@, allowed as int)
                == first_match_within(all, bytes@, allowed as int),
        decreases table@.len() - i,
    {
        let ghost rest = all.subrange(i as int, all.len() as int);
        assert(rest.drop_first() =~= all.subrange(i + 1, all.len() as int));
        assert(rest[0] == table@[i as int]@);
        let rule = &table[i];
        if rule.max_bytes_read <= allowed && rule.no_std_matches(bytes) {
            return rule.kind;
        }
        i += 1;
    }
    NoStdFileKind::Unknown
}

impl NoStdFileKind {
    /// The kind of the first built-in rule that accepts `bytes`, or `Unknown`.
    pub fn match_types(bytes: &[u8]) -> (r: Self)
        ensures
            r == spec_match_types(bytes@),
    {
        let table = signature_kind();
        scan_within(&table, bytes, usize::MAX)
    }

    /// The kind of the first built-in rule that needs at most `allowed_max_read` header bytes and
    /// accepts `bytes`, or `Unknown`.
    pub fn no_std_match_with_max_read_rule(bytes: &[u8], allowed_max_read: usize) -> (r: Self)
        ensures
            r == spec_match_with_max_read_rule(bytes@, allowed_max_read as int),
    {
        let table = signature_kind();
        scan_within(&table, bytes, allowed_max_read)
    }

    /// `Unknown` when `bytes` is shorter than `allowed_max_read`; otherwise the kind of the first
    /// built-in rule that accepts `bytes`, whatever its own budget, or `Unknown`.
    pub fn no_std_match_with_custom_max_read(bytes: &[u8], allowed_max_read: usize) -> (r: Self)
        ensures
            r == spec_match_with_custom_max_read(bytes@, allowed_max_read as int),
    {
        if bytes.len() < allowed_max_read {
            return NoStdFileKind::Unknown;
        }
        Self::match_types(bytes)
    }
}

/// Position in the built-in table of the rule that gives `kind`; `Unknown` has none.
pub open spec fn table_position(kind: NoStdFileKind) -> int {
    match kind {
        NoStdFileKind::Png => 0,
        NoStdFileKind::Class => 1,
        NoStdFileKind::Jpg => 2,
        NoStdFileKind::Gzip => 3,
        NoStdFileKind::Bzip => 4,
        NoStdFileKind::PkgZip => 5,
        NoStdFileKind::Bitmap => 6,
        NoStdFileKind::MSDOS => 7,
        NoStdFileKind::Tar => 8,
        NoStdFileKind::MP3 => 9,
        NoStdFileKind::ISO => 10,
        NoStdFileKind::RPM => 11,
        NoStdFileKind::SQLite => 12,
        NoStdFileKind::XML => 13,
        NoStdFileKind::ICO => 14,
        NoStdFileKind::WASM => 15,
        NoStdFileKind::Deb => 16,
        NoStdFileKind::ScriptExecute => 17,
        NoStdFileKind::RAR => 18,
        NoStdFileKind::ELF => 19,
        NoStdFileKind::OGG => 20,
        NoStdFileKind::_8BPS => 21,
        NoStdFileKind::BLENDER => 22,
        NoStdFileKind::TrueTypeFont => 23,
        NoStdFileKind::OpenTypeFont => 24,
        NoStdFileKind::ModuleForEvenvironmentModules => 25,
        NoStdFileKind::WindowImagingFormat => 26,
        NoStdFileKind::Slob => 27,
        NoStdFileKind::SerializedJavaData => 28,
        NoStdFileKind::CreativeVoiceFile => 29,
        NoStdFileKind::AuAudioFileFormat => 30,
        NoStdFileKind::OpenGLIrisPerformer => 31,
        NoStdFileKind::NoodlesoftHazel => 32,
        NoStdFileKind::VBScriptEncoded => 33,
        NoStdFileKind::WEBP => 34,
        NoStdFileKind::AppleIconImage => 35,
        NoStdFileKind::GIF => 36,
        NoStdFileKind::JPEG2000 => 37,
        NoStdFileKind::PDF => 38,
        NoStdFileKind::AppleDiskImage => 39,
        NoStdFileKind::Cabinet => 40,
        NoStdFileKind::MatroskaMediaContainer => 41,
        NoStdFileKind::RichTextFormat => 42,
        NoStdFileKind::PhotoCapTemplate => 43,
        NoStdFileKind::AceCompressed => 44,
        NoStdFileKind::FlashVideo => 45,
        NoStdFileKind::Unknown => -1,
    }
}

/// Each rule of the built-in table stands at the position of its kind: no two rules share a kind,
/// and none gives `Unknown`.
pub proof fn lemma_kinds_distinct()
    ensures
        forall|i: int|
            0 <= i < spec_signature_kind().len() ==> table_position(
                #[trigger] spec_signature_kind()[i].kind,
            ) == i,
{
    let t = spec_signature_kind();
    assert(table_position(t[0].kind) == 0);
    assert(table_position(t[1].kind) == 1);
    assert(table_position(t[2].kind) == 2);
    assert(table_position(t[3].kind) == 3);
    assert(table_position(t[4].kind) == 4);
    assert(table_position(t[5].kind) == 5);
    assert(table_position(t[6].kind) == 6);
    assert(table_position(t[7].kind) == 7);
    assert(table_position(t[8].kind) == 8);
    assert(table_position(t[9].kind) == 9);
    assert(table_position(t[10].kind) == 10);
    assert(table_position(t[11].kind) == 11);
    assert(table_position(t[12].kind) == 12);
    assert(table_position(t[13].kind) == 13);
    assert(table_position(t[14].kind) == 14);
    assert(table_position(t[15].kind) == 15);
    assert(table_position(t[16].kind) == 16);
    assert(table_position(t[17].kind) == 17);
    assert(table_position(t[18].kind) == 18);
    assert(table_position(t[19].kind) == 19);
    assert(table_position(t[20].kind) == 20);
    assert(table_position(t[21].kind) == 21);
    assert(table_position(t[22].kind) == 22);
    assert(table_position(t[23].kind) == 23);
    assert(table_position(t[24].kind) == 24);
    assert(table_position(t[25].kind) == 25);
    assert(table_position(t[26].kind) == 26);
    assert(table_position(t[27].kind) == 27);
    assert(table_position(t[28].kind) == 28);
    assert(table_position(t[29].kind) == 29);
    assert(table_position(t[30].kind) == 30);
    assert(table_position(t[31].kind) == 31);
    assert(table_position(t[32].kind) == 32);
    assert(table_position(t[33].kind) == 33);
    assert(table_position(t[34].kind) == 34);
    assert(table_position(t[35].kind) == 35);
    assert(table_position(t[36].kind) == 36);
    assert(table_position(t[37].kind) == 37);
    assert(table_position(t[38].kind) == 38);
    assert(table_position(t[39].kind) == 39);
    assert(table_position(t[40].kind) == 40);
    assert(table_position(t[41].kind) == 41);
    assert(table_position(t[42].kind) == 42);
    assert(table_position(t[43].kind) == 43);
    assert(table_position(t[44].kind) == 44);
    assert(table_position(t[45].kind) == 45);
}

/// When rule `i` is within budget and accepts, and no earlier rule is both, the scan gives rule
/// `i`'s kind.
pub proof fn lemma_first_match_at(table: Seq<MagicView>, bytes: Seq<u8>, allowed: int, i: int)
    requires
        0 <= i < table.len(),
        table[i].max_bytes_read <= allowed,
        table[i].spec_matches(bytes),
        forall|j: int|
            0 <= j < i ==> !(#[trigger] table[j].max_bytes_read <= allowed
                && table[j].spec_matches(bytes)),
    ensures
        first_match_within(table, bytes, allowed) == table[i].kind,
    decreases i,
{
    if i > 0 {
        let rest = table.drop_first();
        assert forall|j: int|
            0 <= j < i - 1 implies !(#[trigger] rest[j].max_bytes_read <= allowed
                && rest[j].spec_matches(bytes)) by {
            assert(rest[j] == table[j + 1]);
        }
        assert(!(table[0].max_bytes_read <= allowed && table[0].spec_matches(bytes)));
        lemma_first_match_at(rest, bytes, allowed, i - 1);
    }
}

/// When no rule is both within budget and accepting, the scan gives `Unknown`.
pub proof fn lemma_no_match(table: Seq<MagicView>, bytes: Seq<u8>, allowed: int)
    requires
        forall|j: int|
            0 <= j < table.len() ==> !(#[trigger] table[j].max_bytes_read <= allowed
                && table[j].spec_matches(bytes)),
    ensures
        first_match_within(table, bytes, allowed) == NoStdFileKind::Unknown,
    decreases table.len(),
{
    if table.len() > 0 {
        let rest = table.drop_first();
        assert forall|j: int|
            0 <= j < rest.len() implies !(#[trigger] rest[j].max_bytes_read <= allowed
                && rest[j].spec_matches(bytes)) by {
            assert(rest[j] == table[j + 1]);
        }
        assert(!(table[0].max_bytes_read <= allowed && table[0].spec_matches(bytes)));
        lemma_no_match(rest, bytes, allowed);
    }
}

/// A kind other than `Unknown` comes from a rule within budget that accepts `bytes`.
pub proof fn lemma_match_source(table: Seq<MagicView>, bytes: Seq<u8>, allowed: int)
    ensures
        first_match_within(table, bytes, allowed) != NoStdFileKind::Unknown ==> exists|i: int|
            0 <= i < table.len() && #[trigger] table[i].kind == first_match_within(
                table,
                bytes,
                allowed,
            ) && table[i].max_bytes_read <= allowed && table[i].spec_matches(bytes),
    decreases table.len(),
{
    if table.len() > 0 {
        let rest = table.drop_first();
        lemma_match_source(rest, bytes, allowed);
        if !(table[0].max_bytes_read <= allowed && table[0].spec_matches(bytes))
            && first_match_within(table, bytes, allowed) != NoStdFileKind::Unknown {
            let i = choose|i: int|
                0 <= i < rest.len() && #[trigger] rest[i].kind == first_match_within(
                    rest,
                    bytes,
                    allowed,
                ) && rest[i].max_bytes_read <= allowed && rest[i].spec_matches(bytes);
            assert(table[i + 1] == rest[i]);
        }
    }
}

/// A buffer that holds the signature of a built-in default rule at one of that rule's offsets,
/// and that no earlier rule accepts, is detected as that rule's kind.
pub proof fn lemma_signature_detected(bytes: Seq<u8>, i: int, s: int, o: int)
    requires
        0 <= i < spec_signature_kind().len(),
        spec_signature_kind()[i].rules == NoStdMatchRules::Default,
        0 <= s < spec_signature_kind()[i].signatures.len(),
        0 <= o < spec_signature_kind()[i].offsets.len(),
        signature_at(
            bytes,
            spec_signature_kind()[i].signatures[s],
            spec_signature_kind()[i].offsets[o] as int,
        ),
        forall|j: int| 0 <= j < i ==> !(#[trigger] spec_signature_kind()[j]).spec_matches(bytes),
    ensures
        spec_match_types(bytes) == spec_signature_kind()[i].kind,
{
    let t = spec_signature_kind();
    assert(t[i].spec_matches(bytes));
    lemma_first_match_at(t, bytes, usize::MAX as int, i);
}

/// A buffer too short to hold any signature of the built-in table at any of its offsets is
/// detected as `Unknown`.
pub proof fn lemma_short_buffer_unknown(bytes: Seq<u8>)
    requires
        forall|i: int, s: int, o: int|
            #![trigger spec_signature_kind()[i].signatures[s], spec_signature_kind()[i].offsets[o]]
            0 <= i < spec_signature_kind().len() && 0 <= s < spec_signature_kind()[i].signatures.len()
                && 0 <= o < spec_signature_kind()[i].offsets.len() ==> bytes.len()
                < spec_signature_kind()[i].offsets[o] + spec_signature_kind()[i].signatures[s].len(),
    ensures
        spec_match_types(bytes) == NoStdFileKind::Unknown,
{
    let t = spec_signature_kind();
    assert(t[3].signatures[0].len() == 2 && t[3].offsets[0] == 0);
    assert(bytes.len() < 2);
    assert forall|j: int| 0 <= j < t.len() implies !(#[trigger] t[j].max_bytes_read <= usize::MAX
        && t[j].spec_matches(bytes)) by {
        match t[j].rules {
            NoStdMatchRules::Default => {
                assert forall|s: int, o: int|
                    0 <= s < t[j].signatures.len() && 0 <= o < t[j].offsets.len() implies !#[trigger] signature_at(
                    bytes,
                    t[j].signatures[s],
                    t[j].offsets[o] as int,
                ) by {
                    assert(bytes.len() < t[j].offsets[o] + t[j].signatures[s].len());
                }
            },
            NoStdMatchRules::WithFn(f) => {},
        }
    }
    lemma_no_match(t, bytes, usize::MAX as int);
}

/// The budgeted match never gives the kind of a rule that needs more than `allowed` bytes.
pub proof fn lemma_bounded_within_budget(bytes: Seq<u8>, allowed: usize, i: int)
    requires
        0 <= i < spec_signature_kind().len(),
        spec_match_with_max_read_rule(bytes, allowed as int) == spec_signature_kind()[i].kind,
    ensures
        spec_signature_kind()[i].max_bytes_read <= allowed,
{
    let t = spec_signature_kind();
    lemma_kinds_distinct();
    assert(table_position(t[i].kind) == i);
    assert(t[i].kind != NoStdFileKind::Unknown);
    lemma_match_source(t, bytes, allowed as int);
    let j = choose|j: int|
        0 <= j < t.len() && #[trigger] t[j].kind == first_match_within(t, bytes, allowed as int)
            && t[j].max_bytes_read <= allowed && t[j].spec_matches(bytes);
    assert(table_position(t[j].kind) == j);
}

/// Matching depends on the bytes alone: equal buffers are detected alike, so matching the same
/// buffer twice gives the same kind.
pub proof fn lemma_match_types_deterministic(a: Seq<u8>, b: Seq<u8>)
    requires
        a == b,
    ensures
        spec_match_types(a) == spec_match_types(b),
{
}

} // verus!
