use vstd::prelude::*;

use crate::bytes_read::{
    iso_offsets, spec_iso_offsets, spec_tar_offsets, tar_offsets, DEFAULT_MAX_BYTES_READ,
    DEFAULT_OFFSET, ISO_MAX_BYTES_READ, TAR_MAX_BYTES_READ,
};
use crate::magic::NoStdFileKind;
use crate::webp::{is_webp, spec_is_webp};

verus! {

/// `sig` occurs in `bytes` starting at `off`, entirely inside the buffer.
pub open spec fn signature_at(bytes: Seq<u8>, sig: Seq<u8>, off: int) -> bool {
    &&& off + sig.len() <= bytes.len()
    &&& bytes.subrange(off, off + sig.len()) == sig
}

/// Some signature occurs at some offset.
pub open spec fn spec_default_matches(sigs: Seq<Seq<u8>>, offs: Seq<usize>, bytes: Seq<u8>) -> bool {
    exists|i: int, j: int|
        0 <= i < sigs.len() && 0 <= j < offs.len() && #[trigger] signature_at(
            bytes,
            sigs[i],
            offs[j] as int,
        )
}

/// Views of a list of byte vectors.
pub open spec fn byte_seqs(v: Seq<Vec<u8>>) -> Seq<Seq<u8>> {
    v.map_values(|s: Vec<u8>| s@)
}

/// Whether `sig` occurs in `bytes` at `off`; false where it would run past the end.
pub fn signature_found_at(bytes: &[u8], sig: &[u8], off: usize) -> (r: bool)
    ensures
        r == signature_at(bytes@, sig@, off as int),
{
    if off > bytes.len() || sig.len() > bytes.len() - off {
        return false;
    }
    let mut k: usize = 0;
    while k < sig.len()
        invariant
            off + sig@.len() <= bytes@.len() <= usize::MAX,
            k <= sig@.len(),
            forall|m: int| 0 <= m < k ==> bytes@[off + m] == sig@[m],
        decreases sig@.len() - k,
    {
        if bytes[off + k] != sig[k] {
            assert(bytes@.subrange(off as int, off + sig@.len())[k as int] != sig@[k as int]);
            return false;
        }
        k += 1;
    }
    assert(bytes@.subrange(off as int, off + sig@.len()) =~= sig@);
    true
}

/// Whether one of `signatures` occurs at one of `offsets`.
pub fn default_matches(signatures: &Vec<Vec<u8>>, offsets: &Vec<usize>, bytes: &[u8]) -> (r: bool)
    ensures
        r == spec_default_matches(byte_seqs(signatures@), offsets@, bytes@),
{
    let ghost sigs = byte_seqs(signatures@);
    let mut i: usize = 0;
    while i < signatures.len()
        invariant
            i <= signatures@.len(),
            sigs == byte_seqs(signatures@),
            forall|a: int, b: int|
                0 <= a < i && 0 <= b < offsets@.len() ==> !#[trigger] signature_at(
                    bytes@,
                    sigs[a],
                    offsets@[b] as int,
                ),
        decreases signatures@.len() - i,
    {
        let mut j: usize = 0;
        while j < offsets.len()
            invariant
                i < signatures@.len(),
                j <= offsets@.len(),
                sigs == byte_seqs(signatures@),
                forall|a: int, b: int|
                    0 <= a < i && 0 <= b < offsets@.len() ==> !#[trigger] signature_at(
                        bytes@,
                        sigs[a],
                        offsets@[b] as int,
                    ),
                forall|b: int|
                    0 <= b < j ==> !#[trigger] signature_at(bytes@, sigs[i as int], offsets@[b] as int),
            decreases offsets@.len() - j,
        {
            if signature_found_at(bytes, signatures[i].as_slice(), offsets[j]) {
                assert(signature_at(bytes@, sigs[i as int], offsets@[j as int] as int));
                return true;
            }
            j += 1;
        }
        i += 1;
    }
    false
}

/// A check for a format whose signature is not a fixed byte string.
#[derive(Clone, Copy, Debug)]
pub enum ExtFn {
    /// RIFF container of form type WEBP, see `is_webp`.
    Webp,
}

impl ExtFn {
    pub open spec fn spec_apply(self, bytes: Seq<u8>) -> bool {
        match self {
            ExtFn::Webp => spec_is_webp(bytes),
        }
    }

    pub fn apply(&self, bytes: &[u8]) -> (r: bool)
        ensures
            r == self.spec_apply(bytes@),
    {
        match self {
            ExtFn::Webp => is_webp(bytes),
        }
    }
}

/// How a built-in rule decides a match.
#[derive(Clone, Copy, Debug)]
pub enum NoStdMatchRules {
    /// One of the signatures at one of the offsets.
    Default,
    /// A check of its own.
    WithFn(ExtFn),
}

/// One entry of the built-in signature table.
pub struct NoStdMagic {
    pub signatures: Vec<Vec<u8>>,
    pub offsets: Vec<usize>,
    /// Header bytes this rule needs to be checkable.
    pub max_bytes_read: usize,
    pub kind: NoStdFileKind,
    pub rules: NoStdMatchRules,
}

/// What a `NoStdMagic` holds, as plain values.
pub struct MagicView {
    pub signatures: Seq<Seq<u8>>,
    pub offsets: Seq<usize>,
    pub max_bytes_read: usize,
    pub kind: NoStdFileKind,
    pub rules: NoStdMatchRules,
}

impl MagicView {
    /// The rule accepts `bytes`.
    pub open spec fn spec_matches(self, bytes: Seq<u8>) -> bool {
        match self.rules {
            NoStdMatchRules::Default => spec_default_matches(self.signatures, self.offsets, bytes),
            NoStdMatchRules::WithFn(f) => f.spec_apply(bytes),
        }
    }
}

impl View for NoStdMagic {
    type V = MagicView;

    open spec fn view(&self) -> MagicView {
        MagicView {
            signatures: byte_seqs(self.signatures@),
            offsets: self.offsets@,
            max_bytes_read: self.max_bytes_read,
            kind: self.kind,
            rules: self.rules,
        }
    }
}

impl NoStdMagic {
    /// Whether this rule accepts `bytes`.
    pub fn no_std_matches(&self, bytes: &[u8]) -> (r: bool)
        ensures
            r == self@.spec_matches(bytes@),
    {
        match &self.rules {
            NoStdMatchRules::Default => default_matches(&self.signatures, &self.offsets, bytes),
            NoStdMatchRules::WithFn(f) => f.apply(bytes),
        }
    }
}

fn one_signature(a: Vec<u8>) -> (r: Vec<Vec<u8>>)
    ensures
        byte_seqs(r@) == seq![a@],
{
    let r = vec![a];
    assert(byte_seqs(r@) =~= seq![r@[0]@]);
    r
}

fn two_signatures(a: Vec<u8>, b: Vec<u8>) -> (r: Vec<Vec<u8>>)
    ensures
        byte_seqs(r@) == seq![a@, b@],
{
    let r = vec![a, b];
    assert(byte_seqs(r@) =~= seq![r@[0]@, r@[1]@]);
    r
}

fn three_signatures(a: Vec<u8>, b: Vec<u8>, c: Vec<u8>) -> (r: Vec<Vec<u8>>)
    ensures
        byte_seqs(r@) == seq![a@, b@, c@],
{
    let r = vec![a, b, c];
    assert(byte_seqs(r@) =~= seq![r@[0]@, r@[1]@, r@[2]@]);
    r
}

/// Views of a list of rules.
pub open spec fn views(t: Seq<NoStdMagic>) -> Seq<MagicView> {
    t.map_values(|m: NoStdMagic| m@)
}

/// The built-in signature table, in priority order: the first rule that matches decides.
pub open spec fn spec_signature_kind() -> Seq<MagicView> {
    seq![
        MagicView {
            signatures: seq![seq![0x89u8, 0x50u8, 0x4Eu8, 0x47u8, 0x0Du8, 0x0Au8, 0x1Au8, 0x0Au8]],
            offsets: seq![DEFAULT_OFFSET],
            max_bytes_read: DEFAULT_MAX_BYTES_READ,
            kind: NoStdFileKind::Png,
            rules: NoStdMatchRules::Default,
        },
        MagicView {
            signatures: seq![seq![0xCAu8, 0xFEu8, 0xBAu8, 0xBEu8]],
            offsets: seq![DEFAULT_OFFSET],
            max_bytes_read: DEFAULT_MAX_BYTES_READ,
            kind: NoStdFileKind::Class,
            rules: NoStdMatchRules::Default,
        },
        MagicView {
            signatures: seq![seq![0xFFu8, 0xD8u8, 0xFFu8, 0xE0u8]],
            offsets: seq![DEFAULT_OFFSET],
            max_bytes_read: DEFAULT_MAX_BYTES_READ,
            kind: NoStdFileKind::Jpg,
            rules: NoStdMatchRules::Default,
        },
        MagicView {
            signatures: seq![seq![0x1Fu8, 0x8Bu8]],
            offsets: seq![DEFAULT_OFFSET],
            max_bytes_read: DEFAULT_MAX_BYTES_READ,
            kind: NoStdFileKind::Gzip,
            rules: NoStdMatchRules::Default,
        },
        MagicView {
            signatures: seq![seq![0x42u8, 0x5Au8]],
            offsets: seq![DEFAULT_OFFSET],
            max_bytes_read: DEFAULT_MAX_BYTES_READ,
            kind: NoStdFileKind::Bzip,
            rules: NoStdMatchRules::Default,
        },
        MagicView {
            signatures: seq![seq![0x50u8, 0x4Bu8, 0x03u8, 0x04u8]],
            offsets: seq![DEFAULT_OFFSET],
            max_bytes_read: DEFAULT_MAX_BYTES_READ,
            kind: NoStdFileKind::PkgZip,
            rules: NoStdMatchRules::Default,
        },
        MagicView {
            signatures: seq![seq![0x42u8, 0x4Du8]],
            offsets: seq![DEFAULT_OFFSET],
            max_bytes_read: DEFAULT_MAX_BYTES_READ,
            kind: NoStdFileKind::Bitmap,
            rules: NoStdMatchRules::Default,
        },
        MagicView {
            signatures: seq![seq![0x4Du8, 0x5Au8]],
            offsets: seq![DEFAULT_OFFSET],
            max_bytes_read: DEFAULT_MAX_BYTES_READ,
            kind: NoStdFileKind::MSDOS,
            rules: NoStdMatchRules::Default,
        },
        MagicView {
            signatures: seq![seq![0x75u8, 0x73u8, 0x74u8, 0x61u8, 0x72u8]],
            offsets: spec_tar_offsets(),
            max_bytes_read: DEFAULT_MAX_BYTES_READ,
            kind: NoStdFileKind::Tar,
            rules: NoStdMatchRules::Default,
        },
        MagicView {
            signatures: seq![seq![0xFFu8, 0xFBu8], seq![0xFFu8, 0xF3u8], seq![0xFFu8, 0xF2u8]],
            offsets: seq![DEFAULT_OFFSET],
            max_bytes_read: TAR_MAX_BYTES_READ,
            kind: NoStdFileKind::MP3,
            rules: NoStdMatchRules::Default,
        },
        MagicView {
            signatures: seq![seq![0x43u8, 0x44u8, 0x30u8, 0x30u8, 0x31u8]],
            offsets: spec_iso_offsets(),
            max_bytes_read: ISO_MAX_BYTES_READ,
            kind: NoStdFileKind::ISO,
            rules: NoStdMatchRules::Default,
        },
        MagicView {
            signatures: seq![seq![0xEDu8, 0xABu8, 0xEEu8, 0xDBu8]],
            offsets: seq![DEFAULT_OFFSET],
            max_bytes_read: DEFAULT_MAX_BYTES_READ,
            kind: NoStdFileKind::RPM,
            rules: NoStdMatchRules::Default,
        },
        MagicView {
            signatures: seq![seq![0x53u8, 0x51u8, 0x4Cu8, 0x69u8, 0x74u8, 0x65u8, 0x20u8, 0x66u8, 0x6Fu8, 0x72u8, 0x6Du8, 0x61u8, 0x74u8, 0x20u8, 0x33u8, 0x00u8]],
            offsets: seq![DEFAULT_OFFSET],
            max_bytes_read: DEFAULT_MAX_BYTES_READ,
            kind: NoStdFileKind::SQLite,
            rules: NoStdMatchRules::Default,
        },
        MagicView {
            signatures: seq![seq![0x3Cu8, 0x3Fu8, 0x78u8, 0x6Du8, 0x6Cu8, 0x20u8]],
            offsets: seq![DEFAULT_OFFSET],
            max_bytes_read: DEFAULT_MAX_BYTES_READ,
            kind: NoStdFileKind::XML,
            rules: NoStdMatchRules::Default,
        },
        MagicView {
            signatures: seq![seq![0x00u8, 0x00u8, 0x01u8, 0x00u8]],
            offsets: seq![DEFAULT_OFFSET],
            max_bytes_read: DEFAULT_MAX_BYTES_READ,
            kind: NoStdFileKind::ICO,
            rules: NoStdMatchRules::Default,
        },
        MagicView {
            signatures: seq![seq![0x00u8, 0x61u8, 0x73u8, 0x6Du8]],
            offsets: seq![DEFAULT_OFFSET],
            max_bytes_read: DEFAULT_MAX_BYTES_READ,
            kind: NoStdFileKind::WASM,
            rules: NoStdMatchRules::Default,
        },
        MagicView {
            signatures: seq![seq![0x21u8, 0x3Cu8, 0x61u8, 0x72u8, 0x63u8, 0x68u8, 0x3Eu8, 0x0Au8]],
            offsets: seq![DEFAULT_OFFSET],
            max_bytes_read: DEFAULT_MAX_BYTES_READ,
            kind: NoStdFileKind::Deb,
            rules: NoStdMatchRules::Default,
        },
        MagicView {
            signatures: seq![seq![0x23u8, 0x21u8]],
            offsets: seq![DEFAULT_OFFSET],
            max_bytes_read: DEFAULT_MAX_BYTES_READ,
            kind: NoStdFileKind::ScriptExecute,
            rules: NoStdMatchRules::Default,
        },
        MagicView {
            signatures: seq![seq![0x52u8, 0x61u8, 0x72u8, 0x21u8, 0x1Au8, 0x07u8, 0x00u8], seq![0x52u8, 0x61u8, 0x72u8, 0x21u8, 0x1Au8, 0x07u8, 0x01u8, 0x00u8]],
            offsets: seq![DEFAULT_OFFSET],
            max_bytes_read: DEFAULT_MAX_BYTES_READ,
            kind: NoStdFileKind::RAR,
            rules: NoStdMatchRules::Default,
        },
        MagicView {
            signatures: seq![seq![0x7Fu8, 0x45u8, 0x4Cu8, 0x46u8]],
            offsets: seq![DEFAULT_OFFSET],
            max_bytes_read: DEFAULT_MAX_BYTES_READ,
            kind: NoStdFileKind::ELF,
            rules: NoStdMatchRules::Default,
        },
        MagicView {
            signatures: seq![seq![0x4Fu8, 0x67u8, 0x67u8, 0x53u8]],
            offsets: seq![DEFAULT_OFFSET],
            max_bytes_read: DEFAULT_MAX_BYTES_READ,
            kind: NoStdFileKind::OGG,
            rules: NoStdMatchRules::Default,
        },
        MagicView {
            signatures: seq![seq![0x38u8, 0x42u8, 0x50u8, 0x53u8]],
            offsets: seq![DEFAULT_OFFSET],
            max_bytes_read: DEFAULT_MAX_BYTES_READ,
            kind: NoStdFileKind::_8BPS,
            rules: NoStdMatchRules::Default,
        },
        MagicView {
            signatures: seq![seq![0x42u8, 0x4Cu8, 0x45u8, 0x4Eu8, 0x44u8, 0x45u8, 0x52u8]],
            offsets: seq![DEFAULT_OFFSET],
            max_bytes_read: DEFAULT_MAX_BYTES_READ,
            kind: NoStdFileKind::BLENDER,
            rules: NoStdMatchRules::Default,
        },
        MagicView {
            signatures: seq![seq![0x00u8, 0x01u8, 0x00u8, 0x00u8, 0x00u8]],
            offsets: seq![DEFAULT_OFFSET],
            max_bytes_read: DEFAULT_MAX_BYTES_READ,
            kind: NoStdFileKind::TrueTypeFont,
            rules: NoStdMatchRules::Default,
        },
        MagicView {
            signatures: seq![seq![0x4Fu8, 0x54u8, 0x54u8, 0x4Fu8]],
            offsets: seq![DEFAULT_OFFSET],
            max_bytes_read: DEFAULT_MAX_BYTES_READ,
            kind: NoStdFileKind::OpenTypeFont,
            rules: NoStdMatchRules::Default,
        },
        MagicView {
            signatures: seq![seq![0x23u8, 0x25u8, 0x4Du8, 0x6Fu8, 0x64u8, 0x75u8, 0x6Cu8, 0x65u8]],
            offsets: seq![DEFAULT_OFFSET],
            max_bytes_read: DEFAULT_MAX_BYTES_READ,
            kind: NoStdFileKind::ModuleForEvenvironmentModules,
            rules: NoStdMatchRules::Default,
        },
        MagicView {
            signatures: seq![seq![0x4Du8, 0x53u8, 0x57u8, 0x49u8, 0x4Du8, 0x00u8, 0x00u8, 0x00u8, 0xD0u8, 0x00u8, 0x00u8, 0x00u8, 0x00u8]],
            offsets: seq![DEFAULT_OFFSET],
            max_bytes_read: DEFAULT_MAX_BYTES_READ,
            kind: NoStdFileKind::WindowImagingFormat,
            rules: NoStdMatchRules::Default,
        },
        MagicView {
            signatures: seq![seq![0x21u8, 0x2Du8, 0x31u8, 0x53u8, 0x4Cu8, 0x4Fu8, 0x42u8, 0x1Fu8]],
            offsets: seq![DEFAULT_OFFSET],
            max_bytes_read: DEFAULT_MAX_BYTES_READ,
            kind: NoStdFileKind::Slob,
            rules: NoStdMatchRules::Default,
        },
        MagicView {
            signatures: seq![seq![0xACu8, 0xEDu8]],
            offsets: seq![DEFAULT_OFFSET],
            max_bytes_read: DEFAULT_MAX_BYTES_READ,
            kind: NoStdFileKind::SerializedJavaData,
            rules: NoStdMatchRules::Default,
        },
        MagicView {
            signatures: seq![seq![0x43u8, 0x72u8, 0x65u8, 0x61u8, 0x74u8, 0x69u8, 0x69u8, 0x76u8, 0x65u8, 0x20u8, 0x56u8, 0x6Fu8, 0x69u8, 0x63u8, 0x65u8, 0x20u8, 0x46u8, 0x69u8, 0x6Cu8, 0x65u8, 0x1Au8, 0x1Au8, 0x00u8]],
            offsets: seq![DEFAULT_OFFSET],
            max_bytes_read: DEFAULT_MAX_BYTES_READ,
            kind: NoStdFileKind::CreativeVoiceFile,
            rules: NoStdMatchRules::Default,
        },
        MagicView {
            signatures: seq![seq![0x2Eu8, 0x73u8, 0x6Eu8, 0x64u8]],
            offsets: seq![DEFAULT_OFFSET],
            max_bytes_read: DEFAULT_MAX_BYTES_READ,
            kind: NoStdFileKind::AuAudioFileFormat,
            rules: NoStdMatchRules::Default,
        },
        MagicView {
            signatures: seq![seq![0xDBu8, 0x0Au8, 0xCEu8, 0x00u8]],
            offsets: seq![DEFAULT_OFFSET],
            max_bytes_read: DEFAULT_MAX_BYTES_READ,
            kind: NoStdFileKind::OpenGLIrisPerformer,
            rules: NoStdMatchRules::Default,
        },
        MagicView {
            signatures: seq![seq![0x48u8, 0x5Au8, 0x4Cu8, 0x52u8, 0x00u8, 0x00u8, 0x00u8, 0x18u8]],
            offsets: seq![DEFAULT_OFFSET],
            max_bytes_read: DEFAULT_MAX_BYTES_READ,
            kind: NoStdFileKind::NoodlesoftHazel,
            rules: NoStdMatchRules::Default,
        },
        MagicView {
            signatures: seq![seq![0x23u8, 0x40u8, 0x7Eu8, 0x5Eu8]],
            offsets: seq![DEFAULT_OFFSET],
            max_bytes_read: DEFAULT_MAX_BYTES_READ,
            kind: NoStdFileKind::VBScriptEncoded,
            rules: NoStdMatchRules::Default,
        },
        MagicView {
            signatures: seq![],
            offsets: seq![],
            max_bytes_read: DEFAULT_MAX_BYTES_READ,
            kind: NoStdFileKind::WEBP,
            rules: NoStdMatchRules::WithFn(ExtFn::Webp),
        },
        MagicView {
            signatures: seq![seq![0x69u8, 0x63u8, 0x6Eu8, 0x73u8]],
            offsets: seq![DEFAULT_OFFSET],
            max_bytes_read: DEFAULT_MAX_BYTES_READ,
            kind: NoStdFileKind::AppleIconImage,
            rules: NoStdMatchRules::Default,
        },
        MagicView {
            signatures: seq![seq![0x47u8, 0x49u8, 0x46u8, 0x38u8, 0x37u8, 0x61u8], seq![0x47u8, 0x49u8, 0x46u8, 0x38u8, 0x39u8, 0x61u8]],
            offsets: seq![DEFAULT_OFFSET],
            max_bytes_read: DEFAULT_MAX_BYTES_READ,
            kind: NoStdFileKind::GIF,
            rules: NoStdMatchRules::Default,
        },
        MagicView {
            signatures: seq![seq![0x00u8, 0x00u8, 0x00u8, 0x0Cu8, 0x0Au8, 0x6Au8, 0x50u8, 0x20u8, 0x20u8, 0x0Du8, 0x0Au8, 0x87u8, 0x0Au8], seq![0xFFu8, 0x4Fu8, 0xFFu8, 0x51u8]],
            offsets: seq![DEFAULT_OFFSET],
            max_bytes_read: DEFAULT_MAX_BYTES_READ,
            kind: NoStdFileKind::JPEG2000,
            rules: NoStdMatchRules::Default,
        },
        MagicView {
            signatures: seq![seq![0x25u8, 0x50u8, 0x44u8, 0x46u8, 0x2Du8]],
            offsets: seq![DEFAULT_OFFSET],
            max_bytes_read: DEFAULT_MAX_BYTES_READ,
            kind: NoStdFileKind::PDF,
            rules: NoStdMatchRules::Default,
        },
        MagicView {
            signatures: seq![seq![0x6Bu8, 0x6Fu8, 0x6Cu8, 0x79u8]],
            offsets: seq![DEFAULT_OFFSET],
            max_bytes_read: DEFAULT_MAX_BYTES_READ,
            kind: NoStdFileKind::AppleDiskImage,
            rules: NoStdMatchRules::Default,
        },
        MagicView {
            signatures: seq![seq![0x4Du8, 0x53u8, 0x43u8, 0x46u8]],
            offsets: seq![DEFAULT_OFFSET],
            max_bytes_read: DEFAULT_MAX_BYTES_READ,
            kind: NoStdFileKind::Cabinet,
            rules: NoStdMatchRules::Default,
        },
        MagicView {
            signatures: seq![seq![0x1Au8, 0x45u8, 0xDFu8, 0xA3u8]],
            offsets: seq![DEFAULT_OFFSET],
            max_bytes_read: DEFAULT_MAX_BYTES_READ,
            kind: NoStdFileKind::MatroskaMediaContainer,
            rules: NoStdMatchRules::Default,
        },
        MagicView {
            signatures: seq![seq![0x7Bu8, 0x5Cu8, 0x72u8, 0x74u8, 0x66u8, 0x31u8]],
            offsets: seq![DEFAULT_OFFSET],
            max_bytes_read: DEFAULT_MAX_BYTES_READ,
            kind: NoStdFileKind::RichTextFormat,
            rules: NoStdMatchRules::Default,
        },
        MagicView {
            signatures: seq![seq![0x78u8, 0x56u8, 0x34u8]],
            offsets: seq![DEFAULT_OFFSET],
            max_bytes_read: DEFAULT_MAX_BYTES_READ,
            kind: NoStdFileKind::PhotoCapTemplate,
            rules: NoStdMatchRules::Default,
        },
        MagicView {
            signatures: seq![seq![0x2Au8, 0x2Au8, 0x41u8, 0x43u8, 0x45u8, 0x2Au8, 0x2Au8]],
            offsets: seq![DEFAULT_OFFSET],
            max_bytes_read: DEFAULT_MAX_BYTES_READ,
            kind: NoStdFileKind::AceCompressed,
            rules: NoStdMatchRules::Default,
        },
        MagicView {
            signatures: seq![seq![0x46u8, 0x4Cu8, 0x56u8]],
            offsets: seq![DEFAULT_OFFSET],
            max_bytes_read: DEFAULT_MAX_BYTES_READ,
            kind: NoStdFileKind::FlashVideo,
            rules: NoStdMatchRules::Default,
        },
    ]
}

/// Builds the built-in signature table.
#[verifier::rlimit(100)]
pub fn signature_kind() -> (t: Vec<NoStdMagic>)
    ensures
        views(t@) == spec_signature_kind(),
{
    let mut t: Vec<NoStdMagic> = Vec::new();
    t.push(
        NoStdMagic {
            signatures: one_signature(vec![0x89, 0x50, 0x4E, 0x47, 0x0D, 0x0A, 0x1A, 0x0A]),
            offsets: vec![DEFAULT_OFFSET],
            max_bytes_read: DEFAULT_MAX_BYTES_READ,
            kind: NoStdFileKind::Png,
            rules: NoStdMatchRules::Default,
        },
    );
    assert(t@[0]@.signatures == spec_signature_kind()[0].signatures);
    assert(t@[0]@.offsets == spec_signature_kind()[0].offsets);
    assert(t@[0]@ == spec_signature_kind()[0]);
    t.push(
        NoStdMagic {
            signatures: one_signature(vec![0xCA, 0xFE, 0xBA, 0xBE]),
            offsets: vec![DEFAULT_OFFSET],
            max_bytes_read: DEFAULT_MAX_BYTES_READ,
            kind: NoStdFileKind::Class,
            rules: NoStdMatchRules::Default,
        },
    );
    assert(t@[1]@.signatures == spec_signature_kind()[1].signatures);
    assert(t@[1]@.offsets == spec_signature_kind()[1].offsets);
    assert(t@[1]@ == spec_signature_kind()[1]);
    t.push(
        NoStdMagic {
            signatures: one_signature(vec![0xFF, 0xD8, 0xFF, 0xE0]),
            offsets: vec![DEFAULT_OFFSET],
            max_bytes_read: DEFAULT_MAX_BYTES_READ,
            kind: NoStdFileKind::Jpg,
            rules: NoStdMatchRules::Default,
        },
    );
    assert(t@[2]@.signatures == spec_signature_kind()[2].signatures);
    assert(t@[2]@.offsets == spec_signature_kind()[2].offsets);
    assert(t@[2]@ == spec_signature_kind()[2]);
    t.push(
        NoStdMagic {
            signatures: one_signature(vec![0x1F, 0x8B]),
            offsets: vec![DEFAULT_OFFSET],
            max_bytes_read: DEFAULT_MAX_BYTES_READ,
            kind: NoStdFileKind::Gzip,
            rules: NoStdMatchRules::Default,
        },
    );
    assert(t@[3]@.signatures == spec_signature_kind()[3].signatures);
    assert(t@[3]@.offsets == spec_signature_kind()[3].offsets);
    assert(t@[3]@ == spec_signature_kind()[3]);
    t.push(
        NoStdMagic {
            signatures: one_signature(vec![0x42, 0x5A]),
            offsets: vec![DEFAULT_OFFSET],
            max_bytes_read: DEFAULT_MAX_BYTES_READ,
            kind: NoStdFileKind::Bzip,
            rules: NoStdMatchRules::Default,
        },
    );
    assert(t@[4]@.signatures == spec_signature_kind()[4].signatures);
    assert(t@[4]@.offsets == spec_signature_kind()[4].offsets);
    assert(t@[4]@ == spec_signature_kind()[4]);
    t.push(
        NoStdMagic {
            signatures: one_signature(vec![0x50, 0x4B, 0x03, 0x04]),
            offsets: vec![DEFAULT_OFFSET],
            max_bytes_read: DEFAULT_MAX_BYTES_READ,
            kind: NoStdFileKind::PkgZip,
            rules: NoStdMatchRules::Default,
        },
    );
    assert(t@[5]@.signatures == spec_signature_kind()[5].signatures);
    assert(t@[5]@.offsets == spec_signature_kind()[5].offsets);
    assert(t@[5]@ == spec_signature_kind()[5]);
    t.push(
        NoStdMagic {
            signatures: one_signature(vec![0x42, 0x4D]),
            offsets: vec![DEFAULT_OFFSET],
            max_bytes_read: DEFAULT_MAX_BYTES_READ,
            kind: NoStdFileKind::Bitmap,
            rules: NoStdMatchRules::Default,
        },
    );
    assert(t@[6]@.signatures == spec_signature_kind()[6].signatures);
    assert(t@[6]@.offsets == spec_signature_kind()[6].offsets);
    assert(t@[6]@ == spec_signature_kind()[6]);
    t.push(
        NoStdMagic {
            signatures: one_signature(vec![0x4D, 0x5A]),
            offsets: vec![DEFAULT_OFFSET],
            max_bytes_read: DEFAULT_MAX_BYTES_READ,
            kind: NoStdFileKind::MSDOS,
            rules: NoStdMatchRules::Default,
        },
    );
    assert(t@[7]@.signatures == spec_signature_kind()[7].signatures);
    assert(t@[7]@.offsets == spec_signature_kind()[7].offsets);
    assert(t@[7]@ == spec_signature_kind()[7]);
    t.push(
        NoStdMagic {
            signatures: one_signature(vec![0x75, 0x73, 0x74, 0x61, 0x72]),
            offsets: tar_offsets(),
            max_bytes_read: DEFAULT_MAX_BYTES_READ,
            kind: NoStdFileKind::Tar,
            rules: NoStdMatchRules::Default,
        },
    );
    assert(t@[8]@.signatures == spec_signature_kind()[8].signatures);
    assert(t@[8]@.offsets == spec_signature_kind()[8].offsets);
    assert(t@[8]@ == spec_signature_kind()[8]);
    t.push(
        NoStdMagic {
            signatures: three_signatures(vec![0xFF, 0xFB], vec![0xFF, 0xF3], vec![0xFF, 0xF2]),
            offsets: vec![DEFAULT_OFFSET],
            max_bytes_read: TAR_MAX_BYTES_READ,
            kind: NoStdFileKind::MP3,
            rules: NoStdMatchRules::Default,
        },
    );
    assert(t@[9]@.signatures == spec_signature_kind()[9].signatures);
    assert(t@[9]@.offsets == spec_signature_kind()[9].offsets);
    assert(t@[9]@ == spec_signature_kind()[9]);
    t.push(
        NoStdMagic {
            signatures: one_signature(vec![0x43, 0x44, 0x30, 0x30, 0x31]),
            offsets: iso_offsets(),
            max_bytes_read: ISO_MAX_BYTES_READ,
            kind: NoStdFileKind::ISO,
            rules: NoStdMatchRules::Default,
        },
    );
    assert(t@[10]@.signatures == spec_signature_kind()[10].signatures);
    assert(t@[10]@.offsets == spec_signature_kind()[10].offsets);
    assert(t@[10]@ == spec_signature_kind()[10]);
    t.push(
        NoStdMagic {
            signatures: one_signature(vec![0xED, 0xAB, 0xEE, 0xDB]),
            offsets: vec![DEFAULT_OFFSET],
            max_bytes_read: DEFAULT_MAX_BYTES_READ,
            kind: NoStdFileKind::RPM,
            rules: NoStdMatchRules::Default,
        },
    );
    assert(t@[11]@.signatures == spec_signature_kind()[11].signatures);
    assert(t@[11]@.offsets == spec_signature_kind()[11].offsets);
    assert(t@[11]@ == spec_signature_kind()[11]);
    t.push(
        NoStdMagic {
            signatures: one_signature(vec![0x53, 0x51, 0x4C, 0x69, 0x74, 0x65, 0x20, 0x66, 0x6F, 0x72, 0x6D, 0x61, 0x74, 0x20, 0x33, 0x00]),
            offsets: vec![DEFAULT_OFFSET],
            max_bytes_read: DEFAULT_MAX_BYTES_READ,
            kind: NoStdFileKind::SQLite,
            rules: NoStdMatchRules::Default,
        },
    );
    assert(t@[12]@.signatures == spec_signature_kind()[12].signatures);
    assert(t@[12]@.offsets == spec_signature_kind()[12].offsets);
    assert(t@[12]@ == spec_signature_kind()[12]);
    t.push(
        NoStdMagic {
            signatures: one_signature(vec![0x3C, 0x3F, 0x78, 0x6D, 0x6C, 0x20]),
            offsets: vec![DEFAULT_OFFSET],
            max_bytes_read: DEFAULT_MAX_BYTES_READ,
            kind: NoStdFileKind::XML,
            rules: NoStdMatchRules::Default,
        },
    );
    assert(t@[13]@.signatures == spec_signature_kind()[13].signatures);
    assert(t@[13]@.offsets == spec_signature_kind()[13].offsets);
    assert(t@[13]@ == spec_signature_kind()[13]);
    t.push(
        NoStdMagic {
            signatures: one_signature(vec![0x00, 0x00, 0x01, 0x00]),
            offsets: vec![DEFAULT_OFFSET],
            max_bytes_read: DEFAULT_MAX_BYTES_READ,
            kind: NoStdFileKind::ICO,
            rules: NoStdMatchRules::Default,
        },
    );
    assert(t@[14]@.signatures == spec_signature_kind()[14].signatures);
    assert(t@[14]@.offsets == spec_signature_kind()[14].offsets);
    assert(t@[14]@ == spec_signature_kind()[14]);
    t.push(
        NoStdMagic {
            signatures: one_signature(vec![0x00, 0x61, 0x73, 0x6D]),
            offsets: vec![DEFAULT_OFFSET],
            max_bytes_read: DEFAULT_MAX_BYTES_READ,
            kind: NoStdFileKind::WASM,
            rules: NoStdMatchRules::Default,
        },
    );
    assert(t@[15]@.signatures == spec_signature_kind()[15].signatures);
    assert(t@[15]@.offsets == spec_signature_kind()[15].offsets);
    assert(t@[15]@ == spec_signature_kind()[15]);
    t.push(
        NoStdMagic {
            signatures: one_signature(vec![0x21, 0x3C, 0x61, 0x72, 0x63, 0x68, 0x3E, 0x0A]),
            offsets: vec![DEFAULT_OFFSET],
            max_bytes_read: DEFAULT_MAX_BYTES_READ,
            kind: NoStdFileKind::Deb,
            rules: NoStdMatchRules::Default,
        },
    );
    assert(t@[16]@.signatures == spec_signature_kind()[16].signatures);
    assert(t@[16]@.offsets == spec_signature_kind()[16].offsets);
    assert(t@[16]@ == spec_signature_kind()[16]);
    t.push(
        NoStdMagic {
            signatures: one_signature(vec![0x23, 0x21]),
            offsets: vec![DEFAULT_OFFSET],
            max_bytes_read: DEFAULT_MAX_BYTES_READ,
            kind: NoStdFileKind::ScriptExecute,
            rules: NoStdMatchRules::Default,
        },
    );
    assert(t@[17]@.signatures == spec_signature_kind()[17].signatures);
    assert(t@[17]@.offsets == spec_signature_kind()[17].offsets);
    assert(t@[17]@ == spec_signature_kind()[17]);
    t.push(
        NoStdMagic {
            signatures: two_signatures(vec![0x52, 0x61, 0x72, 0x21, 0x1A, 0x07, 0x00], vec![0x52, 0x61, 0x72, 0x21, 0x1A, 0x07, 0x01, 0x00]),
            offsets: vec![DEFAULT_OFFSET],
            max_bytes_read: DEFAULT_MAX_BYTES_READ,
            kind: NoStdFileKind::RAR,
            rules: NoStdMatchRules::Default,
        },
    );
    assert(t@[18]@.signatures == spec_signature_kind()[18].signatures);
    assert(t@[18]@.offsets == spec_signature_kind()[18].offsets);
    assert(t@[18]@ == spec_signature_kind()[18]);
    t.push(
        NoStdMagic {
            signatures: one_signature(vec![0x7F, 0x45, 0x4C, 0x46]),
            offsets: vec![DEFAULT_OFFSET],
            max_bytes_read: DEFAULT_MAX_BYTES_READ,
            kind: NoStdFileKind::ELF,
            rules: NoStdMatchRules::Default,
        },
    );
    assert(t@[19]@.signatures == spec_signature_kind()[19].signatures);
    assert(t@[19]@.offsets == spec_signature_kind()[19].offsets);
    assert(t@[19]@ == spec_signature_kind()[19]);
    t.push(
        NoStdMagic {
            signatures: one_signature(vec![0x4F, 0x67, 0x67, 0x53]),
            offsets: vec![DEFAULT_OFFSET],
            max_bytes_read: DEFAULT_MAX_BYTES_READ,
            kind: NoStdFileKind::OGG,
            rules: NoStdMatchRules::Default,
        },
    );
    assert(t@[20]@.signatures == spec_signature_kind()[20].signatures);
    assert(t@[20]@.offsets == spec_signature_kind()[20].offsets);
    assert(t@[20]@ == spec_signature_kind()[20]);
    t.push(
        NoStdMagic {
            signatures: one_signature(vec![0x38, 0x42, 0x50, 0x53]),
            offsets: vec![DEFAULT_OFFSET],
            max_bytes_read: DEFAULT_MAX_BYTES_READ,
            kind: NoStdFileKind::_8BPS,
            rules: NoStdMatchRules::Default,
        },
    );
    assert(t@[21]@.signatures == spec_signature_kind()[21].signatures);
    assert(t@[21]@.offsets == spec_signature_kind()[21].offsets);
    assert(t@[21]@ == spec_signature_kind()[21]);
    t.push(
        NoStdMagic {
            signatures: one_signature(vec![0x42, 0x4C, 0x45, 0x4E, 0x44, 0x45, 0x52]),
            offsets: vec![DEFAULT_OFFSET],
            max_bytes_read: DEFAULT_MAX_BYTES_READ,
            kind: NoStdFileKind::BLENDER,
            rules: NoStdMatchRules::Default,
        },
    );
    assert(t@[22]@.signatures == spec_signature_kind()[22].signatures);
    assert(t@[22]@.offsets == spec_signature_kind()[22].offsets);
    assert(t@[22]@ == spec_signature_kind()[22]);
    t.push(
        NoStdMagic {
            signatures: one_signature(vec![0x00, 0x01, 0x00, 0x00, 0x00]),
            offsets: vec![DEFAULT_OFFSET],
            max_bytes_read: DEFAULT_MAX_BYTES_READ,
            kind: NoStdFileKind::TrueTypeFont,
            rules: NoStdMatchRules::Default,
        },
    );
    assert(t@[23]@.signatures == spec_signature_kind()[23].signatures);
    assert(t@[23]@.offsets == spec_signature_kind()[23].offsets);
    assert(t@[23]@ == spec_signature_kind()[23]);
    t.push(
        NoStdMagic {
            signatures: one_signature(vec![0x4F, 0x54, 0x54, 0x4F]),
            offsets: vec![DEFAULT_OFFSET],
            max_bytes_read: DEFAULT_MAX_BYTES_READ,
            kind: NoStdFileKind::OpenTypeFont,
            rules: NoStdMatchRules::Default,
        },
    );
    assert(t@[24]@.signatures == spec_signature_kind()[24].signatures);
    assert(t@[24]@.offsets == spec_signature_kind()[24].offsets);
    assert(t@[24]@ == spec_signature_kind()[24]);
    t.push(
        NoStdMagic {
            signatures: one_signature(vec![0x23, 0x25, 0x4D, 0x6F, 0x64, 0x75, 0x6C, 0x65]),
            offsets: vec![DEFAULT_OFFSET],
            max_bytes_read: DEFAULT_MAX_BYTES_READ,
            kind: NoStdFileKind::ModuleForEvenvironmentModules,
            rules: NoStdMatchRules::Default,
        },
    );
    assert(t@[25]@.signatures == spec_signature_kind()[25].signatures);
    assert(t@[25]@.offsets == spec_signature_kind()[25].offsets);
    assert(t@[25]@ == spec_signature_kind()[25]);
    t.push(
        NoStdMagic {
            signatures: one_signature(vec![0x4D, 0x53, 0x57, 0x49, 0x4D, 0x00, 0x00, 0x00, 0xD0, 0x00, 0x00, 0x00, 0x00]),
            offsets: vec![DEFAULT_OFFSET],
            max_bytes_read: DEFAULT_MAX_BYTES_READ,
            kind: NoStdFileKind::WindowImagingFormat,
            rules: NoStdMatchRules::Default,
        },
    );
    assert(t@[26]@.signatures == spec_signature_kind()[26].signatures);
    assert(t@[26]@.offsets == spec_signature_kind()[26].offsets);
    assert(t@[26]@ == spec_signature_kind()[26]);
    t.push(
        NoStdMagic {
            signatures: one_signature(vec![0x21, 0x2D, 0x31, 0x53, 0x4C, 0x4F, 0x42, 0x1F]),
            offsets: vec![DEFAULT_OFFSET],
            max_bytes_read: DEFAULT_MAX_BYTES_READ,
            kind: NoStdFileKind::Slob,
            rules: NoStdMatchRules::Default,
        },
    );
    assert(t@[27]@.signatures == spec_signature_kind()[27].signatures);
    assert(t@[27]@.offsets == spec_signature_kind()[27].offsets);
    assert(t@[27]@ == spec_signature_kind()[27]);
    t.push(
        NoStdMagic {
            signatures: one_signature(vec![0xAC, 0xED]),
            offsets: vec![DEFAULT_OFFSET],
            max_bytes_read: DEFAULT_MAX_BYTES_READ,
            kind: NoStdFileKind::SerializedJavaData,
            rules: NoStdMatchRules::Default,
        },
    );
    assert(t@[28]@.signatures == spec_signature_kind()[28].signatures);
    assert(t@[28]@.offsets == spec_signature_kind()[28].offsets);
    assert(t@[28]@ == spec_signature_kind()[28]);
    t.push(
        NoStdMagic {
            signatures: one_signature(vec![0x43, 0x72, 0x65, 0x61, 0x74, 0x69, 0x69, 0x76, 0x65, 0x20, 0x56, 0x6F, 0x69, 0x63, 0x65, 0x20, 0x46, 0x69, 0x6C, 0x65, 0x1A, 0x1A, 0x00]),
            offsets: vec![DEFAULT_OFFSET],
            max_bytes_read: DEFAULT_MAX_BYTES_READ,
            kind: NoStdFileKind::CreativeVoiceFile,
            rules: NoStdMatchRules::Default,
        },
    );
    assert(t@[29]@.signatures == spec_signature_kind()[29].signatures);
    assert(t@[29]@.offsets == spec_signature_kind()[29].offsets);
    assert(t@[29]@ == spec_signature_kind()[29]);
    t.push(
        NoStdMagic {
            signatures: one_signature(vec![0x2E, 0x73, 0x6E, 0x64]),
            offsets: vec![DEFAULT_OFFSET],
            max_bytes_read: DEFAULT_MAX_BYTES_READ,
            kind: NoStdFileKind::AuAudioFileFormat,
            rules: NoStdMatchRules::Default,
        },
    );
    assert(t@[30]@.signatures == spec_signature_kind()[30].signatures);
    assert(t@[30]@.offsets == spec_signature_kind()[30].offsets);
    assert(t@[30]@ == spec_signature_kind()[30]);
    t.push(
        NoStdMagic {
            signatures: one_signature(vec![0xDB, 0x0A, 0xCE, 0x00]),
            offsets: vec![DEFAULT_OFFSET],
            max_bytes_read: DEFAULT_MAX_BYTES_READ,
            kind: NoStdFileKind::OpenGLIrisPerformer,
            rules: NoStdMatchRules::Default,
        },
    );
    assert(t@[31]@.signatures == spec_signature_kind()[31].signatures);
    assert(t@[31]@.offsets == spec_signature_kind()[31].offsets);
    assert(t@[31]@ == spec_signature_kind()[31]);
    t.push(
        NoStdMagic {
            signatures: one_signature(vec![0x48, 0x5A, 0x4C, 0x52, 0x00, 0x00, 0x00, 0x18]),
            offsets: vec![DEFAULT_OFFSET],
            max_bytes_read: DEFAULT_MAX_BYTES_READ,
            kind: NoStdFileKind::NoodlesoftHazel,
            rules: NoStdMatchRules::Default,
        },
    );
    assert(t@[32]@.signatures == spec_signature_kind()[32].signatures);
    assert(t@[32]@.offsets == spec_signature_kind()[32].offsets);
    assert(t@[32]@ == spec_signature_kind()[32]);
    t.push(
        NoStdMagic {
            signatures: one_signature(vec![0x23, 0x40, 0x7E, 0x5E]),
            offsets: vec![DEFAULT_OFFSET],
            max_bytes_read: DEFAULT_MAX_BYTES_READ,
            kind: NoStdFileKind::VBScriptEncoded,
            rules: NoStdMatchRules::Default,
        },
    );
    assert(t@[33]@.signatures == spec_signature_kind()[33].signatures);
    assert(t@[33]@.offsets == spec_signature_kind()[33].offsets);
    assert(t@[33]@ == spec_signature_kind()[33]);
    t.push(
        NoStdMagic {
            signatures: Vec::new(),
            offsets: Vec::new(),
            max_bytes_read: DEFAULT_MAX_BYTES_READ,
            kind: NoStdFileKind::WEBP,
            rules: NoStdMatchRules::WithFn(ExtFn::Webp),
        },
    );
    assert(t@[34]@.signatures =~= spec_signature_kind()[34].signatures);
    assert(t@[34]@.offsets =~= spec_signature_kind()[34].offsets);
    assert(t@[34]@ == spec_signature_kind()[34]);
    t.push(
        NoStdMagic {
            signatures: one_signature(vec![0x69, 0x63, 0x6E, 0x73]),
            offsets: vec![DEFAULT_OFFSET],
            max_bytes_read: DEFAULT_MAX_BYTES_READ,
            kind: NoStdFileKind::AppleIconImage,
            rules: NoStdMatchRules::Default,
        },
    );
    assert(t@[35]@.signatures == spec_signature_kind()[35].signatures);
    assert(t@[35]@.offsets == spec_signature_kind()[35].offsets);
    assert(t@[35]@ == spec_signature_kind()[35]);
    t.push(
        NoStdMagic {
            signatures: two_signatures(vec![0x47, 0x49, 0x46, 0x38, 0x37, 0x61], vec![0x47, 0x49, 0x46, 0x38, 0x39, 0x61]),
            offsets: vec![DEFAULT_OFFSET],
            max_bytes_read: DEFAULT_MAX_BYTES_READ,
            kind: NoStdFileKind::GIF,
            rules: NoStdMatchRules::Default,
        },
    );
    assert(t@[36]@.signatures == spec_signature_kind()[36].signatures);
    assert(t@[36]@.offsets == spec_signature_kind()[36].offsets);
    assert(t@[36]@ == spec_signature_kind()[36]);
    t.push(
        NoStdMagic {
            signatures: two_signatures(vec![0x00, 0x00, 0x00, 0x0C, 0x0A, 0x6A, 0x50, 0x20, 0x20, 0x0D, 0x0A, 0x87, 0x0A], vec![0xFF, 0x4F, 0xFF, 0x51]),
            offsets: vec![DEFAULT_OFFSET],
            max_bytes_read: DEFAULT_MAX_BYTES_READ,
            kind: NoStdFileKind::JPEG2000,
            rules: NoStdMatchRules::Default,
        },
    );
    assert(t@[37]@.signatures == spec_signature_kind()[37].signatures);
    assert(t@[37]@.offsets == spec_signature_kind()[37].offsets);
    assert(t@[37]@ == spec_signature_kind()[37]);
    t.push(
        NoStdMagic {
            signatures: one_signature(vec![0x25, 0x50, 0x44, 0x46, 0x2D]),
            offsets: vec![DEFAULT_OFFSET],
            max_bytes_read: DEFAULT_MAX_BYTES_READ,
            kind: NoStdFileKind::PDF,
            rules: NoStdMatchRules::Default,
        },
    );
    assert(t@[38]@.signatures == spec_signature_kind()[38].signatures);
    assert(t@[38]@.offsets == spec_signature_kind()[38].offsets);
    assert(t@[38]@ == spec_signature_kind()[38]);
    t.push(
        NoStdMagic {
            signatures: one_signature(vec![0x6B, 0x6F, 0x6C, 0x79]),
            offsets: vec![DEFAULT_OFFSET],
            max_bytes_read: DEFAULT_MAX_BYTES_READ,
            kind: NoStdFileKind::AppleDiskImage,
            rules: NoStdMatchRules::Default,
        },
    );
    assert(t@[39]@.signatures == spec_signature_kind()[39].signatures);
    assert(t@[39]@.offsets == spec_signature_kind()[39].offsets);
    assert(t@[39]@ == spec_signature_kind()[39]);
    t.push(
        NoStdMagic {
            signatures: one_signature(vec![0x4D, 0x53, 0x43, 0x46]),
            offsets: vec![DEFAULT_OFFSET],
            max_bytes_read: DEFAULT_MAX_BYTES_READ,
            kind: NoStdFileKind::Cabinet,
            rules: NoStdMatchRules::Default,
        },
    );
    assert(t@[40]@.signatures == spec_signature_kind()[40].signatures);
    assert(t@[40]@.offsets == spec_signature_kind()[40].offsets);
    assert(t@[40]@ == spec_signature_kind()[40]);
    t.push(
        NoStdMagic {
            signatures: one_signature(vec![0x1A, 0x45, 0xDF, 0xA3]),
            offsets: vec![DEFAULT_OFFSET],
            max_bytes_read: DEFAULT_MAX_BYTES_READ,
            kind: NoStdFileKind::MatroskaMediaContainer,
            rules: NoStdMatchRules::Default,
        },
    );
    assert(t@[41]@.signatures == spec_signature_kind()[41].signatures);
    assert(t@[41]@.offsets == spec_signature_kind()[41].offsets);
    assert(t@[41]@ == spec_signature_kind()[41]);
    t.push(
        NoStdMagic {
            signatures: one_signature(vec![0x7B, 0x5C, 0x72, 0x74, 0x66, 0x31]),
            offsets: vec![DEFAULT_OFFSET],
            max_bytes_read: DEFAULT_MAX_BYTES_READ,
            kind: NoStdFileKind::RichTextFormat,
            rules: NoStdMatchRules::Default,
        },
    );
    assert(t@[42]@.signatures == spec_signature_kind()[42].signatures);
    assert(t@[42]@.offsets == spec_signature_kind()[42].offsets);
    assert(t@[42]@ == spec_signature_kind()[42]);
    t.push(
        NoStdMagic {
            signatures: one_signature(vec![0x78, 0x56, 0x34]),
            offsets: vec![DEFAULT_OFFSET],
            max_bytes_read: DEFAULT_MAX_BYTES_READ,
            kind: NoStdFileKind::PhotoCapTemplate,
            rules: NoStdMatchRules::Default,
        },
    );
    assert(t@[43]@.signatures == spec_signature_kind()[43].signatures);
    assert(t@[43]@.offsets == spec_signature_kind()[43].offsets);
    assert(t@[43]@ == spec_signature_kind()[43]);
    t.push(
        NoStdMagic {
            signatures: one_signature(vec![0x2A, 0x2A, 0x41, 0x43, 0x45, 0x2A, 0x2A]),
            offsets: vec![DEFAULT_OFFSET],
            max_bytes_read: DEFAULT_MAX_BYTES_READ,
            kind: NoStdFileKind::AceCompressed,
            rules: NoStdMatchRules::Default,
        },
    );
    assert(t@[44]@.signatures == spec_signature_kind()[44].signatures);
    assert(t@[44]@.offsets == spec_signature_kind()[44].offsets);
    assert(t@[44]@ == spec_signature_kind()[44]);
    t.push(
        NoStdMagic {
            signatures: one_signature(vec![0x46, 0x4C, 0x56]),
            offsets: vec![DEFAULT_OFFSET],
            max_bytes_read: DEFAULT_MAX_BYTES_READ,
            kind: NoStdFileKind::FlashVideo,
            rules: NoStdMatchRules::Default,
        },
    );
    assert(t@[45]@.signatures == spec_signature_kind()[45].signatures);
    assert(t@[45]@.offsets == spec_signature_kind()[45].offsets);
    assert(t@[45]@ == spec_signature_kind()[45]);
    proof {
        assert(views(t@) =~= spec_signature_kind());
    }
    t
}

} // verus!
