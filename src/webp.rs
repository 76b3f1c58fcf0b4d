use vstd::prelude::*;

verus! {

/// The four bytes `RIFF` that open every RIFF container.
pub open spec fn riff_tag() -> Seq<u8> {
    seq![0x52u8, 0x49u8, 0x46u8, 0x46u8]
}

/// The form type `WEBP` at bytes 8..12 of a WebP file.
pub open spec fn webp_tag() -> Seq<u8> {
    seq![0x57u8, 0x45u8, 0x42u8, 0x50u8]
}

/// Little-endian unsigned value of the four bytes of `b` that start at `at`.
pub open spec fn le_u32_at(b: Seq<u8>, at: int) -> nat {
    b[at] as nat + 256 * (b[at + 1] as nat) + 65536 * (b[at + 2] as nat) + 16777216 * (b[at
        + 3] as nat)
}

/// A RIFF container of form type WEBP whose declared size is larger than 4.
pub open spec fn spec_is_webp(b: Seq<u8>) -> bool {
    &&& b.len() >= 12
    &&& b.subrange(0, 4) == riff_tag()
    &&& b.subrange(8, 12) == webp_tag()
    &&& le_u32_at(b, 4) > 4
}

/// Whether `bytes` starts with a WebP header: `RIFF`, a little-endian size above 4, `WEBP`.
pub fn is_webp(bytes: &[u8]) -> (r: bool)
    ensures
        r == spec_is_webp(bytes@),
{
    if bytes.len() < 12 {
        return false;
    }
    if !(bytes[0] == 0x52 && bytes[1] == 0x49 && bytes[2] == 0x46 && bytes[3] == 0x46) {
        assert(bytes@.subrange(0, 4)[0] != riff_tag()[0] || bytes@.subrange(0, 4)[1]
            != riff_tag()[1] || bytes@.subrange(0, 4)[2] != riff_tag()[2] || bytes@.subrange(
            0,
            4,
        )[3] != riff_tag()[3]);
        return false;
    }
    assert(bytes@.subrange(0, 4) =~= riff_tag());
    if !(bytes[8] == 0x57 && bytes[9] == 0x45 && bytes[10] == 0x42 && bytes[11] == 0x50) {
        assert(bytes@.subrange(8, 12)[0] != webp_tag()[0] || bytes@.subrange(8, 12)[1]
            != webp_tag()[1] || bytes@.subrange(8, 12)[2] != webp_tag()[2] || bytes@.subrange(
            8,
            12,
        )[3] != webp_tag()[3]);
        return false;
    }
    assert(bytes@.subrange(8, 12) =~= webp_tag());
    let file_size: u64 = bytes[4] as u64 + 256 * (bytes[5] as u64) + 65536 * (bytes[6] as u64)
        + 16777216 * (bytes[7] as u64);
    file_size > 4
}

} // verus!
