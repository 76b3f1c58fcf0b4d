use vstd::prelude::*;

use crate::signatures::{signature_kind, spec_signature_kind, views, MagicView};

verus! {

/// Header bytes read when no rule asks for more.
pub const DEFAULT_MAX_BYTES_READ: usize = 2048;

/// Offset of a signature that opens the file.
pub const DEFAULT_OFFSET: usize = 0;

/// Offset of the `ustar` magic in a TAR header.
pub const TAR_OFFSET: usize = 257;

/// Offsets of the `CD001` volume descriptor magic in an ISO 9660 image.
pub const ISO_OFFSET_1: usize = 32769;

pub const ISO_OFFSET_2: usize = 34817;

pub const ISO_OFFSET_3: usize = 36865;

/// Length of the `ustar` and `CD001` magics.
pub const FIVE_BYTE_MAGIC_LEN: usize = 5;

/// Header bytes needed to see a TAR magic.
pub const TAR_MAX_BYTES_READ: usize = TAR_OFFSET + FIVE_BYTE_MAGIC_LEN;

/// Header bytes needed to see an ISO magic at its furthest offset.
pub const ISO_MAX_BYTES_READ: usize = ISO_OFFSET_3 + FIVE_BYTE_MAGIC_LEN;

pub open spec fn spec_tar_offsets() -> Seq<usize> {
    seq![TAR_OFFSET]
}

pub open spec fn spec_iso_offsets() -> Seq<usize> {
    seq![ISO_OFFSET_1, ISO_OFFSET_2, ISO_OFFSET_3]
}

/// Offsets at which a TAR magic may start.
pub fn tar_offsets() -> (r: Vec<usize>)
    ensures
        r@ == spec_tar_offsets(),
{
    vec![TAR_OFFSET]
}

/// Offsets at which an ISO magic may start.
pub fn iso_offsets() -> (r: Vec<usize>)
    ensures
        r@ == spec_iso_offsets(),
{
    vec![ISO_OFFSET_1, ISO_OFFSET_2, ISO_OFFSET_3]
}

/// Largest element of `offsets`, or 0 when there is none.
pub open spec fn max_offset(offsets: Seq<usize>) -> nat
    decreases offsets.len(),
{
    if offsets.len() == 0 {
        0
    } else {
        let rest = max_offset(offsets.drop_last());
        let last = offsets.last() as nat;
        if last > rest { last } else { rest }
    }
}

/// Number of header bytes needed to check `signature_len` bytes at the furthest of `offsets`.
pub open spec fn bytes_needed(offsets: Seq<usize>, signature_len: nat) -> nat {
    max_offset(offsets) + signature_len
}

/// `max(offsets) + signature.len()`, with 0 standing for the maximum of no offsets.
pub fn max_bytes(offsets: &[usize], signature: &[u8]) -> (r: usize)
    requires
        bytes_needed(offsets@, signature@.len()) <= usize::MAX,
    ensures
        r == bytes_needed(offsets@, signature@.len()),
{
    let mut max: usize = 0;
    let mut index: usize = 0;
    while index < offsets.len()
        invariant
            index <= offsets@.len(),
            max == max_offset(offsets@.subrange(0, index as int)),
        decreases offsets@.len() - index,
    {
        proof {
            assert(offsets@.subrange(0, index + 1).drop_last() =~= offsets@.subrange(0, index as int));
        }
        if offsets[index] > max {
            max = offsets[index];
        }
        index += 1;
    }
    proof {
        assert(offsets@.subrange(0, offsets@.len() as int) =~= offsets@);
    }
    max + signature.len()
}

/// Largest `max_bytes_read` in `table`, 0 for an empty table.
pub open spec fn max_read(table: Seq<MagicView>) -> usize
    decreases table.len(),
{
    if table.len() == 0 {
        0
    } else {
        let rest = max_read(table.drop_last());
        if table.last().max_bytes_read > rest {
            table.last().max_bytes_read
        } else {
            rest
        }
    }
}

/// The read size that makes every built-in rule checkable, or the default for an empty table.
pub open spec fn spec_with_bytes_read() -> usize {
    if spec_signature_kind().len() == 0 {
        DEFAULT_MAX_BYTES_READ
    } else {
        max_read(spec_signature_kind())
    }
}

/// `max_read` bounds every rule's budget, and is one of them when the table is not empty.
pub proof fn lemma_max_read_bounds(table: Seq<MagicView>)
    ensures
        forall|i: int| 0 <= i < table.len() ==> #[trigger] table[i].max_bytes_read <= max_read(table),
        table.len() > 0 ==> exists|i: int|
            0 <= i < table.len() && #[trigger] table[i].max_bytes_read == max_read(table),
    decreases table.len(),
{
    if table.len() > 0 {
        let rest = table.drop_last();
        lemma_max_read_bounds(rest);
        assert forall|i: int| 0 <= i < table.len() implies #[trigger] table[i].max_bytes_read
            <= max_read(table) by {
            if i < rest.len() {
                assert(rest[i] == table[i]);
            }
        }
        if table.last().max_bytes_read > max_read(rest) || rest.len() == 0 {
            assert(table[table.len() - 1].max_bytes_read == max_read(table));
        } else {
            let j = choose|j: int| 0 <= j < rest.len() && #[trigger] rest[j].max_bytes_read == max_read(rest);
            assert(table[j].max_bytes_read == max_read(table));
        }
    }
}

/// The number of header bytes to read so that every built-in rule can be checked: the largest
/// `max_bytes_read` of the table, or `DEFAULT_MAX_BYTES_READ` if the table were empty.
pub fn with_bytes_read() -> (r: usize)
    ensures
        r == spec_with_bytes_read(),
        forall|i: int|
            0 <= i < spec_signature_kind().len() ==> #[trigger] spec_signature_kind()[i].max_bytes_read
                <= r,
        r >= DEFAULT_MAX_BYTES_READ,
{
    let table = signature_kind();
    let ghost all = views(table@);
    if table.len() == 0 {
        return DEFAULT_MAX_BYTES_READ;
    }
    let mut max: usize = 0;
    let mut i: usize = 0;
    while i < table.len()
        invariant
            i <= table@.len(),
            all == views(table@),
            max == max_read(all.subrange(0, i as int)),
        decreases table@.len() - i,
    {
        proof {
            assert(all.subrange(0, i + 1).drop_last() =~= all.subrange(0, i as int));
            assert(all[i as int] == table@[i as int]@);
        }
        if table[i].max_bytes_read > max {
            max = table[i].max_bytes_read;
        }
        i += 1;
    }
    proof {
        assert(all.subrange(0, all.len() as int) =~= all);
        lemma_max_read_bounds(all);
        assert(all[0].max_bytes_read == DEFAULT_MAX_BYTES_READ);
    }
    max
}

} // verus!
