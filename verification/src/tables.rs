//! The table header that precedes every standard EFI table.
//!
//! The header carries a signature identifying the table, the specification
//! revision the table conforms to, the size in bytes of the entire table
//! including the header, and a 32-bit CRC computed over `HeaderSize` bytes of
//! the table with the `Crc32` field set to zero. Capabilities may be added to
//! the tables over time, so `HeaderSize` must always be used to determine a
//! table's actual size, never a hard-coded constant.
//!
//! [`EFI_TABLE_HEADER::new`] computes the checksum of a header-only buffer and
//! [`EFI_TABLE_HEADER::crc_matches`] re-validates it the way firmware does;
//! [`lemma_header_crc_round_trip`] proves that validation always accepts a
//! header built that way. [`lemma_table_header_layout`] proves the header's
//! byte layout matches the documented offsets.

use vstd::prelude::*;

use crate::crc32::crc32;
use crate::crc32::spec_crc32;
use crate::layout::spec_field_offset;
use crate::layout::spec_fields_bounded;
use crate::layout::spec_fields_of;
use crate::layout::spec_max_align;
use crate::layout::spec_struct_size;
use crate::layout::FieldDesc;
use crate::types::UINT16;
use crate::types::UINT32;
use crate::types::UINT64;

verus! {

/// Data structure that precedes all of the standard EFI table types.
#[derive(Clone, Copy, PartialEq, Eq, Structural, Debug)]
pub struct EFI_TABLE_HEADER {
    /// A 64-bit signature that identifies the type of table that follows.
    pub Signature: UINT64,
    /// The revision of the EFI Specification to which this table conforms: the
    /// major revision in the upper 16 bits, the minor revision (a binary coded
    /// decimal limited to 0 through 99) in the lower 16 bits.
    pub Revision: UINT32,
    /// The size, in bytes, of the entire table including this header.
    pub HeaderSize: UINT32,
    /// The 32-bit CRC of the entire table, computed by setting this field to 0
    /// and computing the CRC-32 of `HeaderSize` bytes.
    pub Crc32: UINT32,
    /// Reserved field that must be set to 0.
    pub Reserved: UINT32,
}

/// A 32-bit value as the four bytes it occupies on a little-endian target.
pub open spec fn spec_u32_le(x: u32) -> Seq<u8> {
    seq![
        (x & 0xFF) as u8,
        ((x >> 8) & 0xFF) as u8,
        ((x >> 16) & 0xFF) as u8,
        ((x >> 24) & 0xFF) as u8,
    ]
}

/// A 64-bit value as the eight bytes it occupies on a little-endian target.
pub open spec fn spec_u64_le(x: u64) -> Seq<u8> {
    seq![
        (x & 0xFF) as u8,
        ((x >> 8) & 0xFF) as u8,
        ((x >> 16) & 0xFF) as u8,
        ((x >> 24) & 0xFF) as u8,
        ((x >> 32) & 0xFF) as u8,
        ((x >> 40) & 0xFF) as u8,
        ((x >> 48) & 0xFF) as u8,
        ((x >> 56) & 0xFF) as u8,
    ]
}

/// The 24 bytes of a header as they lie in memory on a little-endian 64-bit
/// target, with `crc_field` standing in the checksum slot.
pub open spec fn spec_header_bytes(h: EFI_TABLE_HEADER, crc_field: u32) -> Seq<u8> {
    spec_u64_le(h.Signature) + spec_u32_le(h.Revision) + spec_u32_le(h.HeaderSize) + spec_u32_le(
        crc_field,
    ) + spec_u32_le(h.Reserved)
}

/// The checksum a header-only buffer owes: the CRC-32 of the header's bytes
/// with the checksum field zeroed. It does not depend on the `Crc32` field.
pub open spec fn spec_header_crc(h: EFI_TABLE_HEADER) -> u32 {
    spec_crc32(spec_header_bytes(h, 0))
}

/// Appends the four little-endian bytes of `x`.
fn push_u32_le(out: &mut Vec<u8>, x: u32)
    ensures
        final(out)@ == old(out)@ + spec_u32_le(x),
{
    out.push((x & 0xFF) as u8);
    out.push(((x >> 8) & 0xFF) as u8);
    out.push(((x >> 16) & 0xFF) as u8);
    out.push(((x >> 24) & 0xFF) as u8);
    proof {
        assert(out@ =~= old(out)@ + spec_u32_le(x));
    }
}

/// Appends the eight little-endian bytes of `x`.
fn push_u64_le(out: &mut Vec<u8>, x: u64)
    ensures
        final(out)@ == old(out)@ + spec_u64_le(x),
{
    out.push((x & 0xFF) as u8);
    out.push(((x >> 8) & 0xFF) as u8);
    out.push(((x >> 16) & 0xFF) as u8);
    out.push(((x >> 24) & 0xFF) as u8);
    out.push(((x >> 32) & 0xFF) as u8);
    out.push(((x >> 40) & 0xFF) as u8);
    out.push(((x >> 48) & 0xFF) as u8);
    out.push(((x >> 56) & 0xFF) as u8);
    proof {
        assert(out@ =~= old(out)@ + spec_u64_le(x));
    }
}

impl EFI_TABLE_HEADER {
    /// The header's bytes with the checksum field read as zero: the buffer the
    /// checksum of a header-only table is computed over.
    pub fn bytes_with_zeroed_crc(&self) -> (r: Vec<u8>)
        ensures
            r@ == spec_header_bytes(*self, 0),
            r@.len() == 24,
    {
        let mut out: Vec<u8> = Vec::new();
        push_u64_le(&mut out, self.Signature);
        push_u32_le(&mut out, self.Revision);
        push_u32_le(&mut out, self.HeaderSize);
        push_u32_le(&mut out, 0);
        push_u32_le(&mut out, self.Reserved);
        proof {
            assert(out@ =~= spec_header_bytes(*self, 0));
        }
        out
    }

    /// Builds the header of a table `header_size` bytes long whose bytes are
    /// the header's own, computing the checksum over those bytes with the
    /// checksum field zeroed, as the UEFI Specification prescribes.
    pub fn new(signature: UINT64, revision: UINT32, header_size: UINT32) -> (h: Self)
        ensures
            h.Signature == signature,
            h.Revision == revision,
            h.HeaderSize == header_size,
            h.Reserved == 0,
            h.Crc32 == spec_header_crc(h),
    {
        let mut h = EFI_TABLE_HEADER {
            Signature: signature,
            Revision: revision,
            HeaderSize: header_size,
            Crc32: 0,
            Reserved: 0,
        };
        let bytes = h.bytes_with_zeroed_crc();
        let c = crc32(&bytes);
        let ghost h0 = h;
        h.Crc32 = c;
        proof {
            assert(spec_header_bytes(h, 0) =~= spec_header_bytes(h0, 0));
        }
        h
    }

    /// Whether the checksum field holds the CRC-32 of the header's bytes with
    /// the checksum field zeroed: the validation firmware performs on a
    /// header-only buffer.
    pub fn crc_matches(&self) -> (r: bool)
        ensures
            r == (self.Crc32 == spec_header_crc(*self)),
    {
        let bytes = self.bytes_with_zeroed_crc();
        let c = crc32(&bytes);
        self.Crc32 == c
    }

    /// The size in bytes of the entire table this header starts. Always read
    /// it from here: the tables grow across specification revisions, so a
    /// hard-coded size goes stale.
    pub fn table_size(&self) -> (r: UINT32)
        ensures
            r == self.HeaderSize,
    {
        self.HeaderSize
    }
}

/// The major revision a header's revision field encodes: its upper 16 bits.
pub fn revision_major(revision: UINT32) -> (r: UINT16)
    ensures
        r == revision as int / 0x10000,
{
    proof {
        assert(revision >> 16 == revision / 0x10000 && revision >> 16 < 0x10000) by (bit_vector);
    }
    (revision >> 16) as UINT16
}

/// The minor revision a header's revision field encodes: its lower 16 bits,
/// a binary coded decimal in the range 0 through 99.
pub fn revision_minor(revision: UINT32) -> (r: UINT16)
    ensures
        r == revision as int % 0x10000,
{
    proof {
        assert(revision & 0xFFFF == revision % 0x10000 && revision & 0xFFFF < 0x10000)
            by (bit_vector);
    }
    (revision & 0xFFFF) as UINT16
}

/// Round trip: a header built over a given signature, revision and size, with
/// its checksum computed over the header-zeroed buffer, reproduces exactly
/// that checksum when the computation is repeated over the same buffer, so
/// [`EFI_TABLE_HEADER::crc_matches`] accepts it.
pub proof fn lemma_header_crc_round_trip(h: EFI_TABLE_HEADER)
    requires
        h.Crc32 == spec_header_crc(h),
    ensures
        spec_crc32(spec_header_bytes(h, 0)) == h.Crc32,
{
}

/// Field sizes and alignments of the table header in declaration order:
/// Signature, Revision, HeaderSize, Crc32, Reserved.
pub open spec fn spec_table_header_fields() -> Seq<(int, int)> {
    seq![(8int, 8int), (4int, 4int), (4int, 4int), (4int, 4int), (4int, 4int)]
}

/// The header lies out exactly as documented: the signature at offset 0 as an
/// 8-byte field, the revision immediately following at 8, the size at 12, the
/// CRC at 16 and the reserved field at 20, 24 bytes in all.
pub proof fn lemma_table_header_layout()
    ensures
        spec_fields_bounded(spec_table_header_fields()),
        spec_field_offset(spec_table_header_fields(), 0) == 0,
        spec_field_offset(spec_table_header_fields(), 1) == 8,
        spec_field_offset(spec_table_header_fields(), 2) == 12,
        spec_field_offset(spec_table_header_fields(), 3) == 16,
        spec_field_offset(spec_table_header_fields(), 4) == 20,
        spec_max_align(spec_table_header_fields()) == 8,
        spec_struct_size(spec_table_header_fields(), 8) == 24,
{
    let fields = spec_table_header_fields();
    assert(fields[0] == (8int, 8int));
    assert(fields[1] == (4int, 4int));
    assert(fields[2] == (4int, 4int));
    assert(fields[3] == (4int, 4int));
    assert(fields[4] == (4int, 4int));
    assert(spec_field_offset(fields, 0) == 0);
    assert(spec_field_offset(fields, 1) == 8);
    assert(spec_field_offset(fields, 2) == 12);
    assert(spec_field_offset(fields, 3) == 16);
    assert(spec_field_offset(fields, 4) == 20);
    assert(fields.subrange(0, 1).drop_last() =~= fields.subrange(0, 0));
    assert(fields.subrange(0, 2).drop_last() =~= fields.subrange(0, 1));
    assert(fields.subrange(0, 3).drop_last() =~= fields.subrange(0, 2));
    assert(fields.subrange(0, 4).drop_last() =~= fields.subrange(0, 3));
    assert(fields.drop_last() =~= fields.subrange(0, 4));
    assert(spec_max_align(fields.subrange(0, 0)) == 1);
    assert(spec_max_align(fields.subrange(0, 1)) == 8);
    assert(spec_max_align(fields.subrange(0, 2)) == 8);
    assert(spec_max_align(fields.subrange(0, 3)) == 8);
    assert(spec_max_align(fields.subrange(0, 4)) == 8);
    assert(spec_max_align(fields) == 8);
}

/// The header's field descriptors, for computing its layout at run time.
pub fn table_header_field_descs() -> (r: Vec<FieldDesc>)
    ensures
        spec_fields_of(r@) == spec_table_header_fields(),
{
    let mut v: Vec<FieldDesc> = Vec::new();
    v.push(FieldDesc { size: 8, align: 8 });
    v.push(FieldDesc { size: 4, align: 4 });
    v.push(FieldDesc { size: 4, align: 4 });
    v.push(FieldDesc { size: 4, align: 4 });
    v.push(FieldDesc { size: 4, align: 4 });
    proof {
        assert(spec_fields_of(v@) =~= spec_table_header_fields());
    }
    v
}

} // verus!
