//! Byte layout of C-compatible structures.
//!
//! Firmware populates every structure this crate describes, compiled
//! independently of it, so what matters about a structure is not its fields'
//! meaning but their exact byte offsets. This module states the C layout rules
//! — each field starts at the previous field's end rounded up to the field's
//! alignment, and the structure's size is the last field's end rounded up to
//! the structure's alignment — and computes offsets and sizes under them.
//! Each structure's own module lists its fields' sizes and alignments and
//! proves that the computed offsets match the ones the UEFI Specification
//! documents for a 64-bit target.

use vstd::prelude::*;

verus! {

/// The most fields a structure described here can have.
pub const MAX_FIELDS: usize = 0x1000;

/// The largest field size handled, in bytes.
pub const MAX_FIELD_SIZE: usize = 0x10000;

/// The largest alignment handled, in bytes.
pub const MAX_FIELD_ALIGN: usize = 0x1000;

/// Size and alignment of one field, in bytes.
#[derive(Clone, Copy, PartialEq, Eq, Structural, Debug)]
pub struct FieldDesc {
    pub size: usize,
    pub align: usize,
}

impl View for FieldDesc {
    type V = (int, int);

    open spec fn view(&self) -> (int, int) {
        (self.size as int, self.align as int)
    }
}

/// The (size, alignment) pairs a sequence of field descriptors stands for.
pub open spec fn spec_fields_of(descs: Seq<FieldDesc>) -> Seq<(int, int)> {
    descs.map_values(|d: FieldDesc| d@)
}

/// Sizes, alignments and count small enough that every offset fits comfortably
/// in a native word, with every alignment positive.
pub open spec fn spec_fields_bounded(fields: Seq<(int, int)>) -> bool {
    &&& fields.len() <= MAX_FIELDS
    &&& forall|i: int|
        0 <= i < fields.len() ==> {
            &&& 0 <= (#[trigger] fields[i]).0 <= MAX_FIELD_SIZE
            &&& 0 < fields[i].1 <= MAX_FIELD_ALIGN
        }
}

/// `off` rounded up to the next multiple of `align`.
pub open spec fn spec_align_up(off: int, align: int) -> int
    recommends
        0 <= off,
        0 < align,
{
    off + (align - off % align) % align
}

/// The byte offset of field `i`: field 0 sits at offset 0, and every later
/// field starts at the end of the field before it, rounded up to its own
/// alignment.
pub open spec fn spec_field_offset(fields: Seq<(int, int)>, i: int) -> int
    recommends
        0 <= i < fields.len(),
        spec_fields_bounded(fields),
    decreases i,
{
    if i <= 0 {
        0
    } else {
        spec_align_up(spec_field_offset(fields, i - 1) + fields[i - 1].0, fields[i].1)
    }
}

/// The natural alignment of a structure with these fields: the largest field
/// alignment, or 1 for no fields.
pub open spec fn spec_max_align(fields: Seq<(int, int)>) -> int
    decreases fields.len(),
{
    if fields.len() == 0 {
        1
    } else {
        let rest = spec_max_align(fields.drop_last());
        if fields.last().1 >= rest {
            fields.last().1
        } else {
            rest
        }
    }
}

/// The size of a structure with these fields and this alignment: the end of
/// the last field rounded up to the structure's alignment. The alignment is a
/// parameter because a structure may be aligned more strictly than its fields
/// demand, as the 128-bit identifier is.
pub open spec fn spec_struct_size(fields: Seq<(int, int)>, align: int) -> int
    recommends
        spec_fields_bounded(fields),
        0 < align,
{
    if fields.len() == 0 {
        0
    } else {
        spec_align_up(
            spec_field_offset(fields, fields.len() - 1) + fields.last().0,
            align,
        )
    }
}

/// A remainder by a positive divisor lies between zero and the divisor.
proof fn lemma_mod_range(x: int, a: int)
    by (nonlinear_arith)
    requires
        a > 0,
    ensures
        0 <= x % a < a,
{
}

/// Zero rounds to zero, and a divisor measures itself.
proof fn lemma_mod_basics(a: int)
    by (nonlinear_arith)
    requires
        a > 0,
    ensures
        0int % a == 0,
        a % a == 0,
{
}

/// Rounding up never moves down, and moves up by less than one alignment.
pub proof fn lemma_align_up_bounds(off: int, align: int)
    requires
        0 <= off,
        0 < align,
    ensures
        off <= spec_align_up(off, align) < off + align,
{
    lemma_mod_range(off, align);
    lemma_mod_range(align - off % align, align);
}

/// An offset already at zero stays at zero, whatever the alignment.
pub proof fn lemma_align_up_zero(align: int)
    requires
        0 < align,
    ensures
        spec_align_up(0, align) == 0,
{
    lemma_mod_basics(align);
}

/// Rounds `off` up to the next multiple of `align`.
pub fn align_up(off: usize, align: usize) -> (r: usize)
    requires
        0 < align,
        off + align <= usize::MAX,
    ensures
        r == spec_align_up(off as int, align as int),
{
    proof {
        lemma_mod_range(off as int, align as int);
        lemma_mod_range(align as int - (off as int) % (align as int), align as int);
    }
    off + (align - off % align) % align
}

/// The byte offset of each field of a structure with these fields, under the
/// C layout rules.
pub fn field_offsets(descs: &Vec<FieldDesc>) -> (r: Vec<usize>)
    requires
        spec_fields_bounded(spec_fields_of(descs@)),
    ensures
        r@.len() == descs@.len(),
        forall|i: int|
            0 <= i < descs@.len() ==> r@[i] == spec_field_offset(spec_fields_of(descs@), i),
{
    let ghost fields = spec_fields_of(descs@);
    let mut offsets: Vec<usize> = Vec::new();
    let mut end: usize = 0;
    let mut i: usize = 0;
    while i < descs.len()
        invariant
            spec_fields_bounded(fields),
            fields == spec_fields_of(descs@),
            fields.len() == descs@.len(),
            i <= descs@.len(),
            offsets@.len() == i,
            forall|j: int| 0 <= j < i ==> offsets@[j] == spec_field_offset(fields, j),
            i == 0 ==> end == 0,
            i > 0 ==> end == spec_field_offset(fields, i - 1) + fields[i - 1].0,
            end <= i * (MAX_FIELD_SIZE + MAX_FIELD_ALIGN),
        decreases descs@.len() - i,
    {
        let d = descs[i];
        proof {
            assert(fields[i as int] == descs@[i as int]@);
            assert(end + d.align <= MAX_FIELDS * (MAX_FIELD_SIZE + MAX_FIELD_ALIGN)
                + MAX_FIELD_ALIGN) by {
                assert(end <= i * (MAX_FIELD_SIZE + MAX_FIELD_ALIGN));
                assert(i * (MAX_FIELD_SIZE + MAX_FIELD_ALIGN) <= MAX_FIELDS * (MAX_FIELD_SIZE
                    + MAX_FIELD_ALIGN)) by (nonlinear_arith)
                    requires
                        0 <= i <= MAX_FIELDS,
                ;
            }
        }
        let off = align_up(end, d.align);
        proof {
            if i == 0 {
                lemma_align_up_zero(d.align as int);
            }
            lemma_align_up_bounds(end as int, d.align as int);
            assert(off == spec_field_offset(fields, i as int));
            assert((i as int) * (MAX_FIELD_SIZE + MAX_FIELD_ALIGN) + (MAX_FIELD_SIZE
                + MAX_FIELD_ALIGN) == (i + 1) * (MAX_FIELD_SIZE + MAX_FIELD_ALIGN))
                by (nonlinear_arith);
            assert((i + 1) * (MAX_FIELD_SIZE + MAX_FIELD_ALIGN) <= MAX_FIELDS * (MAX_FIELD_SIZE
                + MAX_FIELD_ALIGN)) by (nonlinear_arith)
                requires
                    0 <= i,
                    i + 1 <= MAX_FIELDS,
            ;
        }
        offsets.push(off);
        end = off + d.size;
        i = i + 1;
    }
    offsets
}

/// The natural alignment of a structure with these fields: the largest field
/// alignment, or 1 for no fields.
pub fn max_align(descs: &Vec<FieldDesc>) -> (r: usize)
    requires
        spec_fields_bounded(spec_fields_of(descs@)),
    ensures
        r == spec_max_align(spec_fields_of(descs@)),
{
    let ghost fields = spec_fields_of(descs@);
    let mut m: usize = 1;
    let mut i: usize = 0;
    while i < descs.len()
        invariant
            fields == spec_fields_of(descs@),
            fields.len() == descs@.len(),
            i <= descs@.len(),
            m == spec_max_align(fields.take(i as int)),
        decreases descs@.len() - i,
    {
        proof {
            assert(fields[i as int] == descs@[i as int]@);
            assert(fields.take(i + 1).drop_last() =~= fields.take(i as int));
            assert(fields.take(i + 1).last() == fields[i as int]);
        }
        let d = descs[i];
        if d.align > m {
            m = d.align;
        }
        i = i + 1;
    }
    proof {
        assert(fields.take(fields.len() as int) =~= fields);
    }
    m
}

/// The total size of a structure with these fields and this alignment, under
/// the C layout rules.
pub fn struct_size(descs: &Vec<FieldDesc>, align: usize) -> (r: usize)
    requires
        spec_fields_bounded(spec_fields_of(descs@)),
        0 < align <= MAX_FIELD_ALIGN,
    ensures
        r == spec_struct_size(spec_fields_of(descs@), align as int),
{
    let ghost fields = spec_fields_of(descs@);
    if descs.len() == 0 {
        return 0;
    }
    let offsets = field_offsets(descs);
    let last = descs.len() - 1;
    proof {
        assert(fields[last as int] == descs@[last as int]@);
        assert(offsets@[last as int] == spec_field_offset(fields, last as int));
        lemma_field_offset_bound(fields, last as int);
    }
    let end = offsets[last] + descs[last].size;
    align_up(end, align)
}

/// Every field offset stays within the worst case of one size and one
/// alignment step for each field before it.
pub proof fn lemma_field_offset_bound(fields: Seq<(int, int)>, i: int)
    requires
        spec_fields_bounded(fields),
        0 <= i < fields.len(),
    ensures
        0 <= spec_field_offset(fields, i) <= i * (MAX_FIELD_SIZE + MAX_FIELD_ALIGN),
    decreases i,
{
    if i > 0 {
        lemma_field_offset_bound(fields, i - 1);
        lemma_align_up_bounds(
            spec_field_offset(fields, i - 1) + fields[i - 1].0,
            fields[i].1,
        );
        assert((i - 1) * (MAX_FIELD_SIZE + MAX_FIELD_ALIGN) + (MAX_FIELD_SIZE + MAX_FIELD_ALIGN)
            == i * (MAX_FIELD_SIZE + MAX_FIELD_ALIGN)) by (nonlinear_arith);
    }
}

} // verus!
