//! Properties of the layout that hold for every descriptor.
use vstd::prelude::*;

use crate::layout::{
    anyfunc_size, current_length_size, field_offset, record_size, Field, LayoutError, Region,
    VMOffsets, NUM_REGIONS,
};

verus! {

/// Sizes of the regions that come before position `k` of the layout order.
pub open spec fn preceding_sizes(o: VMOffsets, k: nat) -> Seq<int> {
    Seq::new(k, |i: int| o.region_size(Region::at(i as nat)))
}

/// Sum of a sequence of sizes.
pub open spec fn total(s: Seq<int>) -> int {
    s.fold_left(0, |acc: int, x: int| acc + x)
}

proof fn lemma_size_before_is_total(o: VMOffsets, k: nat)
    ensures
        o.size_before(k) == total(preceding_sizes(o, k)),
    decreases k,
{
    if k > 0 {
        let k1 = (k - 1) as nat;
        lemma_size_before_is_total(o, k1);
        assert(preceding_sizes(o, k).drop_last() =~= preceding_sizes(o, k1));
    }
}

/// Each region starts at the sum of the sizes (count times record size) of
/// all the regions before it in the layout order.
pub proof fn lemma_region_start_sums_preceding(o: VMOffsets, region: Region)
    requires
        o.wf(),
    ensures
        o.region_start(region) == total(preceding_sizes(o, region.position())),
        region.position() > 0 ==> o.region_start(region) == o.region_start(
            Region::at((region.position() - 1) as nat),
        ) + o.region_size(Region::at((region.position() - 1) as nat)),
{
    lemma_size_before_is_total(o, region.position());
}

/// Region starts never decrease along the layout order.
pub proof fn lemma_region_starts_ordered(o: VMOffsets, a: Region, b: Region)
    requires
        o.wf(),
        a.position() <= b.position(),
    ensures
        0 <= o.region_start(a) <= o.region_start(b),
{
    o.lemma_size_before_monotone(a.position(), b.position());
}

/// The context ends where its last region ends, and every region lies
/// within it.
pub proof fn lemma_context_size_ends_last_region(o: VMOffsets, region: Region)
    requires
        o.wf(),
    ensures
        o.context_size() == o.region_start(Region::DefinedGlobals) + o.region_size(
            Region::DefinedGlobals,
        ),
        o.context_size() == total(preceding_sizes(o, NUM_REGIONS as nat)),
        o.region_start(region) + o.region_size(region) <= o.context_size(),
{
    lemma_size_before_is_total(o, NUM_REGIONS as nat);
    o.lemma_size_before_monotone(region.position() + 1, NUM_REGIONS as nat);
}

/// Going from 4-byte to 8-byte pointers doubles every field offset and the
/// size of every record made of pointers, and leaves the fixed-size records
/// and fields as they are.
pub proof fn lemma_pointer_width_doubling(region: Region, field: Field)
    ensures
        field_offset(8, field) == 2 * field_offset(4, field),
        region.is_pointer_sized() ==> record_size(8, region) == 2 * record_size(4, region),
        !region.is_pointer_sized() ==> record_size(8, region) == record_size(4, region),
        anyfunc_size(8) == 2 * anyfunc_size(4),
        current_length_size() == 4,
{
}

/// Within a region, a valid index is addressed at the region's start plus
/// the index times the record size, and a larger index lies further on.
pub proof fn lemma_offset_of_increasing(o: VMOffsets, region: Region, i: int, j: int)
    requires
        o.wf(),
        0 <= i < j,
        o.offset_of_result(region, j) is Ok,
    ensures
        o.offset_of_result(region, i) == Ok::<int, LayoutError>(
            o.region_start(region) + i * record_size(o.ptr(), region),
        ),
        o.offset_of_result(region, j) == Ok::<int, LayoutError>(
            o.region_start(region) + j * record_size(o.ptr(), region),
        ),
        o.region_start(region) + i * record_size(o.ptr(), region) < o.region_start(region) + j
            * record_size(o.ptr(), region),
{
    let s = record_size(o.ptr(), region);
    assert(0 <= i * s < j * s) by (nonlinear_arith)
        requires
            0 <= i < j,
            s >= 1,
    ;
}

/// An index that is not below its region's count is refused, whatever the
/// rest of the layout.
pub proof fn lemma_out_of_range_fails(o: VMOffsets, region: Region, i: int)
    requires
        o.wf(),
        i >= o.count(region),
    ensures
        o.offset_of_result(region, i) == Err::<int, LayoutError>(LayoutError::OutOfRange),
        o.element_offset_result(region, i) == Err::<int, LayoutError>(LayoutError::OutOfRange),
{
}

} // verus!
