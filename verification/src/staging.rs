//! Filling mapped staging memory, one subresource after the other.

use vstd::prelude::*;
use crate::footprint::SubresourceLayout;
use crate::memcpy::{
    lemma_slices_copied_len, memcpy_subresource, MemcpyDest, SubresourceData,
};

verus! {

/// Subresource `i` has a payload and can be copied into memory of
/// `memory_len` bytes.
pub open spec fn copyable_at(
    layouts: Seq<SubresourceLayout>,
    payloads: Seq<SubresourceData<'_>>,
    memory_len: int,
    i: int,
) -> bool {
    i < payloads.len() && layouts[i].copyable(memory_len, payloads[i])
}

/// The index of the first subresource from `i` on that cannot be copied, or
/// the number of layouts where every one from `i` on can.
pub open spec fn blocked_from(
    layouts: Seq<SubresourceLayout>,
    payloads: Seq<SubresourceData<'_>>,
    memory_len: int,
    i: int,
) -> int
    decreases layouts.len() - i,
{
    if i >= layouts.len() {
        layouts.len() as int
    } else if !copyable_at(layouts, payloads, memory_len, i) {
        i
    } else {
        blocked_from(layouts, payloads, memory_len, i + 1)
    }
}

/// The index of the first subresource that cannot be copied, or the number of
/// layouts where every one can.
pub open spec fn first_blocked(
    layouts: Seq<SubresourceLayout>,
    payloads: Seq<SubresourceData<'_>>,
    memory_len: int,
) -> int {
    blocked_from(layouts, payloads, memory_len, 0)
}

/// `memory` after the first `n` subresources were copied into it, in order.
pub open spec fn staged(
    memory: Seq<u8>,
    layouts: Seq<SubresourceLayout>,
    payloads: Seq<SubresourceData<'_>>,
    n: int,
) -> Seq<u8>
    decreases n,
{
    if n <= 0 {
        memory
    } else {
        layouts[n - 1].copied(staged(memory, layouts, payloads, n - 1), payloads[n - 1])
    }
}

/// Staging keeps the length of memory.
pub proof fn lemma_staged_len(
    memory: Seq<u8>,
    layouts: Seq<SubresourceLayout>,
    payloads: Seq<SubresourceData<'_>>,
    n: int,
)
    ensures
        staged(memory, layouts, payloads, n).len() == memory.len(),
    decreases n,
{
    if n > 0 {
        lemma_staged_len(memory, layouts, payloads, n - 1);
        let layout = layouts[n - 1];
        lemma_slices_copied_len(
            staged(memory, layouts, payloads, n - 1),
            layout.dest(),
            payloads[n - 1],
            layout.row_size_in_bytes as int,
            layout.num_rows as int,
            layout.placed.footprint.depth as int,
        );
    }
}

/// `first_blocked` is the least index at which the copy cannot go on.
pub proof fn lemma_first_blocked(
    layouts: Seq<SubresourceLayout>,
    payloads: Seq<SubresourceData<'_>>,
    memory_len: int,
    i: int,
)
    requires
        0 <= i <= layouts.len(),
    ensures
        i <= blocked_from(layouts, payloads, memory_len, i) <= layouts.len(),
        forall|j: int|
            i <= j < blocked_from(layouts, payloads, memory_len, i) ==> copyable_at(
                layouts,
                payloads,
                memory_len,
                j,
            ),
        blocked_from(layouts, payloads, memory_len, i) < layouts.len() ==> !copyable_at(
            layouts,
            payloads,
            memory_len,
            blocked_from(layouts, payloads, memory_len, i),
        ),
    decreases layouts.len() - i,
{
    if i < layouts.len() && copyable_at(layouts, payloads, memory_len, i) {
        lemma_first_blocked(layouts, payloads, memory_len, i + 1);
    }
}

/// The place of a subresource in mapped memory, where its numbers are
/// addressable.
fn memcpy_dest(layout: &SubresourceLayout) -> (dest: Option<MemcpyDest>)
    ensures
        dest is Some == layout.addressable(),
        dest is Some ==> dest->0 == layout.dest(),
{
    let row_pitch: u64 = layout.placed.footprint.row_pitch as u64;
    let num_rows: u64 = layout.num_rows as u64;
    assert(row_pitch * num_rows <= 0xffff_ffff * 0xffff_ffff) by (nonlinear_arith)
        requires
            row_pitch <= 0xffff_ffff,
            num_rows <= 0xffff_ffff,
    ;
    let slice_pitch: u64 = row_pitch * num_rows;
    let limit: u64 = usize::MAX as u64;
    if layout.row_size_in_bytes > limit || layout.placed.offset > limit || slice_pitch > limit {
        None
    } else {
        Some(
            MemcpyDest {
                offset: layout.placed.offset as usize,
                row_pitch: layout.placed.footprint.row_pitch as usize,
                slice_pitch: slice_pitch as usize,
            },
        )
    }
}

/// Copies the subresources into `memory` in order, each from its payload to
/// the place that its layout gives, and stops before the first one that cannot
/// be copied. Returns whether all were copied.
pub fn stage_subresources(
    memory: &mut [u8],
    layouts: &Vec<SubresourceLayout>,
    payloads: &Vec<SubresourceData<'_>>,
) -> (filled: bool)
    ensures
        final(memory)@ == staged(
            old(memory)@,
            layouts@,
            payloads@,
            first_blocked(layouts@, payloads@, old(memory)@.len() as int),
        ),
        filled == (first_blocked(layouts@, payloads@, old(memory)@.len() as int)
            == layouts@.len()),
{
    let ghost before = memory@;
    let mut i: usize = 0;
    while i < layouts.len()
        invariant
            i <= layouts@.len(),
            before == old(memory)@,
            memory@.len() == before.len(),
            memory@ == staged(before, layouts@, payloads@, i as int),
            first_blocked(layouts@, payloads@, before.len() as int) == blocked_from(
                layouts@,
                payloads@,
                before.len() as int,
                i as int,
            ),
        decreases layouts@.len() - i,
    {
        if i >= payloads.len() {
            return false;
        }
        let layout = &layouts[i];
        let dest = match memcpy_dest(layout) {
            Some(dest) => dest,
            None => {
                return false;
            },
        };
        let copied = memcpy_subresource(
            memory,
            &dest,
            &payloads[i],
            layout.row_size_in_bytes as usize,
            layout.num_rows,
            layout.placed.footprint.depth,
        );
        if !copied {
            return false;
        }
        proof {
            lemma_staged_len(before, layouts@, payloads@, i as int + 1);
        }
        i = i + 1;
    }
    true
}

} // verus!
