//! Row-by-row copies between two pitched layouts.

use vstd::prelude::*;

verus! {

/// Where a subresource lands in mapped memory: the index of its first byte and
/// the distances between the starts of consecutive rows and slices.
#[derive(Clone, Copy, Debug)]
pub struct MemcpyDest {
    pub offset: usize,
    pub row_pitch: usize,
    pub slice_pitch: usize,
}

/// The bytes of one subresource as the caller laid them out, with the
/// distances between the starts of consecutive rows and slices.
#[derive(Clone, Copy, Debug)]
pub struct SubresourceData<'a> {
    pub data: &'a [u8],
    pub row_pitch: usize,
    pub slice_pitch: usize,
}

/// Index of byte `k` of row `y` of slice `z` in a layout that starts at `offset`.
pub open spec fn byte_index(offset: int, row_pitch: int, slice_pitch: int, z: int, y: int, k: int) -> int {
    offset + z * slice_pitch + y * row_pitch + k
}

impl MemcpyDest {
    /// Index in mapped memory of byte `k` of row `y` of slice `z`.
    pub open spec fn index(self, z: int, y: int, k: int) -> int {
        byte_index(self.offset as int, self.row_pitch as int, self.slice_pitch as int, z, y, k)
    }
}

impl<'a> SubresourceData<'a> {
    /// Index in `data` of byte `k` of row `y` of slice `z`.
    pub open spec fn index(self, z: int, y: int, k: int) -> int {
        byte_index(0, self.row_pitch as int, self.slice_pitch as int, z, y, k)
    }
}

/// Every byte that the copy reads lies in the source, and every byte that it
/// writes lies in memory of `memory_len` bytes.
pub open spec fn copy_in_bounds(
    memory_len: int,
    dest: MemcpyDest,
    src: SubresourceData<'_>,
    row_size: int,
    num_rows: int,
    num_slices: int,
) -> bool {
    forall|z: int, y: int, k: int|
        #![trigger dest.index(z, y, k)]
        #![trigger src.index(z, y, k)]
        0 <= z < num_slices && 0 <= y < num_rows && 0 <= k < row_size ==> dest.index(z, y, k)
            < memory_len && src.index(z, y, k) < src.data@.len()
}

/// `memory` after `n` bytes of `src`, from index `from` on, were written to it
/// from index `at` on.
pub open spec fn row_written(memory: Seq<u8>, at: int, src: Seq<u8>, from: int, n: int) -> Seq<u8> {
    Seq::new(
        memory.len(),
        |i: int|
            if at <= i < at + n {
                src[from + (i - at)]
            } else {
                memory[i]
            },
    )
}

/// `memory` after the first `rows` rows of slice `z` were copied, in order.
pub open spec fn rows_copied(
    memory: Seq<u8>,
    dest: MemcpyDest,
    src: SubresourceData<'_>,
    row_size: int,
    z: int,
    rows: int,
) -> Seq<u8>
    decreases rows,
{
    if rows <= 0 {
        memory
    } else {
        row_written(
            rows_copied(memory, dest, src, row_size, z, rows - 1),
            dest.index(z, rows - 1, 0),
            src.data@,
            src.index(z, rows - 1, 0),
            row_size,
        )
    }
}

/// `memory` after the first `slices` slices of `num_rows` rows each were
/// copied, in order.
pub open spec fn slices_copied(
    memory: Seq<u8>,
    dest: MemcpyDest,
    src: SubresourceData<'_>,
    row_size: int,
    num_rows: int,
    slices: int,
) -> Seq<u8>
    decreases slices,
{
    if slices <= 0 {
        memory
    } else {
        rows_copied(
            slices_copied(memory, dest, src, row_size, num_rows, slices - 1),
            dest,
            src,
            row_size,
            slices - 1,
            num_rows,
        )
    }
}

/// What `memcpy_subresource` leaves in `memory`: every slice in order, and in
/// each slice every row in order.
pub open spec fn subresource_copied(
    memory: Seq<u8>,
    dest: MemcpyDest,
    src: SubresourceData<'_>,
    row_size: int,
    num_rows: int,
    num_slices: int,
) -> Seq<u8> {
    slices_copied(memory, dest, src, row_size, num_rows, num_slices)
}

proof fn lemma_mul_le(a: int, b: int, c: int)
    by (nonlinear_arith)
    requires
        0 <= a <= b,
        0 <= c,
    ensures
        0 <= a * c <= b * c,
{
}

/// Copying rows keeps the length of memory.
pub proof fn lemma_rows_copied_len(
    memory: Seq<u8>,
    dest: MemcpyDest,
    src: SubresourceData<'_>,
    row_size: int,
    z: int,
    rows: int,
)
    ensures
        rows_copied(memory, dest, src, row_size, z, rows).len() == memory.len(),
    decreases rows,
{
    if rows > 0 {
        lemma_rows_copied_len(memory, dest, src, row_size, z, rows - 1);
    }
}

/// Copying slices keeps the length of memory.
pub proof fn lemma_slices_copied_len(
    memory: Seq<u8>,
    dest: MemcpyDest,
    src: SubresourceData<'_>,
    row_size: int,
    num_rows: int,
    slices: int,
)
    ensures
        slices_copied(memory, dest, src, row_size, num_rows, slices).len() == memory.len(),
    decreases slices,
{
    if slices > 0 {
        lemma_slices_copied_len(memory, dest, src, row_size, num_rows, slices - 1);
        lemma_rows_copied_len(
            slices_copied(memory, dest, src, row_size, num_rows, slices - 1),
            dest,
            src,
            row_size,
            slices - 1,
            num_rows,
        );
    }
}

proof fn lemma_rows_copied_nothing(
    memory: Seq<u8>,
    dest: MemcpyDest,
    src: SubresourceData<'_>,
    row_size: int,
    z: int,
    rows: int,
)
    requires
        row_size <= 0 || rows <= 0,
    ensures
        rows_copied(memory, dest, src, row_size, z, rows) == memory,
    decreases rows,
{
    if rows > 0 {
        lemma_rows_copied_nothing(memory, dest, src, row_size, z, rows - 1);
        assert(row_written(
            memory,
            dest.index(z, rows - 1, 0),
            src.data@,
            src.index(z, rows - 1, 0),
            row_size,
        ) =~= memory);
    }
}

/// A copy of no slices, of no rows or of empty rows leaves memory as it was.
pub proof fn lemma_empty_copy(
    memory: Seq<u8>,
    dest: MemcpyDest,
    src: SubresourceData<'_>,
    row_size: int,
    num_rows: int,
    slices: int,
)
    requires
        row_size <= 0 || num_rows <= 0 || slices <= 0,
    ensures
        slices_copied(memory, dest, src, row_size, num_rows, slices) == memory,
    decreases slices,
{
    if slices > 0 {
        lemma_empty_copy(memory, dest, src, row_size, num_rows, slices - 1);
        lemma_rows_copied_nothing(memory, dest, src, row_size, slices - 1, num_rows);
    }
}

/// A copy that moves at least one byte stays in bounds exactly when its last
/// byte, the last one of the last row of the last slice, lies in memory and
/// comes from inside the source.
pub proof fn lemma_copy_in_bounds(
    memory_len: int,
    dest: MemcpyDest,
    src: SubresourceData<'_>,
    row_size: int,
    num_rows: int,
    num_slices: int,
)
    requires
        row_size > 0,
        num_rows > 0,
        num_slices > 0,
    ensures
        copy_in_bounds(memory_len, dest, src, row_size, num_rows, num_slices) == (dest.index(
            num_slices - 1,
            num_rows - 1,
            row_size - 1,
        ) < memory_len && src.index(num_slices - 1, num_rows - 1, row_size - 1)
            < src.data@.len()),
{
    let last_d = dest.index(num_slices - 1, num_rows - 1, row_size - 1);
    let last_s = src.index(num_slices - 1, num_rows - 1, row_size - 1);
    if last_d < memory_len && last_s < src.data@.len() {
        assert forall|z: int, y: int, k: int|
            0 <= z < num_slices && 0 <= y < num_rows && 0 <= k < row_size implies dest.index(
            z,
            y,
            k,
        ) < memory_len && src.index(z, y, k) < src.data@.len() by {
            lemma_mul_le(z, num_slices - 1, dest.slice_pitch as int);
            lemma_mul_le(y, num_rows - 1, dest.row_pitch as int);
            lemma_mul_le(z, num_slices - 1, src.slice_pitch as int);
            lemma_mul_le(y, num_rows - 1, src.row_pitch as int);
        }
    }
}

/// One past the index of the last byte of a layout that holds at least one byte.
fn layout_end(
    offset: usize,
    row_pitch: usize,
    slice_pitch: usize,
    row_size: usize,
    num_rows: u32,
    num_slices: u32,
) -> (end: u128)
    requires
        row_size > 0,
        num_rows > 0,
        num_slices > 0,
    ensures
        end == byte_index(
            offset as int,
            row_pitch as int,
            slice_pitch as int,
            num_slices - 1,
            num_rows - 1,
            row_size - 1,
        ) + 1,
{
    let last_slice: u128 = (num_slices - 1) as u128;
    let last_row: u128 = (num_rows - 1) as u128;
    proof {
        lemma_mul_le(last_slice as int, 0xffff_ffff, slice_pitch as int);
        lemma_mul_le(slice_pitch as int, 0xffff_ffff_ffff_ffff, 0xffff_ffff);
        lemma_mul_le(last_row as int, 0xffff_ffff, row_pitch as int);
        lemma_mul_le(row_pitch as int, 0xffff_ffff_ffff_ffff, 0xffff_ffff);
    }
    let slices: u128 = last_slice * (slice_pitch as u128);
    let rows: u128 = last_row * (row_pitch as u128);
    (offset as u128) + slices + rows + (row_size as u128)
}

/// Whether the copy stays inside memory of `memory_len` bytes and inside the
/// source bytes.
fn fits(
    memory_len: usize,
    dest: &MemcpyDest,
    src: &SubresourceData<'_>,
    row_size: usize,
    num_rows: u32,
    num_slices: u32,
) -> (r: bool)
    ensures
        r == copy_in_bounds(
            memory_len as int,
            *dest,
            *src,
            row_size as int,
            num_rows as int,
            num_slices as int,
        ),
{
    if row_size == 0 || num_rows == 0 || num_slices == 0 {
        return true;
    }
    let dest_end = layout_end(
        dest.offset,
        dest.row_pitch,
        dest.slice_pitch,
        row_size,
        num_rows,
        num_slices,
    );
    let src_end = layout_end(0, src.row_pitch, src.slice_pitch, row_size, num_rows, num_slices);
    proof {
        lemma_copy_in_bounds(
            memory_len as int,
            *dest,
            *src,
            row_size as int,
            num_rows as int,
            num_slices as int,
        );
    }
    dest_end <= memory_len as u128 && src_end <= src.data.len() as u128
}

/// Copies `num_slices` slices of `num_rows` rows of `row_size_in_bytes` bytes
/// each from `src` into `memory`, where `dest` places them. Each row is read
/// at the source's pitches and written at the destination's. Only the bytes of
/// the rows move: what lies between two rows is neither read nor written.
///
/// Nothing is copied, and `false` is returned, when a byte of the copy would
/// lie outside `memory` or outside the source bytes.
pub fn memcpy_subresource(
    memory: &mut [u8],
    dest: &MemcpyDest,
    src: &SubresourceData<'_>,
    row_size_in_bytes: usize,
    num_rows: u32,
    num_slices: u32,
) -> (copied: bool)
    ensures
        copied == copy_in_bounds(
            old(memory)@.len() as int,
            *dest,
            *src,
            row_size_in_bytes as int,
            num_rows as int,
            num_slices as int,
        ),
        copied ==> final(memory)@ == subresource_copied(
            old(memory)@,
            *dest,
            *src,
            row_size_in_bytes as int,
            num_rows as int,
            num_slices as int,
        ),
        !copied ==> final(memory)@ == old(memory)@,
{
    let ghost before = memory@;
    let memory_len: usize = memory.len();
    let src_len: usize = src.data.len();
    if !fits(memory_len, dest, src, row_size_in_bytes, num_rows, num_slices) {
        return false;
    }
    if row_size_in_bytes == 0 || num_rows == 0 || num_slices == 0 {
        proof {
            lemma_empty_copy(
                before,
                *dest,
                *src,
                row_size_in_bytes as int,
                num_rows as int,
                num_slices as int,
            );
        }
        return true;
    }
    let mut z: u32 = 0;
    while z < num_slices
        invariant
            z <= num_slices,
            0 < num_rows,
            0 < row_size_in_bytes,
            memory@.len() == before.len(),
            before.len() == memory_len,
            src.data@.len() == src_len,
            memory@ == slices_copied(
                before,
                *dest,
                *src,
                row_size_in_bytes as int,
                num_rows as int,
                z as int,
            ),
            copy_in_bounds(
                before.len() as int,
                *dest,
                *src,
                row_size_in_bytes as int,
                num_rows as int,
                num_slices as int,
            ),
        decreases num_slices - z,
    {
        let ghost slice_start = memory@;
        proof {
            lemma_mul_le(0, z as int, dest.slice_pitch as int);
            lemma_mul_le(0, z as int, src.slice_pitch as int);
            assert(dest.index(z as int, 0, 0) < before.len());
            assert(src.index(z as int, 0, 0) < src.data@.len());
        }
        let dest_slice: usize = dest.offset + (z as usize) * dest.slice_pitch;
        let src_slice: usize = (z as usize) * src.slice_pitch;
        let mut y: u32 = 0;
        while y < num_rows
            invariant
                z < num_slices,
                y <= num_rows,
                0 < row_size_in_bytes,
                dest_slice == dest.offset + z * dest.slice_pitch,
                src_slice == z * src.slice_pitch,
                memory@.len() == before.len(),
                before.len() == memory_len,
                src.data@.len() == src_len,
                memory@ == rows_copied(
                    slice_start,
                    *dest,
                    *src,
                    row_size_in_bytes as int,
                    z as int,
                    y as int,
                ),
                copy_in_bounds(
                    before.len() as int,
                    *dest,
                    *src,
                    row_size_in_bytes as int,
                    num_rows as int,
                    num_slices as int,
                ),
            decreases num_rows - y,
        {
            let ghost row_start = memory@;
            proof {
                lemma_mul_le(0, y as int, dest.row_pitch as int);
                lemma_mul_le(0, y as int, src.row_pitch as int);
                assert(dest.index(z as int, y as int, 0) < before.len());
                assert(src.index(z as int, y as int, 0) < src.data@.len());
            }
            let dest_row: usize = dest_slice + (y as usize) * dest.row_pitch;
            let src_row: usize = src_slice + (y as usize) * src.row_pitch;
            let mut k: usize = 0;
            while k < row_size_in_bytes
                invariant
                    z < num_slices,
                    y < num_rows,
                    k <= row_size_in_bytes,
                    dest_row == dest.index(z as int, y as int, 0),
                    src_row == src.index(z as int, y as int, 0),
                    memory@.len() == before.len(),
                    before.len() == memory_len,
                    src.data@.len() == src_len,
                    memory@ == row_written(
                        row_start,
                        dest_row as int,
                        src.data@,
                        src_row as int,
                        k as int,
                    ),
                    row_start.len() == before.len(),
                    copy_in_bounds(
                        before.len() as int,
                        *dest,
                        *src,
                        row_size_in_bytes as int,
                        num_rows as int,
                        num_slices as int,
                    ),
                decreases row_size_in_bytes - k,
            {
                proof {
                    assert(dest.index(z as int, y as int, k as int) < before.len());
                    assert(src.index(z as int, y as int, k as int) < src.data@.len());
                }
                memory[dest_row + k] = src.data[src_row + k];
                k = k + 1;
                assert(memory@ =~= row_written(
                    row_start,
                    dest_row as int,
                    src.data@,
                    src_row as int,
                    k as int,
                ));
            }
            y = y + 1;
        }
        z = z + 1;
    }
    true
}


impl MemcpyDest {
    /// Byte `i` of memory belongs to row `y` of slice `z`, whose rows hold
    /// `row_size` bytes.
    pub open spec fn in_row(self, row_size: int, z: int, y: int, i: int) -> bool {
        self.index(z, y, 0) <= i < self.index(z, y, 0) + row_size
    }

    /// Byte `i` of memory belongs to one of the rows of the layout.
    pub open spec fn touches(self, row_size: int, num_rows: int, num_slices: int, i: int) -> bool {
        exists|z: int, y: int|
            0 <= z < num_slices && 0 <= y < num_rows && #[trigger] self.in_row(row_size, z, y, i)
    }

    /// No two rows of the layout share a byte: a row is no longer than the
    /// row pitch, and the rows of a slice end before the next slice begins.
    pub open spec fn rows_apart(self, row_size: int, num_rows: int, num_slices: int) -> bool {
        &&& num_rows <= 1 || row_size <= self.row_pitch
        &&& num_slices <= 1 || (num_rows - 1) * self.row_pitch + row_size <= self.slice_pitch
    }
}

proof fn lemma_rows_copied_pointwise(
    memory: Seq<u8>,
    dest: MemcpyDest,
    src: SubresourceData<'_>,
    row_size: int,
    z: int,
    rows: int,
)
    requires
        0 <= z,
        0 <= row_size,
        rows <= 1 || row_size <= dest.row_pitch,
    ensures
        rows_copied(memory, dest, src, row_size, z, rows).len() == memory.len(),
        forall|y: int, k: int|
            #![trigger dest.index(z, y, k)]
            0 <= y < rows && 0 <= k < row_size && dest.index(z, y, k) < memory.len()
                ==> rows_copied(memory, dest, src, row_size, z, rows)[dest.index(z, y, k)]
                == src.data@[src.index(z, y, k)],
        forall|i: int|
            0 <= i < memory.len() && (forall|y: int|
                0 <= y < rows ==> !#[trigger] dest.in_row(row_size, z, y, i)) ==> rows_copied(
                memory,
                dest,
                src,
                row_size,
                z,
                rows,
            )[i] == memory[i],
    decreases rows,
{
    if rows > 0 {
        let earlier = rows_copied(memory, dest, src, row_size, z, rows - 1);
        let after = rows_copied(memory, dest, src, row_size, z, rows);
        let at = dest.index(z, rows - 1, 0);
        lemma_rows_copied_pointwise(memory, dest, src, row_size, z, rows - 1);
        assert forall|y: int, k: int|
            0 <= y < rows && 0 <= k < row_size && dest.index(z, y, k) < memory.len() implies after[dest.index(
            z,
            y,
            k,
        )] == src.data@[src.index(z, y, k)] by {
            if y < rows - 1 {
                lemma_mul_le(y + 1, rows - 1, dest.row_pitch as int);
                assert((y + 1) * dest.row_pitch == y * dest.row_pitch + dest.row_pitch)
                    by (nonlinear_arith);
            }
        }
        assert forall|i: int|
            0 <= i < memory.len() && (forall|y: int|
                0 <= y < rows ==> !#[trigger] dest.in_row(row_size, z, y, i)) implies after[i]
            == memory[i] by {
            assert(!dest.in_row(row_size, z, rows - 1, i));
            assert(after[i] == earlier[i]);
        }
    }
}

/// Where no two rows of the destination share a byte, a copy puts each byte of
/// each row at its place in the destination layout, whatever the source's
/// pitches are, and leaves every byte outside the rows as it was: what lies
/// between two rows of the source is not copied.
pub proof fn lemma_copied_bytes(
    memory: Seq<u8>,
    dest: MemcpyDest,
    src: SubresourceData<'_>,
    row_size: int,
    num_rows: int,
    num_slices: int,
)
    requires
        0 <= row_size,
        dest.rows_apart(row_size, num_rows, num_slices),
    ensures
        subresource_copied(memory, dest, src, row_size, num_rows, num_slices).len()
            == memory.len(),
        forall|z: int, y: int, k: int|
            #![trigger dest.index(z, y, k)]
            0 <= z < num_slices && 0 <= y < num_rows && 0 <= k < row_size && dest.index(z, y, k)
                < memory.len() ==> subresource_copied(
                memory,
                dest,
                src,
                row_size,
                num_rows,
                num_slices,
            )[dest.index(z, y, k)] == src.data@[src.index(z, y, k)],
        forall|i: int|
            0 <= i < memory.len() && !dest.touches(row_size, num_rows, num_slices, i)
                ==> #[trigger] subresource_copied(
                memory,
                dest,
                src,
                row_size,
                num_rows,
                num_slices,
            )[i] == memory[i],
    decreases num_slices,
{
    if num_slices > 0 {
        let last = num_slices - 1;
        let earlier = slices_copied(memory, dest, src, row_size, num_rows, last);
        let after = slices_copied(memory, dest, src, row_size, num_rows, num_slices);
        lemma_copied_bytes(memory, dest, src, row_size, num_rows, last);
        lemma_rows_copied_pointwise(earlier, dest, src, row_size, last, num_rows);
        assert forall|z: int, y: int, k: int|
            0 <= z < num_slices && 0 <= y < num_rows && 0 <= k < row_size && dest.index(z, y, k)
                < memory.len() implies after[dest.index(z, y, k)] == src.data@[src.index(
            z,
            y,
            k,
        )] by {
            if z < last {
                let i = dest.index(z, y, k);
                lemma_mul_le(y, num_rows - 1, dest.row_pitch as int);
                lemma_mul_le(z + 1, last, dest.slice_pitch as int);
                assert((z + 1) * dest.slice_pitch == z * dest.slice_pitch + dest.slice_pitch)
                    by (nonlinear_arith);
                assert forall|y2: int| 0 <= y2 < num_rows implies !#[trigger] dest.in_row(
                    row_size,
                    last,
                    y2,
                    i,
                ) by {
                    lemma_mul_le(0, y2, dest.row_pitch as int);
                }
            }
        }
        assert forall|i: int|
            0 <= i < memory.len() && !dest.touches(
                row_size,
                num_rows,
                num_slices,
                i,
            ) implies after[i] == memory[i] by {
            assert forall|y: int| 0 <= y < num_rows implies !#[trigger] dest.in_row(
                row_size,
                last,
                y,
                i,
            ) by {}
            assert(after[i] == earlier[i]);
            if dest.touches(row_size, num_rows, last, i) {
                let (z, y) = choose|z: int, y: int|
                    0 <= z < last && 0 <= y < num_rows && #[trigger] dest.in_row(row_size, z, y, i);
                assert(dest.in_row(row_size, z, y, i));
            }
        }
    }
}

} // verus!
