use dx12_common::memcpy::{memcpy_subresource, MemcpyDest, SubresourceData};

#[test]
fn copies_a_single_row_to_its_offset() {
    let src = [1u8, 2, 3, 4];
    let mut memory = vec![0u8; 8];
    let copied = memcpy_subresource(
        &mut memory,
        &MemcpyDest { offset: 2, row_pitch: 4, slice_pitch: 4 },
        &SubresourceData { data: &src, row_pitch: 4, slice_pitch: 4 },
        4,
        1,
        1,
    );
    assert!(copied);
    assert_eq!(memory, vec![0, 0, 1, 2, 3, 4, 0, 0]);
}

#[test]
fn two_rows_with_padded_source_land_at_the_destination_pitch() {
    // Two rows of three bytes; the source pads each row to five bytes.
    let src = [10u8, 11, 12, 0xee, 0xee, 20, 21, 22, 0xee, 0xee];
    let mut memory = vec![0x55u8; 10];
    let copied = memcpy_subresource(
        &mut memory,
        &MemcpyDest { offset: 1, row_pitch: 4, slice_pitch: 8 },
        &SubresourceData { data: &src, row_pitch: 5, slice_pitch: 10 },
        3,
        2,
        1,
    );
    assert!(copied);
    assert_eq!(memory, vec![0x55, 10, 11, 12, 0x55, 20, 21, 22, 0x55, 0x55]);
    assert!(!memory.contains(&0xee));
}

#[test]
fn rows_packed_tighter_than_the_source() {
    let src = [1u8, 2, 9, 9, 3, 4, 9, 9];
    let mut memory = vec![0u8; 4];
    let copied = memcpy_subresource(
        &mut memory,
        &MemcpyDest { offset: 0, row_pitch: 2, slice_pitch: 4 },
        &SubresourceData { data: &src, row_pitch: 4, slice_pitch: 8 },
        2,
        2,
        1,
    );
    assert!(copied);
    assert_eq!(memory, vec![1, 2, 3, 4]);
}

#[test]
fn slices_are_copied_at_their_pitches() {
    // Two slices of two rows of two bytes. Source: rows 3 apart, slices 7
    // apart. Destination: rows 4 apart, slices 8 apart, from offset 1.
    let src = [1u8, 2, 0, 3, 4, 0, 0, 5, 6, 0, 7, 8];
    let mut memory = vec![0xaau8; 17];
    let copied = memcpy_subresource(
        &mut memory,
        &MemcpyDest { offset: 1, row_pitch: 4, slice_pitch: 8 },
        &SubresourceData { data: &src, row_pitch: 3, slice_pitch: 7 },
        2,
        2,
        2,
    );
    assert!(copied);
    assert_eq!(
        memory,
        vec![
            0xaa, 1, 2, 0xaa, 0xaa, 3, 4, 0xaa, 0xaa, 5, 6, 0xaa, 0xaa, 7, 8, 0xaa, 0xaa
        ]
    );
}

#[test]
fn later_rows_overwrite_earlier_ones_where_they_overlap() {
    let src = [1u8, 2, 3, 4, 5, 6];
    let mut memory = vec![0u8; 5];
    let copied = memcpy_subresource(
        &mut memory,
        &MemcpyDest { offset: 0, row_pitch: 2, slice_pitch: 0 },
        &SubresourceData { data: &src, row_pitch: 3, slice_pitch: 0 },
        3,
        2,
        1,
    );
    assert!(copied);
    assert_eq!(memory, vec![1, 2, 4, 5, 6]);
}

#[test]
fn refuses_a_copy_that_leaves_memory() {
    let src = [1u8, 2, 3, 4];
    let mut memory = vec![7u8; 5];
    let copied = memcpy_subresource(
        &mut memory,
        &MemcpyDest { offset: 2, row_pitch: 4, slice_pitch: 4 },
        &SubresourceData { data: &src, row_pitch: 4, slice_pitch: 4 },
        4,
        1,
        1,
    );
    assert!(!copied);
    assert_eq!(memory, vec![7u8; 5]);
}

#[test]
fn refuses_a_copy_that_leaves_the_source() {
    let src = [1u8, 2, 3, 4, 5];
    let mut memory = vec![7u8; 16];
    // The second row would begin at byte 4 and need bytes 4 and 5.
    let copied = memcpy_subresource(
        &mut memory,
        &MemcpyDest { offset: 0, row_pitch: 2, slice_pitch: 4 },
        &SubresourceData { data: &src, row_pitch: 4, slice_pitch: 8 },
        2,
        2,
        1,
    );
    assert!(!copied);
    assert_eq!(memory, vec![7u8; 16]);
}

#[test]
fn the_last_byte_of_memory_can_be_written() {
    let src = [1u8, 2];
    let mut memory = vec![0u8; 4];
    let copied = memcpy_subresource(
        &mut memory,
        &MemcpyDest { offset: 2, row_pitch: 2, slice_pitch: 2 },
        &SubresourceData { data: &src, row_pitch: 2, slice_pitch: 2 },
        2,
        1,
        1,
    );
    assert!(copied);
    assert_eq!(memory, vec![0, 0, 1, 2]);
}

#[test]
fn a_copy_of_nothing_succeeds_and_changes_nothing() {
    let src: [u8; 0] = [];
    let payload = SubresourceData { data: &src, row_pitch: 1000, slice_pitch: 1000 };
    let dest = MemcpyDest { offset: 1_000_000, row_pitch: 1000, slice_pitch: 1000 };
    let mut memory = vec![3u8; 4];
    assert!(memcpy_subresource(&mut memory, &dest, &payload, 0, 5, 5));
    assert!(memcpy_subresource(&mut memory, &dest, &payload, 5, 0, 5));
    assert!(memcpy_subresource(&mut memory, &dest, &payload, 5, 5, 0));
    assert_eq!(memory, vec![3u8; 4]);
}

#[test]
fn huge_extents_are_refused_without_overflow() {
    let src = [1u8; 4];
    let mut memory = vec![0u8; 4];
    let copied = memcpy_subresource(
        &mut memory,
        &MemcpyDest { offset: usize::MAX, row_pitch: usize::MAX, slice_pitch: usize::MAX },
        &SubresourceData { data: &src, row_pitch: usize::MAX, slice_pitch: usize::MAX },
        usize::MAX,
        u32::MAX,
        u32::MAX,
    );
    assert!(!copied);
    assert_eq!(memory, vec![0u8; 4]);
}
