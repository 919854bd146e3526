//! How a device lays subresources out in a linear buffer.

use vstd::prelude::*;
use crate::memcpy::{copy_in_bounds, subresource_copied, MemcpyDest, SubresourceData};

verus! {

/// The kind of a resource: a linear buffer, or a texture of one, two or three
/// dimensions.
#[derive(Clone, Copy, Debug, PartialEq, Eq, Structural)]
pub enum ResourceDimension {
    Unknown,
    Buffer,
    Texture1D,
    Texture2D,
    Texture3D,
}

/// A `DXGI_FORMAT`, held by its code. The library hands formats on and never
/// looks inside one.
#[derive(Clone, Copy, Debug, PartialEq, Eq, Structural)]
pub struct Format {
    pub code: i32,
}

/// The extent of one subresource and the pitch of its rows in a linear buffer.
#[derive(Clone, Copy, Debug, PartialEq, Eq, Structural)]
pub struct SubresourceFootprint {
    pub format: Format,
    pub width: u32,
    pub height: u32,
    pub depth: u32,
    pub row_pitch: u32,
}

/// A footprint and the offset in the buffer at which it begins.
#[derive(Clone, Copy, Debug, PartialEq, Eq, Structural)]
pub struct PlacedSubresourceFootprint {
    pub offset: u64,
    pub footprint: SubresourceFootprint,
}

/// What a device answers for one subresource when it is asked for the
/// copyable footprints: the placement, the number of rows and the number of
/// bytes of each row that hold data.
#[derive(Clone, Copy, Debug, PartialEq, Eq, Structural)]
pub struct SubresourceLayout {
    pub placed: PlacedSubresourceFootprint,
    pub num_rows: u32,
    pub row_size_in_bytes: u64,
}

/// The whole answer to a query for copyable footprints: one layout for each
/// subresource asked for, and the number of bytes that the transfer needs.
#[derive(Clone, Debug, PartialEq, Eq)]
pub struct CopyableFootprints {
    pub layouts: Vec<SubresourceLayout>,
    pub total_bytes: u64,
}

impl SubresourceLayout {
    /// The distance in bytes between the starts of two consecutive slices.
    pub open spec fn slice_pitch(self) -> int {
        self.placed.footprint.row_pitch * self.num_rows
    }

    /// The offset, the row size and the slice pitch can each be held in a
    /// `usize`, so that memory can be indexed by them.
    pub open spec fn addressable(self) -> bool {
        &&& self.row_size_in_bytes <= usize::MAX
        &&& self.placed.offset <= usize::MAX
        &&& self.slice_pitch() <= usize::MAX
    }

    /// Where the subresource lands in mapped memory.
    pub open spec fn dest(self) -> MemcpyDest {
        MemcpyDest {
            offset: self.placed.offset as usize,
            row_pitch: self.placed.footprint.row_pitch as usize,
            slice_pitch: self.slice_pitch() as usize,
        }
    }

    /// The subresource can be copied from `src` into memory of `memory_len`
    /// bytes: its numbers are addressable and no byte of the copy lies outside
    /// memory or outside the source.
    pub open spec fn copyable(self, memory_len: int, src: SubresourceData<'_>) -> bool {
        &&& self.addressable()
        &&& copy_in_bounds(
            memory_len,
            self.dest(),
            src,
            self.row_size_in_bytes as int,
            self.num_rows as int,
            self.placed.footprint.depth as int,
        )
    }

    /// `memory` after the subresource was copied into it from `src`.
    pub open spec fn copied(self, memory: Seq<u8>, src: SubresourceData<'_>) -> Seq<u8> {
        subresource_copied(
            memory,
            self.dest(),
            src,
            self.row_size_in_bytes as int,
            self.num_rows as int,
            self.placed.footprint.depth as int,
        )
    }
}

} // verus!
