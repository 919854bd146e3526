//! The copy commands that move staged bytes on to the destination.

use vstd::prelude::*;
use crate::footprint::PlacedSubresourceFootprint;
use crate::memcpy::row_written;

verus! {

/// Which of the two resources of an upload a copy location speaks of.
#[derive(Clone, Copy, Debug, PartialEq, Eq, Structural)]
pub enum UploadResource {
    /// The resource that the data is meant for.
    Destination,
    /// The staging buffer that the CPU writes and the GPU reads.
    Intermediate,
}

/// One end of a texture copy: a subresource of a texture, named by its index,
/// or a region of a buffer, described by a placed footprint.
#[derive(Clone, Copy, Debug, PartialEq, Eq, Structural)]
pub enum TextureCopyLocation {
    SubresourceIndex { resource: UploadResource, index: u32 },
    PlacedFootprint { resource: UploadResource, footprint: PlacedSubresourceFootprint },
}

/// A copy between the two resources of an upload, to be recorded into a
/// command list.
#[derive(Clone, Copy, Debug, PartialEq, Eq, Structural)]
pub enum CopyCommand {
    /// Copy `num_bytes` bytes of the intermediate buffer, from `src_offset`
    /// on, to the destination buffer, from `dst_offset` on.
    BufferRegion { dst_offset: u64, src_offset: u64, num_bytes: u64 },
    /// Copy the whole of `src` to `dst`, with its corner at
    /// (`dst_x`, `dst_y`, `dst_z`).
    TextureRegion {
        dst: TextureCopyLocation,
        dst_x: u32,
        dst_y: u32,
        dst_z: u32,
        src: TextureCopyLocation,
    },
}

/// The copy location that names subresource `sub` of `res`.
pub fn cd3dx12_texture_copy_location_sub(res: UploadResource, sub: u32) -> (location:
    TextureCopyLocation)
    ensures
        location == (TextureCopyLocation::SubresourceIndex { resource: res, index: sub }),
{
    TextureCopyLocation::SubresourceIndex { resource: res, index: sub }
}

/// The copy location that describes the region of the buffer `res` that
/// `footprint` places.
pub fn cd3dx12_texture_copy_location_footprint(
    res: UploadResource,
    footprint: &PlacedSubresourceFootprint,
) -> (location: TextureCopyLocation)
    ensures
        location == (TextureCopyLocation::PlacedFootprint { resource: res, footprint: *footprint }),
{
    TextureCopyLocation::PlacedFootprint { resource: res, footprint: *footprint }
}

/// The bytes of a destination buffer after a device has carried out a
/// `BufferRegion` copy: `num_bytes` bytes of `src`, from `src_offset` on,
/// stand in `dst` from `dst_offset` on, and the rest of `dst` is as it was.
pub open spec fn buffer_region_copied(
    dst: Seq<u8>,
    dst_offset: int,
    src: Seq<u8>,
    src_offset: int,
    num_bytes: int,
) -> Seq<u8> {
    row_written(dst, dst_offset, src, src_offset, num_bytes)
}

} // verus!
