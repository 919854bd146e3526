//! Buffers that are filled from CPU memory: what to create for them and how
//! their upload begins.

use vstd::prelude::*;
use crate::d3d12::{
    format_unknown, resource_flag_none, resource_state_common, resource_state_copy_dest,
    resource_state_generic_read,
};
use crate::desc::{
    cd3dx12_heap_properties_with_type, cd3dx12_resource_barrier_transition,
    cd3dx12_resource_desc_buffer, CpuPageProperty, HeapProperties, HeapType, MemoryPool,
    ResourceBarrier, ResourceBarrierFlags, ResourceBarrierType, ResourceDesc, ResourceFlags,
    ResourceStates, ResourceTransitionBarrier, SampleDesc, TextureLayout,
};
use crate::footprint::{Format, ResourceDimension};
use crate::memcpy::SubresourceData;
use crate::upload::{update_subresources_stack_alloc, UploadAction, UploadActionView, UploadState};

verus! {

/// A committed resource to create: the heap it lives in, its description and
/// the state it begins in. The heap has no flags.
#[derive(Clone, Copy, Debug, PartialEq, Eq, Structural)]
pub struct CommittedResource {
    pub heap_properties: HeapProperties,
    pub desc: ResourceDesc,
    pub initial_state: ResourceStates,
}

/// The two buffers of an upload: the one on the GPU that the data is meant
/// for, and the one that it is staged in. The staging buffer has to live
/// until the GPU has carried out the recorded copy.
#[derive(Clone, Copy, Debug, PartialEq, Eq, Structural)]
pub struct Buffers {
    pub upload_buffer: CommittedResource,
    pub gpu_buffer: CommittedResource,
}

/// What it takes to put bytes into a buffer on the GPU: the buffers to
/// create, the barrier to record before the upload, the upload of the one
/// subresource with its first action, and the barrier to record after it.
#[derive(Debug)]
pub struct DefaultBuffer<'a> {
    pub buffers: Buffers,
    pub before_upload: ResourceBarrier,
    pub upload: UploadState<'a>,
    pub first_action: UploadAction,
    pub after_upload: ResourceBarrier,
}

/// The description of a plain buffer of `width` bytes.
pub open spec fn buffer_desc(width: u64) -> ResourceDesc {
    ResourceDesc {
        dimension: ResourceDimension::Buffer,
        alignment: 0,
        width,
        height: 1,
        depth_or_array_size: 1,
        mip_levels: 1,
        format: Format { code: 0 },
        sample_desc: SampleDesc { count: 1, quality: 0 },
        layout: TextureLayout::RowMajor,
        flags: ResourceFlags { bits: 0 },
    }
}

/// The properties of a heap of the given type with nothing else chosen.
pub open spec fn heap_of(heap_type: HeapType) -> HeapProperties {
    HeapProperties {
        heap_type,
        cpu_page_property: CpuPageProperty::Unknown,
        memory_pool_preference: MemoryPool::Unknown,
        creation_node_mask: 1,
        visible_node_mask: 1,
    }
}

/// The barrier that takes all subresources from one state to another.
pub open spec fn transition_of(state_before: i32, state_after: i32) -> ResourceBarrier {
    ResourceBarrier {
        barrier_type: ResourceBarrierType::Transition,
        flags: ResourceBarrierFlags { bits: 0 },
        transition: ResourceTransitionBarrier {
            subresource: 0xffff_ffff,
            state_before: ResourceStates { bits: state_before },
            state_after: ResourceStates { bits: state_after },
        },
    }
}

/// Plans a buffer on the GPU that holds `data`.
///
/// Both buffers are as wide as `data` is long. The GPU buffer lives in a
/// default heap and begins in the common state; the staging buffer lives in an
/// upload heap and begins in the generic read state. The GPU buffer is taken to
/// the copy destination state before the upload and to the generic read state
/// after it. The upload is of one subresource, index 0, staged at offset 0,
/// whose payload is `data` as a single row.
pub fn create_default_buffer<'a>(data: &'a [u8]) -> (plan: DefaultBuffer<'a>)
    ensures
        plan.buffers.gpu_buffer == (CommittedResource {
            heap_properties: heap_of(HeapType::Default),
            desc: buffer_desc(data@.len() as u64),
            initial_state: ResourceStates { bits: 0 },
        }),
        plan.buffers.upload_buffer == (CommittedResource {
            heap_properties: heap_of(HeapType::Upload),
            desc: buffer_desc(data@.len() as u64),
            initial_state: ResourceStates { bits: 0xac3 },
        }),
        plan.before_upload == transition_of(0, 0x400),
        plan.after_upload == transition_of(0x400, 0xac3),
        plan.upload.wf(),
        plan.upload matches UploadState::AwaitingFootprints {
            intermediate_offset,
            first_subresource,
            payloads,
        } && intermediate_offset == 0 && first_subresource == 0 && payloads@ == seq![
            SubresourceData {
                data,
                row_pitch: data@.len() as usize,
                slice_pitch: data@.len() as usize,
            },
        ],
        plan.first_action@ == (UploadActionView::QueryFootprints {
            first_subresource: 0,
            num_subresources: 1,
            base_offset: 0,
        }),
{
    let width: u64 = data.len() as u64;
    let gpu_buffer = CommittedResource {
        heap_properties: cd3dx12_heap_properties_with_type(HeapType::Default),
        desc: cd3dx12_resource_desc_buffer(width, None, None),
        initial_state: ResourceStates { bits: resource_state_common() },
    };
    let upload_buffer = CommittedResource {
        heap_properties: cd3dx12_heap_properties_with_type(HeapType::Upload),
        desc: cd3dx12_resource_desc_buffer(width, None, None),
        initial_state: ResourceStates { bits: resource_state_generic_read() },
    };
    let before_upload = cd3dx12_resource_barrier_transition(
        ResourceStates { bits: resource_state_common() },
        ResourceStates { bits: resource_state_copy_dest() },
        None,
        None,
    );
    let payload = [SubresourceData { data, row_pitch: data.len(), slice_pitch: data.len() }];
    let (upload, first_action) = update_subresources_stack_alloc::<1>(0, 0, &payload);
    let after_upload = cd3dx12_resource_barrier_transition(
        ResourceStates { bits: resource_state_copy_dest() },
        ResourceStates { bits: resource_state_generic_read() },
        None,
        None,
    );
    assert(payload@ =~= seq![
        SubresourceData {
            data,
            row_pitch: data@.len() as usize,
            slice_pitch: data@.len() as usize,
        },
    ]);
    DefaultBuffer {
        buffers: Buffers { upload_buffer, gpu_buffer },
        before_upload,
        upload,
        first_action,
        after_upload,
    }
}

/// Plans a buffer in an upload heap that holds `data`: as wide as `data` is
/// long, in the generic read state. The caller maps it, writes `data` to its
/// start and unmaps it.
pub fn create_upload_buffer(data: &[u8]) -> (resource: CommittedResource)
    ensures
        resource == (CommittedResource {
            heap_properties: heap_of(HeapType::Upload),
            desc: buffer_desc(data@.len() as u64),
            initial_state: ResourceStates { bits: 0xac3 },
        }),
{
    CommittedResource {
        heap_properties: HeapProperties {
            heap_type: HeapType::Upload,
            cpu_page_property: CpuPageProperty::Unknown,
            memory_pool_preference: MemoryPool::Unknown,
            creation_node_mask: 1,
            visible_node_mask: 1,
        },
        desc: ResourceDesc {
            dimension: ResourceDimension::Buffer,
            alignment: 0,
            width: data.len() as u64,
            height: 1,
            depth_or_array_size: 1,
            mip_levels: 1,
            format: Format { code: format_unknown() },
            sample_desc: SampleDesc { count: 1, quality: 0 },
            layout: TextureLayout::RowMajor,
            flags: ResourceFlags { bits: resource_flag_none() },
        },
        initial_state: ResourceStates { bits: resource_state_generic_read() },
    }
}

/// The number of bytes that the size of a constant buffer is a multiple of.
pub const CONSTANT_BUFFER_ALIGNMENT: usize = 256;

/// The description of a view of a constant buffer.
#[derive(Clone, Copy, Debug, PartialEq, Eq, Structural)]
pub struct ConstantBufferViewDesc {
    pub buffer_location: u64,
    pub size_in_bytes: u32,
}

/// A buffer in an upload heap that holds one value and stays mapped, so that
/// the value can be written again and again.
#[derive(Clone, Copy, Debug, PartialEq, Eq, Structural)]
pub struct UploadBuffer {
    /// The size of the value, rounded up to the alignment of constant
    /// buffers.
    pub aligned_size: usize,
}

/// The least multiple of 256 that is not less than `size`.
pub open spec fn aligned_up(size: int) -> int {
    if size % 256 == 0 {
        size
    } else {
        size + 256 - size % 256
    }
}

impl UploadBuffer {
    /// Plans an upload buffer for a value of `value_size` bytes. Its size is
    /// `value_size` rounded up to a multiple of 256. There is no such buffer
    /// where that size is more than a `usize` holds.
    pub fn new(value_size: usize) -> (buffer: Option<UploadBuffer>)
        ensures
            buffer is Some == (aligned_up(value_size as int) <= usize::MAX),
            buffer is Some ==> buffer->0.aligned_size == aligned_up(value_size as int),
    {
        let rest: usize = value_size % CONSTANT_BUFFER_ALIGNMENT;
        if rest == 0 {
            Some(UploadBuffer { aligned_size: value_size })
        } else if value_size > usize::MAX - (CONSTANT_BUFFER_ALIGNMENT - rest) {
            None
        } else {
            Some(UploadBuffer { aligned_size: value_size + (CONSTANT_BUFFER_ALIGNMENT - rest) })
        }
    }

    /// The resource to create for the buffer: a buffer of the aligned size in
    /// an upload heap, in the generic read state.
    pub fn resource(&self) -> (resource: CommittedResource)
        ensures
            resource == (CommittedResource {
                heap_properties: heap_of(HeapType::Upload),
                desc: buffer_desc(self.aligned_size as u64),
                initial_state: ResourceStates { bits: 0xac3 },
            }),
    {
        CommittedResource {
            heap_properties: cd3dx12_heap_properties_with_type(HeapType::Upload),
            desc: cd3dx12_resource_desc_buffer(self.aligned_size as u64, None, None),
            initial_state: ResourceStates { bits: resource_state_generic_read() },
        }
    }

    /// The view of the whole buffer as a constant buffer, for a buffer that
    /// lies at `gpu_virtual_address`. There is no such view where the size of
    /// the buffer is more than a `u32` holds.
    pub fn create_constant_buffer_view(&self, gpu_virtual_address: u64) -> (view: Option<
        ConstantBufferViewDesc,
    >)
        ensures
            view is Some == (self.aligned_size <= u32::MAX),
            view is Some ==> view->0 == (ConstantBufferViewDesc {
                buffer_location: gpu_virtual_address,
                size_in_bytes: self.aligned_size as u32,
            }),
    {
        if self.aligned_size > u32::MAX as usize {
            None
        } else {
            Some(
                ConstantBufferViewDesc {
                    buffer_location: gpu_virtual_address,
                    size_in_bytes: self.aligned_size as u32,
                },
            )
        }
    }
}

/// Rounding up gives the least multiple of 256 that is not less than the
/// size: it is a multiple of 256, it is not less than the size, and it is
/// less than 256 more.
pub proof fn lemma_aligned_up(size: int)
    requires
        0 <= size,
    ensures
        aligned_up(size) % 256 == 0,
        size <= aligned_up(size) < size + 256,
{
}

} // verus!
