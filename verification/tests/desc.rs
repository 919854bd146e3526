use dx12_common::buffers::{
    create_default_buffer, create_upload_buffer, CommittedResource, ConstantBufferViewDesc,
    UploadBuffer,
};
use dx12_common::commands::{
    cd3dx12_texture_copy_location_footprint, cd3dx12_texture_copy_location_sub,
    TextureCopyLocation, UploadResource,
};
use dx12_common::desc::{
    cd3dx12_blend_desc_default, cd3dx12_depth_stencil_desc_default,
    cd3dx12_heap_properties_with_type, cd3dx12_rasterizer_desc_default,
    cd3dx12_resource_barrier_transition, cd3dx12_resource_desc_buffer,
    cd3dx12_resource_desc_tex2d, Blend, BlendOp, ComparisonFunc, ConservativeRasterizationMode,
    CpuPageProperty, CullMode, DepthStencilOpDesc, DepthWriteMask, FillMode, HeapProperties,
    HeapType, LogicOp, MemoryPool, RenderTargetBlendDesc, ResourceBarrier, ResourceBarrierFlags,
    ResourceBarrierType, ResourceDesc, ResourceFlags, ResourceStates, ResourceTransitionBarrier,
    SampleDesc, StencilOp, TextureLayout,
};
use dx12_common::footprint::{
    Format, PlacedSubresourceFootprint, ResourceDimension, SubresourceFootprint,
};
use dx12_common::upload::{UploadAction, UploadState};

#[test]
fn heap_properties_name_the_type_and_node_one() {
    for heap_type in [HeapType::Default, HeapType::Upload, HeapType::Readback, HeapType::Custom] {
        assert_eq!(
            cd3dx12_heap_properties_with_type(heap_type),
            HeapProperties {
                heap_type,
                cpu_page_property: CpuPageProperty::Unknown,
                memory_pool_preference: MemoryPool::Unknown,
                creation_node_mask: 1,
                visible_node_mask: 1,
            }
        );
    }
}

#[test]
fn default_depth_stencil_state() {
    let desc = cd3dx12_depth_stencil_desc_default();
    let face = DepthStencilOpDesc {
        stencil_fail_op: StencilOp::Keep,
        stencil_depth_fail_op: StencilOp::Keep,
        stencil_pass_op: StencilOp::Keep,
        stencil_func: ComparisonFunc::Always,
    };
    assert!(desc.depth_enable);
    assert_eq!(desc.depth_write_mask, DepthWriteMask::All);
    assert_eq!(desc.depth_func, ComparisonFunc::Less);
    assert!(!desc.stencil_enable);
    assert_eq!(desc.stencil_read_mask, 0xff);
    assert_eq!(desc.stencil_write_mask, 0xff);
    assert_eq!(desc.front_face, face);
    assert_eq!(desc.back_face, face);
}

#[test]
fn default_blend_state() {
    let desc = cd3dx12_blend_desc_default();
    assert!(!desc.alpha_to_coverage_enable);
    assert!(!desc.independent_blend_enable);
    assert_eq!(desc.render_target.len(), 8);
    for target in desc.render_target.iter() {
        assert_eq!(
            *target,
            RenderTargetBlendDesc {
                blend_enable: false,
                logic_op_enable: false,
                src_blend: Blend::Zero,
                dest_blend: Blend::Zero,
                blend_op: BlendOp::Add,
                src_blend_alpha: Blend::One,
                dest_blend_alpha: Blend::One,
                blend_op_alpha: BlendOp::Add,
                logic_op: LogicOp::Noop,
                render_target_write_mask: 15,
            }
        );
    }
}

#[test]
fn default_rasterizer_state() {
    let desc = cd3dx12_rasterizer_desc_default();
    assert_eq!(desc.fill_mode, FillMode::Solid);
    assert_eq!(desc.cull_mode, CullMode::Back);
    assert!(!desc.front_counter_clockwise);
    assert_eq!(desc.depth_bias, 0);
    assert_eq!(f32::from_bits(desc.depth_bias_clamp_bits), 0.0);
    assert_eq!(f32::from_bits(desc.slope_scaled_depth_bias_bits), 0.0);
    assert!(desc.depth_clip_enable);
    assert!(!desc.multisample_enable);
    assert!(!desc.antialiased_line_enable);
    assert_eq!(desc.forced_sample_count, 0);
    assert_eq!(desc.conservative_raster, ConservativeRasterizationMode::Off);
}

fn plain_buffer(width: u64) -> ResourceDesc {
    ResourceDesc {
        dimension: ResourceDimension::Buffer,
        alignment: 0,
        width,
        height: 1,
        depth_or_array_size: 1,
        mip_levels: 1,
        format: Format { code: 0 },
        sample_desc: SampleDesc { count: 1, quality: 0 },
        layout: TextureLayout::RowMajor,
        flags: ResourceFlags { bits: 0 },
    }
}

#[test]
fn buffer_description_with_defaults() {
    assert_eq!(cd3dx12_resource_desc_buffer(1234, None, None), plain_buffer(1234));
}

#[test]
fn buffer_description_with_flags_and_alignment() {
    let desc = cd3dx12_resource_desc_buffer(64, Some(ResourceFlags { bits: 4 }), Some(65536));
    assert_eq!(
        desc,
        ResourceDesc { alignment: 65536, flags: ResourceFlags { bits: 4 }, ..plain_buffer(64) }
    );
}

#[test]
fn texture_description_with_defaults() {
    let desc = cd3dx12_resource_desc_tex2d(
        Format { code: 28 },
        640,
        480,
        None,
        None,
        None,
        None,
        None,
        None,
        None,
    );
    assert_eq!(
        desc,
        ResourceDesc {
            dimension: ResourceDimension::Texture2D,
            alignment: 0,
            width: 640,
            height: 480,
            depth_or_array_size: 1,
            mip_levels: 0,
            format: Format { code: 28 },
            sample_desc: SampleDesc { count: 1, quality: 0 },
            layout: TextureLayout::Unknown,
            flags: ResourceFlags { bits: 0 },
        }
    );
}

#[test]
fn texture_description_with_everything_given() {
    let desc = cd3dx12_resource_desc_tex2d(
        Format { code: 87 },
        8,
        4,
        Some(6),
        Some(3),
        Some(4),
        Some(2),
        Some(ResourceFlags { bits: 1 }),
        Some(TextureLayout::RowMajor),
        Some(4096),
    );
    assert_eq!(
        desc,
        ResourceDesc {
            dimension: ResourceDimension::Texture2D,
            alignment: 4096,
            width: 8,
            height: 4,
            depth_or_array_size: 6,
            mip_levels: 3,
            format: Format { code: 87 },
            sample_desc: SampleDesc { count: 4, quality: 2 },
            layout: TextureLayout::RowMajor,
            flags: ResourceFlags { bits: 1 },
        }
    );
}

#[test]
fn transition_barrier_with_defaults_is_for_all_subresources() {
    let barrier = cd3dx12_resource_barrier_transition(
        ResourceStates { bits: 0 },
        ResourceStates { bits: 0x400 },
        None,
        None,
    );
    assert_eq!(
        barrier,
        ResourceBarrier {
            barrier_type: ResourceBarrierType::Transition,
            flags: ResourceBarrierFlags { bits: 0 },
            transition: ResourceTransitionBarrier {
                subresource: 0xffff_ffff,
                state_before: ResourceStates { bits: 0 },
                state_after: ResourceStates { bits: 0x400 },
            },
        }
    );
}

#[test]
fn transition_barrier_with_subresource_and_flags() {
    let barrier = cd3dx12_resource_barrier_transition(
        ResourceStates { bits: 4 },
        ResourceStates { bits: 0 },
        Some(3),
        Some(ResourceBarrierFlags { bits: 1 }),
    );
    assert_eq!(barrier.barrier_type, ResourceBarrierType::Transition);
    assert_eq!(barrier.flags, ResourceBarrierFlags { bits: 1 });
    assert_eq!(barrier.transition.subresource, 3);
    assert_eq!(barrier.transition.state_before, ResourceStates { bits: 4 });
    assert_eq!(barrier.transition.state_after, ResourceStates { bits: 0 });
}

#[test]
fn copy_locations() {
    assert_eq!(
        cd3dx12_texture_copy_location_sub(UploadResource::Destination, 9),
        TextureCopyLocation::SubresourceIndex { resource: UploadResource::Destination, index: 9 }
    );
    let placed = PlacedSubresourceFootprint {
        offset: 512,
        footprint: SubresourceFootprint {
            format: Format { code: 28 },
            width: 4,
            height: 2,
            depth: 1,
            row_pitch: 256,
        },
    };
    assert_eq!(
        cd3dx12_texture_copy_location_footprint(UploadResource::Intermediate, &placed),
        TextureCopyLocation::PlacedFootprint {
            resource: UploadResource::Intermediate,
            footprint: placed
        }
    );
}

#[test]
fn default_buffer_plan() {
    let data = [1u8, 2, 3, 4, 5];
    let plan = create_default_buffer(&data);
    assert_eq!(
        plan.buffers.gpu_buffer,
        CommittedResource {
            heap_properties: cd3dx12_heap_properties_with_type(HeapType::Default),
            desc: plain_buffer(5),
            initial_state: ResourceStates { bits: 0 },
        }
    );
    assert_eq!(
        plan.buffers.upload_buffer,
        CommittedResource {
            heap_properties: cd3dx12_heap_properties_with_type(HeapType::Upload),
            desc: plain_buffer(5),
            initial_state: ResourceStates { bits: 0xac3 },
        }
    );
    assert_eq!(plan.before_upload.transition.state_before, ResourceStates { bits: 0 });
    assert_eq!(plan.before_upload.transition.state_after, ResourceStates { bits: 0x400 });
    assert_eq!(plan.before_upload.transition.subresource, 0xffff_ffff);
    assert_eq!(plan.after_upload.transition.state_before, ResourceStates { bits: 0x400 });
    assert_eq!(plan.after_upload.transition.state_after, ResourceStates { bits: 0xac3 });
    assert_eq!(plan.after_upload.transition.subresource, 0xffff_ffff);
    assert_eq!(
        plan.first_action,
        UploadAction::QueryFootprints { first_subresource: 0, num_subresources: 1, base_offset: 0 }
    );
    match plan.upload {
        UploadState::AwaitingFootprints { intermediate_offset, first_subresource, payloads } => {
            assert_eq!(intermediate_offset, 0);
            assert_eq!(first_subresource, 0);
            assert_eq!(payloads.len(), 1);
            assert_eq!(payloads[0].data, &data);
            assert_eq!(payloads[0].row_pitch, 5);
            assert_eq!(payloads[0].slice_pitch, 5);
        }
        other => panic!("unexpected state {:?}", other),
    }
}

#[test]
fn upload_buffer_plan() {
    let data = [0u8; 48];
    assert_eq!(
        create_upload_buffer(&data),
        CommittedResource {
            heap_properties: cd3dx12_heap_properties_with_type(HeapType::Upload),
            desc: cd3dx12_resource_desc_buffer(48, None, None),
            initial_state: ResourceStates { bits: 0xac3 },
        }
    );
}

#[test]
fn upload_buffer_size_is_rounded_up_to_256() {
    assert_eq!(UploadBuffer::new(0), Some(UploadBuffer { aligned_size: 0 }));
    assert_eq!(UploadBuffer::new(1), Some(UploadBuffer { aligned_size: 256 }));
    assert_eq!(UploadBuffer::new(64), Some(UploadBuffer { aligned_size: 256 }));
    assert_eq!(UploadBuffer::new(255), Some(UploadBuffer { aligned_size: 256 }));
    assert_eq!(UploadBuffer::new(256), Some(UploadBuffer { aligned_size: 256 }));
    assert_eq!(UploadBuffer::new(257), Some(UploadBuffer { aligned_size: 512 }));
    assert_eq!(UploadBuffer::new(1000), Some(UploadBuffer { aligned_size: 1024 }));
}

#[test]
fn upload_buffer_size_agrees_with_masking() {
    for size in 0..2000usize {
        let buffer = UploadBuffer::new(size).unwrap();
        assert_eq!(buffer.aligned_size, (size + 255) & !255);
    }
}

#[test]
fn upload_buffer_size_that_cannot_be_held() {
    assert_eq!(UploadBuffer::new(usize::MAX), None);
    assert_eq!(UploadBuffer::new(usize::MAX - 254), None);
    assert_eq!(
        UploadBuffer::new(usize::MAX - 255),
        Some(UploadBuffer { aligned_size: usize::MAX - 255 })
    );
}

#[test]
fn upload_buffer_resource() {
    let buffer = UploadBuffer::new(100).unwrap();
    assert_eq!(
        buffer.resource(),
        CommittedResource {
            heap_properties: cd3dx12_heap_properties_with_type(HeapType::Upload),
            desc: plain_buffer(256),
            initial_state: ResourceStates { bits: 0xac3 },
        }
    );
}

#[test]
fn constant_buffer_view_spans_the_aligned_size() {
    let buffer = UploadBuffer::new(300).unwrap();
    assert_eq!(
        buffer.create_constant_buffer_view(0x1234_5678_9abc),
        Some(ConstantBufferViewDesc { buffer_location: 0x1234_5678_9abc, size_in_bytes: 512 })
    );
}

#[test]
fn constant_buffer_view_needs_a_size_that_fits() {
    let limit = UploadBuffer { aligned_size: u32::MAX as usize };
    assert_eq!(
        limit.create_constant_buffer_view(0),
        Some(ConstantBufferViewDesc { buffer_location: 0, size_in_bytes: u32::MAX })
    );
    if usize::BITS > 32 {
        let too_large = UploadBuffer { aligned_size: u32::MAX as usize + 1 };
        assert_eq!(too_large.create_constant_buffer_view(0), None);
    }
}
