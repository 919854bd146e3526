//! Descriptions of heaps, resources, barriers and pipeline state, with the
//! values that Direct3D 12 documents as defaults.

use vstd::prelude::*;
use crate::d3d12::{
    color_write_enable_all, default_depth_bias, default_depth_bias_clamp_bits,
    default_slope_scaled_depth_bias_bits, default_stencil_read_mask, default_stencil_write_mask,
    format_unknown, resource_barrier_all_subresources, resource_barrier_flag_none,
    resource_flag_none,
};
use crate::footprint::{Format, ResourceDimension};

verus! {

#[derive(Clone, Copy, Debug, PartialEq, Eq, Structural)]
pub enum HeapType {
    Default,
    Upload,
    Readback,
    Custom,
    GpuUpload,
}

#[derive(Clone, Copy, Debug, PartialEq, Eq, Structural)]
pub enum CpuPageProperty {
    Unknown,
    NotAvailable,
    WriteCombine,
    WriteBack,
}

#[derive(Clone, Copy, Debug, PartialEq, Eq, Structural)]
pub enum MemoryPool {
    Unknown,
    L0,
    L1,
}

/// The properties of a heap.
#[derive(Clone, Copy, Debug, PartialEq, Eq, Structural)]
pub struct HeapProperties {
    pub heap_type: HeapType,
    pub cpu_page_property: CpuPageProperty,
    pub memory_pool_preference: MemoryPool,
    pub creation_node_mask: u32,
    pub visible_node_mask: u32,
}

#[derive(Clone, Copy, Debug, PartialEq, Eq, Structural)]
pub enum DepthWriteMask {
    Zero,
    All,
}

#[derive(Clone, Copy, Debug, PartialEq, Eq, Structural)]
pub enum ComparisonFunc {
    NoComparison,
    Never,
    Less,
    Equal,
    LessEqual,
    Greater,
    NotEqual,
    GreaterEqual,
    Always,
}

#[derive(Clone, Copy, Debug, PartialEq, Eq, Structural)]
pub enum StencilOp {
    Keep,
    Zero,
    Replace,
    IncrSat,
    DecrSat,
    Invert,
    Incr,
    Decr,
}

/// The stencil operations for the faces that point one way.
#[derive(Clone, Copy, Debug, PartialEq, Eq, Structural)]
pub struct DepthStencilOpDesc {
    pub stencil_fail_op: StencilOp,
    pub stencil_depth_fail_op: StencilOp,
    pub stencil_pass_op: StencilOp,
    pub stencil_func: ComparisonFunc,
}

/// The depth-stencil state of a pipeline.
#[derive(Clone, Copy, Debug, PartialEq, Eq, Structural)]
pub struct DepthStencilDesc {
    pub depth_enable: bool,
    pub depth_write_mask: DepthWriteMask,
    pub depth_func: ComparisonFunc,
    pub stencil_enable: bool,
    pub stencil_read_mask: u8,
    pub stencil_write_mask: u8,
    pub front_face: DepthStencilOpDesc,
    pub back_face: DepthStencilOpDesc,
}

#[derive(Clone, Copy, Debug, PartialEq, Eq, Structural)]
pub enum Blend {
    Zero,
    One,
    SrcColor,
    InvSrcColor,
    SrcAlpha,
    InvSrcAlpha,
    DestAlpha,
    InvDestAlpha,
    DestColor,
    InvDestColor,
    SrcAlphaSat,
    BlendFactor,
    InvBlendFactor,
    Src1Color,
    InvSrc1Color,
    Src1Alpha,
    InvSrc1Alpha,
    AlphaFactor,
    InvAlphaFactor,
}

#[derive(Clone, Copy, Debug, PartialEq, Eq, Structural)]
pub enum BlendOp {
    Add,
    Subtract,
    RevSubtract,
    Min,
    Max,
}

#[derive(Clone, Copy, Debug, PartialEq, Eq, Structural)]
pub enum LogicOp {
    Clear,
    SetOnes,
    Copy,
    CopyInverted,
    Noop,
    Invert,
    And,
    Nand,
    Or,
    Nor,
    Xor,
    Equiv,
    AndReverse,
    AndInverted,
    OrReverse,
    OrInverted,
}

/// The blend state of one render target.
#[derive(Clone, Copy, Debug, PartialEq, Eq, Structural)]
pub struct RenderTargetBlendDesc {
    pub blend_enable: bool,
    pub logic_op_enable: bool,
    pub src_blend: Blend,
    pub dest_blend: Blend,
    pub blend_op: BlendOp,
    pub src_blend_alpha: Blend,
    pub dest_blend_alpha: Blend,
    pub blend_op_alpha: BlendOp,
    pub logic_op: LogicOp,
    pub render_target_write_mask: u8,
}

/// The blend state of a pipeline: one entry for each render target that can
/// be bound.
#[derive(Clone, Copy, Debug, PartialEq, Eq)]
pub struct BlendDesc {
    pub alpha_to_coverage_enable: bool,
    pub independent_blend_enable: bool,
    pub render_target: [RenderTargetBlendDesc; 8],
}

#[derive(Clone, Copy, Debug, PartialEq, Eq, Structural)]
pub enum FillMode {
    Wireframe,
    Solid,
}

#[derive(Clone, Copy, Debug, PartialEq, Eq, Structural)]
pub enum CullMode {
    NoCulling,
    Front,
    Back,
}

#[derive(Clone, Copy, Debug, PartialEq, Eq, Structural)]
pub enum ConservativeRasterizationMode {
    Off,
    On,
}

/// The rasterizer state of a pipeline. The two fractional fields are held as
/// the bits of 32-bit IEEE 754 numbers.
#[derive(Clone, Copy, Debug, PartialEq, Eq, Structural)]
pub struct RasterizerDesc {
    pub fill_mode: FillMode,
    pub cull_mode: CullMode,
    pub front_counter_clockwise: bool,
    pub depth_bias: i32,
    pub depth_bias_clamp_bits: u32,
    pub slope_scaled_depth_bias_bits: u32,
    pub depth_clip_enable: bool,
    pub multisample_enable: bool,
    pub antialiased_line_enable: bool,
    pub forced_sample_count: u32,
    pub conservative_raster: ConservativeRasterizationMode,
}

#[derive(Clone, Copy, Debug, PartialEq, Eq, Structural)]
pub enum TextureLayout {
    Unknown,
    RowMajor,
    UndefinedSwizzle64Kb,
    StandardSwizzle64Kb,
}

/// The number of samples of each pixel and their quality level.
#[derive(Clone, Copy, Debug, PartialEq, Eq, Structural)]
pub struct SampleDesc {
    pub count: u32,
    pub quality: u32,
}

/// A set of `D3D12_RESOURCE_FLAGS`, held by its bits.
#[derive(Clone, Copy, Debug, PartialEq, Eq, Structural)]
pub struct ResourceFlags {
    pub bits: i32,
}

/// A set of `D3D12_RESOURCE_STATES`, held by its bits.
#[derive(Clone, Copy, Debug, PartialEq, Eq, Structural)]
pub struct ResourceStates {
    pub bits: i32,
}

/// A set of `D3D12_RESOURCE_BARRIER_FLAGS`, held by its bits.
#[derive(Clone, Copy, Debug, PartialEq, Eq, Structural)]
pub struct ResourceBarrierFlags {
    pub bits: i32,
}

/// The description of a resource.
#[derive(Clone, Copy, Debug, PartialEq, Eq, Structural)]
pub struct ResourceDesc {
    pub dimension: ResourceDimension,
    pub alignment: u64,
    pub width: u64,
    pub height: u32,
    pub depth_or_array_size: u16,
    pub mip_levels: u16,
    pub format: Format,
    pub sample_desc: SampleDesc,
    pub layout: TextureLayout,
    pub flags: ResourceFlags,
}

#[derive(Clone, Copy, Debug, PartialEq, Eq, Structural)]
pub enum ResourceBarrierType {
    Transition,
    Aliasing,
    Uav,
}

/// The change of state that a transition barrier asks for.
#[derive(Clone, Copy, Debug, PartialEq, Eq, Structural)]
pub struct ResourceTransitionBarrier {
    pub subresource: u32,
    pub state_before: ResourceStates,
    pub state_after: ResourceStates,
}

/// A barrier on a resource. The library builds transition barriers only; the
/// caller adds the resource that the barrier is for.
#[derive(Clone, Copy, Debug, PartialEq, Eq, Structural)]
pub struct ResourceBarrier {
    pub barrier_type: ResourceBarrierType,
    pub flags: ResourceBarrierFlags,
    pub transition: ResourceTransitionBarrier,
}

/// The properties of a heap of the given type, with everything else left to
/// the device and node 1 named for creation and visibility.
pub fn cd3dx12_heap_properties_with_type(heap_type: HeapType) -> (properties: HeapProperties)
    ensures
        properties == (HeapProperties {
            heap_type,
            cpu_page_property: CpuPageProperty::Unknown,
            memory_pool_preference: MemoryPool::Unknown,
            creation_node_mask: 1,
            visible_node_mask: 1,
        }),
{
    HeapProperties {
        heap_type,
        cpu_page_property: CpuPageProperty::Unknown,
        memory_pool_preference: MemoryPool::Unknown,
        creation_node_mask: 1,
        visible_node_mask: 1,
    }
}

/// The stencil operations that keep the stencil value and always pass.
pub open spec fn keep_always() -> DepthStencilOpDesc {
    DepthStencilOpDesc {
        stencil_fail_op: StencilOp::Keep,
        stencil_depth_fail_op: StencilOp::Keep,
        stencil_pass_op: StencilOp::Keep,
        stencil_func: ComparisonFunc::Always,
    }
}

/// The default depth-stencil state: the depth test is on, writes all and
/// passes what is nearer; the stencil test is off, with full masks and
/// operations that keep the value and always pass.
pub fn cd3dx12_depth_stencil_desc_default() -> (desc: DepthStencilDesc)
    ensures
        desc == (DepthStencilDesc {
            depth_enable: true,
            depth_write_mask: DepthWriteMask::All,
            depth_func: ComparisonFunc::Less,
            stencil_enable: false,
            stencil_read_mask: 0xff,
            stencil_write_mask: 0xff,
            front_face: keep_always(),
            back_face: keep_always(),
        }),
{
    let face = DepthStencilOpDesc {
        stencil_fail_op: StencilOp::Keep,
        stencil_depth_fail_op: StencilOp::Keep,
        stencil_pass_op: StencilOp::Keep,
        stencil_func: ComparisonFunc::Always,
    };
    DepthStencilDesc {
        depth_enable: true,
        depth_write_mask: DepthWriteMask::All,
        depth_func: ComparisonFunc::Less,
        stencil_enable: false,
        stencil_read_mask: default_stencil_read_mask(),
        stencil_write_mask: default_stencil_write_mask(),
        front_face: face,
        back_face: face,
    }
}

/// The blend state of a render target that does not blend: the source colour
/// and alpha are written as they are, to all four channels.
pub open spec fn no_blend() -> RenderTargetBlendDesc {
    RenderTargetBlendDesc {
        blend_enable: false,
        logic_op_enable: false,
        src_blend: Blend::Zero,
        dest_blend: Blend::Zero,
        blend_op: BlendOp::Add,
        src_blend_alpha: Blend::One,
        dest_blend_alpha: Blend::One,
        blend_op_alpha: BlendOp::Add,
        logic_op: LogicOp::Noop,
        render_target_write_mask: 15,
    }
}

/// The default blend state: no alpha to coverage, no independent blending,
/// and no blending on any of the render targets.
pub fn cd3dx12_blend_desc_default() -> (desc: BlendDesc)
    ensures
        !desc.alpha_to_coverage_enable,
        !desc.independent_blend_enable,
        desc.render_target@.len() == 8,
        forall|i: int| 0 <= i < 8 ==> desc.render_target@[i] == no_blend(),
{
    let target = RenderTargetBlendDesc {
        blend_enable: false,
        logic_op_enable: false,
        src_blend: Blend::Zero,
        dest_blend: Blend::Zero,
        blend_op: BlendOp::Add,
        src_blend_alpha: Blend::One,
        dest_blend_alpha: Blend::One,
        blend_op_alpha: BlendOp::Add,
        logic_op: LogicOp::Noop,
        render_target_write_mask: color_write_enable_all(),
    };
    BlendDesc {
        alpha_to_coverage_enable: false,
        independent_blend_enable: false,
        render_target: [target, target, target, target, target, target, target, target],
    }
}

/// The default rasterizer state: solid fill, back faces culled, clockwise
/// fronts, no depth bias, depth clipping on, no multisampling, no line
/// antialiasing, no forced sample count, conservative rasterization off.
pub fn cd3dx12_rasterizer_desc_default() -> (desc: RasterizerDesc)
    ensures
        desc == (RasterizerDesc {
            fill_mode: FillMode::Solid,
            cull_mode: CullMode::Back,
            front_counter_clockwise: false,
            depth_bias: 0,
            depth_bias_clamp_bits: 0,
            slope_scaled_depth_bias_bits: 0,
            depth_clip_enable: true,
            multisample_enable: false,
            antialiased_line_enable: false,
            forced_sample_count: 0,
            conservative_raster: ConservativeRasterizationMode::Off,
        }),
{
    RasterizerDesc {
        fill_mode: FillMode::Solid,
        cull_mode: CullMode::Back,
        front_counter_clockwise: false,
        depth_bias: default_depth_bias(),
        depth_bias_clamp_bits: default_depth_bias_clamp_bits(),
        slope_scaled_depth_bias_bits: default_slope_scaled_depth_bias_bits(),
        depth_clip_enable: true,
        multisample_enable: false,
        antialiased_line_enable: false,
        forced_sample_count: 0,
        conservative_raster: ConservativeRasterizationMode::Off,
    }
}

/// The value of an option, or `default` where there is none.
pub open spec fn or_default<T>(value: Option<T>, default: T) -> T {
    match value {
        Some(value) => value,
        None => default,
    }
}

/// The description of a buffer of `width` bytes: one row, one slice, one mip
/// level, no format, one sample, row-major. Without `flags` the buffer has
/// none; without `alignment` the alignment is 0, which leaves it to the
/// device.
pub fn cd3dx12_resource_desc_buffer(
    width: u64,
    flags: Option<ResourceFlags>,
    alignment: Option<u64>,
) -> (desc: ResourceDesc)
    ensures
        desc == (ResourceDesc {
            dimension: ResourceDimension::Buffer,
            alignment: or_default(alignment, 0),
            width,
            height: 1,
            depth_or_array_size: 1,
            mip_levels: 1,
            format: Format { code: 0 },
            sample_desc: SampleDesc { count: 1, quality: 0 },
            layout: TextureLayout::RowMajor,
            flags: or_default(flags, ResourceFlags { bits: 0 }),
        }),
{
    ResourceDesc {
        dimension: ResourceDimension::Buffer,
        alignment: match alignment {
            Some(alignment) => alignment,
            None => 0,
        },
        width,
        height: 1,
        depth_or_array_size: 1,
        mip_levels: 1,
        format: Format { code: format_unknown() },
        sample_desc: SampleDesc { count: 1, quality: 0 },
        layout: TextureLayout::RowMajor,
        flags: match flags {
            Some(flags) => flags,
            None => ResourceFlags { bits: resource_flag_none() },
        },
    }
}

/// The description of a two-dimensional texture of the given format and
/// extent. What is not given is: an array of 1, all mip levels (0), 1 sample
/// of quality 0, no flags, a layout left to the device, and alignment 0.
pub fn cd3dx12_resource_desc_tex2d(
    format: Format,
    width: u64,
    height: u32,
    array_size: Option<u16>,
    mip_levels: Option<u16>,
    sample_count: Option<u32>,
    sample_quality: Option<u32>,
    flags: Option<ResourceFlags>,
    layout: Option<TextureLayout>,
    alignment: Option<u64>,
) -> (desc: ResourceDesc)
    ensures
        desc == (ResourceDesc {
            dimension: ResourceDimension::Texture2D,
            alignment: or_default(alignment, 0),
            width,
            height,
            depth_or_array_size: or_default(array_size, 1),
            mip_levels: or_default(mip_levels, 0),
            format,
            sample_desc: SampleDesc {
                count: or_default(sample_count, 1),
                quality: or_default(sample_quality, 0),
            },
            layout: or_default(layout, TextureLayout::Unknown),
            flags: or_default(flags, ResourceFlags { bits: 0 }),
        }),
{
    ResourceDesc {
        dimension: ResourceDimension::Texture2D,
        alignment: match alignment {
            Some(alignment) => alignment,
            None => 0,
        },
        width,
        height,
        depth_or_array_size: match array_size {
            Some(array_size) => array_size,
            None => 1,
        },
        mip_levels: match mip_levels {
            Some(mip_levels) => mip_levels,
            None => 0,
        },
        format,
        sample_desc: SampleDesc {
            count: match sample_count {
                Some(count) => count,
                None => 1,
            },
            quality: match sample_quality {
                Some(quality) => quality,
                None => 0,
            },
        },
        layout: match layout {
            Some(layout) => layout,
            None => TextureLayout::Unknown,
        },
        flags: match flags {
            Some(flags) => flags,
            None => ResourceFlags { bits: resource_flag_none() },
        },
    }
}

/// The barrier that takes a resource from `state_before` to `state_after`.
/// Without `subresource` it is for all subresources; without `flags` it has
/// none.
pub fn cd3dx12_resource_barrier_transition(
    state_before: ResourceStates,
    state_after: ResourceStates,
    subresource: Option<u32>,
    flags: Option<ResourceBarrierFlags>,
) -> (barrier: ResourceBarrier)
    ensures
        barrier == (ResourceBarrier {
            barrier_type: ResourceBarrierType::Transition,
            flags: or_default(flags, ResourceBarrierFlags { bits: 0 }),
            transition: ResourceTransitionBarrier {
                subresource: or_default(subresource, 0xffff_ffff),
                state_before,
                state_after,
            },
        }),
{
    ResourceBarrier {
        barrier_type: ResourceBarrierType::Transition,
        flags: match flags {
            Some(flags) => flags,
            None => ResourceBarrierFlags { bits: resource_barrier_flag_none() },
        },
        transition: ResourceTransitionBarrier {
            subresource: match subresource {
                Some(subresource) => subresource,
                None => resource_barrier_all_subresources(),
            },
            state_before,
            state_after,
        },
    }
}

} // verus!
