//! The values that the `windows` crate gives for the constants of
//! Direct3D 12 which the library builds on.
//!
//! Each function reads one constant of that crate. Its contract states the
//! value and is taken on trust: no proof stands behind it.

use vstd::prelude::*;
use windows::Win32::Graphics::Direct3D12::{
    D3D12_COLOR_WRITE_ENABLE_ALL, D3D12_DEFAULT_DEPTH_BIAS, D3D12_DEFAULT_DEPTH_BIAS_CLAMP,
    D3D12_DEFAULT_SLOPE_SCALED_DEPTH_BIAS, D3D12_DEFAULT_STENCIL_READ_MASK,
    D3D12_DEFAULT_STENCIL_WRITE_MASK, D3D12_RESOURCE_BARRIER_ALL_SUBRESOURCES,
    D3D12_RESOURCE_BARRIER_FLAG_NONE, D3D12_RESOURCE_FLAG_NONE, D3D12_RESOURCE_STATE_COMMON,
    D3D12_RESOURCE_STATE_COPY_DEST, D3D12_RESOURCE_STATE_GENERIC_READ,
};
use windows::Win32::Graphics::Dxgi::Common::DXGI_FORMAT_UNKNOWN;

verus! {

/// Reads `D3D12_DEFAULT_STENCIL_READ_MASK`, the stencil read mask of the
/// default depth-stencil state: all eight bits.
#[verifier::external_body]
pub(crate) fn default_stencil_read_mask() -> (mask: u8)
    ensures
        mask == 0xff,
{
    D3D12_DEFAULT_STENCIL_READ_MASK as u8
}

/// Reads `D3D12_DEFAULT_STENCIL_WRITE_MASK`, the stencil write mask of the
/// default depth-stencil state: all eight bits.
#[verifier::external_body]
pub(crate) fn default_stencil_write_mask() -> (mask: u8)
    ensures
        mask == 0xff,
{
    D3D12_DEFAULT_STENCIL_WRITE_MASK as u8
}

/// Reads `D3D12_COLOR_WRITE_ENABLE_ALL`, the write mask that enables all four
/// colour channels: 15.
#[verifier::external_body]
pub(crate) fn color_write_enable_all() -> (mask: u8)
    ensures
        mask == 15,
{
    D3D12_COLOR_WRITE_ENABLE_ALL.0 as u8
}

/// Reads `D3D12_DEFAULT_DEPTH_BIAS`, the depth bias of the default rasterizer
/// state: 0.
#[verifier::external_body]
pub(crate) fn default_depth_bias() -> (bias: i32)
    ensures
        bias == 0,
{
    D3D12_DEFAULT_DEPTH_BIAS
}

/// Reads `D3D12_DEFAULT_DEPTH_BIAS_CLAMP`, the depth bias clamp of the default
/// rasterizer state, as the bits of its 32-bit IEEE 754 number: it is zero,
/// whose bits are all 0.
#[verifier::external_body]
pub(crate) fn default_depth_bias_clamp_bits() -> (bits: u32)
    ensures
        bits == 0,
{
    D3D12_DEFAULT_DEPTH_BIAS_CLAMP.to_bits()
}

/// Reads `D3D12_DEFAULT_SLOPE_SCALED_DEPTH_BIAS`, the slope-scaled depth bias
/// of the default rasterizer state, as the bits of its 32-bit IEEE 754
/// number: it is zero, whose bits are all 0.
#[verifier::external_body]
pub(crate) fn default_slope_scaled_depth_bias_bits() -> (bits: u32)
    ensures
        bits == 0,
{
    D3D12_DEFAULT_SLOPE_SCALED_DEPTH_BIAS.to_bits()
}

/// Reads `D3D12_RESOURCE_BARRIER_ALL_SUBRESOURCES`, the subresource index that
/// stands for every subresource of a resource: the greatest `u32`.
#[verifier::external_body]
pub(crate) fn resource_barrier_all_subresources() -> (index: u32)
    ensures
        index == 0xffff_ffff,
{
    D3D12_RESOURCE_BARRIER_ALL_SUBRESOURCES
}

/// Reads the bits of `D3D12_RESOURCE_BARRIER_FLAG_NONE`: none is set.
#[verifier::external_body]
pub(crate) fn resource_barrier_flag_none() -> (bits: i32)
    ensures
        bits == 0,
{
    D3D12_RESOURCE_BARRIER_FLAG_NONE.0
}

/// Reads the bits of `D3D12_RESOURCE_FLAG_NONE`: none is set.
#[verifier::external_body]
pub(crate) fn resource_flag_none() -> (bits: i32)
    ensures
        bits == 0,
{
    D3D12_RESOURCE_FLAG_NONE.0
}

/// Reads the bits of `D3D12_RESOURCE_STATE_COMMON`: none is set.
#[verifier::external_body]
pub(crate) fn resource_state_common() -> (bits: i32)
    ensures
        bits == 0,
{
    D3D12_RESOURCE_STATE_COMMON.0
}

/// Reads the bits of `D3D12_RESOURCE_STATE_COPY_DEST`: 0x400.
#[verifier::external_body]
pub(crate) fn resource_state_copy_dest() -> (bits: i32)
    ensures
        bits == 0x400,
{
    D3D12_RESOURCE_STATE_COPY_DEST.0
}

/// Reads the bits of `D3D12_RESOURCE_STATE_GENERIC_READ`: 0xac3.
#[verifier::external_body]
pub(crate) fn resource_state_generic_read() -> (bits: i32)
    ensures
        bits == 0xac3,
{
    D3D12_RESOURCE_STATE_GENERIC_READ.0
}

/// Reads the code of `DXGI_FORMAT_UNKNOWN`: 0.
#[verifier::external_body]
pub(crate) fn format_unknown() -> (code: i32)
    ensures
        code == 0,
{
    DXGI_FORMAT_UNKNOWN.0
}

} // verus!
