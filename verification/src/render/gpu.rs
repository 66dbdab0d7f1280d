//! Plain-value descriptions of the GPU objects that the renderer configures.
//!
//! Each type here stands for a `wgpu` descriptor or enum; the code that talks
//! to the device turns these values into the `wgpu` ones one for one.

use vstd::prelude::*;

verus! {

/// Bit of `wgpu::TextureUsage` for a texture that is rendered into.
pub const TEXTURE_USAGE_OUTPUT_ATTACHMENT: u32 = 16;

/// Bit of `wgpu::ShaderStage` for the fragment stage.
pub const SHADER_STAGE_FRAGMENT: u32 = 2;

/// `wgpu::ColorWrite::ALL`: red, green, blue and alpha are written.
pub const COLOR_WRITE_ALL: u32 = 15;

/// The color formats a render target or swap chain can take here.
#[derive(Clone, Copy, Debug, PartialEq, Eq, Structural)]
pub enum TextureFormat {
    Rgba8Unorm,
    Rgba8UnormSrgb,
    Bgra8Unorm,
    Bgra8UnormSrgb,
}

/// Which adapter the device is requested from.
#[derive(Clone, Copy, Debug, PartialEq, Eq, Structural)]
pub enum PowerPreference {
    Default,
    LowPower,
    HighPerformance,
}

/// The backend families an adapter may come from (`wgpu::BackendBit`).
#[derive(Clone, Copy, Debug, PartialEq, Eq, Structural)]
pub enum Backends {
    /// Vulkan, Metal, DX12 and WebGPU.
    Primary,
    /// OpenGL and DX11.
    Secondary,
    /// Every backend.
    All,
}

/// How frames of a swap chain are presented.
#[derive(Clone, Copy, Debug, PartialEq, Eq, Structural)]
pub enum PresentMode {
    Immediate,
    Mailbox,
    Fifo,
}

/// Winding order of the front face of a triangle.
#[derive(Clone, Copy, Debug, PartialEq, Eq, Structural)]
pub enum FrontFace {
    Ccw,
    Cw,
}

/// Which faces are culled (`Disabled` is `wgpu::CullMode::None`).
#[derive(Clone, Copy, Debug, PartialEq, Eq, Structural)]
pub enum CullMode {
    Disabled,
    Front,
    Back,
}

/// How vertices are assembled into primitives.
#[derive(Clone, Copy, Debug, PartialEq, Eq, Structural)]
pub enum PrimitiveTopology {
    PointList,
    LineList,
    LineStrip,
    TriangleList,
    TriangleStrip,
}

/// Width of the entries of an index buffer.
#[derive(Clone, Copy, Debug, PartialEq, Eq, Structural)]
pub enum IndexFormat {
    Uint16,
    Uint32,
}

/// Factor applied to a color in blending.
#[derive(Clone, Copy, Debug, PartialEq, Eq, Structural)]
pub enum BlendFactor {
    Zero,
    One,
    SrcAlpha,
    OneMinusSrcAlpha,
}

/// How the two blended terms are combined.
#[derive(Clone, Copy, Debug, PartialEq, Eq, Structural)]
pub enum BlendOperation {
    Add,
    Subtract,
    ReverseSubtract,
    Min,
    Max,
}

/// One blend equation: `src_factor * src (operation) dst_factor * dst`.
#[derive(Clone, Copy, Debug, PartialEq, Eq, Structural)]
pub struct BlendDescriptor {
    pub src_factor: BlendFactor,
    pub dst_factor: BlendFactor,
    pub operation: BlendOperation,
}

/// The blend equation that keeps the new color and drops the old one.
pub open spec fn spec_blend_replace() -> BlendDescriptor {
    BlendDescriptor {
        src_factor: BlendFactor::One,
        dst_factor: BlendFactor::Zero,
        operation: BlendOperation::Add,
    }
}

/// `wgpu::BlendDescriptor::REPLACE`.
pub fn blend_replace() -> (r: BlendDescriptor)
    ensures
        r == spec_blend_replace(),
{
    BlendDescriptor {
        src_factor: BlendFactor::One,
        dst_factor: BlendFactor::Zero,
        operation: BlendOperation::Add,
    }
}

/// Kind of resource bound at one slot of a bind group layout.
#[derive(Clone, Copy, Debug, PartialEq, Eq, Structural)]
pub enum BindingType {
    UniformBuffer { dynamic: bool },
    StorageBuffer { dynamic: bool, readonly: bool },
    Sampler { comparison: bool },
}

/// One slot of a bind group layout.
#[derive(Clone, Copy, Debug, PartialEq, Eq, Structural)]
pub struct BindGroupLayoutEntry {
    pub binding: u32,
    /// Bits of `wgpu::ShaderStage`.
    pub visibility: u32,
    pub ty: BindingType,
}

/// A bind group layout: its slots and its label.
#[derive(Debug)]
pub struct BindGroupLayoutDescriptor {
    pub bindings: Vec<BindGroupLayoutEntry>,
    pub label: Option<&'static str>,
}

/// A swap chain: the texture usage (bits of `wgpu::TextureUsage`), format, size
/// and present mode.
#[derive(Clone, Copy, Debug, PartialEq, Eq, Structural)]
pub struct SwapChainDescriptor {
    pub usage: u32,
    pub format: TextureFormat,
    pub width: u32,
    pub height: u32,
    pub present_mode: PresentMode,
}

} // verus!
