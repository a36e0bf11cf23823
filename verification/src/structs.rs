//! The plain values of the encoder interface: its enumerations, its flag
//! sets, and how they are named on the device.

use vstd::prelude::*;
use crate::format::{is_texture_format_code, texture_format_code, texture_format_of_code, GPUTextureFormat};

verus! {

pub type BufferSource = [u8];

pub type SharedArrayBuffer = [u8];

pub type GPUBufferDynamicOffset = u64;

pub type GPUColorWriteFlags = u32;

pub type GPUFlagsConstant = u32;

pub type GPUIndex32 = u32;

pub type GPUIntegerCoordinate = u32;

pub type GPUIntegerCoordinateOut = i32;

pub type GPUMapModeFlags = u32;

pub type GPUSampleMask = u32;

pub type GPUSignedOffset32 = i32;

pub type GPUSize32 = u32;

pub type GPUSize32Out = u32;

pub type GPUSize64 = u64;

pub type GPUSize64Out = u64;

pub type GPUStencilValue = u32;

/// The colour spaces that a canvas can be shown in.
#[derive(Clone, Copy, Debug, PartialEq, Eq, Hash, Structural)]
pub enum PredefinedColorSpace {
    Srgb,
    DisplayP3,
}

/// How a sampler treats coordinates outside the texture.
#[derive(Clone, Copy, Debug, PartialEq, Eq, Hash, Structural)]
pub enum GPUAddressMode {
    ClampToEdge,
    Repeat,
    MirrorRepeat,
}

/// The way a pipeline layout is derived where none is given.
#[derive(Clone, Copy, Debug, PartialEq, Eq, Hash, Structural)]
pub enum GPUAutoLayoutMode {
    Auto,
}

/// The factors of a blend operation.
#[derive(Clone, Copy, Debug, PartialEq, Eq, Hash, Structural)]
pub enum GPUBlendFactor {
    Zero,
    One,
    Src,
    OneMinusSrc,
    SrcAlpha,
    OneMinusSrcAlpha,
    Dst,
    OneMinusDst,
    DstAlpha,
    OneMinusDstAlpha,
    SrcAlphaSaturated,
    Constant,
    OneMinusConstant,
}

/// The ways two colours are blended.
#[derive(Clone, Copy, Debug, PartialEq, Eq, Hash, Structural)]
pub enum GPUBlendOperation {
    Add,
    Subtract,
    ReverseSubtract,
    Min,
    Max,
}

/// The kinds of buffer binding.
#[derive(Clone, Copy, Debug, PartialEq, Eq, Hash, Structural)]
pub enum GPUBufferBindingType {
    Uniform,
    Storage,
    ReadOnlyStorage,
}

/// Whether a buffer is mapped.
#[derive(Clone, Copy, Debug, PartialEq, Eq, Hash, Structural)]
pub enum GPUBufferMapState {
    Mapped,
    Unmapped,
    Pending,
}

/// How the alpha channel of a canvas is read.
#[derive(Clone, Copy, Debug, PartialEq, Eq, Hash, Structural)]
pub enum GPUCanvasAlphaMode {
    Premultiplied,
    Opaque,
}

/// The comparisons of depth, stencil and sampler tests.
#[derive(Clone, Copy, Debug, PartialEq, Eq, Hash, Structural)]
pub enum GPUCompareFunction {
    Never,
    Less,
    Equal,
    LessEqual,
    Greater,
    NotEqual,
    GreaterEqual,
    Always,
}

/// The severities of a shader compilation message.
#[derive(Clone, Copy, Debug, PartialEq, Eq, Hash, Structural)]
pub enum GPUCompilationMessageType {
    Error,
    Warning,
    Info,
}

/// Which faces are culled.
#[derive(Clone, Copy, Debug, PartialEq, Eq, Hash, Structural)]
pub enum GPUCullMode {
    Off,
    Front,
    Back,
}

/// Why a device was lost.
#[derive(Clone, Copy, Debug, PartialEq, Eq, Hash, Structural)]
pub enum GPUDeviceLostReason {
    Destroyed,
    Unknown,
}

/// The classes of error that an error scope observes.
#[derive(Clone, Copy, Debug, PartialEq, Eq, Hash, Structural)]
pub enum GPUErrorFilter {
    OutOfMemory,
    Validation,
    Internal,
}

/// The optional features of a device.
#[derive(Clone, Copy, Debug, PartialEq, Eq, Hash, Structural)]
pub enum GPUFeatureName {
    DepthClipControl,
    Depth32floatStencil8,
    TextureCompressionBc,
    TextureCompressionEtc2,
    TextureCompressionAstc,
    TimestampQuery,
    IndirectFirstInstance,
    ShaderF116,
    Rg11b10ufloatRenderable,
    Bgra8unormStorage,
    Float32Filterable,
}

/// How a sampler filters between texels.
#[derive(Clone, Copy, Debug, PartialEq, Eq, Hash, Structural)]
pub enum GPUFilterMode {
    Nearest,
    Linear,
}

/// The winding of front faces.
#[derive(Clone, Copy, Debug, PartialEq, Eq, Hash, Structural)]
pub enum GPUFrontFace {
    CCW,
    CW,
}

/// The width of the indices in an index buffer.
#[derive(Clone, Copy, Debug, PartialEq, Eq, Hash, Structural)]
pub enum GPUIndexFormat {
    Uint16,
    Uint32,
}

/// What is done with an attachment when a pass begins.
#[derive(Clone, Copy, Debug, PartialEq, Eq, Hash, Structural)]
pub enum GPULoadOp {
    Load,
    Clear,
}

/// How a sampler filters between mip levels.
#[derive(Clone, Copy, Debug, PartialEq, Eq, Hash, Structural)]
pub enum GPUMipmapFilterMode {
    Nearest,
    Linear,
}

/// Why a pipeline could not be created.
#[derive(Clone, Copy, Debug, PartialEq, Eq, Hash, Structural)]
pub enum GPUPipelineErrorReason {
    Validation,
    Internal,
}

/// The kind of adapter that is preferred.
#[derive(Clone, Copy, Debug, PartialEq, Eq, Hash, Structural)]
pub enum GPUPowerPreference {
    LowPower,
    HighPerformance,
}

/// The kinds of primitive built from vertices.
#[derive(Clone, Copy, Debug, PartialEq, Eq, Hash, Structural)]
pub enum GPUPrimitiveTopology {
    PointList,
    LineList,
    LineStrip,
    TriangleList,
    TriangleStrip,
}

/// The kinds of query.
#[derive(Clone, Copy, Debug, PartialEq, Eq, Hash, Structural)]
pub enum GPUQueryType {
    Occlusion,
    Timestamp,
}

/// The kinds of sampler binding.
#[derive(Clone, Copy, Debug, PartialEq, Eq, Hash, Structural)]
pub enum GPUSamplerBindingType {
    Filtering,
    NonFiltering,
    Comparison,
}

/// What is done with a stencil value.
#[derive(Clone, Copy, Debug, PartialEq, Eq, Hash, Structural)]
pub enum GPUStencilOperation {
    Keep,
    Zero,
    Replace,
    Invert,
    IncrementClamp,
    DecrementClamp,
    IncrementWrap,
    DecrementWrap,
}

/// How a storage texture is accessed.
#[derive(Clone, Copy, Debug, PartialEq, Eq, Hash, Structural)]
pub enum GPUStorageTextureAccess {
    WriteOnly,
}

/// What is done with an attachment when a pass ends.
#[derive(Clone, Copy, Debug, PartialEq, Eq, Hash, Structural)]
pub enum GPUStoreOp {
    Store,
    Discard,
}

/// The aspects of a texture.
#[derive(Clone, Copy, Debug, PartialEq, Eq, Hash, Structural)]
pub enum GPUTextureAspect {
    All,
    StencilOnly,
    DepthOnly,
}

/// The dimensions of a texture.
#[derive(Clone, Copy, Debug, PartialEq, Eq, Hash, Structural)]
pub enum GPUTextureDimension {
    OneD,
    TwoD,
    ThreeD,
}

/// The kinds of value that sampling a texture gives.
#[derive(Clone, Copy, Debug, PartialEq, Eq, Hash, Structural)]
pub enum GPUTextureSampleType {
    Float,
    UnfilterableFloat,
    Depth,
    Sint,
    Uint,
}

/// The dimensions of a texture view.
#[derive(Clone, Copy, Debug, PartialEq, Eq, Hash, Structural)]
pub enum GPUTextureViewDimension {
    OneD,
    TwoD,
    TwoDArray,
    Cube,
    CubeArray,
    ThreeD,
}

/// The formats of a vertex attribute.
#[derive(Clone, Copy, Debug, PartialEq, Eq, Hash, Structural)]
pub enum GPUVertexFormat {
    Uint8x2,
    Uint8x4,
    Sint8x2,
    Sint8x4,
    Unorm8x2,
    Unorm8x4,
    Snorm8x2,
    Snorm8x4,
    Uint16x2,
    Uint16x4,
    Sint16x2,
    Sint16x4,
    Unorm16x2,
    Unorm16x4,
    Snorm16x2,
    Snorm16x4,
    Float16x2,
    Float16x4,
    Float32,
    Float32x2,
    Float32x3,
    Float32x4,
    Uint32,
    Uint32x2,
    Uint32x3,
    Uint32x4,
    Sint32,
    Sint32x2,
    Sint32x3,
    Sint32x4,
}

/// Whether a vertex buffer advances per vertex or per instance.
#[derive(Clone, Copy, Debug, PartialEq, Eq, Hash, Structural)]
pub enum GPUVertexStepMode {
    Vertex,
    Instance,
}

/// The channels of a colour target that are written.
#[derive(Clone, Copy, Debug, PartialEq, Eq, Hash, Structural)]
pub enum GPUColorWrite {
    RED,
    GREEN,
    BLUE,
    ALPHA,
    ALL,
}

/// The ways a buffer is mapped.
#[derive(Clone, Copy, Debug, PartialEq, Eq, Hash, Structural)]
pub enum GPUMapMode {
    READ,
    WRITE,
}

/// The shader stages that a binding is visible to.
#[derive(Clone, Copy, Debug, PartialEq, Eq, Hash, Structural)]
pub struct GPUShaderStageFlags {
    pub bits: u32,
}

impl GPUShaderStageFlags {
    pub const VERTEX: u32 = 0x1;

    pub const FRAGMENT: u32 = 0x2;

    pub const COMPUTE: u32 = 0x4;

    /// The set with no stage.
    pub fn empty() -> (f: GPUShaderStageFlags)
        ensures
            f.bits == 0,
    {
        GPUShaderStageFlags { bits: 0 }
    }

    /// The set with the given bits, those that name no stage left out.
    pub fn from_bits_truncate(bits: u32) -> (f: GPUShaderStageFlags)
        ensures
            f.bits == bits & 0x7,
    {
        GPUShaderStageFlags { bits: bits & 0x7 }
    }

    /// Whether every stage of `other` is in this set.
    pub fn contains(self, other: GPUShaderStageFlags) -> (b: bool)
        ensures
            b == (self.bits & other.bits == other.bits),
    {
        self.bits & other.bits == other.bits
    }

    /// The stages of either set.
    pub fn union(self, other: GPUShaderStageFlags) -> (f: GPUShaderStageFlags)
        ensures
            f.bits == self.bits | other.bits,
    {
        GPUShaderStageFlags { bits: self.bits | other.bits }
    }
}

/// The ways a buffer may be used.
#[derive(Clone, Copy, Debug, PartialEq, Eq, Hash, Structural)]
pub struct GPUBufferUsageFlags {
    pub bits: u32,
}

impl GPUBufferUsageFlags {
    pub const MAP_READ: u32 = 0x1;

    pub const MAP_WRITE: u32 = 0x2;

    pub const COPY_SRC: u32 = 0x4;

    pub const COPY_DST: u32 = 0x8;

    pub const INDEX: u32 = 0x10;

    pub const VERTEX: u32 = 0x20;

    pub const UNIFORM: u32 = 0x40;

    pub const STORAGE: u32 = 0x80;

    pub const INDIRECT: u32 = 0x100;

    pub const QUERY_RESOLVE: u32 = 0x200;

    /// The set with no use.
    pub fn empty() -> (f: GPUBufferUsageFlags)
        ensures
            f.bits == 0,
    {
        GPUBufferUsageFlags { bits: 0 }
    }

    /// The set with the given bits, those that name no use left out.
    pub fn from_bits_truncate(bits: u32) -> (f: GPUBufferUsageFlags)
        ensures
            f.bits == bits & 0x3FF,
    {
        GPUBufferUsageFlags { bits: bits & 0x3FF }
    }

    /// Whether every use of `other` is in this set.
    pub fn contains(self, other: GPUBufferUsageFlags) -> (b: bool)
        ensures
            b == (self.bits & other.bits == other.bits),
    {
        self.bits & other.bits == other.bits
    }

    /// The uses of either set.
    pub fn union(self, other: GPUBufferUsageFlags) -> (f: GPUBufferUsageFlags)
        ensures
            f.bits == self.bits | other.bits,
    {
        GPUBufferUsageFlags { bits: self.bits | other.bits }
    }
}

/// Sample counts, one bit for each.
#[derive(Clone, Copy, Debug, PartialEq, Eq, Hash, Structural)]
pub struct GPUSampleCountFlags {
    pub bits: u32,
}

impl GPUSampleCountFlags {
    pub const SC_1: u32 = 0x1;

    pub const SC_2: u32 = 0x2;

    pub const SC_4: u32 = 0x4;

    pub const SC_8: u32 = 0x8;

    pub const SC_16: u32 = 0x10;

    pub const SC_32: u32 = 0x20;

    pub const SC_64: u32 = 0x40;

    /// The set with no sample count.
    pub fn empty() -> (f: GPUSampleCountFlags)
        ensures
            f.bits == 0,
    {
        GPUSampleCountFlags { bits: 0 }
    }

    /// The set with the given bits, those that name no count left out.
    pub fn from_bits_truncate(bits: u32) -> (f: GPUSampleCountFlags)
        ensures
            f.bits == bits & 0x7F,
    {
        GPUSampleCountFlags { bits: bits & 0x7F }
    }

    /// Whether every count of `other` is in this set.
    pub fn contains(self, other: GPUSampleCountFlags) -> (b: bool)
        ensures
            b == (self.bits & other.bits == other.bits),
    {
        self.bits & other.bits == other.bits
    }

    /// Whether the set holds exactly one sample count.
    pub open spec fn is_single(self) -> bool {
        self.bits == 0x1 || self.bits == 0x2 || self.bits == 0x4 || self.bits == 0x8 || self.bits == 0x10
            || self.bits == 0x20 || self.bits == 0x40
    }
}

/// The ways a texture may be used. All uses but the first share one bit.
#[derive(Clone, Copy, Debug, PartialEq, Eq, Hash, Structural)]
pub struct GPUTextureUsageFlags {
    pub bits: u32,
}

impl GPUTextureUsageFlags {
    pub const COPY_SRC: u32 = 0x1;

    pub const COPY_DST: u32 = 0x2;

    pub const TEXTURE_BINDING: u32 = 0x2;

    pub const STORAGE_BINDING: u32 = 0x2;

    pub const RENDER_ATTACHMENT: u32 = 0x2;

    /// The set with no use.
    pub fn empty() -> (f: GPUTextureUsageFlags)
        ensures
            f.bits == 0,
    {
        GPUTextureUsageFlags { bits: 0 }
    }

    /// Whether every use of `other` is in this set.
    pub fn contains(self, other: GPUTextureUsageFlags) -> (b: bool)
        ensures
            b == (self.bits & other.bits == other.bits),
    {
        self.bits & other.bits == other.bits
    }
}

/// The device's buffer usage bit of a transfer source.
pub const VK_BUFFER_USAGE_TRANSFER_SRC: u32 = 0x1;

/// The device's buffer usage bit of a transfer destination.
pub const VK_BUFFER_USAGE_TRANSFER_DST: u32 = 0x2;

/// The device's buffer usage bit of a uniform buffer.
pub const VK_BUFFER_USAGE_UNIFORM_BUFFER: u32 = 0x10;

/// The device's buffer usage bit of a storage buffer.
pub const VK_BUFFER_USAGE_STORAGE_BUFFER: u32 = 0x20;

/// The device's buffer usage bit of an index buffer.
pub const VK_BUFFER_USAGE_INDEX_BUFFER: u32 = 0x40;

/// The device's buffer usage bit of a vertex buffer.
pub const VK_BUFFER_USAGE_VERTEX_BUFFER: u32 = 0x80;

/// The device's buffer usage bit of an indirect buffer.
pub const VK_BUFFER_USAGE_INDIRECT_BUFFER: u32 = 0x100;

/// The device's code of 16-bit indices.
pub const VK_INDEX_TYPE_UINT16: i32 = 0;

/// The device's code of 32-bit indices.
pub const VK_INDEX_TYPE_UINT32: i32 = 1;

/// The device's bit of `gpu_bit` where `usage` has it, else nothing.
pub open spec fn usage_bit(usage: u32, gpu_bit: u32, vk_bit: u32) -> u32 {
    if usage & gpu_bit != 0 {
        vk_bit
    } else {
        0
    }
}

/// The device's buffer usage bits of a set of buffer uses: each use that
/// the device knows gives its bit, and mapping and query resolving give
/// none.
pub open spec fn vk_buffer_usage(usage: u32) -> u32 {
    usage_bit(usage, GPUBufferUsageFlags::COPY_SRC, VK_BUFFER_USAGE_TRANSFER_SRC) | usage_bit(
        usage,
        GPUBufferUsageFlags::COPY_DST,
        VK_BUFFER_USAGE_TRANSFER_DST,
    ) | usage_bit(usage, GPUBufferUsageFlags::INDEX, VK_BUFFER_USAGE_INDEX_BUFFER) | usage_bit(
        usage,
        GPUBufferUsageFlags::VERTEX,
        VK_BUFFER_USAGE_VERTEX_BUFFER,
    ) | usage_bit(usage, GPUBufferUsageFlags::UNIFORM, VK_BUFFER_USAGE_UNIFORM_BUFFER) | usage_bit(
        usage,
        GPUBufferUsageFlags::STORAGE,
        VK_BUFFER_USAGE_STORAGE_BUFFER,
    ) | usage_bit(usage, GPUBufferUsageFlags::INDIRECT, VK_BUFFER_USAGE_INDIRECT_BUFFER)
}

/// The conversions between the values of the encoder interface and the
/// names that the device has for them.
pub struct VulkanConverter {}

impl VulkanConverter {
    /// The texture format that a format code of the device names.
    pub fn convert_vk_texture_format(format: i32) -> (f: GPUTextureFormat)
        requires
            is_texture_format_code(format),
        ensures
            f.vk_code() == format,
    {
        match texture_format_of_code(format) {
            Some(f) => f,
            None => GPUTextureFormat::Undefined,
        }
    }

    /// The device's format code of a texture format.
    pub fn convert_gpu_texture_format(format: GPUTextureFormat) -> (code: i32)
        ensures
            code == format.vk_code(),
    {
        texture_format_code(format)
    }

    /// The sample count that a sample count bit of the device names.
    pub fn convert_vk_sample_count(flags: u32) -> (f: GPUSampleCountFlags)
        requires
            (GPUSampleCountFlags { bits: flags }).is_single(),
        ensures
            f.bits == flags,
    {
        GPUSampleCountFlags { bits: flags }
    }

    /// The device's sample count bit of a sample count.
    pub fn convert_gpu_sample_count(flags: GPUSampleCountFlags) -> (bits: u32)
        requires
            flags.is_single(),
        ensures
            bits == flags.bits,
    {
        flags.bits
    }

    /// The device's buffer usage bits of a set of buffer uses.
    pub fn buffer_gpu_buffer_usage(usage: GPUBufferUsageFlags) -> (flags: u32)
        ensures
            flags == vk_buffer_usage(usage.bits),
    {
        let mut flags: u32 = 0;
        if usage.bits & GPUBufferUsageFlags::COPY_SRC != 0 {
            flags = flags | VK_BUFFER_USAGE_TRANSFER_SRC;
        }
        if usage.bits & GPUBufferUsageFlags::COPY_DST != 0 {
            flags = flags | VK_BUFFER_USAGE_TRANSFER_DST;
        }
        if usage.bits & GPUBufferUsageFlags::INDEX != 0 {
            flags = flags | VK_BUFFER_USAGE_INDEX_BUFFER;
        }
        if usage.bits & GPUBufferUsageFlags::VERTEX != 0 {
            flags = flags | VK_BUFFER_USAGE_VERTEX_BUFFER;
        }
        if usage.bits & GPUBufferUsageFlags::UNIFORM != 0 {
            flags = flags | VK_BUFFER_USAGE_UNIFORM_BUFFER;
        }
        if usage.bits & GPUBufferUsageFlags::STORAGE != 0 {
            flags = flags | VK_BUFFER_USAGE_STORAGE_BUFFER;
        }
        if usage.bits & GPUBufferUsageFlags::INDIRECT != 0 {
            flags = flags | VK_BUFFER_USAGE_INDIRECT_BUFFER;
        }
        proof {
            let a = usage_bit(usage.bits, GPUBufferUsageFlags::COPY_SRC, VK_BUFFER_USAGE_TRANSFER_SRC);
            let b = usage_bit(usage.bits, GPUBufferUsageFlags::COPY_DST, VK_BUFFER_USAGE_TRANSFER_DST);
            let c = usage_bit(usage.bits, GPUBufferUsageFlags::INDEX, VK_BUFFER_USAGE_INDEX_BUFFER);
            let d = usage_bit(usage.bits, GPUBufferUsageFlags::VERTEX, VK_BUFFER_USAGE_VERTEX_BUFFER);
            let e = usage_bit(usage.bits, GPUBufferUsageFlags::UNIFORM, VK_BUFFER_USAGE_UNIFORM_BUFFER);
            let f = usage_bit(usage.bits, GPUBufferUsageFlags::STORAGE, VK_BUFFER_USAGE_STORAGE_BUFFER);
            let g = usage_bit(usage.bits, GPUBufferUsageFlags::INDIRECT, VK_BUFFER_USAGE_INDIRECT_BUFFER);
            assert(forall|x: u32| #[trigger] (x | 0) == x) by (bit_vector);
            assert(forall|x: u32| #[trigger] (0 | x) == x) by (bit_vector);
            assert(flags == a | b | c | d | e | f | g);
        }
        flags
    }

    /// The index format that an index type code of the device names.
    pub fn convert_vk_index_type(flags: i32) -> (f: GPUIndexFormat)
        requires
            flags == VK_INDEX_TYPE_UINT16 || flags == VK_INDEX_TYPE_UINT32,
        ensures
            f == (if flags == VK_INDEX_TYPE_UINT16 {
                GPUIndexFormat::Uint16
            } else {
                GPUIndexFormat::Uint32
            }),
    {
        if flags == VK_INDEX_TYPE_UINT16 {
            GPUIndexFormat::Uint16
        } else {
            GPUIndexFormat::Uint32
        }
    }

    /// The device's index type code of an index format.
    pub fn convert_gpu_index_format(flags: GPUIndexFormat) -> (code: i32)
        ensures
            code == (match flags {
                GPUIndexFormat::Uint16 => VK_INDEX_TYPE_UINT16,
                GPUIndexFormat::Uint32 => VK_INDEX_TYPE_UINT32,
            }),
    {
        match flags {
            GPUIndexFormat::Uint16 => VK_INDEX_TYPE_UINT16,
            GPUIndexFormat::Uint32 => VK_INDEX_TYPE_UINT32,
        }
    }
}

/// Converting a texture format to the device's code and back gives the
/// format again.
pub proof fn lemma_texture_format_round_trip(format: GPUTextureFormat, back: GPUTextureFormat)
    requires
        back.vk_code() == format.vk_code(),
    ensures
        back == format,
        is_texture_format_code(format.vk_code()),
{
    crate::format::lemma_format_codes_differ(back, format);
}

} // verus!
