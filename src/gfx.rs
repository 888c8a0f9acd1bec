//! The graphics library's resource handles, enumerations and descriptors,
//! in the form that application code builds them.
use vstd::prelude::*;

pub mod ffi;

verus! {

/// The most color attachments that a pass or pipeline can have.
pub const SG_MAX_COLOR_ATTACHMENTS: usize = 4;

/// The most vertex buffers that can be bound at once.
pub const SG_MAX_SHADERSTAGE_BUFFERS: usize = 8;

/// The most images that one shader stage can sample.
pub const SG_MAX_SHADERSTAGE_IMAGES: usize = 12;

/// The most uniform blocks that one shader stage can have.
pub const SG_MAX_SHADERSTAGE_UBS: usize = 4;

/// The most members that one uniform block can have.
pub const SG_MAX_UB_MEMBERS: usize = 16;

/// The most vertex attributes that a shader or pipeline can have.
pub const SG_MAX_VERTEX_ATTRIBUTES: usize = 16;

/// The most mipmap levels that an image can have.
pub const SG_MAX_MIPMAPS: usize = 16;

/// Handle of a buffer. The identifier belongs to the graphics library and is
/// only passed through.
#[derive(Copy, Clone, Default, Debug, PartialEq, Eq, Structural)]
pub struct SgBuffer {
    pub id: i32,
}

/// Handle of an image.
#[derive(Copy, Clone, Default, Debug, PartialEq, Eq, Structural)]
pub struct SgImage {
    pub id: i32,
}

/// Handle of a shader.
#[derive(Copy, Clone, Default, Debug, PartialEq, Eq, Structural)]
pub struct SgShader {
    pub id: i32,
}

/// Handle of a pipeline.
#[derive(Copy, Clone, Default, Debug, PartialEq, Eq, Structural)]
pub struct SgPipeline {
    pub id: i32,
}

/// Handle of a render pass.
#[derive(Copy, Clone, Default, Debug, PartialEq, Eq, Structural)]
pub struct SgPass {
    pub id: i32,
}

/// Handle of a rendering context.
#[derive(Copy, Clone, Default, Debug, PartialEq, Eq, Structural)]
pub struct SgContext {
    pub id: i32,
}

/// The optional features that the backend in use offers.
#[allow(non_snake_case)]
#[derive(Copy, Clone, Default, Debug, PartialEq, Eq, Structural)]
pub struct SgFeatures {
    pub Instancing: bool,
    pub OriginTopLeft: bool,
    pub MultipleRenderTarget: bool,
    pub MSAARenderTargets: bool,
    pub ImageType3D: bool,
    pub ImageTypeArray: bool,
    pub ImageClampToBorder: bool,
    pub MRTIndependentBlendState: bool,
    pub MRTIndependentWriteMask: bool,
}

/// The rendering backend that the graphics library runs on.
#[derive(Copy, Clone, Debug, PartialEq, Eq, Structural)]
pub enum SgBackend {
    GLCORE33,
    GLES2,
    GLES3,
    D3D11,
    MetalIOS,
    MetalMacOS,
    MetalSimulator,
    WGPU,
    Dummy,
}

impl SgBackend {
    /// The value that the native library uses for this variant.
    pub open spec fn spec_raw(&self) -> i32 {
        match self {
            SgBackend::GLCORE33 => 0,
            SgBackend::GLES2 => 1,
            SgBackend::GLES3 => 2,
            SgBackend::D3D11 => 3,
            SgBackend::MetalIOS => 4,
            SgBackend::MetalMacOS => 5,
            SgBackend::MetalSimulator => 6,
            SgBackend::WGPU => 7,
            SgBackend::Dummy => 8,
        }
    }

    /// Returns the value that the native library uses for this variant.
    #[verifier::when_used_as_spec(spec_raw)]
    pub fn raw(&self) -> (r: i32)
        ensures
            r == self.spec_raw(),
    {
        match self {
            SgBackend::GLCORE33 => 0,
            SgBackend::GLES2 => 1,
            SgBackend::GLES3 => 2,
            SgBackend::D3D11 => 3,
            SgBackend::MetalIOS => 4,
            SgBackend::MetalMacOS => 5,
            SgBackend::MetalSimulator => 6,
            SgBackend::WGPU => 7,
            SgBackend::Dummy => 8,
        }
    }

    /// Returns the variant that the native value `v` stands for, if any.
    pub fn from_raw(v: i32) -> (r: Option<SgBackend>)
        ensures
            match r {
                Some(e) => e.spec_raw() == v,
                None => forall|e: SgBackend| e.spec_raw() != v,
            },
    {
        match v {
            0 => Some(SgBackend::GLCORE33),
            1 => Some(SgBackend::GLES2),
            2 => Some(SgBackend::GLES3),
            3 => Some(SgBackend::D3D11),
            4 => Some(SgBackend::MetalIOS),
            5 => Some(SgBackend::MetalMacOS),
            6 => Some(SgBackend::MetalSimulator),
            7 => Some(SgBackend::WGPU),
            8 => Some(SgBackend::Dummy),
            _ => None,
        }
    }
}

/// The state of a resource, as the graphics library reports it for a handle.
#[derive(Copy, Clone, Debug, PartialEq, Eq, Structural)]
pub enum SgResourceState {
    Initial,
    Alloc,
    Valid,
    Failed,
    Invalid,
    ForceU32,
}

impl SgResourceState {
    /// The value that the native library uses for this variant.
    pub open spec fn spec_raw(&self) -> i32 {
        match self {
            SgResourceState::Initial => 0,
            SgResourceState::Alloc => 1,
            SgResourceState::Valid => 2,
            SgResourceState::Failed => 3,
            SgResourceState::Invalid => 4,
            SgResourceState::ForceU32 => 2147483647,
        }
    }

    /// Returns the value that the native library uses for this variant.
    #[verifier::when_used_as_spec(spec_raw)]
    pub fn raw(&self) -> (r: i32)
        ensures
            r == self.spec_raw(),
    {
        match self {
            SgResourceState::Initial => 0,
            SgResourceState::Alloc => 1,
            SgResourceState::Valid => 2,
            SgResourceState::Failed => 3,
            SgResourceState::Invalid => 4,
            SgResourceState::ForceU32 => 2147483647,
        }
    }

    /// Returns the variant that the native value `v` stands for, if any.
    pub fn from_raw(v: i32) -> (r: Option<SgResourceState>)
        ensures
            match r {
                Some(e) => e.spec_raw() == v,
                None => forall|e: SgResourceState| e.spec_raw() != v,
            },
    {
        match v {
            0 => Some(SgResourceState::Initial),
            1 => Some(SgResourceState::Alloc),
            2 => Some(SgResourceState::Valid),
            3 => Some(SgResourceState::Failed),
            4 => Some(SgResourceState::Invalid),
            2147483647 => Some(SgResourceState::ForceU32),
            _ => None,
        }
    }
}

/// How often the content of a buffer or image is expected to change.
#[allow(non_camel_case_types)]
#[derive(Copy, Clone, Debug, PartialEq, Eq, Structural)]
pub enum SgUsage {
    _Default,
    Immutable,
    Dynamic,
    Stream,
    Num,
    ForceU32,
}

impl SgUsage {
    /// The value that the native library uses for this variant.
    pub open spec fn spec_raw(&self) -> i32 {
        match self {
            SgUsage::_Default => 0,
            SgUsage::Immutable => 1,
            SgUsage::Dynamic => 2,
            SgUsage::Stream => 3,
            SgUsage::Num => 4,
            SgUsage::ForceU32 => 2147483647,
        }
    }

    /// Returns the value that the native library uses for this variant.
    #[verifier::when_used_as_spec(spec_raw)]
    pub fn raw(&self) -> (r: i32)
        ensures
            r == self.spec_raw(),
    {
        match self {
            SgUsage::_Default => 0,
            SgUsage::Immutable => 1,
            SgUsage::Dynamic => 2,
            SgUsage::Stream => 3,
            SgUsage::Num => 4,
            SgUsage::ForceU32 => 2147483647,
        }
    }
}

impl Default for SgUsage {
    fn default() -> (r: Self)
        ensures
            r == SgUsage::_Default,
    {
        SgUsage::_Default
    }
}

/// Whether a buffer holds vertices or indices.
#[allow(non_camel_case_types)]
#[derive(Copy, Clone, Debug, PartialEq, Eq, Structural)]
pub enum SgBufferType {
    _Default,
    VertexBuffer,
    IndexBuffer,
    Num,
    ForceU32,
}

impl SgBufferType {
    /// The value that the native library uses for this variant.
    pub open spec fn spec_raw(&self) -> i32 {
        match self {
            SgBufferType::_Default => 0,
            SgBufferType::VertexBuffer => 1,
            SgBufferType::IndexBuffer => 2,
            SgBufferType::Num => 3,
            SgBufferType::ForceU32 => 2147483647,
        }
    }

    /// Returns the value that the native library uses for this variant.
    #[verifier::when_used_as_spec(spec_raw)]
    pub fn raw(&self) -> (r: i32)
        ensures
            r == self.spec_raw(),
    {
        match self {
            SgBufferType::_Default => 0,
            SgBufferType::VertexBuffer => 1,
            SgBufferType::IndexBuffer => 2,
            SgBufferType::Num => 3,
            SgBufferType::ForceU32 => 2147483647,
        }
    }
}

impl Default for SgBufferType {
    fn default() -> (r: Self)
        ensures
            r == SgBufferType::_Default,
    {
        SgBufferType::_Default
    }
}

/// The type of the indices in an index buffer, if any.
#[allow(non_camel_case_types)]
#[derive(Copy, Clone, Debug, PartialEq, Eq, Structural)]
pub enum SgIndexType {
    _Default,
    NoIndex,
    UInt16,
    UInt32,
    Num,
    ForceU32,
}

impl SgIndexType {
    /// The value that the native library uses for this variant.
    pub open spec fn spec_raw(&self) -> i32 {
        match self {
            SgIndexType::_Default => 0,
            SgIndexType::NoIndex => 1,
            SgIndexType::UInt16 => 2,
            SgIndexType::UInt32 => 3,
            SgIndexType::Num => 4,
            SgIndexType::ForceU32 => 2147483647,
        }
    }

    /// Returns the value that the native library uses for this variant.
    #[verifier::when_used_as_spec(spec_raw)]
    pub fn raw(&self) -> (r: i32)
        ensures
            r == self.spec_raw(),
    {
        match self {
            SgIndexType::_Default => 0,
            SgIndexType::NoIndex => 1,
            SgIndexType::UInt16 => 2,
            SgIndexType::UInt32 => 3,
            SgIndexType::Num => 4,
            SgIndexType::ForceU32 => 2147483647,
        }
    }
}

impl Default for SgIndexType {
    fn default() -> (r: Self)
        ensures
            r == SgIndexType::_Default,
    {
        SgIndexType::_Default
    }
}

/// The dimensionality of an image.
#[allow(non_camel_case_types)]
#[derive(Copy, Clone, Debug, PartialEq, Eq, Structural)]
pub enum SgImageType {
    _Default,
    Texture2D,
    TextureCube,
    Texture3D,
    TextureArray,
    Num,
    ForceU32,
}

impl SgImageType {
    /// The value that the native library uses for this variant.
    pub open spec fn spec_raw(&self) -> i32 {
        match self {
            SgImageType::_Default => 0,
            SgImageType::Texture2D => 1,
            SgImageType::TextureCube => 2,
            SgImageType::Texture3D => 3,
            SgImageType::TextureArray => 4,
            SgImageType::Num => 5,
            SgImageType::ForceU32 => 2147483647,
        }
    }

    /// Returns the value that the native library uses for this variant.
    #[verifier::when_used_as_spec(spec_raw)]
    pub fn raw(&self) -> (r: i32)
        ensures
            r == self.spec_raw(),
    {
        match self {
            SgImageType::_Default => 0,
            SgImageType::Texture2D => 1,
            SgImageType::TextureCube => 2,
            SgImageType::Texture3D => 3,
            SgImageType::TextureArray => 4,
            SgImageType::Num => 5,
            SgImageType::ForceU32 => 2147483647,
        }
    }
}

impl Default for SgImageType {
    fn default() -> (r: Self)
        ensures
            r == SgImageType::_Default,
    {
        SgImageType::_Default
    }
}

/// The basic type of the values that a shader samples from an image.
#[allow(non_camel_case_types)]
#[derive(Copy, Clone, Debug, PartialEq, Eq, Structural)]
pub enum SgSamplerType {
    _Default,
    Float,
    SInt,
    UInt,
}

impl SgSamplerType {
    /// The value that the native library uses for this variant.
    pub open spec fn spec_raw(&self) -> i32 {
        match self {
            SgSamplerType::_Default => 0,
            SgSamplerType::Float => 1,
            SgSamplerType::SInt => 2,
            SgSamplerType::UInt => 3,
        }
    }

    /// Returns the value that the native library uses for this variant.
    #[verifier::when_used_as_spec(spec_raw)]
    pub fn raw(&self) -> (r: i32)
        ensures
            r == self.spec_raw(),
    {
        match self {
            SgSamplerType::_Default => 0,
            SgSamplerType::Float => 1,
            SgSamplerType::SInt => 2,
            SgSamplerType::UInt => 3,
        }
    }
}

impl Default for SgSamplerType {
    fn default() -> (r: Self)
        ensures
            r == SgSamplerType::_Default,
    {
        SgSamplerType::_Default
    }
}

/// A face of a cube map.
#[derive(Copy, Clone, Debug, PartialEq, Eq, Structural)]
pub enum SgCubeFace {
    PosX,
    NegX,
    PosY,
    NegY,
    PosZ,
    NegZ,
    Num,
    ForceU32,
}

impl SgCubeFace {
    /// The value that the native library uses for this variant.
    pub open spec fn spec_raw(&self) -> i32 {
        match self {
            SgCubeFace::PosX => 0,
            SgCubeFace::NegX => 1,
            SgCubeFace::PosY => 2,
            SgCubeFace::NegY => 3,
            SgCubeFace::PosZ => 4,
            SgCubeFace::NegZ => 5,
            SgCubeFace::Num => 6,
            SgCubeFace::ForceU32 => 2147483647,
        }
    }

    /// Returns the value that the native library uses for this variant.
    #[verifier::when_used_as_spec(spec_raw)]
    pub fn raw(&self) -> (r: i32)
        ensures
            r == self.spec_raw(),
    {
        match self {
            SgCubeFace::PosX => 0,
            SgCubeFace::NegX => 1,
            SgCubeFace::PosY => 2,
            SgCubeFace::NegY => 3,
            SgCubeFace::PosZ => 4,
            SgCubeFace::NegZ => 5,
            SgCubeFace::Num => 6,
            SgCubeFace::ForceU32 => 2147483647,
        }
    }
}

/// A programmable stage of a pipeline.
#[derive(Copy, Clone, Debug, PartialEq, Eq, Structural)]
pub enum SgShaderStage {
    Vertex,
    Fragment,
    ForceU32,
}

impl SgShaderStage {
    /// The value that the native library uses for this variant.
    pub open spec fn spec_raw(&self) -> i32 {
        match self {
            SgShaderStage::Vertex => 0,
            SgShaderStage::Fragment => 1,
            SgShaderStage::ForceU32 => 2147483647,
        }
    }

    /// Returns the value that the native library uses for this variant.
    #[verifier::when_used_as_spec(spec_raw)]
    pub fn raw(&self) -> (r: i32)
        ensures
            r == self.spec_raw(),
    {
        match self {
            SgShaderStage::Vertex => 0,
            SgShaderStage::Fragment => 1,
            SgShaderStage::ForceU32 => 2147483647,
        }
    }
}

/// The format of the pixels of an image or render target.
#[allow(non_camel_case_types)]
#[derive(Copy, Clone, Debug, PartialEq, Eq, Structural)]
pub enum SgPixelFormat {
    _Default,
    NoFormat,
    R8,
    R8SN,
    R8UI,
    R8SI,
    R16,
    R16SN,
    R16UI,
    R16SI,
    R16F,
    RG8,
    RG8SN,
    RG8UI,
    RG8SI,
    R32UI,
    R32SI,
    R32F,
    RG16,
    RG16SN,
    RG16UI,
    RG16SI,
    RG16F,
    RGBA8,
    SRGB8A8,
    RGBA8SN,
    RGBA8UI,
    RGBA8SI,
    BGRA8,
    RGB10A2,
    RG11B10F,
    RG32UI,
    RG32SI,
    RG32F,
    RGBA16,
    RGBA16SN,
    RGBA16UI,
    RGBA16SI,
    RGBA16F,
    RGBA32UI,
    RGBA32SI,
    RGBA32F,
    Depth,
    DepthStencil,
    BC1_RGBA,
    BC2_RGBA,
    BC3_RGBA,
    BC4_R,
    BC4_RSN,
    BC5_RG,
    BC5_RGSN,
    BC6H_RGBF,
    BC6H_RGBUF,
    BC7_RGBA,
    PVRTC_RGB_2BPP,
    PVRTC_RGB_4BPP,
    PVRTC_RGBA_2BPP,
    PVRTC_RGBA_4BPP,
    ETC2_RGB8,
    ETC2_RGB8A1,
    ETC2_RGBA8,
    ETC2_RG11,
    ETC2_RG11SN,
    RGB9E5,
    Num,
    ForceU32,
}

impl SgPixelFormat {
    /// The value that the native library uses for this variant.
    pub open spec fn spec_raw(&self) -> i32 {
        match self {
            SgPixelFormat::_Default => 0,
            SgPixelFormat::NoFormat => 1,
            SgPixelFormat::R8 => 2,
            SgPixelFormat::R8SN => 3,
            SgPixelFormat::R8UI => 4,
            SgPixelFormat::R8SI => 5,
            SgPixelFormat::R16 => 6,
            SgPixelFormat::R16SN => 7,
            SgPixelFormat::R16UI => 8,
            SgPixelFormat::R16SI => 9,
            SgPixelFormat::R16F => 10,
            SgPixelFormat::RG8 => 11,
            SgPixelFormat::RG8SN => 12,
            SgPixelFormat::RG8UI => 13,
            SgPixelFormat::RG8SI => 14,
            SgPixelFormat::R32UI => 15,
            SgPixelFormat::R32SI => 16,
            SgPixelFormat::R32F => 17,
            SgPixelFormat::RG16 => 18,
            SgPixelFormat::RG16SN => 19,
            SgPixelFormat::RG16UI => 20,
            SgPixelFormat::RG16SI => 21,
            SgPixelFormat::RG16F => 22,
            SgPixelFormat::RGBA8 => 23,
            SgPixelFormat::SRGB8A8 => 24,
            SgPixelFormat::RGBA8SN => 25,
            SgPixelFormat::RGBA8UI => 26,
            SgPixelFormat::RGBA8SI => 27,
            SgPixelFormat::BGRA8 => 28,
            SgPixelFormat::RGB10A2 => 29,
            SgPixelFormat::RG11B10F => 30,
            SgPixelFormat::RG32UI => 31,
            SgPixelFormat::RG32SI => 32,
            SgPixelFormat::RG32F => 33,
            SgPixelFormat::RGBA16 => 34,
            SgPixelFormat::RGBA16SN => 35,
            SgPixelFormat::RGBA16UI => 36,
            SgPixelFormat::RGBA16SI => 37,
            SgPixelFormat::RGBA16F => 38,
            SgPixelFormat::RGBA32UI => 39,
            SgPixelFormat::RGBA32SI => 40,
            SgPixelFormat::RGBA32F => 41,
            SgPixelFormat::Depth => 42,
            SgPixelFormat::DepthStencil => 43,
            SgPixelFormat::BC1_RGBA => 44,
            SgPixelFormat::BC2_RGBA => 45,
            SgPixelFormat::BC3_RGBA => 46,
            SgPixelFormat::BC4_R => 47,
            SgPixelFormat::BC4_RSN => 48,
            SgPixelFormat::BC5_RG => 49,
            SgPixelFormat::BC5_RGSN => 50,
            SgPixelFormat::BC6H_RGBF => 51,
            SgPixelFormat::BC6H_RGBUF => 52,
            SgPixelFormat::BC7_RGBA => 53,
            SgPixelFormat::PVRTC_RGB_2BPP => 54,
            SgPixelFormat::PVRTC_RGB_4BPP => 55,
            SgPixelFormat::PVRTC_RGBA_2BPP => 56,
            SgPixelFormat::PVRTC_RGBA_4BPP => 57,
            SgPixelFormat::ETC2_RGB8 => 58,
            SgPixelFormat::ETC2_RGB8A1 => 59,
            SgPixelFormat::ETC2_RGBA8 => 60,
            SgPixelFormat::ETC2_RG11 => 61,
            SgPixelFormat::ETC2_RG11SN => 62,
            SgPixelFormat::RGB9E5 => 63,
            SgPixelFormat::Num => 64,
            SgPixelFormat::ForceU32 => 2147483647,
        }
    }

    /// Returns the value that the native library uses for this variant.
    #[verifier::when_used_as_spec(spec_raw)]
    pub fn raw(&self) -> (r: i32)
        ensures
            r == self.spec_raw(),
    {
        match self {
            SgPixelFormat::_Default => 0,
            SgPixelFormat::NoFormat => 1,
            SgPixelFormat::R8 => 2,
            SgPixelFormat::R8SN => 3,
            SgPixelFormat::R8UI => 4,
            SgPixelFormat::R8SI => 5,
            SgPixelFormat::R16 => 6,
            SgPixelFormat::R16SN => 7,
            SgPixelFormat::R16UI => 8,
            SgPixelFormat::R16SI => 9,
            SgPixelFormat::R16F => 10,
            SgPixelFormat::RG8 => 11,
            SgPixelFormat::RG8SN => 12,
            SgPixelFormat::RG8UI => 13,
            SgPixelFormat::RG8SI => 14,
            SgPixelFormat::R32UI => 15,
            SgPixelFormat::R32SI => 16,
            SgPixelFormat::R32F => 17,
            SgPixelFormat::RG16 => 18,
            SgPixelFormat::RG16SN => 19,
            SgPixelFormat::RG16UI => 20,
            SgPixelFormat::RG16SI => 21,
            SgPixelFormat::RG16F => 22,
            SgPixelFormat::RGBA8 => 23,
            SgPixelFormat::SRGB8A8 => 24,
            SgPixelFormat::RGBA8SN => 25,
            SgPixelFormat::RGBA8UI => 26,
            SgPixelFormat::RGBA8SI => 27,
            SgPixelFormat::BGRA8 => 28,
            SgPixelFormat::RGB10A2 => 29,
            SgPixelFormat::RG11B10F => 30,
            SgPixelFormat::RG32UI => 31,
            SgPixelFormat::RG32SI => 32,
            SgPixelFormat::RG32F => 33,
            SgPixelFormat::RGBA16 => 34,
            SgPixelFormat::RGBA16SN => 35,
            SgPixelFormat::RGBA16UI => 36,
            SgPixelFormat::RGBA16SI => 37,
            SgPixelFormat::RGBA16F => 38,
            SgPixelFormat::RGBA32UI => 39,
            SgPixelFormat::RGBA32SI => 40,
            SgPixelFormat::RGBA32F => 41,
            SgPixelFormat::Depth => 42,
            SgPixelFormat::DepthStencil => 43,
            SgPixelFormat::BC1_RGBA => 44,
            SgPixelFormat::BC2_RGBA => 45,
            SgPixelFormat::BC3_RGBA => 46,
            SgPixelFormat::BC4_R => 47,
            SgPixelFormat::BC4_RSN => 48,
            SgPixelFormat::BC5_RG => 49,
            SgPixelFormat::BC5_RGSN => 50,
            SgPixelFormat::BC6H_RGBF => 51,
            SgPixelFormat::BC6H_RGBUF => 52,
            SgPixelFormat::BC7_RGBA => 53,
            SgPixelFormat::PVRTC_RGB_2BPP => 54,
            SgPixelFormat::PVRTC_RGB_4BPP => 55,
            SgPixelFormat::PVRTC_RGBA_2BPP => 56,
            SgPixelFormat::PVRTC_RGBA_4BPP => 57,
            SgPixelFormat::ETC2_RGB8 => 58,
            SgPixelFormat::ETC2_RGB8A1 => 59,
            SgPixelFormat::ETC2_RGBA8 => 60,
            SgPixelFormat::ETC2_RG11 => 61,
            SgPixelFormat::ETC2_RG11SN => 62,
            SgPixelFormat::RGB9E5 => 63,
            SgPixelFormat::Num => 64,
            SgPixelFormat::ForceU32 => 2147483647,
        }
    }
}

impl Default for SgPixelFormat {
    fn default() -> (r: Self)
        ensures
            r == SgPixelFormat::_Default,
    {
        SgPixelFormat::_Default
    }
}

/// The kind of primitive that a draw call assembles.
#[allow(non_camel_case_types)]
#[derive(Copy, Clone, Debug, PartialEq, Eq, Structural)]
pub enum SgPrimitiveType {
    _Default,
    Points,
    Lines,
    LineStrip,
    Triangles,
    TriangleStrip,
    Num,
    ForceU32,
}

impl SgPrimitiveType {
    /// The value that the native library uses for this variant.
    pub open spec fn spec_raw(&self) -> i32 {
        match self {
            SgPrimitiveType::_Default => 0,
            SgPrimitiveType::Points => 1,
            SgPrimitiveType::Lines => 2,
            SgPrimitiveType::LineStrip => 3,
            SgPrimitiveType::Triangles => 4,
            SgPrimitiveType::TriangleStrip => 5,
            SgPrimitiveType::Num => 6,
            SgPrimitiveType::ForceU32 => 2147483647,
        }
    }

    /// Returns the value that the native library uses for this variant.
    #[verifier::when_used_as_spec(spec_raw)]
    pub fn raw(&self) -> (r: i32)
        ensures
            r == self.spec_raw(),
    {
        match self {
            SgPrimitiveType::_Default => 0,
            SgPrimitiveType::Points => 1,
            SgPrimitiveType::Lines => 2,
            SgPrimitiveType::LineStrip => 3,
            SgPrimitiveType::Triangles => 4,
            SgPrimitiveType::TriangleStrip => 5,
            SgPrimitiveType::Num => 6,
            SgPrimitiveType::ForceU32 => 2147483647,
        }
    }
}

impl Default for SgPrimitiveType {
    fn default() -> (r: Self)
        ensures
            r == SgPrimitiveType::_Default,
    {
        SgPrimitiveType::_Default
    }
}

/// A texture filter.
#[allow(non_camel_case_types)]
#[derive(Copy, Clone, Debug, PartialEq, Eq, Structural)]
pub enum SgFilter {
    _Default,
    Nearest,
    Linear,
    NearestMipmapNearest,
    NearestMipmapLinear,
    LinearMipmapNearest,
    LinearMipmapLinear,
    Num,
    ForceU32,
}

impl SgFilter {
    /// The value that the native library uses for this variant.
    pub open spec fn spec_raw(&self) -> i32 {
        match self {
            SgFilter::_Default => 0,
            SgFilter::Nearest => 1,
            SgFilter::Linear => 2,
            SgFilter::NearestMipmapNearest => 3,
            SgFilter::NearestMipmapLinear => 4,
            SgFilter::LinearMipmapNearest => 5,
            SgFilter::LinearMipmapLinear => 6,
            SgFilter::Num => 7,
            SgFilter::ForceU32 => 2147483647,
        }
    }

    /// Returns the value that the native library uses for this variant.
    #[verifier::when_used_as_spec(spec_raw)]
    pub fn raw(&self) -> (r: i32)
        ensures
            r == self.spec_raw(),
    {
        match self {
            SgFilter::_Default => 0,
            SgFilter::Nearest => 1,
            SgFilter::Linear => 2,
            SgFilter::NearestMipmapNearest => 3,
            SgFilter::NearestMipmapLinear => 4,
            SgFilter::LinearMipmapNearest => 5,
            SgFilter::LinearMipmapLinear => 6,
            SgFilter::Num => 7,
            SgFilter::ForceU32 => 2147483647,
        }
    }
}

impl Default for SgFilter {
    fn default() -> (r: Self)
        ensures
            r == SgFilter::_Default,
    {
        SgFilter::_Default
    }
}

/// A texture addressing mode.
#[allow(non_camel_case_types)]
#[derive(Copy, Clone, Debug, PartialEq, Eq, Structural)]
pub enum SgWrap {
    _Default,
    Repeat,
    ClampToEdge,
    ClampToBorder,
    MirrorRepeat,
    Num,
    ForceU32,
}

impl SgWrap {
    /// The value that the native library uses for this variant.
    pub open spec fn spec_raw(&self) -> i32 {
        match self {
            SgWrap::_Default => 0,
            SgWrap::Repeat => 1,
            SgWrap::ClampToEdge => 2,
            SgWrap::ClampToBorder => 3,
            SgWrap::MirrorRepeat => 4,
            SgWrap::Num => 5,
            SgWrap::ForceU32 => 2147483647,
        }
    }

    /// Returns the value that the native library uses for this variant.
    #[verifier::when_used_as_spec(spec_raw)]
    pub fn raw(&self) -> (r: i32)
        ensures
            r == self.spec_raw(),
    {
        match self {
            SgWrap::_Default => 0,
            SgWrap::Repeat => 1,
            SgWrap::ClampToEdge => 2,
            SgWrap::ClampToBorder => 3,
            SgWrap::MirrorRepeat => 4,
            SgWrap::Num => 5,
            SgWrap::ForceU32 => 2147483647,
        }
    }
}

impl Default for SgWrap {
    fn default() -> (r: Self)
        ensures
            r == SgWrap::_Default,
    {
        SgWrap::_Default
    }
}

/// The border color of a clamp-to-border sampler.
#[allow(non_camel_case_types)]
#[derive(Copy, Clone, Debug, PartialEq, Eq, Structural)]
pub enum SgBorderColor {
    _Default,
    TransparentBlack,
    OpaqueBlack,
    OpaqueWhite,
    _Num,
    _ForceU32,
}

impl SgBorderColor {
    /// The value that the native library uses for this variant.
    pub open spec fn spec_raw(&self) -> i32 {
        match self {
            SgBorderColor::_Default => 0,
            SgBorderColor::TransparentBlack => 1,
            SgBorderColor::OpaqueBlack => 2,
            SgBorderColor::OpaqueWhite => 3,
            SgBorderColor::_Num => 4,
            SgBorderColor::_ForceU32 => 2147483647,
        }
    }

    /// Returns the value that the native library uses for this variant.
    #[verifier::when_used_as_spec(spec_raw)]
    pub fn raw(&self) -> (r: i32)
        ensures
            r == self.spec_raw(),
    {
        match self {
            SgBorderColor::_Default => 0,
            SgBorderColor::TransparentBlack => 1,
            SgBorderColor::OpaqueBlack => 2,
            SgBorderColor::OpaqueWhite => 3,
            SgBorderColor::_Num => 4,
            SgBorderColor::_ForceU32 => 2147483647,
        }
    }
}

impl Default for SgBorderColor {
    fn default() -> (r: Self)
        ensures
            r == SgBorderColor::_Default,
    {
        SgBorderColor::_Default
    }
}

/// The format of a vertex attribute.
#[allow(non_camel_case_types)]
#[derive(Copy, Clone, Debug, PartialEq, Eq, Structural)]
pub enum SgVertexFormat {
    _Invalid,
    Float,
    Float2,
    Float3,
    Float4,
    Byte4,
    Byte4N,
    UByte4,
    UByte4N,
    Short2,
    Short2N,
    UShort2N,
    Short4,
    Short4N,
    UShort4N,
    UInt10N2,
    Half2,
    Half4,
    _Num,
    _ForceU32,
}

impl SgVertexFormat {
    /// The value that the native library uses for this variant.
    pub open spec fn spec_raw(&self) -> i32 {
        match self {
            SgVertexFormat::_Invalid => 0,
            SgVertexFormat::Float => 1,
            SgVertexFormat::Float2 => 2,
            SgVertexFormat::Float3 => 3,
            SgVertexFormat::Float4 => 4,
            SgVertexFormat::Byte4 => 5,
            SgVertexFormat::Byte4N => 6,
            SgVertexFormat::UByte4 => 7,
            SgVertexFormat::UByte4N => 8,
            SgVertexFormat::Short2 => 9,
            SgVertexFormat::Short2N => 10,
            SgVertexFormat::UShort2N => 11,
            SgVertexFormat::Short4 => 12,
            SgVertexFormat::Short4N => 13,
            SgVertexFormat::UShort4N => 14,
            SgVertexFormat::UInt10N2 => 15,
            SgVertexFormat::Half2 => 16,
            SgVertexFormat::Half4 => 17,
            SgVertexFormat::_Num => 18,
            SgVertexFormat::_ForceU32 => 2147483647,
        }
    }

    /// Returns the value that the native library uses for this variant.
    #[verifier::when_used_as_spec(spec_raw)]
    pub fn raw(&self) -> (r: i32)
        ensures
            r == self.spec_raw(),
    {
        match self {
            SgVertexFormat::_Invalid => 0,
            SgVertexFormat::Float => 1,
            SgVertexFormat::Float2 => 2,
            SgVertexFormat::Float3 => 3,
            SgVertexFormat::Float4 => 4,
            SgVertexFormat::Byte4 => 5,
            SgVertexFormat::Byte4N => 6,
            SgVertexFormat::UByte4 => 7,
            SgVertexFormat::UByte4N => 8,
            SgVertexFormat::Short2 => 9,
            SgVertexFormat::Short2N => 10,
            SgVertexFormat::UShort2N => 11,
            SgVertexFormat::Short4 => 12,
            SgVertexFormat::Short4N => 13,
            SgVertexFormat::UShort4N => 14,
            SgVertexFormat::UInt10N2 => 15,
            SgVertexFormat::Half2 => 16,
            SgVertexFormat::Half4 => 17,
            SgVertexFormat::_Num => 18,
            SgVertexFormat::_ForceU32 => 2147483647,
        }
    }
}

impl Default for SgVertexFormat {
    fn default() -> (r: Self)
        ensures
            r == SgVertexFormat::_Invalid,
    {
        SgVertexFormat::_Invalid
    }
}

/// Whether a vertex buffer advances per vertex or per instance.
#[allow(non_camel_case_types)]
#[derive(Copy, Clone, Debug, PartialEq, Eq, Structural)]
pub enum SgVertexStep {
    _Default,
    PerVertex,
    PerInstance,
    _Num,
    _ForceU32,
}

impl SgVertexStep {
    /// The value that the native library uses for this variant.
    pub open spec fn spec_raw(&self) -> i32 {
        match self {
            SgVertexStep::_Default => 0,
            SgVertexStep::PerVertex => 1,
            SgVertexStep::PerInstance => 2,
            SgVertexStep::_Num => 3,
            SgVertexStep::_ForceU32 => 2147483647,
        }
    }

    /// Returns the value that the native library uses for this variant.
    #[verifier::when_used_as_spec(spec_raw)]
    pub fn raw(&self) -> (r: i32)
        ensures
            r == self.spec_raw(),
    {
        match self {
            SgVertexStep::_Default => 0,
            SgVertexStep::PerVertex => 1,
            SgVertexStep::PerInstance => 2,
            SgVertexStep::_Num => 3,
            SgVertexStep::_ForceU32 => 2147483647,
        }
    }
}

impl Default for SgVertexStep {
    fn default() -> (r: Self)
        ensures
            r == SgVertexStep::_Default,
    {
        SgVertexStep::_Default
    }
}

/// The type of a uniform block member.
#[allow(non_camel_case_types)]
#[derive(Copy, Clone, Debug, PartialEq, Eq, Structural)]
pub enum SgUniformType {
    _Invalid,
    Float,
    Float2,
    Float3,
    Float4,
    Int,
    Int2,
    Int3,
    Int4,
    Mat4,
    _Num,
    _ForceU32,
}

impl SgUniformType {
    /// The value that the native library uses for this variant.
    pub open spec fn spec_raw(&self) -> i32 {
        match self {
            SgUniformType::_Invalid => 0,
            SgUniformType::Float => 1,
            SgUniformType::Float2 => 2,
            SgUniformType::Float3 => 3,
            SgUniformType::Float4 => 4,
            SgUniformType::Int => 5,
            SgUniformType::Int2 => 6,
            SgUniformType::Int3 => 7,
            SgUniformType::Int4 => 8,
            SgUniformType::Mat4 => 9,
            SgUniformType::_Num => 10,
            SgUniformType::_ForceU32 => 2147483647,
        }
    }

    /// Returns the value that the native library uses for this variant.
    #[verifier::when_used_as_spec(spec_raw)]
    pub fn raw(&self) -> (r: i32)
        ensures
            r == self.spec_raw(),
    {
        match self {
            SgUniformType::_Invalid => 0,
            SgUniformType::Float => 1,
            SgUniformType::Float2 => 2,
            SgUniformType::Float3 => 3,
            SgUniformType::Float4 => 4,
            SgUniformType::Int => 5,
            SgUniformType::Int2 => 6,
            SgUniformType::Int3 => 7,
            SgUniformType::Int4 => 8,
            SgUniformType::Mat4 => 9,
            SgUniformType::_Num => 10,
            SgUniformType::_ForceU32 => 2147483647,
        }
    }
}

impl Default for SgUniformType {
    fn default() -> (r: Self)
        ensures
            r == SgUniformType::_Invalid,
    {
        SgUniformType::_Invalid
    }
}

/// The memory layout of a uniform block.
#[allow(non_camel_case_types)]
#[derive(Copy, Clone, Debug, PartialEq, Eq, Structural)]
pub enum SgUniformLayout {
    _Default,
    Native,
    Std140,
    _Num,
    _ForceU32,
}

impl SgUniformLayout {
    /// The value that the native library uses for this variant.
    pub open spec fn spec_raw(&self) -> i32 {
        match self {
            SgUniformLayout::_Default => 0,
            SgUniformLayout::Native => 1,
            SgUniformLayout::Std140 => 2,
            SgUniformLayout::_Num => 3,
            SgUniformLayout::_ForceU32 => 2147483647,
        }
    }

    /// Returns the value that the native library uses for this variant.
    #[verifier::when_used_as_spec(spec_raw)]
    pub fn raw(&self) -> (r: i32)
        ensures
            r == self.spec_raw(),
    {
        match self {
            SgUniformLayout::_Default => 0,
            SgUniformLayout::Native => 1,
            SgUniformLayout::Std140 => 2,
            SgUniformLayout::_Num => 3,
            SgUniformLayout::_ForceU32 => 2147483647,
        }
    }
}

impl Default for SgUniformLayout {
    fn default() -> (r: Self)
        ensures
            r == SgUniformLayout::_Default,
    {
        SgUniformLayout::_Default
    }
}

/// Which faces are culled.
#[allow(non_camel_case_types)]
#[derive(Copy, Clone, Debug, PartialEq, Eq, Structural)]
pub enum SgCullMode {
    _Default,
    NoCull,
    Front,
    Back,
    _Num,
    _ForceU32,
}

impl SgCullMode {
    /// The value that the native library uses for this variant.
    pub open spec fn spec_raw(&self) -> i32 {
        match self {
            SgCullMode::_Default => 0,
            SgCullMode::NoCull => 1,
            SgCullMode::Front => 2,
            SgCullMode::Back => 3,
            SgCullMode::_Num => 4,
            SgCullMode::_ForceU32 => 2147483647,
        }
    }

    /// Returns the value that the native library uses for this variant.
    #[verifier::when_used_as_spec(spec_raw)]
    pub fn raw(&self) -> (r: i32)
        ensures
            r == self.spec_raw(),
    {
        match self {
            SgCullMode::_Default => 0,
            SgCullMode::NoCull => 1,
            SgCullMode::Front => 2,
            SgCullMode::Back => 3,
            SgCullMode::_Num => 4,
            SgCullMode::_ForceU32 => 2147483647,
        }
    }
}

impl Default for SgCullMode {
    fn default() -> (r: Self)
        ensures
            r == SgCullMode::_Default,
    {
        SgCullMode::_Default
    }
}

/// Which winding order counts as front facing.
#[allow(non_camel_case_types)]
#[derive(Copy, Clone, Debug, PartialEq, Eq, Structural)]
pub enum SgFaceWinding {
    _Default,
    CCW,
    CW,
    _Num,
    _ForceU32,
}

impl SgFaceWinding {
    /// The value that the native library uses for this variant.
    pub open spec fn spec_raw(&self) -> i32 {
        match self {
            SgFaceWinding::_Default => 0,
            SgFaceWinding::CCW => 1,
            SgFaceWinding::CW => 2,
            SgFaceWinding::_Num => 3,
            SgFaceWinding::_ForceU32 => 2147483647,
        }
    }

    /// Returns the value that the native library uses for this variant.
    #[verifier::when_used_as_spec(spec_raw)]
    pub fn raw(&self) -> (r: i32)
        ensures
            r == self.spec_raw(),
    {
        match self {
            SgFaceWinding::_Default => 0,
            SgFaceWinding::CCW => 1,
            SgFaceWinding::CW => 2,
            SgFaceWinding::_Num => 3,
            SgFaceWinding::_ForceU32 => 2147483647,
        }
    }
}

impl Default for SgFaceWinding {
    fn default() -> (r: Self)
        ensures
            r == SgFaceWinding::_Default,
    {
        SgFaceWinding::_Default
    }
}

/// A depth or stencil comparison.
#[allow(non_camel_case_types)]
#[derive(Copy, Clone, Debug, PartialEq, Eq, Structural)]
pub enum SgCompareFunc {
    _Default,
    Never,
    Less,
    Equal,
    LessEqual,
    Greater,
    NotEqual,
    GreaterEqual,
    Always,
    _Num,
    _ForceU32,
}

impl SgCompareFunc {
    /// The value that the native library uses for this variant.
    pub open spec fn spec_raw(&self) -> i32 {
        match self {
            SgCompareFunc::_Default => 0,
            SgCompareFunc::Never => 1,
            SgCompareFunc::Less => 2,
            SgCompareFunc::Equal => 3,
            SgCompareFunc::LessEqual => 4,
            SgCompareFunc::Greater => 5,
            SgCompareFunc::NotEqual => 6,
            SgCompareFunc::GreaterEqual => 7,
            SgCompareFunc::Always => 8,
            SgCompareFunc::_Num => 9,
            SgCompareFunc::_ForceU32 => 2147483647,
        }
    }

    /// Returns the value that the native library uses for this variant.
    #[verifier::when_used_as_spec(spec_raw)]
    pub fn raw(&self) -> (r: i32)
        ensures
            r == self.spec_raw(),
    {
        match self {
            SgCompareFunc::_Default => 0,
            SgCompareFunc::Never => 1,
            SgCompareFunc::Less => 2,
            SgCompareFunc::Equal => 3,
            SgCompareFunc::LessEqual => 4,
            SgCompareFunc::Greater => 5,
            SgCompareFunc::NotEqual => 6,
            SgCompareFunc::GreaterEqual => 7,
            SgCompareFunc::Always => 8,
            SgCompareFunc::_Num => 9,
            SgCompareFunc::_ForceU32 => 2147483647,
        }
    }
}

impl Default for SgCompareFunc {
    fn default() -> (r: Self)
        ensures
            r == SgCompareFunc::_Default,
    {
        SgCompareFunc::_Default
    }
}

/// A stencil operation.
#[allow(non_camel_case_types)]
#[derive(Copy, Clone, Debug, PartialEq, Eq, Structural)]
pub enum SgStencilOp {
    _Default,
    Keep,
    Zero,
    Replace,
    IncrementClamp,
    DecrementClamp,
    Invert,
    IncrementWrap,
    DecrementWrap,
    _Num,
    _ForceU32,
}

impl SgStencilOp {
    /// The value that the native library uses for this variant.
    pub open spec fn spec_raw(&self) -> i32 {
        match self {
            SgStencilOp::_Default => 0,
            SgStencilOp::Keep => 1,
            SgStencilOp::Zero => 2,
            SgStencilOp::Replace => 3,
            SgStencilOp::IncrementClamp => 4,
            SgStencilOp::DecrementClamp => 5,
            SgStencilOp::Invert => 6,
            SgStencilOp::IncrementWrap => 7,
            SgStencilOp::DecrementWrap => 8,
            SgStencilOp::_Num => 9,
            SgStencilOp::_ForceU32 => 2147483647,
        }
    }

    /// Returns the value that the native library uses for this variant.
    #[verifier::when_used_as_spec(spec_raw)]
    pub fn raw(&self) -> (r: i32)
        ensures
            r == self.spec_raw(),
    {
        match self {
            SgStencilOp::_Default => 0,
            SgStencilOp::Keep => 1,
            SgStencilOp::Zero => 2,
            SgStencilOp::Replace => 3,
            SgStencilOp::IncrementClamp => 4,
            SgStencilOp::DecrementClamp => 5,
            SgStencilOp::Invert => 6,
            SgStencilOp::IncrementWrap => 7,
            SgStencilOp::DecrementWrap => 8,
            SgStencilOp::_Num => 9,
            SgStencilOp::_ForceU32 => 2147483647,
        }
    }
}

impl Default for SgStencilOp {
    fn default() -> (r: Self)
        ensures
            r == SgStencilOp::_Default,
    {
        SgStencilOp::_Default
    }
}

/// A blend factor.
#[allow(non_camel_case_types)]
#[derive(Copy, Clone, Debug, PartialEq, Eq, Structural)]
pub enum SgBlendFactor {
    _Default,
    Zero,
    One,
    SrcColor,
    OneMinusSrcColor,
    SrcAlpha,
    OneMinusSrcAlpha,
    DstColor,
    OneMinusDstColor,
    DstAlpha,
    OneMinusDstAlpha,
    SrcAlphaSaturated,
    BlendColor,
    OneMinusBlendColor,
    BlendAlpha,
    OneMinusBlendAlpha,
    _Num,
    _ForceU32,
}

impl SgBlendFactor {
    /// The value that the native library uses for this variant.
    pub open spec fn spec_raw(&self) -> i32 {
        match self {
            SgBlendFactor::_Default => 0,
            SgBlendFactor::Zero => 1,
            SgBlendFactor::One => 2,
            SgBlendFactor::SrcColor => 3,
            SgBlendFactor::OneMinusSrcColor => 4,
            SgBlendFactor::SrcAlpha => 5,
            SgBlendFactor::OneMinusSrcAlpha => 6,
            SgBlendFactor::DstColor => 7,
            SgBlendFactor::OneMinusDstColor => 8,
            SgBlendFactor::DstAlpha => 9,
            SgBlendFactor::OneMinusDstAlpha => 10,
            SgBlendFactor::SrcAlphaSaturated => 11,
            SgBlendFactor::BlendColor => 12,
            SgBlendFactor::OneMinusBlendColor => 13,
            SgBlendFactor::BlendAlpha => 14,
            SgBlendFactor::OneMinusBlendAlpha => 15,
            SgBlendFactor::_Num => 16,
            SgBlendFactor::_ForceU32 => 2147483647,
        }
    }

    /// Returns the value that the native library uses for this variant.
    #[verifier::when_used_as_spec(spec_raw)]
    pub fn raw(&self) -> (r: i32)
        ensures
            r == self.spec_raw(),
    {
        match self {
            SgBlendFactor::_Default => 0,
            SgBlendFactor::Zero => 1,
            SgBlendFactor::One => 2,
            SgBlendFactor::SrcColor => 3,
            SgBlendFactor::OneMinusSrcColor => 4,
            SgBlendFactor::SrcAlpha => 5,
            SgBlendFactor::OneMinusSrcAlpha => 6,
            SgBlendFactor::DstColor => 7,
            SgBlendFactor::OneMinusDstColor => 8,
            SgBlendFactor::DstAlpha => 9,
            SgBlendFactor::OneMinusDstAlpha => 10,
            SgBlendFactor::SrcAlphaSaturated => 11,
            SgBlendFactor::BlendColor => 12,
            SgBlendFactor::OneMinusBlendColor => 13,
            SgBlendFactor::BlendAlpha => 14,
            SgBlendFactor::OneMinusBlendAlpha => 15,
            SgBlendFactor::_Num => 16,
            SgBlendFactor::_ForceU32 => 2147483647,
        }
    }
}

impl Default for SgBlendFactor {
    fn default() -> (r: Self)
        ensures
            r == SgBlendFactor::_Default,
    {
        SgBlendFactor::_Default
    }
}

/// A blend operation.
#[allow(non_camel_case_types)]
#[derive(Copy, Clone, Debug, PartialEq, Eq, Structural)]
pub enum SgBlendOp {
    _Default,
    Add,
    Subtract,
    ReverseSubtract,
    _Num,
    _ForceU32,
}

impl SgBlendOp {
    /// The value that the native library uses for this variant.
    pub open spec fn spec_raw(&self) -> i32 {
        match self {
            SgBlendOp::_Default => 0,
            SgBlendOp::Add => 1,
            SgBlendOp::Subtract => 2,
            SgBlendOp::ReverseSubtract => 3,
            SgBlendOp::_Num => 4,
            SgBlendOp::_ForceU32 => 2147483647,
        }
    }

    /// Returns the value that the native library uses for this variant.
    #[verifier::when_used_as_spec(spec_raw)]
    pub fn raw(&self) -> (r: i32)
        ensures
            r == self.spec_raw(),
    {
        match self {
            SgBlendOp::_Default => 0,
            SgBlendOp::Add => 1,
            SgBlendOp::Subtract => 2,
            SgBlendOp::ReverseSubtract => 3,
            SgBlendOp::_Num => 4,
            SgBlendOp::_ForceU32 => 2147483647,
        }
    }
}

impl Default for SgBlendOp {
    fn default() -> (r: Self)
        ensures
            r == SgBlendOp::_Default,
    {
        SgBlendOp::_Default
    }
}

/// What happens to an attachment at the start of a pass.
#[allow(non_camel_case_types)]
#[derive(Copy, Clone, Debug, PartialEq, Eq, Structural)]
pub enum SgAction {
    _Default,
    Clear,
    Load,
    DontCare,
    _Num,
    _ForceU32,
}

impl SgAction {
    /// The value that the native library uses for this variant.
    pub open spec fn spec_raw(&self) -> i32 {
        match self {
            SgAction::_Default => 0,
            SgAction::Clear => 1,
            SgAction::Load => 2,
            SgAction::DontCare => 3,
            SgAction::_Num => 4,
            SgAction::_ForceU32 => 2147483647,
        }
    }

    /// Returns the value that the native library uses for this variant.
    #[verifier::when_used_as_spec(spec_raw)]
    pub fn raw(&self) -> (r: i32)
        ensures
            r == self.spec_raw(),
    {
        match self {
            SgAction::_Default => 0,
            SgAction::Clear => 1,
            SgAction::Load => 2,
            SgAction::DontCare => 3,
            SgAction::_Num => 4,
            SgAction::_ForceU32 => 2147483647,
        }
    }
}

impl Default for SgAction {
    fn default() -> (r: Self)
        ensures
            r == SgAction::_Default,
    {
        SgAction::_Default
    }
}

/// The channels that a color attachment writes, as a set of bits.
#[derive(Copy, Clone, Default, Debug, PartialEq, Eq, Structural)]
pub struct SgColorMask {
    pub bits: u32,
}

impl SgColorMask {
    /// Leaves the choice to the library, which writes all channels.
    pub const DEFAULT: u32 = 0x0;
    /// Writes no channel.
    pub const NONE: u32 = 0x10;
    pub const R: u32 = 0x01;
    pub const G: u32 = 0x02;
    pub const RG: u32 = 0x03;
    pub const B: u32 = 0x04;
    pub const RB: u32 = 0x05;
    pub const GB: u32 = 0x06;
    pub const RGB: u32 = 0x07;
    pub const A: u32 = 0x08;
    pub const RA: u32 = 0x09;
    pub const GA: u32 = 0x0A;
    pub const RGA: u32 = 0x0B;
    pub const BA: u32 = 0x0C;
    pub const RBA: u32 = 0x0D;
    pub const GBA: u32 = 0x0E;
    pub const RGBA: u32 = 0x0F;

    /// Returns the mask with exactly the given bits.
    pub fn from_bits(bits: u32) -> (r: SgColorMask)
        ensures
            r.bits == bits,
    {
        SgColorMask { bits }
    }
}

/// A color, one channel after another (red, green, blue, alpha), each held as
/// the bit pattern of an IEEE-754 single-precision number.
pub type SgColor = [u32; 4];

/// What happens to one color attachment at the start of a pass.
#[derive(Copy, Clone, Default, Debug, PartialEq, Eq)]
pub struct SgColorAttachmentAction {
    pub action: SgAction,
    /// The clear color.
    pub val: SgColor,
}

/// What happens to the depth attachment at the start of a pass.
#[derive(Copy, Clone, Default, Debug, PartialEq, Eq, Structural)]
pub struct SgDepthAttachmentAction {
    pub action: SgAction,
    /// The clear depth, as the bit pattern of a single-precision number.
    pub val: u32,
}

/// What happens to the stencil attachment at the start of a pass.
#[derive(Copy, Clone, Default, Debug, PartialEq, Eq, Structural)]
pub struct SgStencilAttachmentAction {
    pub action: SgAction,
    pub val: u8,
}

/// The actions at the start of a pass: one per color attachment in use, then
/// depth and stencil.
#[derive(Default, Debug)]
pub struct SgPassAction {
    pub colors: Vec<SgColorAttachmentAction>,
    pub depth: SgDepthAttachmentAction,
    pub stencil: SgStencilAttachmentAction,
}

/// The resources bound for the next draw calls.
#[derive(Default, Debug)]
pub struct SgBindings {
    pub vertex_buffers: Vec<SgBuffer>,
    pub vertex_buffer_offsets: Vec<i32>,
    pub index_buffer: SgBuffer,
    pub index_buffer_offset: i32,
    pub vs_images: Vec<SgImage>,
    pub fs_images: Vec<SgImage>,
}

/// The setup parameters of the graphics library: pool sizes and limits.
#[derive(Copy, Clone, Default, Debug, PartialEq, Eq, Structural)]
pub struct SgDesc {
    pub buffer_pool_size: i32,
    pub image_pool_size: i32,
    pub shader_pool_size: i32,
    pub pipeline_pool_size: i32,
    pub pass_pool_size: i32,
    pub context_pool_size: i32,
    pub uniform_buffer_size: i32,
    pub staging_buffer_size: i32,
    pub sampler_cache_size: i32,
    pub max_commit_listeners: i32,
    pub disable_validation: bool,
}

/// The description of a buffer to create. Its content, if any, is handed
/// over beside it.
#[derive(Copy, Clone, Default, Debug, PartialEq, Eq, Structural)]
pub struct SgBufferDesc {
    /// The size in bytes.
    pub size: usize,
    pub buffer_type: SgBufferType,
    pub usage: SgUsage,
}

/// The description of an image to create. Its content, if any, is handed
/// over beside it.
#[derive(Copy, Clone, Default, Debug, PartialEq, Eq, Structural)]
pub struct SgImageDesc {
    pub image_type: SgImageType,
    pub render_target: bool,
    pub width: i32,
    pub height: i32,
    pub depth_or_layers: i32,
    pub num_mipmaps: i32,
    pub usage: SgUsage,
    pub pixel_format: SgPixelFormat,
    pub sample_count: i32,
    pub min_filter: SgFilter,
    pub mag_filter: SgFilter,
    pub wrap_u: SgWrap,
    pub wrap_v: SgWrap,
    pub wrap_w: SgWrap,
    pub max_anisotropy: u32,
    /// The bit pattern of a single-precision number.
    pub min_lod: u32,
    /// The bit pattern of a single-precision number.
    pub max_lod: u32,
}

/// A vertex attribute as a shader declares it.
#[derive(Copy, Clone, Default, Debug)]
pub struct SgShaderAttrDesc<'a> {
    pub name: &'a str,
    pub sem_name: &'a str,
    pub sem_index: i32,
}

/// A member of a uniform block.
#[derive(Copy, Clone, Default, Debug)]
pub struct SgShaderUniformDesc<'a> {
    pub name: &'a str,
    pub uniform_type: SgUniformType,
    pub array_count: i32,
}

/// A uniform block of a shader stage.
#[derive(Default, Debug)]
pub struct SgShaderUniformBlockDesc<'a> {
    /// The size in bytes.
    pub size: i32,
    pub uniforms: Vec<SgShaderUniformDesc<'a>>,
}

/// An image that a shader stage samples.
#[derive(Copy, Clone, Default, Debug)]
pub struct SgShaderImageDesc<'a> {
    pub name: &'a str,
    pub image_type: SgImageType,
}

/// One stage of a shader: its source or byte code and its inputs.
#[derive(Default, Debug)]
pub struct SgShaderStageDesc<'a> {
    pub source: Option<&'a str>,
    pub byte_code: Option<&'a [u8]>,
    pub entry: Option<&'a str>,
    pub uniform_blocks: Vec<SgShaderUniformBlockDesc<'a>>,
    pub images: Vec<SgShaderImageDesc<'a>>,
}

/// The description of a shader to create.
#[derive(Debug)]
pub struct SgShaderDesc<'a> {
    pub attrs: Vec<SgShaderAttrDesc<'a>>,
    pub vs: SgShaderStageDesc<'a>,
    pub fs: SgShaderStageDesc<'a>,
}

/// The layout of one vertex buffer.
#[derive(Copy, Clone, Default, Debug, PartialEq, Eq, Structural)]
pub struct SgBufferLayoutDesc {
    /// The distance in bytes from one vertex to the next.
    pub stride: usize,
    pub step_func: SgVertexStep,
    pub step_rate: i32,
}

/// The blend state of one color attachment.
#[derive(Copy, Clone, Default, Debug, PartialEq, Eq, Structural)]
pub struct SgBlendState {
    pub enabled: bool,
    pub src_factor_rgb: SgBlendFactor,
    pub dst_factor_rgb: SgBlendFactor,
    pub op_rgb: SgBlendOp,
    pub src_factor_alpha: SgBlendFactor,
    pub dst_factor_alpha: SgBlendFactor,
    pub op_alpha: SgBlendOp,
}

/// The state of one color attachment of a pipeline.
#[derive(Copy, Clone, Default, Debug, PartialEq, Eq, Structural)]
pub struct SgColorState {
    pub pixel_format: SgPixelFormat,
    pub write_mask: SgColorMask,
    pub blend: SgBlendState,
}

/// The depth state of a pipeline.
#[derive(Copy, Clone, Default, Debug, PartialEq, Eq, Structural)]
pub struct SgDepthState {
    pub pixel_format: SgPixelFormat,
    pub compare: SgCompareFunc,
    pub write_enabled: bool,
    /// The bit pattern of a single-precision number.
    pub bias: u32,
    /// The bit pattern of a single-precision number.
    pub bias_slop_scale: u32,
    /// The bit pattern of a single-precision number.
    pub bias_clamp: u32,
}

/// The stencil state of one face.
#[derive(Copy, Clone, Default, Debug, PartialEq, Eq, Structural)]
pub struct SgStencilFaceState {
    pub compare: SgCompareFunc,
    pub fail_op: SgStencilOp,
    pub depth_fail_op: SgStencilOp,
    pub pass_op: SgStencilOp,
}

/// The stencil state of a pipeline.
#[derive(Copy, Clone, Default, Debug, PartialEq, Eq, Structural)]
pub struct SgStencilState {
    pub enabled: bool,
    pub front: SgStencilFaceState,
    pub back: SgStencilFaceState,
    pub read_mask: u8,
    pub write_mask: u8,
    pub stencil_ref: u8,
}

/// A vertex attribute as a pipeline feeds it.
#[derive(Copy, Clone, Default, Debug, PartialEq, Eq, Structural)]
pub struct SgVertexAttrDesc {
    pub buffer_index: i32,
    pub offset: i32,
    pub format: SgVertexFormat,
}

/// The vertex layout of a pipeline.
#[derive(Default, Debug)]
pub struct SgLayoutDesc {
    pub buffers: Vec<SgBufferLayoutDesc>,
    pub attrs: Vec<SgVertexAttrDesc>,
}

/// The description of a pipeline to create.
#[derive(Default, Debug)]
pub struct SgPipelineDesc {
    pub shader: SgShader,
    pub layout: SgLayoutDesc,
    pub depth: SgDepthState,
    pub stencil: SgStencilState,
    pub colors: Vec<SgColorState>,
    pub primitive_type: SgPrimitiveType,
    pub index_type: SgIndexType,
    pub cull_mode: SgCullMode,
    pub face_winding: SgFaceWinding,
    pub sample_count: i32,
    pub blend_color: SgColor,
    pub alpha_to_coverage_enabled: bool,
}

/// The part of an attachment that depends on the image type: the cube face,
/// the array layer or the 3D slice. The library sends one integer and no tag,
/// so one field holds whichever of the three applies.
#[derive(Copy, Clone, Default, Debug, PartialEq, Eq, Structural)]
pub struct SgAttachmentDescValue {
    pub value: i32,
}

/// One attachment of a render pass.
#[derive(Copy, Clone, Default, Debug, PartialEq, Eq, Structural)]
pub struct SgAttachmentDesc {
    pub image: SgImage,
    pub mip_level: i32,
    pub u: SgAttachmentDescValue,
}

/// The description of a render pass to create.
#[derive(Default, Debug)]
pub struct SgPassDesc {
    pub color_attachments: Vec<SgAttachmentDesc>,
    pub depth_stencil_attachment: SgAttachmentDesc,
}

impl SgResourceState {
    /// The state that the native number `v` stands for; `Invalid` where no
    /// state has that number.
    pub fn from_raw_or_invalid(v: i32) -> (r: SgResourceState)
        ensures
            if exists|x: SgResourceState| x.spec_raw() == v {
                r.spec_raw() == v
            } else {
                r == SgResourceState::Invalid
            },
    {
        match SgResourceState::from_raw(v) {
            Some(s) => s,
            None => SgResourceState::Invalid,
        }
    }
}

/// No two resource states share a native number.
pub proof fn lemma_resource_state_raw_injective(a: SgResourceState, b: SgResourceState)
    requires
        a.spec_raw() == b.spec_raw(),
    ensures
        a == b,
{
}

/// No two backends share a native number.
pub proof fn lemma_backend_raw_injective(a: SgBackend, b: SgBackend)
    requires
        a.spec_raw() == b.spec_raw(),
    ensures
        a == b,
{
}

} // verus!
