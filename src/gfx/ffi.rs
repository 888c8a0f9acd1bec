//! Descriptors in the layout that the native graphics library reads: fixed
//! arrays in place of lists, canaries at both ends, NUL-terminated strings.
//! Each `make` fills one from the descriptor that application code built.
//!
//! Pointers stand here as `Option<P>`, with `None` for a null pointer: the
//! marshaller never looks through them. The native-object overrides and
//! debug labels, which this library never sets, are not held here; the layer
//! that lays a descriptor out in memory for the native call writes them as
//! null.
use vstd::prelude::*;

use crate::marshal::{
    c_string, check_fits, fits_c_string, fits_opt_c_string, holds_c_string, holds_opt_c_string,
    padded, padded_array, MarshalError,
};

use super::{
    SgAction, SgAttachmentDesc, SgAttachmentDescValue, SgBlendFactor, SgBlendOp, SgBlendState,
    SgBuffer, SgBufferType, SgColor, SgColorAttachmentAction, SgColorMask, SgColorState,
    SgCullMode, SgDepthAttachmentAction, SgDepthState, SgFaceWinding, SgImage, SgImageType,
    SgIndexType, SgPixelFormat, SgPrimitiveType, SgSamplerType, SgShader, SgStencilAttachmentAction,
    SgStencilState, SgUniformLayout, SgUniformType, SgUsage, SgVertexFormat, SgVertexStep,
    SG_MAX_COLOR_ATTACHMENTS, SG_MAX_MIPMAPS, SG_MAX_SHADERSTAGE_BUFFERS,
    SG_MAX_SHADERSTAGE_IMAGES, SG_MAX_SHADERSTAGE_UBS, SG_MAX_UB_MEMBERS,
    SG_MAX_VERTEX_ATTRIBUTES,
};

verus! {

/// The value that the native library expects in the canary fields at both
/// ends of a descriptor.
pub const SG_CANARY: u32 = 0;

/// The number of frames that the native library keeps in flight.
pub const SG_NUM_INFLIGHT_FRAMES: usize = 2;

/// The number of subimages of an image: six cube faces times the mipmap
/// levels.
pub const SG_MAX_SUBIMAGES: usize = 6 * SG_MAX_MIPMAPS;

/// A color with every channel zero.
pub open spec fn zero_color() -> SgColor {
    [0u32, 0, 0, 0]
}

/// The color action of an unused attachment slot.
pub open spec fn blank_color_action() -> SgColorAttachmentAction {
    SgColorAttachmentAction { action: SgAction::_Default, val: zero_color() }
}

/// Pass actions as the native library reads them.
#[derive(Debug)]
pub struct SgPassAction {
    pub start_canary: u32,
    pub colors: [SgColorAttachmentAction; 4],
    pub depth: SgDepthAttachmentAction,
    pub stencil: SgStencilAttachmentAction,
    pub end_canary: u32,
}

impl SgPassAction {
    /// Lays out `pass_action`; fails where it has more color actions than
    /// there are color attachments.
    pub fn make(pass_action: &super::SgPassAction) -> (r: Result<SgPassAction, MarshalError>)
        ensures
            r is Ok <==> pass_action.colors@.len() <= SG_MAX_COLOR_ATTACHMENTS,
            match r {
                Ok(pa) => {
                    &&& pa.start_canary == SG_CANARY
                    &&& pa.end_canary == SG_CANARY
                    &&& pa.colors@ == padded(
                        pass_action.colors@,
                        SG_MAX_COLOR_ATTACHMENTS as nat,
                        blank_color_action(),
                    )
                    &&& pa.depth == pass_action.depth
                    &&& pa.stencil == pass_action.stencil
                },
                Err(e) => e == MarshalError::TooMany {
                    capacity: SG_MAX_COLOR_ATTACHMENTS,
                    len: pass_action.colors@.len() as usize,
                },
            },
    {
        check_fits(pass_action.colors.len(), SG_MAX_COLOR_ATTACHMENTS)?;
        let blank = SgColorAttachmentAction { action: SgAction::_Default, val: [0, 0, 0, 0] };
        Ok(SgPassAction {
            start_canary: SG_CANARY,
            colors: padded_array(pass_action.colors.as_slice(), blank),
            depth: pass_action.depth,
            stencil: pass_action.stencil,
            end_canary: SG_CANARY,
        })
    }
}

/// Resource bindings as the native library reads them.
#[derive(Debug)]
pub struct SgBindings {
    pub start_canary: u32,
    pub vertex_buffers: [SgBuffer; 8],
    pub vertex_buffer_offsets: [i32; 8],
    pub index_buffer: SgBuffer,
    pub index_buffer_offset: i32,
    pub vs_images: [SgImage; 12],
    pub fs_images: [SgImage; 12],
    pub end_canary: u32,
}

impl SgBindings {
    /// Lays out `bindings`; fails where a list is longer than its array.
    pub fn make(bindings: &super::SgBindings) -> (r: Result<SgBindings, MarshalError>)
        ensures
            r is Ok <==> {
                &&& bindings.vertex_buffers@.len() <= SG_MAX_SHADERSTAGE_BUFFERS
                &&& bindings.vertex_buffer_offsets@.len() <= SG_MAX_SHADERSTAGE_BUFFERS
                &&& bindings.vs_images@.len() <= SG_MAX_SHADERSTAGE_IMAGES
                &&& bindings.fs_images@.len() <= SG_MAX_SHADERSTAGE_IMAGES
            },
            match r {
                Ok(b) => {
                    &&& b.start_canary == SG_CANARY
                    &&& b.end_canary == SG_CANARY
                    &&& b.vertex_buffers@ == padded(
                        bindings.vertex_buffers@,
                        SG_MAX_SHADERSTAGE_BUFFERS as nat,
                        SgBuffer { id: 0 },
                    )
                    &&& b.vertex_buffer_offsets@ == padded(
                        bindings.vertex_buffer_offsets@,
                        SG_MAX_SHADERSTAGE_BUFFERS as nat,
                        0i32,
                    )
                    &&& b.index_buffer == bindings.index_buffer
                    &&& b.index_buffer_offset == bindings.index_buffer_offset
                    &&& b.vs_images@ == padded(
                        bindings.vs_images@,
                        SG_MAX_SHADERSTAGE_IMAGES as nat,
                        SgImage { id: 0 },
                    )
                    &&& b.fs_images@ == padded(
                        bindings.fs_images@,
                        SG_MAX_SHADERSTAGE_IMAGES as nat,
                        SgImage { id: 0 },
                    )
                },
                Err(e) => e is TooMany,
            },
    {
        check_fits(bindings.vertex_buffers.len(), SG_MAX_SHADERSTAGE_BUFFERS)?;
        check_fits(bindings.vertex_buffer_offsets.len(), SG_MAX_SHADERSTAGE_BUFFERS)?;
        check_fits(bindings.vs_images.len(), SG_MAX_SHADERSTAGE_IMAGES)?;
        check_fits(bindings.fs_images.len(), SG_MAX_SHADERSTAGE_IMAGES)?;
        Ok(SgBindings {
            start_canary: SG_CANARY,
            vertex_buffers: padded_array(bindings.vertex_buffers.as_slice(), SgBuffer { id: 0 }),
            vertex_buffer_offsets: padded_array(bindings.vertex_buffer_offsets.as_slice(), 0),
            index_buffer: bindings.index_buffer,
            index_buffer_offset: bindings.index_buffer_offset,
            vs_images: padded_array(bindings.vs_images.as_slice(), SgImage { id: 0 }),
            fs_images: padded_array(bindings.fs_images.as_slice(), SgImage { id: 0 }),
            end_canary: SG_CANARY,
        })
    }
}

/// Setup parameters as the native library reads them. The allocator, logger
/// and context that follow `desc` natively come from the application library
/// at the native call.
#[derive(Debug)]
pub struct SgDesc {
    pub start_canary: u32,
    pub desc: super::SgDesc,
    pub end_canary: u32,
}

impl SgDesc {
    /// Lays out `desc`.
    pub fn make(desc: &super::SgDesc) -> (r: SgDesc)
        ensures
            r.start_canary == SG_CANARY,
            r.end_canary == SG_CANARY,
            r.desc == *desc,
    {
        SgDesc { start_canary: SG_CANARY, desc: *desc, end_canary: SG_CANARY }
    }
}

/// A pointer and the number of bytes behind it.
#[derive(Copy, Clone, Debug)]
pub struct SgRange<P> {
    pub ptr: Option<P>,
    pub size: usize,
}

/// A buffer description as the native library reads it.
#[derive(Debug)]
pub struct SgBufferDesc<P> {
    pub start_canary: u32,
    pub size: usize,
    pub buffer_type: SgBufferType,
    pub usage: SgUsage,
    pub data: SgRange<P>,
    pub gl_buffers: [u32; 2],
    pub end_canary: u32,
}

impl<P> SgBufferDesc<P> {
    /// Lays out `desc`, with `content` as the initial data where it is given.
    /// Without content the data pointer is null and its size zero.
    pub fn make(content: Option<P>, desc: &super::SgBufferDesc) -> (r: SgBufferDesc<P>)
        ensures
            r.start_canary == SG_CANARY,
            r.end_canary == SG_CANARY,
            r.size == desc.size,
            r.buffer_type == desc.buffer_type,
            r.usage == desc.usage,
            r.data.ptr == content,
            r.data.size == (if content is Some { desc.size } else { 0 }),
            r.gl_buffers@ == seq![0u32, 0u32],
    {
        let data_size = if content.is_some() {
            desc.size
        } else {
            0
        };
        let r = SgBufferDesc {
            start_canary: SG_CANARY,
            size: desc.size,
            buffer_type: desc.buffer_type,
            usage: desc.usage,
            data: SgRange { ptr: content, size: data_size },
            gl_buffers: [0, 0],
            end_canary: SG_CANARY,
        };
        assert(r.gl_buffers@ =~= seq![0u32, 0u32]);
        r
    }
}

/// One subimage's data: a pointer and its size in bytes.
#[derive(Copy, Clone, Debug)]
pub struct SgSubImageContent<P> {
    pub ptr: Option<P>,
    pub size: i32,
}

/// The subimage of an unused slot: a null pointer and no bytes.
pub open spec fn blank_subimage<P>() -> SgSubImageContent<P> {
    SgSubImageContent { ptr: None, size: 0 }
}

/// The subimage that one `(pointer, size)` pair of the caller stands for.
pub open spec fn subimage_of<P>(e: (P, i32)) -> SgSubImageContent<P> {
    SgSubImageContent { ptr: Some(e.0), size: e.1 }
}

/// The initial content of an image, as the native library reads it: one
/// slot per cube face and mipmap level, in the caller's order.
#[derive(Debug)]
pub struct SgImageContent<P> {
    pub subimage: [SgSubImageContent<P>; 96],
}

impl<P: Copy> SgImageContent<P> {
    /// Lays out `content`, one slot per pair, then null slots; all slots are
    /// null where no content is given. Fails where there are more pairs than
    /// slots.
    pub fn make(content: Option<&[(P, i32)]>) -> (r: Result<SgImageContent<P>, MarshalError>)
        ensures
            r is Ok <==> (content matches Some(c) ==> c@.len() <= SG_MAX_SUBIMAGES),
            match r {
                Ok(cnt) => cnt.subimage@ == padded(
                    match content {
                        Some(c) => c@.map_values(|e: (P, i32)| subimage_of(e)),
                        None => Seq::empty(),
                    },
                    SG_MAX_SUBIMAGES as nat,
                    blank_subimage(),
                ),
                Err(e) => content is Some && e == MarshalError::TooMany {
                    capacity: SG_MAX_SUBIMAGES,
                    len: content->Some_0@.len() as usize,
                },
            },
    {
        let blank = SgSubImageContent { ptr: None, size: 0 };
        let mut subimage: [SgSubImageContent<P>; 96] = [blank; 96];
        match content {
            None => {
                assert(subimage@ =~= padded(Seq::empty(), SG_MAX_SUBIMAGES as nat, blank));
            },
            Some(c) => {
                check_fits(c.len(), SG_MAX_SUBIMAGES)?;
                let ghost mapped = c@.map_values(|e: (P, i32)| subimage_of(e));
                let mut i: usize = 0;
                while i < c.len()
                    invariant
                        i <= c@.len() <= SG_MAX_SUBIMAGES,
                        subimage@.len() == SG_MAX_SUBIMAGES,
                        mapped == c@.map_values(|e: (P, i32)| subimage_of(e)),
                        forall|j: int| 0 <= j < i ==> subimage@[j] == mapped[j],
                        forall|j: int| i <= j < SG_MAX_SUBIMAGES ==> subimage@[j] == blank,
                    decreases c@.len() - i,
                {
                    let (ptr, size) = c[i];
                    subimage[i] = SgSubImageContent { ptr: Some(ptr), size };
                    i += 1;
                }
                assert(subimage@ =~= padded(mapped, SG_MAX_SUBIMAGES as nat, blank));
            },
        }
        Ok(SgImageContent { subimage })
    }
}

/// An image description as the native library reads it.
#[derive(Debug)]
pub struct SgImageDesc<P> {
    pub start_canary: u32,
    pub image_type: SgImageType,
    pub render_target: bool,
    pub width: i32,
    pub height: i32,
    pub depth_or_layers: i32,
    pub num_mipmaps: i32,
    pub usage: SgUsage,
    pub pixel_format: SgPixelFormat,
    pub sample_count: i32,
    pub min_filter: super::SgFilter,
    pub mag_filter: super::SgFilter,
    pub wrap_u: super::SgWrap,
    pub wrap_v: super::SgWrap,
    pub wrap_w: super::SgWrap,
    pub max_anisotropy: u32,
    pub min_lod: u32,
    pub max_lod: u32,
    pub content: SgImageContent<P>,
    pub gl_textures: [u32; 2],
    pub end_canary: u32,
}

/// Whether `r` carries every scalar field of `desc` unchanged.
pub open spec fn image_fields_kept<P>(r: SgImageDesc<P>, desc: super::SgImageDesc) -> bool {
    &&& r.image_type == desc.image_type
    &&& r.render_target == desc.render_target
    &&& r.width == desc.width
    &&& r.height == desc.height
    &&& r.depth_or_layers == desc.depth_or_layers
    &&& r.num_mipmaps == desc.num_mipmaps
    &&& r.usage == desc.usage
    &&& r.pixel_format == desc.pixel_format
    &&& r.sample_count == desc.sample_count
    &&& r.min_filter == desc.min_filter
    &&& r.mag_filter == desc.mag_filter
    &&& r.wrap_u == desc.wrap_u
    &&& r.wrap_v == desc.wrap_v
    &&& r.wrap_w == desc.wrap_w
    &&& r.max_anisotropy == desc.max_anisotropy
    &&& r.min_lod == desc.min_lod
    &&& r.max_lod == desc.max_lod
}

impl<P: Copy> SgImageDesc<P> {
    /// Lays out `desc`, with `content` as the initial data where it is given;
    /// fails as `SgImageContent::make` does.
    pub fn make(content: Option<&[(P, i32)]>, desc: &super::SgImageDesc) -> (r: Result<
        SgImageDesc<P>,
        MarshalError,
    >)
        ensures
            r is Ok <==> (content matches Some(c) ==> c@.len() <= SG_MAX_SUBIMAGES),
            match r {
                Ok(img) => {
                    &&& img.start_canary == SG_CANARY
                    &&& img.end_canary == SG_CANARY
                    &&& image_fields_kept(img, *desc)
                    &&& img.content.subimage@ == padded(
                        match content {
                            Some(c) => c@.map_values(|e: (P, i32)| subimage_of(e)),
                            None => Seq::empty(),
                        },
                        SG_MAX_SUBIMAGES as nat,
                        blank_subimage(),
                    )
                    &&& img.gl_textures@ == seq![0u32, 0u32]
                },
                Err(e) => content is Some && e == MarshalError::TooMany {
                    capacity: SG_MAX_SUBIMAGES,
                    len: content->Some_0@.len() as usize,
                },
            },
    {
        let cnt = SgImageContent::make(content)?;
        let r = SgImageDesc {
            start_canary: SG_CANARY,
            image_type: desc.image_type,
            render_target: desc.render_target,
            width: desc.width,
            height: desc.height,
            depth_or_layers: desc.depth_or_layers,
            num_mipmaps: desc.num_mipmaps,
            usage: desc.usage,
            pixel_format: desc.pixel_format,
            sample_count: desc.sample_count,
            min_filter: desc.min_filter,
            mag_filter: desc.mag_filter,
            wrap_u: desc.wrap_u,
            wrap_v: desc.wrap_v,
            wrap_w: desc.wrap_w,
            max_anisotropy: desc.max_anisotropy,
            min_lod: desc.min_lod,
            max_lod: desc.max_lod,
            content: cnt,
            gl_textures: [0, 0],
            end_canary: SG_CANARY,
        };
        assert(r.gl_textures@ =~= seq![0u32, 0u32]);
        Ok(r)
    }
}

/// Copies `s` into a NUL-terminated buffer where it is present.
fn opt_c_string(s: Option<&str>) -> (r: Result<Option<Vec<u8>>, MarshalError>)
    ensures
        r is Ok <==> fits_opt_c_string(s),
        match r {
            Ok(b) => holds_opt_c_string(b, s),
            Err(e) => e == MarshalError::InteriorNul,
        },
{
    match s {
        Some(t) => {
            let b = c_string(t)?;
            Ok(Some(b))
        },
        None => Ok(None),
    }
}

/// A vertex attribute of a shader as the native library reads it.
#[derive(Debug)]
pub struct SgShaderAttrDesc {
    pub name: Option<Vec<u8>>,
    pub sem_name: Option<Vec<u8>>,
    pub sem_index: i32,
}

/// A uniform block member as the native library reads it.
#[derive(Debug)]
pub struct SgShaderUniformDesc {
    pub name: Option<Vec<u8>>,
    pub uniform_type: SgUniformType,
    pub array_count: i32,
}

/// A uniform block as the native library reads it.
#[derive(Debug)]
pub struct SgShaderUniformBlockDesc {
    pub size: usize,
    pub layout: SgUniformLayout,
    /// Always `SG_MAX_UB_MEMBERS` entries.
    pub uniforms: Vec<SgShaderUniformDesc>,
}

/// A sampled image of a shader stage as the native library reads it.
#[derive(Debug)]
pub struct SgShaderImageDesc {
    pub name: Option<Vec<u8>>,
    pub image_type: SgImageType,
    pub sampler_type: SgSamplerType,
}

/// A shader stage as the native library reads it.
#[derive(Debug)]
pub struct SgShaderStageDesc<'a> {
    pub source: Option<Vec<u8>>,
    pub bytecode: SgRange<&'a [u8]>,
    pub entry: Option<Vec<u8>>,
    pub d3d11_target: Option<Vec<u8>>,
    /// Always `SG_MAX_SHADERSTAGE_UBS` entries.
    pub uniform_blocks: Vec<SgShaderUniformBlockDesc>,
    /// Always `SG_MAX_SHADERSTAGE_IMAGES` entries.
    pub images: Vec<SgShaderImageDesc>,
}

/// A shader description as the native library reads it.
#[derive(Debug)]
pub struct SgShaderDesc<'a> {
    pub start_canary: u32,
    /// Always `SG_MAX_VERTEX_ATTRIBUTES` entries.
    pub attrs: Vec<SgShaderAttrDesc>,
    pub vs: SgShaderStageDesc<'a>,
    pub fs: SgShaderStageDesc<'a>,
    pub end_canary: u32,
}

/// Whether `d` is the native form of the attribute `a`.
pub open spec fn attr_kept(d: SgShaderAttrDesc, a: super::SgShaderAttrDesc) -> bool {
    &&& holds_c_string(d.name, a.name)
    &&& holds_c_string(d.sem_name, a.sem_name)
    &&& d.sem_index == a.sem_index
}

/// Whether `d` is an unused attribute slot.
pub open spec fn attr_blank(d: SgShaderAttrDesc) -> bool {
    d.name is None && d.sem_name is None && d.sem_index == 0
}

/// Whether `d` is the native form of the uniform `u`.
pub open spec fn uniform_kept(d: SgShaderUniformDesc, u: super::SgShaderUniformDesc) -> bool {
    holds_c_string(d.name, u.name) && d.uniform_type == u.uniform_type && d.array_count
        == u.array_count
}

/// Whether `d` is an unused uniform slot.
pub open spec fn uniform_blank(d: SgShaderUniformDesc) -> bool {
    d.name is None && d.uniform_type == SgUniformType::_Invalid && d.array_count == 0
}

/// Whether `d` holds the native forms of `src` in front and unused slots
/// after, `SG_MAX_UB_MEMBERS` in all.
pub open spec fn uniforms_laid_out(
    d: Seq<SgShaderUniformDesc>,
    src: Seq<super::SgShaderUniformDesc>,
) -> bool {
    &&& d.len() == SG_MAX_UB_MEMBERS
    &&& forall|i: int| 0 <= i < src.len() ==> uniform_kept(#[trigger] d[i], src[i])
    &&& forall|i: int| src.len() <= i < SG_MAX_UB_MEMBERS ==> uniform_blank(#[trigger] d[i])
}

/// Whether `d` is the native form of the uniform block `ub`.
pub open spec fn uniform_block_kept(
    d: SgShaderUniformBlockDesc,
    ub: super::SgShaderUniformBlockDesc,
) -> bool {
    &&& d.size == ub.size as usize
    &&& d.layout == SgUniformLayout::_Default
    &&& uniforms_laid_out(d.uniforms@, ub.uniforms@)
}

/// Whether `d` is an unused uniform block slot.
pub open spec fn uniform_block_blank(d: SgShaderUniformBlockDesc) -> bool {
    &&& d.size == 0
    &&& d.layout == SgUniformLayout::_Default
    &&& uniforms_laid_out(d.uniforms@, Seq::empty())
}

/// Whether `d` is the native form of the image `img`.
pub open spec fn image_kept(d: SgShaderImageDesc, img: super::SgShaderImageDesc) -> bool {
    holds_c_string(d.name, img.name) && d.image_type == img.image_type && d.sampler_type
        == SgSamplerType::_Default
}

/// Whether `d` is an unused image slot.
pub open spec fn image_blank(d: SgShaderImageDesc) -> bool {
    d.name is None && d.image_type == SgImageType::_Default && d.sampler_type
        == SgSamplerType::_Default
}

/// Whether every list of the uniform block `ub` fits its array.
pub open spec fn uniform_block_fits(ub: super::SgShaderUniformBlockDesc) -> bool {
    ub.uniforms@.len() <= SG_MAX_UB_MEMBERS
}

/// Whether every string of the uniform block `ub` can cross.
pub open spec fn uniform_block_strings_fit(ub: super::SgShaderUniformBlockDesc) -> bool {
    forall|j: int| 0 <= j < ub.uniforms@.len() ==> fits_c_string(#[trigger] ub.uniforms@[j].name@)
}

/// Whether every list of the stage `st` fits its array.
pub open spec fn stage_fits(st: super::SgShaderStageDesc) -> bool {
    &&& st.uniform_blocks@.len() <= SG_MAX_SHADERSTAGE_UBS
    &&& forall|i: int|
        0 <= i < st.uniform_blocks@.len() ==> uniform_block_fits(#[trigger] st.uniform_blocks@[i])
    &&& st.images@.len() <= SG_MAX_SHADERSTAGE_IMAGES
}

/// Whether every string of the stage `st` can cross.
pub open spec fn stage_strings_fit(st: super::SgShaderStageDesc) -> bool {
    &&& fits_opt_c_string(st.source)
    &&& fits_opt_c_string(st.entry)
    &&& forall|i: int|
        0 <= i < st.uniform_blocks@.len() ==> uniform_block_strings_fit(
            #[trigger] st.uniform_blocks@[i],
        )
    &&& forall|i: int| 0 <= i < st.images@.len() ==> fits_c_string(#[trigger] st.images@[i].name@)
}

/// Whether every uniform block size of the stage `st` fits the native
/// field, which holds no negative number.
pub open spec fn stage_sizes_fit(st: super::SgShaderStageDesc) -> bool {
    forall|i: int| 0 <= i < st.uniform_blocks@.len() ==> #[trigger] st.uniform_blocks@[i].size >= 0
}

/// The range that a byte slice, if any, stands for.
pub open spec fn range_of<'a>(b: Option<&'a [u8]>) -> SgRange<&'a [u8]> {
    match b {
        Some(bytes) => SgRange { ptr: Some(bytes), size: bytes@.len() as usize },
        None => SgRange { ptr: None, size: 0 },
    }
}

/// Whether `d` is the native form of the stage `st`.
pub open spec fn stage_kept<'a>(d: SgShaderStageDesc<'a>, st: super::SgShaderStageDesc<'a>) -> bool {
    &&& holds_opt_c_string(d.source, st.source)
    &&& d.bytecode == range_of(st.byte_code)
    &&& holds_opt_c_string(d.entry, st.entry)
    &&& d.d3d11_target is None
    &&& d.uniform_blocks@.len() == SG_MAX_SHADERSTAGE_UBS
    &&& forall|i: int|
        0 <= i < st.uniform_blocks@.len() ==> uniform_block_kept(
            #[trigger] d.uniform_blocks@[i],
            st.uniform_blocks@[i],
        )
    &&& forall|i: int|
        st.uniform_blocks@.len() <= i < SG_MAX_SHADERSTAGE_UBS ==> uniform_block_blank(
            #[trigger] d.uniform_blocks@[i],
        )
    &&& d.images@.len() == SG_MAX_SHADERSTAGE_IMAGES
    &&& forall|i: int| 0 <= i < st.images@.len() ==> image_kept(#[trigger] d.images@[i], st.images@[i])
    &&& forall|i: int| st.images@.len() <= i < SG_MAX_SHADERSTAGE_IMAGES ==> image_blank(#[trigger] d.images@[i])
}

/// Whether every list of the shader `desc` fits its array.
pub open spec fn shader_fits(desc: super::SgShaderDesc) -> bool {
    desc.attrs@.len() <= SG_MAX_VERTEX_ATTRIBUTES && stage_fits(desc.vs) && stage_fits(desc.fs)
}

/// Whether every string of the shader `desc` can cross.
pub open spec fn shader_strings_fit(desc: super::SgShaderDesc) -> bool {
    &&& forall|i: int|
        0 <= i < desc.attrs@.len() ==> fits_c_string(#[trigger] desc.attrs@[i].name@)
            && fits_c_string(desc.attrs@[i].sem_name@)
    &&& stage_strings_fit(desc.vs)
    &&& stage_strings_fit(desc.fs)
}

/// Whether every number of the shader `desc` fits its native field.
pub open spec fn shader_sizes_fit(desc: super::SgShaderDesc) -> bool {
    stage_sizes_fit(desc.vs) && stage_sizes_fit(desc.fs)
}

/// Whether `e` names a problem that `fits`, `strings` and `sizes` report:
/// whichever of them does not hold.
pub open spec fn error_matches(e: MarshalError, fits: bool, strings: bool, sizes: bool) -> bool {
    match e {
        MarshalError::TooMany { .. } => !fits,
        MarshalError::InteriorNul => !strings,
        MarshalError::OutOfRange => !sizes,
    }
}

/// Lays out the members of one uniform block: their native forms, then
/// unused slots.
fn collect_uniforms(src: &[super::SgShaderUniformDesc]) -> (r: Result<
    Vec<SgShaderUniformDesc>,
    MarshalError,
>)
    ensures
        r is Ok <==> src@.len() <= SG_MAX_UB_MEMBERS && forall|j: int|
            0 <= j < src@.len() ==> fits_c_string(#[trigger] src@[j].name@),
        match r {
            Ok(d) => uniforms_laid_out(d@, src@),
            Err(e) => error_matches(
                e,
                src@.len() <= SG_MAX_UB_MEMBERS,
                forall|j: int| 0 <= j < src@.len() ==> fits_c_string(#[trigger] src@[j].name@),
                true,
            ),
        },
{
    check_fits(src.len(), SG_MAX_UB_MEMBERS)?;
    let mut out: Vec<SgShaderUniformDesc> = Vec::new();
    let mut i: usize = 0;
    while i < src.len()
        invariant
            i <= src@.len() <= SG_MAX_UB_MEMBERS,
            out@.len() == i,
            forall|j: int| 0 <= j < i ==> uniform_kept(#[trigger] out@[j], src@[j]),
            forall|j: int| 0 <= j < i ==> fits_c_string(#[trigger] src@[j].name@),
        decreases src@.len() - i,
    {
        let u = &src[i];
        let name = c_string(u.name)?;
        out.push(
            SgShaderUniformDesc {
                name: Some(name),
                uniform_type: u.uniform_type,
                array_count: u.array_count,
            },
        );
        i += 1;
    }
    while out.len() < SG_MAX_UB_MEMBERS
        invariant
            src@.len() <= out@.len() <= SG_MAX_UB_MEMBERS,
            forall|j: int| 0 <= j < src@.len() ==> uniform_kept(#[trigger] out@[j], src@[j]),
            forall|j: int| src@.len() <= j < out@.len() ==> uniform_blank(#[trigger] out@[j]),
        decreases SG_MAX_UB_MEMBERS - out@.len(),
    {
        out.push(
            SgShaderUniformDesc { name: None, uniform_type: SgUniformType::_Invalid, array_count: 0 },
        );
    }
    Ok(out)
}

/// The members of an unused uniform block: unused slots only.
fn blank_uniforms() -> (r: Vec<SgShaderUniformDesc>)
    ensures
        uniforms_laid_out(r@, Seq::empty()),
{
    let mut out: Vec<SgShaderUniformDesc> = Vec::new();
    while out.len() < SG_MAX_UB_MEMBERS
        invariant
            out@.len() <= SG_MAX_UB_MEMBERS,
            forall|j: int| 0 <= j < out@.len() ==> uniform_blank(#[trigger] out@[j]),
        decreases SG_MAX_UB_MEMBERS - out@.len(),
    {
        out.push(
            SgShaderUniformDesc { name: None, uniform_type: SgUniformType::_Invalid, array_count: 0 },
        );
    }
    out
}

/// Lays out the uniform blocks of one stage: their native forms, then unused
/// slots.
fn collect_uniform_blocks(src: &[super::SgShaderUniformBlockDesc]) -> (r: Result<
    Vec<SgShaderUniformBlockDesc>,
    MarshalError,
>)
    ensures
        ({
            let fits = src@.len() <= SG_MAX_SHADERSTAGE_UBS && forall|i: int|
                0 <= i < src@.len() ==> uniform_block_fits(#[trigger] src@[i]);
            let strings = forall|i: int|
                0 <= i < src@.len() ==> uniform_block_strings_fit(#[trigger] src@[i]);
            let sizes = forall|i: int| 0 <= i < src@.len() ==> #[trigger] src@[i].size >= 0;
            &&& r is Ok <==> fits && strings && sizes
            &&& match r {
                Ok(d) => {
                    &&& d@.len() == SG_MAX_SHADERSTAGE_UBS
                    &&& forall|i: int|
                        0 <= i < src@.len() ==> uniform_block_kept(#[trigger] d@[i], src@[i])
                    &&& forall|i: int|
                        src@.len() <= i < SG_MAX_SHADERSTAGE_UBS ==> uniform_block_blank(
                            #[trigger] d@[i],
                        )
                },
                Err(e) => error_matches(e, fits, strings, sizes),
            }
        }),
{
    check_fits(src.len(), SG_MAX_SHADERSTAGE_UBS)?;
    let mut out: Vec<SgShaderUniformBlockDesc> = Vec::new();
    let mut i: usize = 0;
    while i < src.len()
        invariant
            i <= src@.len() <= SG_MAX_SHADERSTAGE_UBS,
            out@.len() == i,
            forall|j: int| 0 <= j < i ==> uniform_block_kept(#[trigger] out@[j], src@[j]),
            forall|j: int| 0 <= j < i ==> uniform_block_fits(#[trigger] src@[j]),
            forall|j: int| 0 <= j < i ==> uniform_block_strings_fit(#[trigger] src@[j]),
            forall|j: int| 0 <= j < i ==> #[trigger] src@[j].size >= 0,
        decreases src@.len() - i,
    {
        let ub = &src[i];
        if ub.size < 0 {
            return Err(MarshalError::OutOfRange);
        }
        let uniforms = collect_uniforms(ub.uniforms.as_slice())?;
        out.push(
            SgShaderUniformBlockDesc {
                size: ub.size as usize,
                layout: SgUniformLayout::_Default,
                uniforms,
            },
        );
        i += 1;
    }
    while out.len() < SG_MAX_SHADERSTAGE_UBS
        invariant
            src@.len() <= out@.len() <= SG_MAX_SHADERSTAGE_UBS,
            forall|j: int| 0 <= j < src@.len() ==> uniform_block_kept(#[trigger] out@[j], src@[j]),
            forall|j: int|
                src@.len() <= j < out@.len() ==> uniform_block_blank(#[trigger] out@[j]),
        decreases SG_MAX_SHADERSTAGE_UBS - out@.len(),
    {
        out.push(
            SgShaderUniformBlockDesc {
                size: 0,
                layout: SgUniformLayout::_Default,
                uniforms: blank_uniforms(),
            },
        );
    }
    Ok(out)
}

/// Lays out the sampled images of one stage: their native forms, then unused
/// slots.
fn collect_images(src: &[super::SgShaderImageDesc]) -> (r: Result<
    Vec<SgShaderImageDesc>,
    MarshalError,
>)
    ensures
        ({
            let fits = src@.len() <= SG_MAX_SHADERSTAGE_IMAGES;
            let strings = forall|i: int| 0 <= i < src@.len() ==> fits_c_string(#[trigger] src@[i].name@);
            &&& r is Ok <==> fits && strings
            &&& match r {
                Ok(d) => {
                    &&& d@.len() == SG_MAX_SHADERSTAGE_IMAGES
                    &&& forall|i: int| 0 <= i < src@.len() ==> image_kept(#[trigger] d@[i], src@[i])
                    &&& forall|i: int|
                        src@.len() <= i < SG_MAX_SHADERSTAGE_IMAGES ==> image_blank(#[trigger] d@[i])
                },
                Err(e) => error_matches(e, fits, strings, true),
            }
        }),
{
    check_fits(src.len(), SG_MAX_SHADERSTAGE_IMAGES)?;
    let mut out: Vec<SgShaderImageDesc> = Vec::new();
    let mut i: usize = 0;
    while i < src.len()
        invariant
            i <= src@.len() <= SG_MAX_SHADERSTAGE_IMAGES,
            out@.len() == i,
            forall|j: int| 0 <= j < i ==> image_kept(#[trigger] out@[j], src@[j]),
            forall|j: int| 0 <= j < i ==> fits_c_string(#[trigger] src@[j].name@),
        decreases src@.len() - i,
    {
        let img = &src[i];
        let name = c_string(img.name)?;
        out.push(
            SgShaderImageDesc {
                name: Some(name),
                image_type: img.image_type,
                sampler_type: SgSamplerType::_Default,
            },
        );
        i += 1;
    }
    while out.len() < SG_MAX_SHADERSTAGE_IMAGES
        invariant
            src@.len() <= out@.len() <= SG_MAX_SHADERSTAGE_IMAGES,
            forall|j: int| 0 <= j < src@.len() ==> image_kept(#[trigger] out@[j], src@[j]),
            forall|j: int| src@.len() <= j < out@.len() ==> image_blank(#[trigger] out@[j]),
        decreases SG_MAX_SHADERSTAGE_IMAGES - out@.len(),
    {
        out.push(
            SgShaderImageDesc {
                name: None,
                image_type: SgImageType::_Default,
                sampler_type: SgSamplerType::_Default,
            },
        );
    }
    Ok(out)
}

/// Lays out the vertex attributes of a shader: their native forms, then
/// unused slots.
fn collect_attrs(src: &[super::SgShaderAttrDesc]) -> (r: Result<
    Vec<SgShaderAttrDesc>,
    MarshalError,
>)
    ensures
        ({
            let fits = src@.len() <= SG_MAX_VERTEX_ATTRIBUTES;
            let strings = forall|i: int|
                0 <= i < src@.len() ==> fits_c_string(#[trigger] src@[i].name@) && fits_c_string(
                    src@[i].sem_name@,
                );
            &&& r is Ok <==> fits && strings
            &&& match r {
                Ok(d) => {
                    &&& d@.len() == SG_MAX_VERTEX_ATTRIBUTES
                    &&& forall|i: int| 0 <= i < src@.len() ==> attr_kept(#[trigger] d@[i], src@[i])
                    &&& forall|i: int|
                        src@.len() <= i < SG_MAX_VERTEX_ATTRIBUTES ==> attr_blank(#[trigger] d@[i])
                },
                Err(e) => error_matches(e, fits, strings, true),
            }
        }),
{
    check_fits(src.len(), SG_MAX_VERTEX_ATTRIBUTES)?;
    let mut out: Vec<SgShaderAttrDesc> = Vec::new();
    let mut i: usize = 0;
    while i < src.len()
        invariant
            i <= src@.len() <= SG_MAX_VERTEX_ATTRIBUTES,
            out@.len() == i,
            forall|j: int| 0 <= j < i ==> attr_kept(#[trigger] out@[j], src@[j]),
            forall|j: int|
                0 <= j < i ==> fits_c_string(#[trigger] src@[j].name@) && fits_c_string(
                    src@[j].sem_name@,
                ),
        decreases src@.len() - i,
    {
        let attr = &src[i];
        let name = c_string(attr.name)?;
        let sem_name = c_string(attr.sem_name)?;
        out.push(
            SgShaderAttrDesc {
                name: Some(name),
                sem_name: Some(sem_name),
                sem_index: attr.sem_index,
            },
        );
        i += 1;
    }
    while out.len() < SG_MAX_VERTEX_ATTRIBUTES
        invariant
            src@.len() <= out@.len() <= SG_MAX_VERTEX_ATTRIBUTES,
            forall|j: int| 0 <= j < src@.len() ==> attr_kept(#[trigger] out@[j], src@[j]),
            forall|j: int| src@.len() <= j < out@.len() ==> attr_blank(#[trigger] out@[j]),
        decreases SG_MAX_VERTEX_ATTRIBUTES - out@.len(),
    {
        out.push(SgShaderAttrDesc { name: None, sem_name: None, sem_index: 0 });
    }
    Ok(out)
}

/// The range of a stage's byte code: the bytes and their count, or a null
/// pointer and zero.
fn collect_bytecode<'a>(b: Option<&'a [u8]>) -> (r: SgRange<&'a [u8]>)
    ensures
        r == range_of(b),
{
    match b {
        Some(bytes) => SgRange { ptr: Some(bytes), size: bytes.len() },
        None => SgRange { ptr: None, size: 0 },
    }
}

/// Lays out one shader stage.
fn make_stage<'a>(st: &super::SgShaderStageDesc<'a>) -> (r: Result<
    SgShaderStageDesc<'a>,
    MarshalError,
>)
    ensures
        r is Ok <==> stage_fits(*st) && stage_strings_fit(*st) && stage_sizes_fit(*st),
        match r {
            Ok(d) => stage_kept(d, *st),
            Err(e) => error_matches(e, stage_fits(*st), stage_strings_fit(*st), stage_sizes_fit(*st)),
        },
{
    let source = opt_c_string(st.source)?;
    let entry = opt_c_string(st.entry)?;
    let uniform_blocks = collect_uniform_blocks(st.uniform_blocks.as_slice())?;
    let images = collect_images(st.images.as_slice())?;
    Ok(
        SgShaderStageDesc {
            source,
            bytecode: collect_bytecode(st.byte_code),
            entry,
            d3d11_target: None,
            uniform_blocks,
            images,
        },
    )
}

impl<'a> SgShaderDesc<'a> {
    /// Lays out `desc`. Fails where a list is longer than its array, a
    /// string holds a NUL, or a uniform block size is negative.
    pub fn make(desc: &super::SgShaderDesc<'a>) -> (r: Result<SgShaderDesc<'a>, MarshalError>)
        ensures
            r is Ok <==> shader_fits(*desc) && shader_strings_fit(*desc) && shader_sizes_fit(
                *desc,
            ),
            match r {
                Ok(shd) => {
                    &&& shd.start_canary == SG_CANARY
                    &&& shd.end_canary == SG_CANARY
                    &&& shd.attrs@.len() == SG_MAX_VERTEX_ATTRIBUTES
                    &&& forall|i: int|
                        0 <= i < desc.attrs@.len() ==> attr_kept(#[trigger] shd.attrs@[i], desc.attrs@[i])
                    &&& forall|i: int|
                        desc.attrs@.len() <= i < SG_MAX_VERTEX_ATTRIBUTES ==> attr_blank(
                            #[trigger] shd.attrs@[i],
                        )
                    &&& stage_kept(shd.vs, desc.vs)
                    &&& stage_kept(shd.fs, desc.fs)
                },
                Err(e) => error_matches(
                    e,
                    shader_fits(*desc),
                    shader_strings_fit(*desc),
                    shader_sizes_fit(*desc),
                ),
            },
    {
        let attrs = collect_attrs(desc.attrs.as_slice())?;
        let vs = make_stage(&desc.vs)?;
        let fs = make_stage(&desc.fs)?;
        Ok(SgShaderDesc { start_canary: SG_CANARY, attrs, vs, fs, end_canary: SG_CANARY })
    }
}

/// The layout of one vertex buffer as the native library reads it.
#[derive(Copy, Clone, Debug, PartialEq, Eq, Structural)]
pub struct SgBufferLayoutDesc {
    pub stride: i32,
    pub step_func: SgVertexStep,
    pub step_rate: i32,
}

/// A vertex attribute of a pipeline as the native library reads it.
#[derive(Copy, Clone, Debug, PartialEq, Eq, Structural)]
pub struct SgVertexAttrDesc {
    pub buffer_index: i32,
    pub offset: i32,
    pub format: SgVertexFormat,
}

/// The native form of the buffer layout `b`.
pub open spec fn buffer_layout_of(b: super::SgBufferLayoutDesc) -> SgBufferLayoutDesc {
    SgBufferLayoutDesc { stride: b.stride as i32, step_func: b.step_func, step_rate: b.step_rate }
}

/// The layout of an unused vertex buffer slot.
pub open spec fn blank_buffer_layout() -> SgBufferLayoutDesc {
    SgBufferLayoutDesc { stride: 0, step_func: SgVertexStep::_Default, step_rate: 0 }
}

/// The native form of the vertex attribute `a`.
pub open spec fn vertex_attr_of(a: super::SgVertexAttrDesc) -> SgVertexAttrDesc {
    SgVertexAttrDesc { buffer_index: a.buffer_index, offset: a.offset, format: a.format }
}

/// An unused vertex attribute slot.
pub open spec fn blank_vertex_attr() -> SgVertexAttrDesc {
    SgVertexAttrDesc { buffer_index: 0, offset: 0, format: SgVertexFormat::_Invalid }
}

/// A vertex layout as the native library reads it.
#[derive(Debug)]
pub struct SgLayoutDesc {
    pub buffers: [SgBufferLayoutDesc; 8],
    pub attrs: [SgVertexAttrDesc; 16],
}

/// Whether every list of the layout `desc` fits its array.
pub open spec fn layout_fits(desc: super::SgLayoutDesc) -> bool {
    desc.buffers@.len() <= SG_MAX_SHADERSTAGE_BUFFERS && desc.attrs@.len()
        <= SG_MAX_VERTEX_ATTRIBUTES
}

/// Whether every stride of the layout `desc` fits the native field.
pub open spec fn layout_strides_fit(desc: super::SgLayoutDesc) -> bool {
    forall|i: int| 0 <= i < desc.buffers@.len() ==> #[trigger] desc.buffers@[i].stride <= i32::MAX
}

/// Whether `d` is the native form of the layout `desc`.
pub open spec fn layout_kept(d: SgLayoutDesc, desc: super::SgLayoutDesc) -> bool {
    &&& d.buffers@ == padded(
        desc.buffers@.map_values(|b: super::SgBufferLayoutDesc| buffer_layout_of(b)),
        SG_MAX_SHADERSTAGE_BUFFERS as nat,
        blank_buffer_layout(),
    )
    &&& d.attrs@ == padded(
        desc.attrs@.map_values(|a: super::SgVertexAttrDesc| vertex_attr_of(a)),
        SG_MAX_VERTEX_ATTRIBUTES as nat,
        blank_vertex_attr(),
    )
}

impl SgLayoutDesc {
    /// Lays out `desc`. Fails where a list is longer than its array or a
    /// stride does not fit the native field.
    pub fn make(desc: &super::SgLayoutDesc) -> (r: Result<SgLayoutDesc, MarshalError>)
        ensures
            r is Ok <==> layout_fits(*desc) && layout_strides_fit(*desc),
            match r {
                Ok(d) => layout_kept(d, *desc),
                Err(e) => error_matches(e, layout_fits(*desc), true, layout_strides_fit(*desc)),
            },
    {
        check_fits(desc.buffers.len(), SG_MAX_SHADERSTAGE_BUFFERS)?;
        check_fits(desc.attrs.len(), SG_MAX_VERTEX_ATTRIBUTES)?;
        let blank_buffer = SgBufferLayoutDesc {
            stride: 0,
            step_func: SgVertexStep::_Default,
            step_rate: 0,
        };
        let mut buffers: [SgBufferLayoutDesc; 8] = [blank_buffer; 8];
        let ghost bsrc = desc.buffers@.map_values(|b: super::SgBufferLayoutDesc| buffer_layout_of(b));
        let mut i: usize = 0;
        while i < desc.buffers.len()
            invariant
                i <= desc.buffers@.len() <= SG_MAX_SHADERSTAGE_BUFFERS,
                buffers@.len() == SG_MAX_SHADERSTAGE_BUFFERS,
                bsrc == desc.buffers@.map_values(|b: super::SgBufferLayoutDesc| buffer_layout_of(b)),
                forall|j: int| 0 <= j < i ==> buffers@[j] == bsrc[j],
                forall|j: int| 0 <= j < i ==> #[trigger] desc.buffers@[j].stride <= i32::MAX,
                forall|j: int| i <= j < SG_MAX_SHADERSTAGE_BUFFERS ==> buffers@[j] == blank_buffer,
            decreases desc.buffers@.len() - i,
        {
            let b = desc.buffers[i];
            if b.stride > i32::MAX as usize {
                return Err(MarshalError::OutOfRange);
            }
            buffers[i] = SgBufferLayoutDesc {
                stride: b.stride as i32,
                step_func: b.step_func,
                step_rate: b.step_rate,
            };
            i += 1;
        }
        assert(buffers@ =~= padded(bsrc, SG_MAX_SHADERSTAGE_BUFFERS as nat, blank_buffer));
        let blank_attr = SgVertexAttrDesc {
            buffer_index: 0,
            offset: 0,
            format: SgVertexFormat::_Invalid,
        };
        let mut attrs: [SgVertexAttrDesc; 16] = [blank_attr; 16];
        let ghost asrc = desc.attrs@.map_values(|a: super::SgVertexAttrDesc| vertex_attr_of(a));
        let mut k: usize = 0;
        while k < desc.attrs.len()
            invariant
                k <= desc.attrs@.len() <= SG_MAX_VERTEX_ATTRIBUTES,
                attrs@.len() == SG_MAX_VERTEX_ATTRIBUTES,
                asrc == desc.attrs@.map_values(|a: super::SgVertexAttrDesc| vertex_attr_of(a)),
                forall|j: int| 0 <= j < k ==> attrs@[j] == asrc[j],
                forall|j: int| k <= j < SG_MAX_VERTEX_ATTRIBUTES ==> attrs@[j] == blank_attr,
            decreases desc.attrs@.len() - k,
        {
            let a = desc.attrs[k];
            attrs[k] = SgVertexAttrDesc {
                buffer_index: a.buffer_index,
                offset: a.offset,
                format: a.format,
            };
            k += 1;
        }
        assert(attrs@ =~= padded(asrc, SG_MAX_VERTEX_ATTRIBUTES as nat, blank_attr));
        Ok(SgLayoutDesc { buffers, attrs })
    }
}

/// The state of an unused color attachment slot of a pipeline.
pub open spec fn blank_color_state() -> SgColorState {
    SgColorState {
        pixel_format: SgPixelFormat::_Default,
        write_mask: SgColorMask { bits: 0 },
        blend: SgBlendState {
            enabled: false,
            src_factor_rgb: SgBlendFactor::_Default,
            dst_factor_rgb: SgBlendFactor::_Default,
            op_rgb: SgBlendOp::_Default,
            src_factor_alpha: SgBlendFactor::_Default,
            dst_factor_alpha: SgBlendFactor::_Default,
            op_alpha: SgBlendOp::_Default,
        },
    }
}

/// A pipeline description as the native library reads it.
#[derive(Debug)]
pub struct SgPipelineDesc {
    pub start_canary: u32,
    pub shader: SgShader,
    pub layout: SgLayoutDesc,
    pub depth: SgDepthState,
    pub stencil: SgStencilState,
    pub color_count: i32,
    pub colors: [SgColorState; 4],
    pub primitive_type: SgPrimitiveType,
    pub index_type: SgIndexType,
    pub cull_mode: SgCullMode,
    pub face_winding: SgFaceWinding,
    pub sample_count: i32,
    pub blend_color: SgColor,
    pub alpha_to_coverage_enabled: bool,
    pub end_canary: u32,
}

impl SgPipelineDesc {
    /// Lays out `desc`. Fails as `SgLayoutDesc::make` does, and where there
    /// are more color states than color attachments.
    pub fn make(desc: &super::SgPipelineDesc) -> (r: Result<SgPipelineDesc, MarshalError>)
        ensures
            ({
                let fits = desc.colors@.len() <= SG_MAX_COLOR_ATTACHMENTS && layout_fits(
                    desc.layout,
                );
                let sizes = layout_strides_fit(desc.layout);
                &&& r is Ok <==> fits && sizes
                &&& match r {
                    Ok(pip) => {
                        &&& pip.start_canary == SG_CANARY
                        &&& pip.end_canary == SG_CANARY
                        &&& pip.shader == desc.shader
                        &&& layout_kept(pip.layout, desc.layout)
                        &&& pip.depth == desc.depth
                        &&& pip.stencil == desc.stencil
                        &&& pip.color_count == desc.colors@.len()
                        &&& pip.colors@ == padded(
                            desc.colors@,
                            SG_MAX_COLOR_ATTACHMENTS as nat,
                            blank_color_state(),
                        )
                        &&& pip.primitive_type == desc.primitive_type
                        &&& pip.index_type == desc.index_type
                        &&& pip.cull_mode == desc.cull_mode
                        &&& pip.face_winding == desc.face_winding
                        &&& pip.sample_count == desc.sample_count
                        &&& pip.blend_color == desc.blend_color
                        &&& pip.alpha_to_coverage_enabled == desc.alpha_to_coverage_enabled
                    },
                    Err(e) => error_matches(e, fits, true, sizes),
                }
            }),
    {
        check_fits(desc.colors.len(), SG_MAX_COLOR_ATTACHMENTS)?;
        let layout = SgLayoutDesc::make(&desc.layout)?;
        let blank = SgColorState {
            pixel_format: SgPixelFormat::_Default,
            write_mask: SgColorMask { bits: 0 },
            blend: SgBlendState {
                enabled: false,
                src_factor_rgb: SgBlendFactor::_Default,
                dst_factor_rgb: SgBlendFactor::_Default,
                op_rgb: SgBlendOp::_Default,
                src_factor_alpha: SgBlendFactor::_Default,
                dst_factor_alpha: SgBlendFactor::_Default,
                op_alpha: SgBlendOp::_Default,
            },
        };
        Ok(
            SgPipelineDesc {
                start_canary: SG_CANARY,
                shader: desc.shader,
                layout,
                depth: desc.depth,
                stencil: desc.stencil,
                color_count: desc.colors.len() as i32,
                colors: padded_array(desc.colors.as_slice(), blank),
                primitive_type: desc.primitive_type,
                index_type: desc.index_type,
                cull_mode: desc.cull_mode,
                face_winding: desc.face_winding,
                sample_count: desc.sample_count,
                blend_color: desc.blend_color,
                alpha_to_coverage_enabled: desc.alpha_to_coverage_enabled,
                end_canary: SG_CANARY,
            },
        )
    }
}

/// An unused attachment slot of a pass.
pub open spec fn blank_attachment() -> SgAttachmentDesc {
    SgAttachmentDesc {
        image: SgImage { id: 0 },
        mip_level: 0,
        u: SgAttachmentDescValue { value: 0 },
    }
}

/// A pass description as the native library reads it.
#[derive(Debug)]
pub struct SgPassDesc {
    pub start_canary: u32,
    pub color_attachments: [SgAttachmentDesc; 4],
    pub depth_stencil_attachment: SgAttachmentDesc,
    pub end_canary: u32,
}

impl SgPassDesc {
    /// Lays out `desc`; fails where it has more color attachments than a
    /// pass can have.
    pub fn make(desc: &super::SgPassDesc) -> (r: Result<SgPassDesc, MarshalError>)
        ensures
            r is Ok <==> desc.color_attachments@.len() <= SG_MAX_COLOR_ATTACHMENTS,
            match r {
                Ok(pass) => {
                    &&& pass.start_canary == SG_CANARY
                    &&& pass.end_canary == SG_CANARY
                    &&& pass.color_attachments@ == padded(
                        desc.color_attachments@,
                        SG_MAX_COLOR_ATTACHMENTS as nat,
                        blank_attachment(),
                    )
                    &&& pass.depth_stencil_attachment == desc.depth_stencil_attachment
                },
                Err(e) => e == MarshalError::TooMany {
                    capacity: SG_MAX_COLOR_ATTACHMENTS,
                    len: desc.color_attachments@.len() as usize,
                },
            },
    {
        check_fits(desc.color_attachments.len(), SG_MAX_COLOR_ATTACHMENTS)?;
        let blank = SgAttachmentDesc {
            image: SgImage { id: 0 },
            mip_level: 0,
            u: SgAttachmentDescValue { value: 0 },
        };
        Ok(
            SgPassDesc {
                start_canary: SG_CANARY,
                color_attachments: padded_array(desc.color_attachments.as_slice(), blank),
                depth_stencil_attachment: desc.depth_stencil_attachment,
                end_canary: SG_CANARY,
            },
        )
    }
}

} // verus!
