use sokol::gfx::ffi::{
    SgBindings as RawBindings, SgBufferDesc as RawBufferDesc, SgDesc as RawDesc,
    SgImageContent as RawImageContent, SgImageDesc as RawImageDesc, SgLayoutDesc as RawLayoutDesc,
    SgPassAction as RawPassAction, SgPassDesc as RawPassDesc, SgPipelineDesc as RawPipelineDesc,
    SgShaderDesc as RawShaderDesc, SG_CANARY, SG_MAX_SUBIMAGES,
};
use sokol::gfx::{
    SgAction, SgAttachmentDesc, SgAttachmentDescValue, SgBindings, SgBuffer, SgBufferDesc,
    SgBufferLayoutDesc, SgBufferType, SgColorAttachmentAction, SgColorState, SgDesc, SgImage,
    SgImageDesc, SgLayoutDesc, SgPassAction, SgPassDesc, SgPipelineDesc, SgPixelFormat,
    SgResourceState, SgShader, SgShaderAttrDesc, SgShaderDesc, SgShaderImageDesc,
    SgShaderStageDesc, SgShaderUniformBlockDesc, SgShaderUniformDesc, SgUniformType, SgUsage,
    SgVertexAttrDesc, SgVertexFormat, SgVertexStep, SgImageType, SgFilter, SgBackend,
};
use sokol::marshal::{c_string, MarshalError};

fn bits(c: [f32; 4]) -> [u32; 4] {
    [c[0].to_bits(), c[1].to_bits(), c[2].to_bits(), c[3].to_bits()]
}

fn clear(c: [f32; 4]) -> SgColorAttachmentAction {
    SgColorAttachmentAction { action: SgAction::Clear, val: bits(c) }
}

#[test]
fn buffer_desc_with_content_keeps_size_and_canaries() {
    let vertices = [0.5f32; 24];
    let desc = SgBufferDesc {
        size: 96,
        buffer_type: SgBufferType::VertexBuffer,
        usage: SgUsage::Immutable,
    };
    let raw = RawBufferDesc::make(Some(&vertices), &desc);
    assert_eq!(raw.size, 96);
    assert!(raw.data.ptr.is_some());
    assert_eq!(raw.data.size, 96);
    assert_eq!(raw.start_canary, SG_CANARY);
    assert_eq!(raw.end_canary, SG_CANARY);
    assert_eq!(SG_CANARY, 0);
    assert_eq!(raw.buffer_type, SgBufferType::VertexBuffer);
    assert_eq!(raw.usage, SgUsage::Immutable);
    assert_eq!(raw.gl_buffers, [0, 0]);
}

#[test]
fn buffer_desc_without_content_has_null_data() {
    let desc = SgBufferDesc { size: 64, buffer_type: SgBufferType::IndexBuffer, usage: SgUsage::Dynamic };
    let raw = RawBufferDesc::<&[u8]>::make(None, &desc);
    assert_eq!(raw.size, 64);
    assert!(raw.data.ptr.is_none());
    assert_eq!(raw.data.size, 0);
}

#[test]
fn pass_action_three_clears_and_one_blank_slot() {
    let pa = SgPassAction {
        colors: vec![
            clear([0.25, 0.0, 0.0, 1.0]),
            clear([0.0, 0.25, 0.0, 1.0]),
            clear([0.0, 0.0, 0.25, 1.0]),
        ],
        ..Default::default()
    };
    let raw = RawPassAction::make(&pa).unwrap();
    assert_eq!(raw.colors.len(), 4);
    assert_eq!(raw.colors[0], clear([0.25, 0.0, 0.0, 1.0]));
    assert_eq!(raw.colors[1], clear([0.0, 0.25, 0.0, 1.0]));
    assert_eq!(raw.colors[2], clear([0.0, 0.0, 0.25, 1.0]));
    assert_eq!(raw.colors[3].action, SgAction::_Default);
    assert_eq!(raw.colors[3].val, [0, 0, 0, 0]);
    assert_eq!(raw.start_canary, SG_CANARY);
    assert_eq!(raw.end_canary, SG_CANARY);
}

#[test]
fn pass_action_slots_are_blank_after_a_longer_one() {
    let long = SgPassAction {
        colors: vec![clear([1.0; 4]), clear([1.0; 4]), clear([1.0; 4]), clear([1.0; 4])],
        ..Default::default()
    };
    let first = RawPassAction::make(&long).unwrap();
    assert_eq!(first.colors[3], clear([1.0; 4]));
    let short = SgPassAction { colors: vec![clear([0.5, 0.0, 0.25, 1.0])], ..Default::default() };
    let second = RawPassAction::make(&short).unwrap();
    assert_eq!(second.colors[0], clear([0.5, 0.0, 0.25, 1.0]));
    for slot in &second.colors[1..] {
        assert_eq!(*slot, SgColorAttachmentAction::default());
    }
}

#[test]
fn pass_action_with_five_colors_is_refused() {
    let pa = SgPassAction { colors: vec![clear([0.0; 4]); 5], ..Default::default() };
    let err = RawPassAction::make(&pa).unwrap_err();
    assert_eq!(err, MarshalError::TooMany { capacity: 4, len: 5 });
}

#[test]
fn pass_action_keeps_depth_and_stencil() {
    let mut pa = SgPassAction::default();
    pa.depth.action = SgAction::Clear;
    pa.depth.val = 1.0f32.to_bits();
    pa.stencil.action = SgAction::Load;
    pa.stencil.val = 7;
    let raw = RawPassAction::make(&pa).unwrap();
    assert_eq!(raw.depth, pa.depth);
    assert_eq!(raw.stencil, pa.stencil);
    assert!(raw.colors.iter().all(|c| *c == SgColorAttachmentAction::default()));
}

#[test]
fn bindings_fill_in_front_and_zero_the_rest() {
    let b = SgBindings {
        vertex_buffers: vec![SgBuffer { id: 3 }, SgBuffer { id: 4 }],
        vertex_buffer_offsets: vec![16],
        index_buffer: SgBuffer { id: 9 },
        index_buffer_offset: 8,
        vs_images: vec![],
        fs_images: vec![SgImage { id: 1 }, SgImage { id: 2 }, SgImage { id: 5 }],
    };
    let raw = RawBindings::make(&b).unwrap();
    assert_eq!(raw.vertex_buffers[0], SgBuffer { id: 3 });
    assert_eq!(raw.vertex_buffers[1], SgBuffer { id: 4 });
    assert!(raw.vertex_buffers[2..].iter().all(|v| v.id == 0));
    assert_eq!(raw.vertex_buffer_offsets, [16, 0, 0, 0, 0, 0, 0, 0]);
    assert_eq!(raw.index_buffer, SgBuffer { id: 9 });
    assert_eq!(raw.index_buffer_offset, 8);
    assert!(raw.vs_images.iter().all(|i| i.id == 0));
    assert_eq!(raw.fs_images[2], SgImage { id: 5 });
    assert!(raw.fs_images[3..].iter().all(|i| i.id == 0));
    assert_eq!(raw.start_canary, SG_CANARY);
    assert_eq!(raw.end_canary, SG_CANARY);
}

#[test]
fn bindings_with_nine_vertex_buffers_are_refused() {
    let b = SgBindings { vertex_buffers: vec![SgBuffer { id: 1 }; 9], ..Default::default() };
    assert_eq!(RawBindings::make(&b).unwrap_err(), MarshalError::TooMany { capacity: 8, len: 9 });
    let b = SgBindings { fs_images: vec![SgImage { id: 1 }; 13], ..Default::default() };
    assert_eq!(RawBindings::make(&b).unwrap_err(), MarshalError::TooMany { capacity: 12, len: 13 });
}

#[test]
fn setup_desc_is_kept_between_canaries() {
    let d = SgDesc { buffer_pool_size: 128, disable_validation: true, ..Default::default() };
    let raw = RawDesc::make(&d);
    assert_eq!(raw.desc, d);
    assert_eq!(raw.start_canary, SG_CANARY);
    assert_eq!(raw.end_canary, SG_CANARY);
}

#[test]
fn image_content_in_order_then_null() {
    let a = [1u8; 16];
    let b = [2u8; 4];
    let pairs: [(&[u8], i32); 2] = [(&a, 16), (&b, 4)];
    let cnt = RawImageContent::make(Some(&pairs[..])).unwrap();
    assert_eq!(cnt.subimage.len(), SG_MAX_SUBIMAGES);
    assert_eq!(cnt.subimage[0].size, 16);
    assert_eq!(cnt.subimage[0].ptr.unwrap().len(), 16);
    assert_eq!(cnt.subimage[1].size, 4);
    assert_eq!(cnt.subimage[1].ptr.unwrap()[0], 2);
    assert!(cnt.subimage[2..].iter().all(|s| s.ptr.is_none() && s.size == 0));
    let none = RawImageContent::<&[u8]>::make(None).unwrap();
    assert!(none.subimage.iter().all(|s| s.ptr.is_none() && s.size == 0));
}

#[test]
fn image_content_with_too_many_subimages_is_refused() {
    let pairs = vec![(0usize, 4i32); 97];
    let err = RawImageContent::make(Some(&pairs[..])).err().unwrap();
    assert_eq!(err, MarshalError::TooMany { capacity: 96, len: 97 });
}

#[test]
fn image_desc_keeps_every_field() {
    let desc = SgImageDesc {
        image_type: SgImageType::Texture2D,
        render_target: true,
        width: 800,
        height: 600,
        num_mipmaps: 1,
        pixel_format: SgPixelFormat::RGBA8,
        sample_count: 4,
        min_filter: SgFilter::Linear,
        mag_filter: SgFilter::Nearest,
        max_lod: 1000.0f32.to_bits(),
        ..Default::default()
    };
    let raw = RawImageDesc::<usize>::make(None, &desc).ok().unwrap();
    assert_eq!(raw.image_type, SgImageType::Texture2D);
    assert!(raw.render_target);
    assert_eq!(raw.width, 800);
    assert_eq!(raw.height, 600);
    assert_eq!(raw.num_mipmaps, 1);
    assert_eq!(raw.pixel_format, SgPixelFormat::RGBA8);
    assert_eq!(raw.sample_count, 4);
    assert_eq!(raw.min_filter, SgFilter::Linear);
    assert_eq!(raw.mag_filter, SgFilter::Nearest);
    assert_eq!(raw.max_lod, 1000.0f32.to_bits());
    assert_eq!(raw.gl_textures, [0, 0]);
    assert_eq!(raw.start_canary, SG_CANARY);
    assert_eq!(raw.end_canary, SG_CANARY);
    assert!(raw.content.subimage.iter().all(|s| s.ptr.is_none()));
}

#[test]
fn c_string_appends_a_nul() {
    assert_eq!(c_string("abc").unwrap(), vec![97u8, 98, 99, 0]);
    assert_eq!(c_string("").unwrap(), vec![0u8]);
    assert_eq!(c_string("é").unwrap(), vec![0xC3u8, 0xA9, 0]);
    assert_eq!(c_string("a\0b").unwrap_err(), MarshalError::InteriorNul);
}

fn stage<'a>(source: &'a str, code: Option<&'a [u8]>) -> SgShaderStageDesc<'a> {
    SgShaderStageDesc {
        source: Some(source),
        byte_code: code,
        entry: None,
        uniform_blocks: vec![SgShaderUniformBlockDesc {
            size: 64,
            uniforms: vec![SgShaderUniformDesc {
                name: "mvp",
                uniform_type: SgUniformType::Mat4,
                array_count: 1,
            }],
        }],
        images: vec![SgShaderImageDesc { name: "tex", image_type: SgImageType::Texture2D }],
    }
}

#[test]
fn shader_desc_lays_out_strings_and_lists() {
    let code = [1u8, 2, 3];
    let desc = SgShaderDesc {
        attrs: vec![
            SgShaderAttrDesc { name: "position", sem_name: "POSITION", sem_index: 0 },
            SgShaderAttrDesc { name: "color0", sem_name: "COLOR", sem_index: 1 },
        ],
        vs: stage("vs", Some(&code)),
        fs: stage("fs", None),
    };
    let raw = RawShaderDesc::make(&desc).ok().unwrap();
    assert_eq!(raw.start_canary, SG_CANARY);
    assert_eq!(raw.end_canary, SG_CANARY);
    assert_eq!(raw.attrs.len(), 16);
    assert_eq!(raw.attrs[0].name.as_deref(), Some(&b"position\0"[..]));
    assert_eq!(raw.attrs[1].sem_name.as_deref(), Some(&b"COLOR\0"[..]));
    assert_eq!(raw.attrs[1].sem_index, 1);
    assert!(raw.attrs[2..].iter().all(|a| a.name.is_none() && a.sem_name.is_none() && a.sem_index == 0));
    assert_eq!(raw.vs.source.as_deref(), Some(&b"vs\0"[..]));
    assert!(raw.vs.entry.is_none());
    assert!(raw.vs.d3d11_target.is_none());
    assert_eq!(raw.vs.bytecode.size, 3);
    assert_eq!(raw.vs.bytecode.ptr, Some(&code[..]));
    assert!(raw.fs.bytecode.ptr.is_none());
    assert_eq!(raw.fs.bytecode.size, 0);
    assert_eq!(raw.vs.uniform_blocks.len(), 4);
    assert_eq!(raw.vs.uniform_blocks[0].size, 64);
    assert_eq!(raw.vs.uniform_blocks[0].uniforms.len(), 16);
    assert_eq!(raw.vs.uniform_blocks[0].uniforms[0].name.as_deref(), Some(&b"mvp\0"[..]));
    assert_eq!(raw.vs.uniform_blocks[0].uniforms[0].uniform_type, SgUniformType::Mat4);
    assert_eq!(raw.vs.uniform_blocks[0].uniforms[0].array_count, 1);
    assert!(raw.vs.uniform_blocks[0].uniforms[1..].iter().all(|u| u.name.is_none()
        && u.uniform_type == SgUniformType::_Invalid
        && u.array_count == 0));
    assert!(raw.vs.uniform_blocks[1..].iter().all(|b| b.size == 0 && b.uniforms.len() == 16));
    assert_eq!(raw.fs.images.len(), 12);
    assert_eq!(raw.fs.images[0].name.as_deref(), Some(&b"tex\0"[..]));
    assert_eq!(raw.fs.images[0].image_type, SgImageType::Texture2D);
    assert!(raw.fs.images[1..].iter().all(|i| i.name.is_none() && i.image_type == SgImageType::_Default));
}

#[test]
fn shader_desc_with_nul_in_a_name_is_refused() {
    let mut vs = stage("vs", None);
    vs.uniform_blocks[0].uniforms[0].name = "m\0vp";
    let desc = SgShaderDesc { attrs: vec![], vs, fs: SgShaderStageDesc::default() };
    assert_eq!(RawShaderDesc::make(&desc).err().unwrap(), MarshalError::InteriorNul);
}

#[test]
fn shader_desc_with_seventeen_attrs_is_refused() {
    let attr = SgShaderAttrDesc { name: "a", sem_name: "A", sem_index: 0 };
    let desc = SgShaderDesc {
        attrs: vec![attr; 17],
        vs: SgShaderStageDesc::default(),
        fs: SgShaderStageDesc::default(),
    };
    assert_eq!(
        RawShaderDesc::make(&desc).err().unwrap(),
        MarshalError::TooMany { capacity: 16, len: 17 }
    );
}

#[test]
fn shader_desc_with_negative_block_size_is_refused() {
    let mut fs = stage("fs", None);
    fs.uniform_blocks[0].size = -4;
    let desc = SgShaderDesc { attrs: vec![], vs: SgShaderStageDesc::default(), fs };
    assert_eq!(RawShaderDesc::make(&desc).err().unwrap(), MarshalError::OutOfRange);
}

#[test]
fn layout_desc_converts_buffers_and_attrs() {
    let desc = SgLayoutDesc {
        buffers: vec![SgBufferLayoutDesc { stride: 28, step_func: SgVertexStep::PerVertex, step_rate: 1 }],
        attrs: vec![
            SgVertexAttrDesc { buffer_index: 0, offset: 0, format: SgVertexFormat::Float3 },
            SgVertexAttrDesc { buffer_index: 0, offset: 12, format: SgVertexFormat::Float4 },
        ],
    };
    let raw = RawLayoutDesc::make(&desc).unwrap();
    assert_eq!(raw.buffers[0].stride, 28);
    assert_eq!(raw.buffers[0].step_func, SgVertexStep::PerVertex);
    assert_eq!(raw.buffers[0].step_rate, 1);
    assert!(raw.buffers[1..].iter().all(|b| b.stride == 0 && b.step_func == SgVertexStep::_Default));
    assert_eq!(raw.attrs[1].offset, 12);
    assert_eq!(raw.attrs[1].format, SgVertexFormat::Float4);
    assert!(raw.attrs[2..].iter().all(|a| a.format == SgVertexFormat::_Invalid && a.offset == 0));
}

#[test]
fn layout_desc_with_huge_stride_is_refused() {
    let desc = SgLayoutDesc {
        buffers: vec![SgBufferLayoutDesc { stride: (i32::MAX as usize) + 1, ..Default::default() }],
        attrs: vec![],
    };
    assert_eq!(RawLayoutDesc::make(&desc).unwrap_err(), MarshalError::OutOfRange);
}

#[test]
fn pipeline_desc_counts_its_colors() {
    let color = SgColorState { pixel_format: SgPixelFormat::RGBA8, ..Default::default() };
    let desc = SgPipelineDesc {
        shader: SgShader { id: 5 },
        colors: vec![color; 3],
        sample_count: 4,
        blend_color: bits([0.5, 0.5, 0.5, 1.0]),
        ..Default::default()
    };
    let raw = RawPipelineDesc::make(&desc).unwrap();
    assert_eq!(raw.shader, SgShader { id: 5 });
    assert_eq!(raw.color_count, 3);
    assert_eq!(raw.colors[2], color);
    assert_eq!(raw.colors[3], SgColorState::default());
    assert_eq!(raw.sample_count, 4);
    assert_eq!(raw.blend_color, bits([0.5, 0.5, 0.5, 1.0]));
    assert_eq!(raw.start_canary, SG_CANARY);
    assert_eq!(raw.end_canary, SG_CANARY);
    let too_many = SgPipelineDesc { colors: vec![color; 5], ..Default::default() };
    assert_eq!(
        RawPipelineDesc::make(&too_many).unwrap_err(),
        MarshalError::TooMany { capacity: 4, len: 5 }
    );
}

#[test]
fn pass_desc_attachments_in_front() {
    let att = |id: i32| SgAttachmentDesc {
        image: SgImage { id },
        mip_level: 0,
        u: SgAttachmentDescValue::default(),
    };
    let desc = SgPassDesc {
        color_attachments: vec![att(1), att(2), att(3)],
        depth_stencil_attachment: SgAttachmentDesc {
            image: SgImage { id: 4 },
            mip_level: 1,
            u: SgAttachmentDescValue { value: 2 },
        },
    };
    let raw = RawPassDesc::make(&desc).unwrap();
    assert_eq!(raw.color_attachments[2], att(3));
    assert_eq!(raw.color_attachments[3], SgAttachmentDesc::default());
    assert_eq!(raw.depth_stencil_attachment, desc.depth_stencil_attachment);
    let too_many = SgPassDesc { color_attachments: vec![att(1); 5], ..Default::default() };
    assert_eq!(
        RawPassDesc::make(&too_many).unwrap_err(),
        MarshalError::TooMany { capacity: 4, len: 5 }
    );
}

#[test]
fn enum_defaults_and_native_numbers() {
    assert_eq!(SgUsage::default(), SgUsage::_Default);
    assert_eq!(SgVertexFormat::default(), SgVertexFormat::_Invalid);
    assert_eq!(SgPixelFormat::RGBA8.raw(), 23);
    assert_eq!(SgPixelFormat::ForceU32.raw(), 0x7FFF_FFFF);
    assert_eq!(SgResourceState::from_raw(2), Some(SgResourceState::Valid));
    assert_eq!(SgResourceState::from_raw(0x7FFF_FFFF), Some(SgResourceState::ForceU32));
    assert_eq!(SgResourceState::from_raw(7), None);
    assert_eq!(SgBackend::from_raw(SgBackend::D3D11.raw()), Some(SgBackend::D3D11));
}

#[test]
fn unknown_resource_state_reads_as_invalid() {
    assert_eq!(SgResourceState::from_raw_or_invalid(1), SgResourceState::Alloc);
    assert_eq!(SgResourceState::from_raw_or_invalid(12), SgResourceState::Invalid);
}

#[test]
fn c_string_reads_back_as_the_same_text() {
    for s in ["position", "", "ünïcödé", "COLOR0"] {
        let b = c_string(s).unwrap();
        let end = b.iter().position(|&x| x == 0).unwrap();
        assert_eq!(end, b.len() - 1);
        assert_eq!(std::str::from_utf8(&b[..end]).unwrap(), s);
    }
}
