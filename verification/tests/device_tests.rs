use webrender_device::command::{
    AttribType, BufferTarget, BufferUsage, GlCommand, IndexType, PixelFormat, PrimitiveMode,
    TexParameterName, TexParameterValue, TextureUnit,
};
use webrender_device::device::{texture_update_format, texture_upload_formats, Device};
use webrender_device::state::{ProgramUniform, ProgramUniforms};
use webrender_device::types::{
    ImageFormat, Platform, ProgramId, RenderTargetMode, TextureFilter, TextureId, TextureSampler,
    VAOId, VertexFormat, VertexUsageHint,
};
use webrender_device::vertex::VertexAttribute;

fn started(platform: Platform) -> Device {
    let mut d = Device::new(platform);
    d.begin_frame(7);
    d
}

fn uniforms() -> ProgramUniforms {
    ProgramUniforms {
        transform: 3,
        diffuse: 4,
        mask: -1,
        diffuse_2d: 5,
        mask_2d: -1,
        device_pixel_ratio: 6,
    }
}

#[test]
fn new_device_is_idle() {
    let d = Device::new(Platform::Desktop);
    assert!(!d.inside_frame());
    assert_eq!(d.bound_color_texture(), TextureId(0));
    assert_eq!(d.bound_fbo().name(), 0);
    assert_eq!(d.platform(), Platform::Desktop);
}

#[test]
fn begin_frame_desktop_commands() {
    let mut d = Device::new(Platform::Desktop);
    let cmds = d.begin_frame(42);
    assert_eq!(
        cmds,
        vec![
            GlCommand::ActiveTexture(TextureUnit::Unit0),
            GlCommand::BindTexture(0),
            GlCommand::ActiveTexture(TextureUnit::Unit1),
            GlCommand::BindTexture(0),
            GlCommand::UseProgram(0),
            GlCommand::BindVertexArray(0),
            GlCommand::PixelStoreUnpackAlignment(1),
            GlCommand::ActiveTexture(TextureUnit::Unit0),
        ]
    );
    assert!(d.inside_frame());
    assert_eq!(d.default_fbo(), 42);
    assert_eq!(d.bound_fbo().name(), 42);
}

#[test]
fn begin_frame_gles_disables_every_attribute() {
    let mut d = Device::new(Platform::Android);
    let cmds = d.begin_frame(0);
    assert_eq!(cmds.len(), 17);
    assert_eq!(cmds[5], GlCommand::DisableVertexAttribArray(VertexAttribute::Position));
    assert_eq!(cmds[14], GlCommand::DisableVertexAttribArray(VertexAttribute::Misc));
    assert_eq!(cmds[15], GlCommand::PixelStoreUnpackAlignment(1));
}

#[test]
fn begin_frame_resets_bindings() {
    let mut d = started(Platform::Desktop);
    d.bind_color_texture(TextureId(5));
    d.bind_mask_texture(TextureId(6));
    d.end_frame();
    d.begin_frame(9);
    assert_eq!(d.bound_color_texture(), TextureId(0));
    assert_eq!(d.bound_mask_texture(), TextureId(0));
    assert_eq!(d.bound_program(), ProgramId(0));
    assert_eq!(d.bound_vao(), VAOId(0));
    assert_eq!(d.bound_fbo().name(), 9);
}

#[test]
fn negative_framebuffer_binding_wraps() {
    let mut d = Device::new(Platform::Desktop);
    d.begin_frame(-1);
    assert_eq!(d.default_fbo(), u32::MAX);
}

#[test]
fn color_texture_bind_is_cached() {
    let mut d = started(Platform::Desktop);
    assert_eq!(d.bind_color_texture(TextureId(3)), vec![GlCommand::BindTexture(3)]);
    assert_eq!(d.bind_color_texture(TextureId(3)), vec![]);
    assert_eq!(d.bound_color_texture(), TextureId(3));
}

#[test]
fn mask_texture_bind_switches_units() {
    let mut d = started(Platform::Desktop);
    assert_eq!(
        d.bind_mask_texture(TextureId(4)),
        vec![
            GlCommand::ActiveTexture(TextureUnit::Unit1),
            GlCommand::BindTexture(4),
            GlCommand::ActiveTexture(TextureUnit::Unit0),
        ]
    );
    assert_eq!(d.bind_mask_texture(TextureId(4)), vec![]);
}

#[test]
fn end_frame_rebinds_default_framebuffer() {
    let mut d = started(Platform::Desktop);
    let ids = d.create_texture_ids(vec![10]);
    d.init_texture(ids[0], 4, 4, ImageFormat::RGBA8, TextureFilter::Linear, RenderTargetMode::RenderTarget, vec![20], None);
    assert_eq!(d.bind_render_target(Some(ids[0])), vec![GlCommand::BindFramebuffer(20)]);
    let cmds = d.end_frame();
    assert_eq!(
        cmds,
        vec![GlCommand::BindFramebuffer(7), GlCommand::BindTexture(0), GlCommand::UseProgram(0)]
    );
    assert!(!d.inside_frame());
}

#[test]
fn end_frame_without_change_skips_framebuffer() {
    let mut d = started(Platform::Desktop);
    assert_eq!(d.end_frame(), vec![GlCommand::BindTexture(0), GlCommand::UseProgram(0)]);
}

#[test]
fn render_target_bind_is_cached() {
    let mut d = started(Platform::Desktop);
    assert_eq!(d.bind_render_target(None), vec![]);
}

#[test]
fn created_textures_are_uninitialised() {
    let mut d = started(Platform::Desktop);
    let ids = d.create_texture_ids(vec![11, 12, 13]);
    assert_eq!(ids, vec![TextureId(11), TextureId(12), TextureId(13)]);
    assert_eq!(d.texture_format(TextureId(12)), Some(ImageFormat::Invalid));
    assert_eq!(d.get_texture_dimensions(TextureId(13)), (0, 0));
    assert!(!d.texture_has_alpha(TextureId(11)));
    assert_eq!(d.texture_format(TextureId(14)), None);
}

#[test]
fn init_texture_reads_back() {
    let mut d = started(Platform::Desktop);
    let ids = d.create_texture_ids(vec![5]);
    d.init_texture(ids[0], 64, 32, ImageFormat::RGBA8, TextureFilter::Nearest, RenderTargetMode::NoTarget, vec![], None);
    assert_eq!(d.get_texture_dimensions(ids[0]), (64, 32));
    assert!(d.texture_has_alpha(ids[0]));
    d.init_texture(ids[0], 8, 8, ImageFormat::A8, TextureFilter::Nearest, RenderTargetMode::NoTarget, vec![], None);
    assert!(!d.texture_has_alpha(ids[0]));
}

#[test]
fn init_plain_texture_commands() {
    let mut d = started(Platform::Desktop);
    let ids = d.create_texture_ids(vec![5]);
    let pixels = [0u8; 12];
    let cmds = d.init_texture(ids[0], 2, 2, ImageFormat::RGB8, TextureFilter::Linear, RenderTargetMode::NoTarget, vec![], Some(&pixels[..]));
    assert_eq!(
        cmds,
        vec![
            GlCommand::BindTexture(5),
            GlCommand::TexParameter(TexParameterName::MagFilter, TexParameterValue::Linear),
            GlCommand::TexParameter(TexParameterName::MinFilter, TexParameterValue::Linear),
            GlCommand::TexParameter(TexParameterName::WrapS, TexParameterValue::ClampToEdge),
            GlCommand::TexParameter(TexParameterName::WrapT, TexParameterValue::ClampToEdge),
            GlCommand::TexImage2D {
                internal_format: PixelFormat::Rgb,
                width: 2,
                height: 2,
                format: PixelFormat::Rgb,
                with_pixels: true,
            },
        ]
    );
    // a plain texture is bound directly, not through the color unit's cache
    assert_eq!(d.bound_color_texture(), TextureId(0));
}

#[test]
fn init_render_target_commands() {
    let mut d = started(Platform::Desktop);
    let ids = d.create_texture_ids(vec![5]);
    let cmds = d.init_texture(ids[0], 16, 16, ImageFormat::RGBA8, TextureFilter::Nearest, RenderTargetMode::RenderTarget, vec![30], None);
    assert_eq!(
        cmds,
        vec![
            GlCommand::BindTexture(5),
            GlCommand::TexParameter(TexParameterName::MagFilter, TexParameterValue::Nearest),
            GlCommand::TexParameter(TexParameterName::MinFilter, TexParameterValue::Nearest),
            GlCommand::TexParameter(TexParameterName::WrapS, TexParameterValue::ClampToEdge),
            GlCommand::TexParameter(TexParameterName::WrapT, TexParameterValue::ClampToEdge),
            GlCommand::TexImage2D {
                internal_format: PixelFormat::Rgba,
                width: 16,
                height: 16,
                format: PixelFormat::Bgra,
                with_pixels: false,
            },
            GlCommand::BindFramebuffer(30),
            GlCommand::FramebufferTexture2D(5),
            GlCommand::BindFramebuffer(7),
        ]
    );
    assert_eq!(d.bound_color_texture(), TextureId(5));
    // the framebuffer cache did not follow the raw binds
    assert_eq!(d.bound_fbo().name(), 7);
}

#[test]
fn large_width_wraps_when_cast() {
    let mut d = started(Platform::Desktop);
    let ids = d.create_texture_ids(vec![5]);
    let cmds = d.init_texture(ids[0], u32::MAX, 1, ImageFormat::A8, TextureFilter::Nearest, RenderTargetMode::NoTarget, vec![], None);
    assert_eq!(
        cmds[5],
        GlCommand::TexImage2D {
            internal_format: PixelFormat::Red,
            width: -1,
            height: 1,
            format: PixelFormat::Red,
            with_pixels: false,
        }
    );
}

#[test]
fn upload_formats_by_platform() {
    assert_eq!(texture_upload_formats(Platform::Desktop, ImageFormat::A8), (PixelFormat::Red, PixelFormat::Red));
    assert_eq!(texture_upload_formats(Platform::Gonk, ImageFormat::A8), (PixelFormat::Alpha, PixelFormat::Alpha));
    assert_eq!(texture_upload_formats(Platform::Android, ImageFormat::RGBA8), (PixelFormat::Bgra, PixelFormat::Bgra));
    assert_eq!(texture_upload_formats(Platform::Gonk, ImageFormat::RGBA8), (PixelFormat::Rgba, PixelFormat::Bgra));
    assert_eq!(texture_upload_formats(Platform::Desktop, ImageFormat::RGB8), (PixelFormat::Rgb, PixelFormat::Rgb));
    assert_eq!(texture_update_format(Platform::Desktop, ImageFormat::RGBA8), (PixelFormat::Bgra, 4));
    assert_eq!(texture_update_format(Platform::Android, ImageFormat::A8), (PixelFormat::Alpha, 1));
    assert_eq!(texture_update_format(Platform::Desktop, ImageFormat::RGB8), (PixelFormat::Rgb, 3));
}

#[test]
fn deinit_undoes_init() {
    let mut d = started(Platform::Desktop);
    let ids = d.create_texture_ids(vec![5]);
    d.init_texture(ids[0], 16, 16, ImageFormat::RGBA8, TextureFilter::Nearest, RenderTargetMode::RenderTarget, vec![30], None);
    let cmds = d.deinit_texture(ids[0]);
    assert_eq!(
        cmds,
        vec![
            GlCommand::TexImage2D {
                internal_format: PixelFormat::Rgb,
                width: 0,
                height: 0,
                format: PixelFormat::Rgb,
                with_pixels: false,
            },
            GlCommand::DeleteFramebuffer(30),
        ]
    );
    assert_eq!(d.texture_format(ids[0]), Some(ImageFormat::Invalid));
    assert_eq!(d.get_texture_dimensions(ids[0]), (0, 0));
    // a second deinit has no framebuffer left to delete
    let again = d.deinit_texture(ids[0]);
    assert_eq!(again.len(), 1);
}

#[test]
fn raw_texture_dimensions() {
    let mut d = Device::new(Platform::Desktop);
    d.update_raw_texture(TextureId(99), 1, 2, 300, 400);
    assert_eq!(d.get_texture_dimensions(TextureId(99)), (300, 400));
    assert!(d.texture_has_alpha(TextureId(99)));
    d.update_raw_texture(TextureId(99), 0, 0, 5, 6);
    assert_eq!(d.get_texture_dimensions(TextureId(99)), (5, 6));
}

#[test]
fn device_texture_shadows_raw_texture() {
    let mut d = Device::new(Platform::Desktop);
    d.update_raw_texture(TextureId(3), 0, 0, 50, 50);
    d.create_texture_ids(vec![3]);
    assert_eq!(d.get_texture_dimensions(TextureId(3)), (0, 0));
}

#[test]
fn update_texture_commands() {
    let mut d = started(Platform::Desktop);
    let ids = d.create_texture_ids(vec![5]);
    d.init_texture(ids[0], 16, 16, ImageFormat::A8, TextureFilter::Nearest, RenderTargetMode::NoTarget, vec![], None);
    let data = [0u8; 6];
    let cmds = d.update_texture_for_noncomposite_operation(ids[0], 1, 2, 3, 2, &data);
    assert_eq!(
        cmds,
        vec![
            GlCommand::BindTexture(5),
            GlCommand::TexSubImage2D { x0: 1, y0: 2, width: 3, height: 2, format: PixelFormat::Red },
        ]
    );
    let again = d.update_texture_for_noncomposite_operation(ids[0], 0, 0, 3, 2, &data);
    assert_eq!(again.len(), 1);
}

#[test]
fn read_framebuffer_rect_commands() {
    let mut d = started(Platform::Desktop);
    let cmds = d.read_framebuffer_rect(TextureId(8), -1, 2, 30, 40);
    assert_eq!(
        cmds,
        vec![
            GlCommand::BindTexture(8),
            GlCommand::CopyTexSubImage2D { x: -1, y: 2, width: 30, height: 40 },
        ]
    );
}

#[test]
fn program_link_commands_bind_every_attribute() {
    let d = started(Platform::Desktop);
    let cmds = d.program_link_commands(9, 1, 2);
    assert_eq!(cmds.len(), 13);
    assert_eq!(cmds[0], GlCommand::AttachShader { program: 9, shader: 1 });
    assert_eq!(cmds[1], GlCommand::AttachShader { program: 9, shader: 2 });
    assert_eq!(cmds[2], GlCommand::BindAttribLocation { program: 9, attribute: VertexAttribute::Position });
    assert_eq!(cmds[11], GlCommand::BindAttribLocation { program: 9, attribute: VertexAttribute::Misc });
    assert_eq!(cmds[12], GlCommand::LinkProgram(9));
}

#[test]
fn create_program_sets_present_uniforms() {
    let mut d = started(Platform::Desktop);
    let (pid, cmds) = d.create_program(9, uniforms());
    assert_eq!(pid, ProgramId(9));
    assert_eq!(
        cmds,
        vec![
            GlCommand::UseProgram(9),
            GlCommand::UniformSampler { location: 4, sampler: TextureSampler::Color },
            GlCommand::UniformSampler { location: 5, sampler: TextureSampler::Color },
            GlCommand::UniformDevicePixelRatio(6),
        ]
    );
    // creating a program does not touch the bound-program cache
    assert_eq!(d.bound_program(), ProgramId(0));
    assert_eq!(d.program(pid).unwrap().u_transform, 3);
}

#[test]
fn bind_program_sets_transform_each_time() {
    let mut d = started(Platform::Desktop);
    let (pid, _) = d.create_program(9, uniforms());
    assert_eq!(d.bind_program(pid), vec![GlCommand::UseProgram(9), GlCommand::UniformTransform(3)]);
    assert_eq!(d.bind_program(pid), vec![GlCommand::UniformTransform(3)]);
}

#[test]
fn desktop_vao_lifecycle() {
    let mut d = started(Platform::Desktop);
    let (vao, cmds) = d.create_vao(VertexFormat::DebugColor, 40, 41, 42);
    assert_eq!(vao, VAOId(40));
    assert_eq!(cmds.len(), 3 + 4 + 1);
    assert_eq!(cmds[0], GlCommand::BindVertexArray(40));
    assert_eq!(cmds[1], GlCommand::BindBuffer(BufferTarget::Array, 41));
    assert_eq!(cmds[2], GlCommand::BindBuffer(BufferTarget::ElementArray, 42));
    assert_eq!(cmds[7], GlCommand::BindVertexArray(0));
    assert_eq!(d.bind_vao(vao), vec![GlCommand::BindVertexArray(40)]);
    assert_eq!(d.bind_vao(vao), vec![]);
    assert_eq!(
        d.update_vao_vertices(vao, VertexUsageHint::Dynamic),
        vec![
            GlCommand::BindBuffer(BufferTarget::Array, 41),
            GlCommand::BufferData(BufferTarget::Array, BufferUsage::DynamicDraw),
        ]
    );
    assert_eq!(
        d.update_vao_indices(vao, VertexUsageHint::Static),
        vec![
            GlCommand::BindBuffer(BufferTarget::ElementArray, 42),
            GlCommand::BufferData(BufferTarget::ElementArray, BufferUsage::StaticDraw),
        ]
    );
    let deleted = d.delete_vao(vao);
    assert_eq!(
        deleted,
        vec![GlCommand::DeleteVertexArray(40), GlCommand::DeleteBuffer(41), GlCommand::DeleteBuffer(42)]
    );
    assert_eq!(d.bound_vao(), VAOId(0));
    assert!(d.vao(vao).is_none());
}

#[test]
fn gles_vao_ids_count_up() {
    let mut d = started(Platform::Gonk);
    let (a, cmds) = d.create_vao(VertexFormat::Batch, 0, 1, 2);
    assert!(cmds.is_empty());
    let (b, _) = d.create_vao(VertexFormat::DebugFont, 0, 3, 4);
    assert_eq!(a, VAOId(1));
    assert_eq!(b, VAOId(2));
}

#[test]
fn gles_bind_vao_swaps_attribute_sets() {
    let mut d = started(Platform::Android);
    let (a, _) = d.create_vao(VertexFormat::DebugColor, 0, 1, 2);
    let (b, _) = d.create_vao(VertexFormat::DebugFont, 0, 3, 4);
    let first = d.bind_vao(a);
    assert_eq!(first.len(), 2 + 2 + 2);
    assert_eq!(first[0], GlCommand::BindBuffer(BufferTarget::Array, 1));
    let second = d.bind_vao(b);
    assert_eq!(
        second[..4].to_vec(),
        vec![
            GlCommand::DisableVertexAttribArray(VertexAttribute::Position),
            GlCommand::DisableVertexAttribArray(VertexAttribute::Color),
            GlCommand::BindBuffer(BufferTarget::Array, 3),
            GlCommand::BindBuffer(BufferTarget::ElementArray, 4),
        ]
    );
    assert_eq!(second.len(), 4 + 3 + 3);
    let deleted = d.delete_vao(b);
    assert_eq!(deleted, vec![GlCommand::DeleteBuffer(3), GlCommand::DeleteBuffer(4)]);
    assert_eq!(d.bound_vao(), VAOId(0));
}

#[test]
fn deleting_unbound_vao_keeps_binding() {
    let mut d = started(Platform::Desktop);
    let (a, _) = d.create_vao(VertexFormat::Batch, 1, 2, 3);
    let (b, _) = d.create_vao(VertexFormat::Batch, 4, 5, 6);
    d.bind_vao(a);
    d.delete_vao(b);
    assert_eq!(d.bound_vao(), a);
}

#[test]
fn draw_offsets() {
    let mut d = started(Platform::Desktop);
    assert_eq!(
        d.draw_triangles_u16(6, 12),
        vec![GlCommand::DrawElements {
            mode: PrimitiveMode::Triangles,
            count: 12,
            index_type: IndexType::UnsignedShort,
            offset: 12,
        }]
    );
    assert_eq!(
        d.draw_triangles_u32(6, 12),
        vec![GlCommand::DrawElements {
            mode: PrimitiveMode::Triangles,
            count: 12,
            index_type: IndexType::UnsignedInt,
            offset: 24,
        }]
    );
    assert_eq!(
        d.draw_nonindexed_lines(3, 8),
        vec![GlCommand::DrawArrays { mode: PrimitiveMode::Lines, first: 3, count: 8 }]
    );
    let big = d.draw_triangles_u16(i32::MAX, 1);
    assert_eq!(
        big[0],
        GlCommand::DrawElements {
            mode: PrimitiveMode::Triangles,
            count: 1,
            index_type: IndexType::UnsignedShort,
            offset: u32::MAX - 1,
        }
    );
}

#[test]
fn vertex_format_batch_layout() {
    let cmds = VertexFormat::Batch.bind();
    assert_eq!(cmds.len(), 10);
    assert_eq!(cmds[0], GlCommand::EnableVertexAttribArray(VertexAttribute::Position));
    assert_eq!(cmds[4], GlCommand::EnableVertexAttribArray(VertexAttribute::Misc));
    assert_eq!(
        cmds[8],
        GlCommand::VertexAttribPointer {
            attribute: VertexAttribute::MaskTexCoord,
            size: 2,
            ty: AttribType::UnsignedShort,
            normalized: false,
            stride: 28,
            offset: 20,
        }
    );
}

#[test]
fn vertex_format_raster_op_layout() {
    let cmds = VertexFormat::RasterOp.bind();
    assert_eq!(cmds.len(), 18);
    assert_eq!(
        cmds[16],
        GlCommand::VertexAttribPointer {
            attribute: VertexAttribute::BlurRadius,
            size: 1,
            ty: AttribType::Float,
            normalized: false,
            stride: 72,
            offset: 64,
        }
    );
    let unbind = VertexFormat::RasterOp.unbind();
    assert_eq!(unbind.len(), 9);
    assert_eq!(unbind[5], GlCommand::DisableVertexAttribArray(VertexAttribute::BlurRadius));
}

#[test]
fn vertex_format_debug_layouts() {
    let font = VertexFormat::DebugFont.bind();
    assert_eq!(font.len(), 6);
    assert_eq!(
        font[4],
        GlCommand::VertexAttribPointer {
            attribute: VertexAttribute::Color,
            size: 4,
            ty: AttribType::UnsignedByte,
            normalized: true,
            stride: 20,
            offset: 8,
        }
    );
    assert_eq!(VertexFormat::DebugColor.unbind().len(), 2);
}

#[test]
fn attribute_indices_and_names() {
    assert_eq!(VertexAttribute::Position.index(), 0);
    assert_eq!(VertexAttribute::Misc.index(), 9);
    assert_eq!(VertexAttribute::SourceTextureSize.name(), "aSourceTextureSize");
    assert_eq!(ProgramUniform::DevicePixelRatio.name(), "uDevicePixelRatio");
    assert_eq!(ProgramUniform::Diffuse2D.name(), "sDiffuse2D");
    assert_eq!(TextureSampler::Mask.unit(), 1);
    assert_eq!(VertexUsageHint::Static.to_gl(), BufferUsage::StaticDraw);
    assert_eq!(TextureId::invalid(), TextureId(0));
}

#[test]
fn shader_preambles_by_platform() {
    assert_eq!(Platform::Desktop.vertex_shader_preamble(), "gl3_common.vs.glsl");
    assert_eq!(Platform::Android.fragment_shader_preamble(), "es2_common.fs.glsl");
    assert_eq!(Platform::Gonk.vertex_shader_preamble(), "es2_common.vs.glsl");
    assert!(!Platform::Desktop.is_gles());
}

#[test]
fn release_deletes_everything() {
    let mut d = started(Platform::Desktop);
    let ids = d.create_texture_ids(vec![5, 6]);
    d.init_texture(ids[0], 4, 4, ImageFormat::RGBA8, TextureFilter::Nearest, RenderTargetMode::RenderTarget, vec![30], None);
    d.create_program(9, uniforms());
    d.create_vao(VertexFormat::Batch, 40, 41, 42);
    let cmds = d.release();
    assert_eq!(cmds.len(), 2 + 1 + 1 + 3);
    for c in [
        GlCommand::DeleteTexture(5),
        GlCommand::DeleteTexture(6),
        GlCommand::DeleteFramebuffer(30),
        GlCommand::DeleteProgram(9),
        GlCommand::DeleteVertexArray(40),
        GlCommand::DeleteBuffer(41),
        GlCommand::DeleteBuffer(42),
    ] {
        assert!(cmds.contains(&c));
    }
    let fb = cmds.iter().position(|c| *c == GlCommand::DeleteFramebuffer(30)).unwrap();
    let tex = cmds.iter().position(|c| *c == GlCommand::DeleteTexture(5)).unwrap();
    assert_eq!(fb + 1, tex);
    let prog = cmds.iter().position(|c| *c == GlCommand::DeleteProgram(9)).unwrap();
    assert_eq!(prog, 3);
}
