//! What the device's command sequences do to a GL context: the laws below
//! run the commands on the model of `gl_model` and state the context they
//! leave, so they hold whatever commands achieve it.

use crate::command::{
    BufferTarget, BufferUsage, GlCommand, PixelFormat, TexParameterName, TexParameterValue, TextureUnit,
};
use crate::gl_model::{
    lemma_run_concat, lemma_run_delete_framebuffers, lemma_run_disables, lemma_run_enables, lemma_run_one, lemma_run_pointers,
    unit_index, AttribPointer, GlContext,
};
use crate::state::{attach_commands, texture_parameter_commands, DeviceState, ProgramUniforms, program_setup_commands, sampler_commands};
use crate::types::{
    ImageFormat, Platform, RenderTargetMode, TextureFilter, TextureId, TextureSampler, VertexFormat,
    VertexUsageHint,
};
use crate::vertex::{AttribLayout, VertexAttribute};
use vstd::prelude::*;

verus! {

/// The GL context agrees with the device's cache of what is bound, with
/// texture unit 0 active.
pub open spec fn in_sync(s: DeviceState, c: GlContext) -> bool {
    &&& c.active_unit == TextureUnit::Unit0
    &&& c.texture0 == s.bound_color_texture
    &&& c.texture1 == s.bound_mask_texture
    &&& c.program == s.bound_program
    &&& c.framebuffer == s.bound_fbo
}

proof fn lemma_run2(c: GlContext, x: GlCommand, y: GlCommand)
    ensures
        c.run(seq![x, y]) == c.step(x).step(y),
{
    assert(seq![x, y] =~= seq![x] + seq![y]);
    lemma_run_concat(c, seq![x], seq![y]);
    lemma_run_one(c, x);
    lemma_run_one(c.step(x), y);
}

proof fn lemma_run3(c: GlContext, x: GlCommand, y: GlCommand, z: GlCommand)
    ensures
        c.run(seq![x, y, z]) == c.step(x).step(y).step(z),
{
    assert(seq![x, y, z] =~= seq![x, y] + seq![z]);
    lemma_run_concat(c, seq![x, y], seq![z]);
    lemma_run2(c, x, y);
    lemma_run_one(c.step(x).step(y), z);
}

/// Setting the texture parameters sets the filter of the bound texture to the
/// requested one and clamps it at its edges, changing nothing else.
proof fn lemma_run_texture_parameters(c: GlContext, filter: TextureFilter)
    ensures
        ({
            let g = c.run(texture_parameter_commands(filter));
            let t = c.active_texture();
            let want = match filter {
                TextureFilter::Nearest => TexParameterValue::Nearest,
                TextureFilter::Linear => TexParameterValue::Linear,
            };
            &&& g.tex_params.contains_key((t, TexParameterName::MagFilter))
            &&& g.tex_params[(t, TexParameterName::MagFilter)] == want
            &&& g.tex_params.contains_key((t, TexParameterName::MinFilter))
            &&& g.tex_params[(t, TexParameterName::MinFilter)] == want
            &&& g.tex_params.contains_key((t, TexParameterName::WrapS))
            &&& g.tex_params[(t, TexParameterName::WrapS)] == TexParameterValue::ClampToEdge
            &&& g.tex_params.contains_key((t, TexParameterName::WrapT))
            &&& g.tex_params[(t, TexParameterName::WrapT)] == TexParameterValue::ClampToEdge
            &&& g == GlContext { tex_params: g.tex_params, ..c }
        }),
{
    let p = texture_parameter_commands(filter);
    assert(p =~= seq![p[0], p[1]] + seq![p[2], p[3]]);
    lemma_run_concat(c, seq![p[0], p[1]], seq![p[2], p[3]]);
    lemma_run2(c, p[0], p[1]);
    lemma_run2(c.run(seq![p[0], p[1]]), p[2], p[3]);
}

/// Attaching a texture to a list of framebuffers attaches it to each of
/// them and leaves the texture bindings and storage alone.
proof fn lemma_run_attach(c: GlContext, fbos: Seq<u32>, t: u32)
    ensures
        ({
            let g = c.run(attach_commands(fbos, t));
            &&& forall|i: int| 0 <= i < fbos.len() ==> g.attachments.contains_key(#[trigger] fbos[i])
                && g.attachments[fbos[i]] == t
            &&& g.storage == c.storage
            &&& g.active_unit == c.active_unit
            &&& g.texture0 == c.texture0
            &&& g.texture1 == c.texture1
            &&& g.tex_params == c.tex_params
        }),
    decreases fbos.len(),
{
    if fbos.len() > 0 {
        let rest = attach_commands(fbos.drop_last(), t);
        let tail = seq![GlCommand::BindFramebuffer(fbos.last()), GlCommand::FramebufferTexture2D(t)];
        lemma_run_attach(c, fbos.drop_last(), t);
        lemma_run_concat(c, rest, tail);
        lemma_run2(c.run(rest), tail[0], tail[1]);
        let g = c.run(attach_commands(fbos, t));
        assert forall|i: int| 0 <= i < fbos.len() implies g.attachments.contains_key(#[trigger] fbos[i])
            && g.attachments[fbos[i]] == t by {
            if i < fbos.len() - 1 {
                assert(fbos.drop_last()[i] == fbos[i]);
            }
        }
    }
}

proof fn lemma_layout_attributes_distinct(f: VertexFormat)
    ensures
        forall|i: int, j: int| 0 <= i < j < f.layout().len() ==> f.layout()[i].attribute != f.layout()[j].attribute,
        forall|i: int| 0 <= i < f.layout().len() ==> f.enabled_attributes().contains(#[trigger] f.layout()[i].attribute),
{
    crate::laws::law_vertex_layouts_are_consistent(f);
    let l = f.layout();
    match f {
        VertexFormat::DebugColor => {},
        VertexFormat::DebugFont => {},
        VertexFormat::Batch => {},
        VertexFormat::RasterOp => {},
    }
}

/// Running a format's bind commands enables its attributes and points each
/// attribute of its layout at the bound vertex buffer, at its place in the
/// vertex.
proof fn lemma_run_format_bind(c: GlContext, f: VertexFormat)
    ensures
        ({
            let g = c.run(f.bind_commands());
            &&& g.enabled == c.enabled + f.enabled_attributes().to_set()
            &&& forall|i: int| 0 <= i < f.layout().len() ==> g.pointers.contains_key(#[trigger] f.layout()[i].attribute)
                && g.pointers[f.layout()[i].attribute] == AttribPointer {
                    buffer: c.array_buffer,
                    size: f.layout()[i].size,
                    ty: f.layout()[i].ty,
                    normalized: f.layout()[i].normalized,
                    stride: f.stride(),
                    offset: f.layout()[i].offset,
                }
            &&& g.array_buffer == c.array_buffer
            &&& g.element_buffer == c.element_buffer
            &&& g.storage == c.storage
            &&& g.active_unit == c.active_unit
            &&& g.texture0 == c.texture0
            &&& g.texture1 == c.texture1
            &&& g.program == c.program
            &&& g.framebuffer == c.framebuffer
            &&& g.vertex_array == c.vertex_array
        }),
{
    let e = f.enabled_attributes().map_values(|a: VertexAttribute| GlCommand::EnableVertexAttribArray(a));
    let p = f.layout().map_values(|l: AttribLayout| l.pointer_command(f.stride()));
    lemma_run_concat(c, e, p);
    lemma_run_enables(c, f.enabled_attributes());
    lemma_layout_attributes_distinct(f);
    lemma_run_pointers(c.run(e), f.layout(), f.stride());
}

/// On GLES, switching to a known vertex array binds its two buffers and
/// sets up every attribute of its format to read the new vertex buffer,
/// whatever vertex array was bound before; the attribute arrays enabled
/// afterwards are those of the new format, plus those that were enabled and
/// are not the previous array's.
pub proof fn law_gles_bind_vao_reads_new_buffers(s: DeviceState, v: u32, c: GlContext)
    requires
        s.platform.spec_is_gles(),
        s.bound_vao != v,
        s.vaos.contains_key(v),
    ensures
        ({
            let vao = s.vaos[v];
            let f = vao.vertex_format;
            let g = c.run(s.bind_vao_commands(v));
            let prev_known = s.vaos.contains_key(s.bound_vao);
            let prev = s.vaos[s.bound_vao].vertex_format;
            &&& g.array_buffer == vao.vbo_id.0
            &&& g.element_buffer == vao.ibo_id.0
            &&& forall|i: int| 0 <= i < f.layout().len() ==> {
                &&& g.enabled.contains(#[trigger] f.layout()[i].attribute)
                &&& g.pointers.contains_key(f.layout()[i].attribute)
                &&& g.pointers[f.layout()[i].attribute] == AttribPointer {
                    buffer: vao.vbo_id.0,
                    size: f.layout()[i].size,
                    ty: f.layout()[i].ty,
                    normalized: f.layout()[i].normalized,
                    stride: f.stride(),
                    offset: f.layout()[i].offset,
                }
            }
            &&& forall|a: VertexAttribute| #[trigger] g.enabled.contains(a) <==> (f.enabled_attributes().contains(a) || (
                c.enabled.contains(a) && !(prev_known && prev.enabled_attributes().contains(a))))
        }),
{
    let vao = s.vaos[v];
    let f = vao.vertex_format;
    let prev_known = s.vaos.contains_key(s.bound_vao);
    let prev = s.vaos[s.bound_vao].vertex_format;
    let u = if prev_known {
        prev.unbind_commands()
    } else {
        seq![]
    };
    let bb = seq![
        GlCommand::BindBuffer(BufferTarget::Array, vao.vbo_id.0),
        GlCommand::BindBuffer(BufferTarget::ElementArray, vao.ibo_id.0),
    ];
    assert(s.bind_vao_commands(v) == u + bb + f.bind_commands());
    lemma_run_concat(c, u + bb, f.bind_commands());
    lemma_run_concat(c, u, bb);
    let c1 = c.run(u);
    if prev_known {
        lemma_run_disables(c, prev.enabled_attributes());
    } else {
        assert(c1 == c);
    }
    lemma_run2(c1, bb[0], bb[1]);
    let c2 = c.run(u + bb);
    lemma_run_format_bind(c2, f);
    lemma_layout_attributes_distinct(f);
    let g = c.run(s.bind_vao_commands(v));
    assert(c1.enabled == c.enabled - (if prev_known { prev.enabled_attributes().to_set() } else { Set::empty() })) by {
        if !prev_known {
            assert(c.enabled - Set::<VertexAttribute>::empty() =~= c.enabled);
        }
    }
    assert forall|a: VertexAttribute| #[trigger] g.enabled.contains(a) <==> (f.enabled_attributes().contains(a) || (
        c.enabled.contains(a) && !(prev_known && prev.enabled_attributes().contains(a)))) by {
        assert(f.enabled_attributes().to_set().contains(a) == f.enabled_attributes().contains(a));
        if prev_known {
            assert(prev.enabled_attributes().to_set().contains(a) == prev.enabled_attributes().contains(a));
        }
    }
    assert forall|i: int| 0 <= i < f.layout().len() implies g.enabled.contains(#[trigger] f.layout()[i].attribute) by {
        assert(f.enabled_attributes().contains(f.layout()[i].attribute));
    }
}

/// On desktop GL, switching vertex arrays binds the requested vertex array
/// object; rebinding the bound one issues nothing; either way the device
/// records it as bound.
pub proof fn law_desktop_bind_vao_binds_it(s: DeviceState, v: u32, c: GlContext)
    requires
        !s.platform.spec_is_gles(),
    ensures
        s.bound_vao != v ==> c.run(s.bind_vao_commands(v)).vertex_array == v,
        s.bound_vao == v ==> c.run(s.bind_vao_commands(v)) == c,
        s.with_vao(v).bound_vao == v,
{
    if s.bound_vao != v {
        lemma_run_one(c, GlCommand::BindVertexArray(v));
    }
}

/// Binding a texture through the color unit's cache leaves it bound to
/// texture unit 0, when the context agreed with the cache.
proof fn lemma_run_bind_color(s: DeviceState, c: GlContext, t: u32)
    requires
        c.active_unit == TextureUnit::Unit0,
        c.texture0 == s.bound_color_texture,
    ensures
        ({
            let g = c.run(s.bind_color_texture_commands(t));
            &&& g.active_unit == TextureUnit::Unit0
            &&& g.texture0 == t
            &&& g.texture1 == c.texture1
            &&& g.storage == c.storage
            &&& g.program == c.program
            &&& g.framebuffer == c.framebuffer
            &&& g.deleted_textures == c.deleted_textures
        }),
{
    if s.bound_color_texture != t {
        lemma_run_one(c, GlCommand::BindTexture(t));
    } else {
        assert(c.run(s.bind_color_texture_commands(t)) == c);
    }
}

/// Initialising a texture allocates storage of exactly the requested width
/// and height for that texture (the size it reads back afterwards), in the
/// pixel format its image format calls for on the platform; a render target
/// is attached to every framebuffer it was given, after which the default
/// framebuffer is bound again. This holds when the GL context agreed with
/// the device's cache of the color texture, with unit 0 active.
pub proof fn law_init_texture_allocates_requested_storage(
    s: DeviceState,
    c: GlContext,
    t: u32,
    width: u32,
    height: u32,
    format: ImageFormat,
    filter: TextureFilter,
    mode: RenderTargetMode,
    fbo_names: Seq<u32>,
    with_pixels: bool,
)
    requires
        s.textures.contains_key(t),
        format != ImageFormat::Invalid,
        c.active_unit == TextureUnit::Unit0,
        c.texture0 == s.bound_color_texture,
    ensures
        ({
            let g = c.run(s.init_texture_commands(t, width, height, format, filter, mode, fbo_names, with_pixels));
            let st = g.storage[t];
            &&& g.storage.contains_key(t)
            &&& st.width == width as i32
            &&& st.height == height as i32
            &&& s.after_init_texture(t, width, height, format, mode, fbo_names).texture_dimensions(t) == (width, height)
            &&& format == ImageFormat::RGB8 ==> st.internal_format == PixelFormat::Rgb && st.format == PixelFormat::Rgb
            &&& format == ImageFormat::A8 ==> st.internal_format == st.format && (s.platform.spec_is_gles() ==> st.format
                == PixelFormat::Alpha) && (!s.platform.spec_is_gles() ==> st.format == PixelFormat::Red)
            &&& format == ImageFormat::RGBA8 ==> st.format == PixelFormat::Bgra && (s.platform == Platform::Android
                ==> st.internal_format == PixelFormat::Bgra) && (s.platform != Platform::Android ==> st.internal_format
                == PixelFormat::Rgba)
            &&& g.active_unit == TextureUnit::Unit0
            &&& g.texture0 == t
            &&& mode == RenderTargetMode::RenderTarget ==> s.after_init_texture(t, width, height, format, mode, fbo_names).bound_color_texture == t
            &&& mode == RenderTargetMode::NoTarget ==> s.after_init_texture(t, width, height, format, mode, fbo_names).bound_color_texture == s.bound_color_texture
            &&& mode == RenderTargetMode::NoTarget ==> st.with_pixels == with_pixels
            &&& mode == RenderTargetMode::RenderTarget ==> !st.with_pixels
            &&& g.tex_params.contains_key((t, TexParameterName::MagFilter))
            &&& g.tex_params.contains_key((t, TexParameterName::MinFilter))
            &&& g.tex_params.contains_key((t, TexParameterName::WrapS))
            &&& g.tex_params.contains_key((t, TexParameterName::WrapT))
            &&& g.tex_params[(t, TexParameterName::MagFilter)] == g.tex_params[(t, TexParameterName::MinFilter)]
            &&& filter == TextureFilter::Nearest ==> g.tex_params[(t, TexParameterName::MagFilter)]
                == TexParameterValue::Nearest
            &&& filter == TextureFilter::Linear ==> g.tex_params[(t, TexParameterName::MagFilter)]
                == TexParameterValue::Linear
            &&& g.tex_params[(t, TexParameterName::WrapS)] == TexParameterValue::ClampToEdge
            &&& g.tex_params[(t, TexParameterName::WrapT)] == TexParameterValue::ClampToEdge
            &&& mode == RenderTargetMode::RenderTarget ==> {
                &&& forall|i: int| 0 <= i < fbo_names.len() ==> g.attachments.contains_key(#[trigger] fbo_names[i])
                    && g.attachments[fbo_names[i]] == t
                &&& g.framebuffer == s.default_fbo
            }
        }),
{
    let cmds = s.init_texture_commands(t, width, height, format, filter, mode, fbo_names, with_pixels);
    let (internal, gl_format) = crate::state::upload_formats(s.platform, format);
    let p = texture_parameter_commands(filter);
    match mode {
        RenderTargetMode::RenderTarget => {
            let b = s.bind_color_texture_commands(t);
            let ti = seq![
                GlCommand::TexImage2D {
                    internal_format: internal,
                    width: width as i32,
                    height: height as i32,
                    format: gl_format,
                    with_pixels: false,
                },
            ];
            let a = attach_commands(fbo_names, t);
            let bf = seq![GlCommand::BindFramebuffer(s.default_fbo)];
            assert(cmds == b + p + ti + a + bf);
            lemma_run_concat(c, b + p + ti + a, bf);
            lemma_run_concat(c, b + p + ti, a);
            lemma_run_concat(c, b + p, ti);
            lemma_run_concat(c, b, p);
            lemma_run_bind_color(s, c, t);
            lemma_run_texture_parameters(c.run(b), filter);
            lemma_run_one(c.run(b + p), ti[0]);
            lemma_run_attach(c.run(b + p + ti), fbo_names, t);
            lemma_run_one(c.run(b + p + ti + a), bf[0]);
        },
        RenderTargetMode::NoTarget => {
            let b = seq![GlCommand::BindTexture(t)];
            let ti = seq![
                GlCommand::TexImage2D {
                    internal_format: internal,
                    width: width as i32,
                    height: height as i32,
                    format: gl_format,
                    with_pixels,
                },
            ];
            assert(cmds == b + p + ti);
            lemma_run_concat(c, b + p, ti);
            lemma_run_concat(c, b, p);
            lemma_run_one(c, b[0]);
            lemma_run_texture_parameters(c.run(b), filter);
            lemma_run_one(c.run(b + p), ti[0]);
        },
    }
}

proof fn lemma_run_sampler(c: GlContext, location: i32, sampler: TextureSampler)
    ensures
        ({
            let g = c.run(sampler_commands(location, sampler));
            &&& g.program == c.program
            &&& location != -1 ==> g.int_uniforms == c.int_uniforms.insert((c.program, location), sampler.spec_unit() as int)
            &&& location == -1 ==> g.int_uniforms == c.int_uniforms
        }),
{
    if location != -1 {
        lemma_run_one(c, GlCommand::UniformSampler { location, sampler });
    } else {
        assert(c.run(sampler_commands(location, sampler)) == c);
    }
}

/// A new program's mask samplers (`sMask`, `sMask2D`) read texture unit 1,
/// where `bind_mask_texture` binds the mask texture, and its color samplers
/// (`sDiffuse`, `sDiffuse2D`) read texture unit 0, where
/// `bind_color_texture` binds the color texture. (Of two samplers at one
/// location the later one set wins; they are set in the order sDiffuse,
/// sMask, sDiffuse2D, sMask2D.)
pub proof fn law_create_program_points_samplers_at_their_units(
    s: DeviceState,
    c: GlContext,
    p: u32,
    u: ProgramUniforms,
    t: u32,
)
    ensures
        ({
            let g = c.run(program_setup_commands(p, u));
            &&& g.program == p
            &&& u.mask_2d != -1 ==> g.int_uniforms.contains_key((p, u.mask_2d)) && g.int_uniforms[(p, u.mask_2d)]
                == unit_index(TextureUnit::Unit1)
            &&& u.mask != -1 && u.mask != u.diffuse_2d ==> g.int_uniforms.contains_key((p, u.mask))
                && g.int_uniforms[(p, u.mask)] == unit_index(TextureUnit::Unit1)
            &&& u.diffuse_2d != -1 && u.diffuse_2d != u.mask_2d ==> g.int_uniforms.contains_key((p, u.diffuse_2d))
                && g.int_uniforms[(p, u.diffuse_2d)] == unit_index(TextureUnit::Unit0)
            &&& u.diffuse != -1 && u.diffuse != u.mask && u.diffuse != u.diffuse_2d && u.diffuse != u.mask_2d
                ==> g.int_uniforms.contains_key((p, u.diffuse)) && g.int_uniforms[(p, u.diffuse)] == unit_index(
                TextureUnit::Unit0,
            )
        }),
        s.bound_mask_texture != t ==> {
            let m = c.run(s.bind_mask_texture_commands(t));
            &&& m.texture1 == t
            &&& m.active_unit == TextureUnit::Unit0
            &&& m.texture0 == c.texture0
        },
        c.active_unit == TextureUnit::Unit0 && c.texture0 == s.bound_color_texture ==> c.run(
            s.bind_color_texture_commands(t),
        ).texture0 == t,
{
    let s0 = seq![GlCommand::UseProgram(p)];
    let s1 = sampler_commands(u.diffuse, TextureSampler::Color);
    let s2 = sampler_commands(u.mask, TextureSampler::Mask);
    let s3 = sampler_commands(u.diffuse_2d, TextureSampler::Color);
    let s4 = sampler_commands(u.mask_2d, TextureSampler::Mask);
    let d = if u.device_pixel_ratio != -1 {
        seq![GlCommand::UniformDevicePixelRatio(u.device_pixel_ratio)]
    } else {
        seq![]
    };
    assert(program_setup_commands(p, u) == s0 + s1 + s2 + s3 + s4 + d);
    lemma_run_concat(c, s0 + s1 + s2 + s3 + s4, d);
    lemma_run_concat(c, s0 + s1 + s2 + s3, s4);
    lemma_run_concat(c, s0 + s1 + s2, s3);
    lemma_run_concat(c, s0 + s1, s2);
    lemma_run_concat(c, s0, s1);
    lemma_run_one(c, s0[0]);
    lemma_run_sampler(c.run(s0), u.diffuse, TextureSampler::Color);
    lemma_run_sampler(c.run(s0 + s1), u.mask, TextureSampler::Mask);
    lemma_run_sampler(c.run(s0 + s1 + s2), u.diffuse_2d, TextureSampler::Color);
    lemma_run_sampler(c.run(s0 + s1 + s2 + s3), u.mask_2d, TextureSampler::Mask);
    let c5 = c.run(s0 + s1 + s2 + s3 + s4);
    if u.device_pixel_ratio != -1 {
        lemma_run_one(c5, d[0]);
    } else {
        assert(c5.run(d) == c5);
    }
    if s.bound_mask_texture != t {
        lemma_run3(c, GlCommand::ActiveTexture(TextureUnit::Unit1), GlCommand::BindTexture(t), GlCommand::ActiveTexture(TextureUnit::Unit0));
    }
    if c.active_unit == TextureUnit::Unit0 && c.texture0 == s.bound_color_texture {
        lemma_run_bind_color(s, c, t);
    }
}

/// Beginning a frame leaves any GL context with unit 0 active, no texture
/// on either unit, no program and its framebuffer untouched; so when the
/// frame is begun with the framebuffer binding the context reports, the
/// context agrees with the device afterwards.
pub proof fn law_begin_frame_syncs_gl(s: DeviceState, c: GlContext, framebuffer_binding: i32)
    ensures
        ({
            let g = c.run(s.begin_frame_commands());
            &&& g.active_unit == TextureUnit::Unit0
            &&& g.texture0 == 0 && g.texture1 == 0 && g.program == 0
            &&& g.framebuffer == c.framebuffer
            &&& g.unpack_alignment == 1
            &&& !s.platform.spec_is_gles() ==> g.vertex_array == 0
            &&& s.platform.spec_is_gles() ==> forall|i: int| 0 <= i < crate::vertex::all_attributes().len()
                ==> !g.enabled.contains(#[trigger] crate::vertex::all_attributes()[i])
            &&& c.framebuffer == #[verifier::truncate] (framebuffer_binding as u32) ==> in_sync(
                s.after_begin_frame(framebuffer_binding),
                g,
            )
        }),
{
    let a = seq![
        GlCommand::ActiveTexture(TextureUnit::Unit0),
        GlCommand::BindTexture(0),
        GlCommand::ActiveTexture(TextureUnit::Unit1),
    ];
    let b = seq![GlCommand::BindTexture(0), GlCommand::UseProgram(0)];
    let cl = s.clear_vertex_array_commands();
    let e = seq![GlCommand::PixelStoreUnpackAlignment(1), GlCommand::ActiveTexture(TextureUnit::Unit0)];
    assert(s.begin_frame_commands() == a + b + cl + e);
    lemma_run_concat(c, a + b + cl, e);
    lemma_run_concat(c, a + b, cl);
    lemma_run_concat(c, a, b);
    lemma_run3(c, a[0], a[1], a[2]);
    lemma_run2(c.run(a), b[0], b[1]);
    let c2 = c.run(a + b);
    if s.platform.spec_is_gles() {
        let all = crate::vertex::all_attributes();
        lemma_run_disables(c2, all);
        lemma_run2(c.run(a + b + cl), e[0], e[1]);
        let g = c.run(s.begin_frame_commands());
        assert(cl == all.map_values(|a: VertexAttribute| GlCommand::DisableVertexAttribArray(a)));
        assert(g.enabled == c2.run(cl).enabled);
        assert forall|i: int| 0 <= i < all.len() implies !g.enabled.contains(#[trigger] all[i]) by {
            assert(all.contains(all[i]));
            assert(all.to_set().contains(all[i]));
        }
    } else {
        lemma_run_one(c2, GlCommand::BindVertexArray(0));
    }
    lemma_run2(c.run(a + b + cl), e[0], e[1]);
}

/// Switching the color texture, the mask texture, the render target or the
/// program keeps a GL context that agreed with the device in agreement with
/// it.
pub proof fn law_binds_keep_gl_in_sync(
    s: DeviceState,
    c: GlContext,
    t: u32,
    target: Option<TextureId>,
    program: u32,
)
    requires
        in_sync(s, c),
    ensures
        in_sync(s.with_color_texture(t), c.run(s.bind_color_texture_commands(t))),
        in_sync(s.with_mask_texture(t), c.run(s.bind_mask_texture_commands(t))),
        in_sync(s.with_render_target(target), c.run(s.bind_render_target_commands(target))),
        in_sync(s.with_program(program), c.run(s.bind_program_commands(program))),
{
    lemma_run_bind_color(s, c, t);
    if s.bound_mask_texture != t {
        lemma_run3(c, GlCommand::ActiveTexture(TextureUnit::Unit1), GlCommand::BindTexture(t), GlCommand::ActiveTexture(TextureUnit::Unit0));
    } else {
        assert(c.run(s.bind_mask_texture_commands(t)) == c);
    }
    if s.bound_fbo != s.render_target_fbo(target) {
        lemma_run_one(c, GlCommand::BindFramebuffer(s.render_target_fbo(target)));
    } else {
        assert(c.run(s.bind_render_target_commands(target)) == c);
    }
    let tr = seq![GlCommand::UniformTransform(s.programs[program].u_transform)];
    if s.bound_program != program {
        assert(s.bind_program_commands(program) == seq![GlCommand::UseProgram(program)] + tr);
        lemma_run_concat(c, seq![GlCommand::UseProgram(program)], tr);
        lemma_run_one(c, GlCommand::UseProgram(program));
        lemma_run_one(c.step(GlCommand::UseProgram(program)), tr[0]);
    } else {
        assert(s.bind_program_commands(program) =~= tr);
        lemma_run_one(c, tr[0]);
    }
}

/// Ending a frame leaves the default framebuffer bound and no texture on
/// unit 0 and no program in use.
pub proof fn law_end_frame_restores_defaults(s: DeviceState, c: GlContext)
    requires
        in_sync(s, c),
    ensures
        ({
            let g = c.run(s.end_frame_commands());
            &&& g.framebuffer == s.default_fbo
            &&& g.active_unit == TextureUnit::Unit0
            &&& g.texture0 == 0
            &&& g.program == 0
        }),
{
    let b = s.bind_render_target_commands(None);
    let t = seq![GlCommand::BindTexture(0), GlCommand::UseProgram(0)];
    assert(s.end_frame_commands() == b + t);
    lemma_run_concat(c, b, t);
    if s.bound_fbo != s.default_fbo {
        lemma_run_one(c, GlCommand::BindFramebuffer(s.default_fbo));
    } else {
        assert(c.run(b) == c);
    }
    lemma_run2(c.run(b), t[0], t[1]);
}

/// Deinitialising a texture leaves it bound to unit 0 with empty RGB
/// storage, deletes every framebuffer it rendered into, and does not delete
/// the texture itself.
pub proof fn law_deinit_texture_releases_storage(s: DeviceState, c: GlContext, t: u32)
    requires
        s.textures.contains_key(t),
        c.active_unit == TextureUnit::Unit0,
        c.texture0 == s.bound_color_texture,
    ensures
        ({
            let g = c.run(s.deinit_texture_commands(t));
            &&& g.texture0 == t
            &&& g.storage.contains_key(t)
            &&& g.storage[t].width == 0 && g.storage[t].height == 0
            &&& g.storage[t].internal_format == PixelFormat::Rgb && g.storage[t].format == PixelFormat::Rgb
            &&& forall|i: int| 0 <= i < s.textures[t].fbo_ids.len() ==> g.deleted_framebuffers.contains(
                #[trigger] s.textures[t].fbo_ids[i].0,
            )
            &&& g.deleted_textures == c.deleted_textures
            &&& s.after_deinit_texture(t).bound_color_texture == t
            &&& s.after_deinit_texture(t).textures[t].fbo_ids.len() == 0
            &&& s.after_deinit_texture(t).texture_dimensions(t) == (0u32, 0u32)
        }),
{
    let b = s.bind_color_texture_commands(t);
    let ti = seq![
        GlCommand::TexImage2D {
            internal_format: PixelFormat::Rgb,
            width: 0,
            height: 0,
            format: PixelFormat::Rgb,
            with_pixels: false,
        },
    ];
    let d = crate::state::delete_framebuffer_commands(s.textures[t].fbo_ids);
    assert(s.deinit_texture_commands(t) == b + ti + d);
    lemma_run_concat(c, b + ti, d);
    lemma_run_concat(c, b, ti);
    lemma_run_bind_color(s, c, t);
    lemma_run_one(c.run(b), ti[0]);
    lemma_run_delete_framebuffers(c.run(b + ti), s.textures[t].fbo_ids);
}

/// Updating a texture writes the requested rectangle into that texture, in
/// the pixel format of its image format on the platform.
pub proof fn law_update_texture_writes_requested_rect(
    s: DeviceState,
    c: GlContext,
    t: u32,
    x0: u32,
    y0: u32,
    width: u32,
    height: u32,
)
    requires
        s.textures.contains_key(t),
        c.active_unit == TextureUnit::Unit0,
        c.texture0 == s.bound_color_texture,
    ensures
        ({
            let g = c.run(s.update_texture_commands(t, x0, y0, width, height));
            let f = s.textures[t].format;
            &&& g.last_sub_image matches Some((tex, x, y, w, h, pf)) && {
                &&& tex == t
                &&& x == x0 as i32 && y == y0 as i32 && w == width as i32 && h == height as i32
                &&& f == ImageFormat::RGB8 ==> pf == PixelFormat::Rgb
                &&& f == ImageFormat::RGBA8 ==> pf == PixelFormat::Bgra
                &&& f == ImageFormat::A8 && s.platform.spec_is_gles() ==> pf == PixelFormat::Alpha
                &&& f == ImageFormat::A8 && !s.platform.spec_is_gles() ==> pf == PixelFormat::Red
            }
            &&& g.texture0 == t
            &&& g.storage == c.storage
        }),
{
    let b = s.bind_color_texture_commands(t);
    let u = s.update_texture_commands(t, x0, y0, width, height);
    assert(u == b + seq![u[b.len() as int]]);
    lemma_run_concat(c, b, seq![u[b.len() as int]]);
    lemma_run_bind_color(s, c, t);
    lemma_run_one(c.run(b), u[b.len() as int]);
}

/// Reading back a framebuffer rectangle copies exactly that rectangle into
/// the given texture.
pub proof fn law_read_framebuffer_rect_copies_into_texture(
    s: DeviceState,
    c: GlContext,
    t: u32,
    x: i32,
    y: i32,
    width: i32,
    height: i32,
)
    requires
        c.active_unit == TextureUnit::Unit0,
        c.texture0 == s.bound_color_texture,
    ensures
        c.run(s.read_framebuffer_rect_commands(t, x, y, width, height)).last_copy == Some((t, x, y, width, height)),
{
    let b = s.bind_color_texture_commands(t);
    let cp = seq![GlCommand::CopyTexSubImage2D { x, y, width, height }];
    assert(s.read_framebuffer_rect_commands(t, x, y, width, height) == b + cp);
    lemma_run_concat(c, b, cp);
    lemma_run_bind_color(s, c, t);
    lemma_run_one(c.run(b), cp[0]);
}

/// A new vertex array records the buffers and format it was created with.
/// On desktop GL it is set up so that its element buffer is the index
/// buffer and every attribute of its format reads the vertex buffer at its
/// place, and it is unbound again; on GLES nothing is issued.
pub proof fn law_create_vao_sets_up_buffers(
    s: DeviceState,
    c: GlContext,
    format: VertexFormat,
    vertex_array: u32,
    vbo: u32,
    ibo: u32,
)
    ensures
        ({
            let id = s.new_vao_id(vertex_array);
            let vao = s.after_create_vao(format, vertex_array, vbo, ibo).vaos[id];
            &&& vao.vbo_id.0 == vbo && vao.ibo_id.0 == ibo && vao.vertex_format == format && vao.id == id
        }),
        s.platform.spec_is_gles() ==> s.create_vao_commands(format, vertex_array, vbo, ibo).len() == 0
            && s.new_vao_id(vertex_array) == s.next_vao_id,
        !s.platform.spec_is_gles() ==> {
            let g = c.run(s.create_vao_commands(format, vertex_array, vbo, ibo));
            &&& s.new_vao_id(vertex_array) == vertex_array
            &&& g.vertex_array == 0
            &&& g.array_buffer == vbo
            &&& g.element_buffer == ibo
            &&& forall|i: int| 0 <= i < format.layout().len() ==> {
                &&& g.enabled.contains(#[trigger] format.layout()[i].attribute)
                &&& g.pointers.contains_key(format.layout()[i].attribute)
                &&& g.pointers[format.layout()[i].attribute] == AttribPointer {
                    buffer: vbo,
                    size: format.layout()[i].size,
                    ty: format.layout()[i].ty,
                    normalized: format.layout()[i].normalized,
                    stride: format.stride(),
                    offset: format.layout()[i].offset,
                }
            }
        },
{
    if !s.platform.spec_is_gles() {
        let a = seq![
            GlCommand::BindVertexArray(vertex_array),
            GlCommand::BindBuffer(BufferTarget::Array, vbo),
            GlCommand::BindBuffer(BufferTarget::ElementArray, ibo),
        ];
        let z = seq![GlCommand::BindVertexArray(0)];
        assert(s.create_vao_commands(format, vertex_array, vbo, ibo) == a + format.bind_commands() + z);
        lemma_run_concat(c, a + format.bind_commands(), z);
        lemma_run_concat(c, a, format.bind_commands());
        lemma_run3(c, a[0], a[1], a[2]);
        lemma_run_format_bind(c.run(a), format);
        lemma_layout_attributes_distinct(format);
        lemma_run_one(c.run(a + format.bind_commands()), z[0]);
        let g = c.run(s.create_vao_commands(format, vertex_array, vbo, ibo));
        assert forall|i: int| 0 <= i < format.layout().len() implies g.enabled.contains(
            #[trigger] format.layout()[i].attribute,
        ) by {
            assert(format.enabled_attributes().contains(format.layout()[i].attribute));
            assert(format.enabled_attributes().to_set().contains(format.layout()[i].attribute));
        }
    }
}

/// Filling a vertex array's buffers fills its own vertex buffer (for
/// vertices) or index buffer (for indices), with the usage the hint names.
pub proof fn law_update_vao_fills_its_buffers(s: DeviceState, c: GlContext, v: u32, usage: VertexUsageHint)
    requires
        s.vaos.contains_key(v),
    ensures
        ({
            let want = match usage {
                VertexUsageHint::Static => BufferUsage::StaticDraw,
                VertexUsageHint::Dynamic => BufferUsage::DynamicDraw,
            };
            &&& c.run(s.update_vao_commands(v, BufferTarget::Array, usage)).last_upload == Some(
                (BufferTarget::Array, s.vaos[v].vbo_id.0, want),
            )
            &&& c.run(s.update_vao_commands(v, BufferTarget::ElementArray, usage)).last_upload == Some(
                (BufferTarget::ElementArray, s.vaos[v].ibo_id.0, want),
            )
        }),
{
    let a = s.update_vao_commands(v, BufferTarget::Array, usage);
    let e = s.update_vao_commands(v, BufferTarget::ElementArray, usage);
    lemma_run2(c, a[0], a[1]);
    lemma_run2(c, e[0], e[1]);
    assert(a == seq![a[0], a[1]]);
    assert(e == seq![e[0], e[1]]);
}

proof fn lemma_run_attrib_locations(c: GlContext, p: u32, attrs: Seq<VertexAttribute>)
    requires
        attrs.no_duplicates(),
    ensures
        ({
            let g = c.run(attrs.map_values(|a: VertexAttribute| GlCommand::BindAttribLocation { program: p, attribute: a }));
            &&& forall|i: int| 0 <= i < attrs.len() ==> g.attrib_locations.contains_key((p, #[trigger] attrs[i]))
                && g.attrib_locations[(p, attrs[i])] == attrs[i].spec_index()
            &&& g.attached_shaders == c.attached_shaders
            &&& g.linked_programs == c.linked_programs
        }),
    decreases attrs.len(),
{
    let cmds = attrs.map_values(|a: VertexAttribute| GlCommand::BindAttribLocation { program: p, attribute: a });
    if attrs.len() > 0 {
        lemma_run_attrib_locations(c, p, attrs.drop_last());
        assert(cmds.drop_last() =~= attrs.drop_last().map_values(
            |a: VertexAttribute| GlCommand::BindAttribLocation { program: p, attribute: a },
        ));
        let g = c.run(cmds);
        assert forall|i: int| 0 <= i < attrs.len() implies g.attrib_locations.contains_key((p, #[trigger] attrs[i]))
            && g.attrib_locations[(p, attrs[i])] == attrs[i].spec_index() by {
            if i < attrs.len() - 1 {
                assert(attrs.drop_last()[i] == attrs[i]);
                assert(attrs[i] != attrs[attrs.len() - 1]);
            }
        }
    }
}

/// Assembling a program attaches both its shaders, binds the i-th vertex
/// attribute (in location order) to location i, and links the program.
pub proof fn law_program_link_binds_attribute_locations(c: GlContext, p: u32, vs: u32, fs: u32)
    ensures
        ({
            let g = c.run(crate::state::program_link_commands(p, vs, fs));
            let all = crate::vertex::all_attributes();
            &&& g.attached_shaders.contains((p, vs))
            &&& g.attached_shaders.contains((p, fs))
            &&& all.len() == 10
            &&& forall|i: int| 0 <= i < all.len() ==> g.attrib_locations.contains_key((p, #[trigger] all[i]))
                && g.attrib_locations[(p, all[i])] == i
            &&& g.linked_programs.contains(p)
        }),
{
    let all = crate::vertex::all_attributes();
    let a = seq![GlCommand::AttachShader { program: p, shader: vs }, GlCommand::AttachShader { program: p, shader: fs }];
    let b = all.map_values(|x: VertexAttribute| GlCommand::BindAttribLocation { program: p, attribute: x });
    let l = seq![GlCommand::LinkProgram(p)];
    assert(crate::state::program_link_commands(p, vs, fs) == a + b + l);
    lemma_run_concat(c, a + b, l);
    lemma_run_concat(c, a, b);
    lemma_run2(c, a[0], a[1]);
    assert(all.no_duplicates()) by {
        assert forall|i: int, j: int| 0 <= i < all.len() && 0 <= j < all.len() && i != j implies all[i] != all[j] by {
            assert(all[i].spec_index() == i) by {
                if i == 0 {} else if i == 1 {} else if i == 2 {} else if i == 3 {} else if i == 4 {} else if i == 5 {}
                else if i == 6 {} else if i == 7 {} else if i == 8 {} else {}
            }
            assert(all[j].spec_index() == j) by {
                if j == 0 {} else if j == 1 {} else if j == 2 {} else if j == 3 {} else if j == 4 {} else if j == 5 {}
                else if j == 6 {} else if j == 7 {} else if j == 8 {} else {}
            }
        }
    }
    lemma_run_attrib_locations(c.run(a), p, all);
    lemma_run_one(c.run(a + b), l[0]);
    let g = c.run(a + b + l);
    assert forall|i: int| 0 <= i < all.len() implies g.attrib_locations.contains_key((p, #[trigger] all[i]))
        && g.attrib_locations[(p, all[i])] == i by {
        if i == 0 {} else if i == 1 {} else if i == 2 {} else if i == 3 {} else if i == 4 {} else if i == 5 {}
        else if i == 6 {} else if i == 7 {} else if i == 8 {} else {}
    }
}

/// Deleting a vertex array deletes both its buffers and, on desktop GL, the
/// vertex array object itself.
pub proof fn law_delete_vao_deletes_its_objects(s: DeviceState, c: GlContext, v: u32)
    requires
        s.wf(),
        s.vaos.contains_key(v),
    ensures
        ({
            let g = c.run(s.vaos[v].spec_release_commands(s.platform));
            &&& g.deleted_buffers.contains(s.vaos[v].vbo_id.0)
            &&& g.deleted_buffers.contains(s.vaos[v].ibo_id.0)
            &&& !s.platform.spec_is_gles() ==> g.deleted_vertex_arrays.contains(v)
            &&& g.deleted_textures == c.deleted_textures
            &&& g.deleted_programs == c.deleted_programs
        }),
{
    let vao = s.vaos[v];
    if s.platform.spec_is_gles() {
        lemma_run2(c, GlCommand::DeleteBuffer(vao.vbo_id.0), GlCommand::DeleteBuffer(vao.ibo_id.0));
    } else {
        lemma_run3(
            c,
            GlCommand::DeleteVertexArray(vao.id),
            GlCommand::DeleteBuffer(vao.vbo_id.0),
            GlCommand::DeleteBuffer(vao.ibo_id.0),
        );
    }
}

} // verus!
