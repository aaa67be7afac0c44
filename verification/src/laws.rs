//! Properties of the device that hold across operations.

use crate::command::GlCommand;
use crate::state::{
    fresh_texture, is_key_order, release_programs, release_textures, release_vaos, DeviceState,
    TextureState, VAO,
};
use crate::state::ProgramUniforms;
use crate::command::AttribType;
use crate::types::{ImageFormat, RenderTargetMode, TextureId, VertexFormat};
use crate::vertex::{attrib, VertexAttribute};
use vstd::prelude::*;

verus! {

/// Binding the texture that the color unit already holds issues nothing and
/// changes nothing; so binding the same texture twice in a row issues
/// commands at most once.
pub proof fn law_color_texture_bind_is_cached(s: DeviceState, t: u32)
    ensures
        s.with_color_texture(t).bind_color_texture_commands(t) == Seq::<GlCommand>::empty(),
        s.with_color_texture(t).with_color_texture(t) == s.with_color_texture(t),
        s.bound_color_texture == t ==> s.with_color_texture(t) == s,
{
    assert(s.with_color_texture(t).bind_color_texture_commands(t) =~= Seq::<GlCommand>::empty());
}

/// The same for the mask unit.
pub proof fn law_mask_texture_bind_is_cached(s: DeviceState, t: u32)
    ensures
        s.with_mask_texture(t).bind_mask_texture_commands(t) == Seq::<GlCommand>::empty(),
        s.with_mask_texture(t).with_mask_texture(t) == s.with_mask_texture(t),
        s.bound_mask_texture == t ==> s.with_mask_texture(t) == s,
{
    assert(s.with_mask_texture(t).bind_mask_texture_commands(t) =~= Seq::<GlCommand>::empty());
}

/// Rebinding the render target that is bound issues nothing.
pub proof fn law_render_target_bind_is_cached(s: DeviceState, target: Option<TextureId>)
    ensures
        s.with_render_target(target).bind_render_target_commands(target) == Seq::<GlCommand>::empty(),
        s.with_render_target(target).with_render_target(target) == s.with_render_target(target),
{
    assert(s.with_render_target(target).bind_render_target_commands(target) =~= Seq::<GlCommand>::empty());
}

/// Rebinding the bound program only sets its transform again.
pub proof fn law_program_bind_is_cached(s: DeviceState, p: u32)
    ensures
        s.with_program(p).bind_program_commands(p) == seq![
            GlCommand::UniformTransform(s.programs[p].u_transform),
        ],
{
    assert(s.with_program(p).bind_program_commands(p) =~= seq![
        GlCommand::UniformTransform(s.programs[p].u_transform),
    ]);
}

/// Rebinding the bound vertex array issues nothing.
pub proof fn law_vao_bind_is_cached(s: DeviceState, v: u32)
    ensures
        s.with_vao(v).bind_vao_commands(v) == Seq::<GlCommand>::empty(),
        s.with_vao(v).with_vao(v) == s.with_vao(v),
{
}

/// A frame starts with no texture, program or vertex array bound, rendering
/// into the framebuffer that was bound when it started; ending it goes back
/// to that framebuffer and leaves the frame.
pub proof fn law_frame_lifecycle(s: DeviceState, framebuffer_binding: i32)
    requires
        !s.inside_frame,
    ensures
        ({
            let f = s.after_begin_frame(framebuffer_binding);
            &&& f.inside_frame
            &&& f.bound_color_texture == 0 && f.bound_mask_texture == 0
            &&& f.bound_program == 0 && f.bound_vao == 0
            &&& f.bound_fbo == f.default_fbo
            &&& !f.after_end_frame().inside_frame
            &&& f.after_end_frame().bound_fbo == f.default_fbo
            &&& f.end_frame_commands() == seq![GlCommand::BindTexture(0), GlCommand::UseProgram(0)]
        }),
{
    let f = s.after_begin_frame(framebuffer_binding);
    assert(f.end_frame_commands() =~= seq![GlCommand::BindTexture(0), GlCommand::UseProgram(0)]);
}

/// Once a texture is initialised, its dimensions are the ones it was given
/// and it has alpha exactly when it is RGBA8.
pub proof fn law_texture_reads_back_init(
    s: DeviceState,
    t: u32,
    width: u32,
    height: u32,
    format: ImageFormat,
    mode: RenderTargetMode,
    fbo_names: Seq<u32>,
)
    requires
        s.textures.contains_key(t),
    ensures
        s.after_init_texture(t, width, height, format, mode, fbo_names).texture_dimensions(t) == (width, height),
        s.after_init_texture(t, width, height, format, mode, fbo_names).texture_has_alpha(t) == (format == ImageFormat::RGBA8),
{
}

/// A texture the device did not create reports the size it was last given.
pub proof fn law_raw_texture_reads_back(s: DeviceState, t: u32, x0: u32, y0: u32, width: u32, height: u32)
    requires
        !s.textures.contains_key(t),
    ensures
        s.after_update_raw_texture(t, x0, y0, width, height).texture_dimensions(t) == (width, height),
        s.after_update_raw_texture(t, x0, y0, width, height).texture_has_alpha(t),
{
}

/// Textures come into being uninitialised, and deinitialising a texture
/// returns it to exactly that state, whatever it was initialised with.
pub proof fn law_deinit_undoes_init(
    s: DeviceState,
    names: Seq<u32>,
    t: u32,
    width: u32,
    height: u32,
    format: ImageFormat,
    mode: RenderTargetMode,
    fbo_names: Seq<u32>,
)
    requires
        names.contains(t),
    ensures
        ({
            let created = s.after_create_textures(names);
            &&& created.textures[t] == fresh_texture(t)
            &&& created.after_init_texture(t, width, height, format, mode, fbo_names).after_deinit_texture(t).textures
                == created.textures
        }),
{
    let created = s.after_create_textures(names);
    let back = created.after_init_texture(t, width, height, format, mode, fbo_names).after_deinit_texture(t);
    assert(back.textures =~= created.textures);
}

/// A texture initialised as a render target with framebuffers can be
/// rendered into, and rendering into it binds its first framebuffer.
pub proof fn law_render_target_renders_to_first_fbo(
    s: DeviceState,
    t: u32,
    width: u32,
    height: u32,
    format: ImageFormat,
    fbo_names: Seq<u32>,
)
    requires
        s.textures.contains_key(t),
        fbo_names.len() > 0,
    ensures
        ({
            let after = s.after_init_texture(t, width, height, format, RenderTargetMode::RenderTarget, fbo_names);
            &&& after.can_render_to(Some(TextureId(t)))
            &&& after.render_target_fbo(Some(TextureId(t))) == fbo_names[0]
            &&& after.with_render_target(Some(TextureId(t))).bound_fbo == fbo_names[0]
        }),
{
}

/// Deleting a vertex array right after creating it leaves the table of
/// vertex arrays as it was, and a deleted array is never left bound.
pub proof fn law_delete_undoes_create_vao(
    s: DeviceState,
    format: VertexFormat,
    vertex_array: u32,
    vbo: u32,
    ibo: u32,
)
    requires
        s.wf(),
        s.can_create_vao(vertex_array),
    ensures
        ({
            let id = s.new_vao_id(vertex_array);
            let created = s.after_create_vao(format, vertex_array, vbo, ibo);
            &&& !s.vaos.contains_key(id)
            &&& created.vaos.contains_key(id)
            &&& created.after_delete_vao(id).vaos == s.vaos
            &&& created.after_delete_vao(id).bound_vao != id || id == 0
        }),
{
    let id = s.new_vao_id(vertex_array);
    let created = s.after_create_vao(format, vertex_array, vbo, ibo);
    assert(created.after_delete_vao(id).vaos =~= s.vaos);
}

proof fn lemma_release_textures_deletes(m: Map<u32, TextureState>, keys: Seq<u32>, i: int)
    requires
        0 <= i < keys.len(),
    ensures
        release_textures(m, keys).contains(GlCommand::DeleteTexture(m[keys[i]].id)),
    decreases keys.len(),
{
    let last = m[keys.last()].release_commands();
    let rest = release_textures(m, keys.drop_last());
    if i == keys.len() - 1 {
        assert(last[last.len() - 1] == GlCommand::DeleteTexture(m[keys[i]].id));
        assert((rest + last)[rest.len() + last.len() - 1] == GlCommand::DeleteTexture(m[keys[i]].id));
    } else {
        lemma_release_textures_deletes(m, keys.drop_last(), i);
        let j = choose|j: int| 0 <= j < rest.len() && rest[j] == GlCommand::DeleteTexture(m[keys[i]].id);
        assert((rest + last)[j] == rest[j]);
    }
}

proof fn lemma_release_vaos_deletes_buffers(m: Map<u32, VAO>, keys: Seq<u32>, p: crate::types::Platform, i: int)
    requires
        0 <= i < keys.len(),
    ensures
        release_vaos(m, keys, p).contains(GlCommand::DeleteBuffer(m[keys[i]].vbo_id.0)),
        release_vaos(m, keys, p).contains(GlCommand::DeleteBuffer(m[keys[i]].ibo_id.0)),
    decreases keys.len(),
{
    let last = m[keys.last()].spec_release_commands(p);
    let rest = release_vaos(m, keys.drop_last(), p);
    if i == keys.len() - 1 {
        let n: int = rest.len() as int;
        if p.spec_is_gles() {
            assert((rest + last)[n] == GlCommand::DeleteBuffer(m[keys[i]].vbo_id.0));
            assert((rest + last)[n + 1] == GlCommand::DeleteBuffer(m[keys[i]].ibo_id.0));
        } else {
            assert((rest + last)[n + 1] == GlCommand::DeleteBuffer(m[keys[i]].vbo_id.0));
            assert((rest + last)[n + 2] == GlCommand::DeleteBuffer(m[keys[i]].ibo_id.0));
        }
    } else {
        lemma_release_vaos_deletes_buffers(m, keys.drop_last(), p, i);
        let j = choose|j: int| 0 <= j < rest.len() && rest[j] == GlCommand::DeleteBuffer(m[keys[i]].vbo_id.0);
        assert((rest + last)[j] == rest[j]);
        let k = choose|k: int| 0 <= k < rest.len() && rest[k] == GlCommand::DeleteBuffer(m[keys[i]].ibo_id.0);
        assert((rest + last)[k] == rest[k]);
    }
}

/// Releasing the device deletes every texture it holds and both buffers of
/// every vertex array it holds, whatever order its tables are walked in.
pub proof fn law_release_deletes_everything(
    s: DeviceState,
    texture_keys: Seq<u32>,
    program_keys: Seq<u32>,
    vao_keys: Seq<u32>,
)
    requires
        s.wf(),
        is_key_order(texture_keys, s.textures.dom()),
        is_key_order(program_keys, s.programs.dom()),
        is_key_order(vao_keys, s.vaos.dom()),
    ensures
        forall|t: u32| #[trigger] s.textures.contains_key(t) ==>
            s.release_commands(texture_keys, program_keys, vao_keys).contains(GlCommand::DeleteTexture(t)),
        forall|v: u32| #[trigger] s.vaos.contains_key(v) ==> {
            &&& s.release_commands(texture_keys, program_keys, vao_keys).contains(GlCommand::DeleteBuffer(s.vaos[v].vbo_id.0))
            &&& s.release_commands(texture_keys, program_keys, vao_keys).contains(GlCommand::DeleteBuffer(s.vaos[v].ibo_id.0))
        },
{
    let all = s.release_commands(texture_keys, program_keys, vao_keys);
    let a = release_textures(s.textures, texture_keys);
    let b = crate::state::release_programs(s.programs, program_keys);
    let c = release_vaos(s.vaos, vao_keys, s.platform);
    assert(all == a + b + c);
    assert forall|t: u32| #[trigger] s.textures.contains_key(t) implies all.contains(GlCommand::DeleteTexture(t)) by {
        assert(texture_keys.to_set().contains(t));
        let i = choose|i: int| 0 <= i < texture_keys.len() && texture_keys[i] == t;
        lemma_release_textures_deletes(s.textures, texture_keys, i);
        let j = choose|j: int| 0 <= j < a.len() && a[j] == GlCommand::DeleteTexture(t);
        assert(all[j] == a[j]);
    }
    assert forall|v: u32| #[trigger] s.vaos.contains_key(v) implies {
        &&& all.contains(GlCommand::DeleteBuffer(s.vaos[v].vbo_id.0))
        &&& all.contains(GlCommand::DeleteBuffer(s.vaos[v].ibo_id.0))
    } by {
        assert(vao_keys.to_set().contains(v));
        let i = choose|i: int| 0 <= i < vao_keys.len() && vao_keys[i] == v;
        lemma_release_vaos_deletes_buffers(s.vaos, vao_keys, s.platform, i);
        let j = choose|j: int| 0 <= j < c.len() && c[j] == GlCommand::DeleteBuffer(s.vaos[v].vbo_id.0);
        assert(all[a.len() + b.len() + j] == c[j]);
        let k = choose|k: int| 0 <= k < c.len() && c[k] == GlCommand::DeleteBuffer(s.vaos[v].ibo_id.0);
        assert(all[a.len() + b.len() + k] == c[k]);
    }
}

/// In every vertex format, the attributes whose arrays are enabled are
/// exactly the attributes laid out in the vertex, each laid out once; the
/// attributes occupy increasing, disjoint byte ranges that fit in the
/// vertex; and unbinding disables exactly the arrays that binding enabled.
pub proof fn law_vertex_layouts_are_consistent(f: VertexFormat)
    ensures
        f.enabled_attributes().no_duplicates(),
        f.layout().len() == f.enabled_attributes().len(),
        forall|i: int| 0 <= i < f.layout().len() ==> f.enabled_attributes().contains(#[trigger] f.layout()[i].attribute),
        forall|i: int| 0 <= i < f.layout().len() - 1 ==> #[trigger] f.layout()[i].end() <= f.layout()[i + 1].offset,
        f.layout().len() > 0,
        f.layout()[0].offset == 0,
        f.layout().last().end() <= f.stride(),
        forall|i: int| 0 <= i < f.enabled_attributes().len() ==>
            f.unbind_commands()[i] == GlCommand::DisableVertexAttribArray(#[trigger] f.enabled_attributes()[i])
            && f.bind_commands()[i] == GlCommand::EnableVertexAttribArray(f.enabled_attributes()[i]),
{
    let e = f.enabled_attributes();
    let l = f.layout();
    match f {
        VertexFormat::DebugFont => {
            assert(e[0] == l[0].attribute && e[1] == l[1].attribute && e[2] == l[2].attribute);
        },
        VertexFormat::DebugColor => {
            assert(e[0] == l[0].attribute && e[1] == l[1].attribute);
        },
        VertexFormat::Batch => {
            assert(e[0] == l[0].attribute && e[1] == l[1].attribute && e[2] == l[2].attribute);
            assert(e[3] == l[3].attribute && e[4] == l[4].attribute);
        },
        VertexFormat::RasterOp => {
            assert(e[0] == l[0].attribute && e[1] == l[1].attribute && e[2] == l[2].attribute);
            assert(e[3] == l[3].attribute && e[4] == l[4].attribute);
            assert(e[5] == l[7].attribute && e[6] == l[5].attribute && e[7] == l[6].attribute);
            assert(e[8] == l[8].attribute);
        },
    }
}

/// Every operation keeps the device well formed: its tables stay keyed by
/// the names of what they hold, and on GLES the next emulated vertex array
/// id stays above every id handed out.
pub proof fn law_operations_preserve_wf(
    s: DeviceState,
    framebuffer_binding: i32,
    t: u32,
    target: Option<TextureId>,
    names: Seq<u32>,
    width: u32,
    height: u32,
    format: ImageFormat,
    mode: RenderTargetMode,
    fbo_names: Seq<u32>,
    program: u32,
    uniforms: ProgramUniforms,
    vertex_format: VertexFormat,
    vertex_array: u32,
    vbo: u32,
    ibo: u32,
    v: u32,
)
    requires
        s.wf(),
    ensures
        s.after_begin_frame(framebuffer_binding).wf(),
        s.after_end_frame().wf(),
        s.with_color_texture(t).wf(),
        s.with_mask_texture(t).wf(),
        s.with_render_target(target).wf(),
        s.with_program(program).wf(),
        s.with_vao(v).wf(),
        s.after_create_textures(names).wf(),
        s.after_update_raw_texture(t, width, height, width, height).wf(),
        s.textures.contains_key(t) ==> s.after_init_texture(t, width, height, format, mode, fbo_names).wf(),
        s.textures.contains_key(t) ==> s.after_deinit_texture(t).wf(),
        s.after_create_program(program, uniforms).wf(),
        s.can_create_vao(vertex_array) ==> s.after_create_vao(vertex_format, vertex_array, vbo, ibo).wf(),
        s.after_delete_vao(v).wf(),
{
    let c = s.after_create_textures(names);
    assert forall|k: u32| #[trigger] c.textures.contains_key(k) implies c.textures[k].id == k by {
        if !names.contains(k) {
            assert(s.textures.contains_key(k));
        }
    }
    let p = s.after_create_program(program, uniforms);
    assert forall|k: u32| #[trigger] p.programs.contains_key(k) implies p.programs[k].id == k by {
        if k != program {
            assert(s.programs.contains_key(k));
        }
    }
    if s.textures.contains_key(t) {
        let i = s.after_init_texture(t, width, height, format, mode, fbo_names);
        assert forall|k: u32| #[trigger] i.textures.contains_key(k) implies i.textures[k].id == k by {
            if k != t {
                assert(s.textures.contains_key(k));
            }
        }
        let d = s.after_deinit_texture(t);
        assert forall|k: u32| #[trigger] d.textures.contains_key(k) implies d.textures[k].id == k by {
            if k != t {
                assert(s.textures.contains_key(k));
            }
        }
    }
    if s.can_create_vao(vertex_array) {
        let a = s.after_create_vao(vertex_format, vertex_array, vbo, ibo);
        let id = s.new_vao_id(vertex_array);
        assert forall|k: u32| #[trigger] a.vaos.contains_key(k) implies a.vaos[k].id == k by {
            if k != id {
                assert(s.vaos.contains_key(k));
            }
        }
        if s.platform.spec_is_gles() {
            assert forall|k: u32| #[trigger] a.vaos.contains_key(k) implies k < a.next_vao_id by {
                if k != id {
                    assert(s.vaos.contains_key(k));
                }
            }
        }
    }
    let r = s.after_delete_vao(v);
    assert forall|k: u32| #[trigger] r.vaos.contains_key(k) implies s.vaos.contains_key(k) by {}
}

/// One field of a packed vertex type: which attribute it feeds, and how
/// many components of which type it holds.
pub struct VertexField {
    pub attribute: VertexAttribute,
    pub count: i32,
    pub ty: AttribType,
    /// Whether the shader reads the integer components as fractions of their
    /// range.
    pub normalized: bool,
}

pub open spec fn field(attribute: VertexAttribute, count: i32, ty: AttribType, normalized: bool) -> VertexField {
    VertexField { attribute, count, ty, normalized }
}

/// The fields of the packed vertex type behind each vertex format, in
/// declaration order:
/// a debug color vertex is a float position and an RGBA8 color; a debug
/// font vertex adds float texture coordinates; a batch vertex is a float
/// position, an RGBA8 color read as raw bytes, float color texture
/// coordinates, 16-bit mask texture coordinates and four bytes of extra data;
/// a raster op vertex is a float position, a normalised RGBA8 color,
/// normalised 16-bit texture coordinates, four float border radii, a float
/// border rectangle, float destination and source texture sizes, a float blur
/// radius and four bytes of extra data.
pub open spec fn packed_vertex_fields(f: VertexFormat) -> Seq<VertexField> {
    match f {
        VertexFormat::DebugColor => seq![
            field(VertexAttribute::Position, 2, AttribType::Float, false),
            field(VertexAttribute::Color, 4, AttribType::UnsignedByte, true),
        ],
        VertexFormat::DebugFont => seq![
            field(VertexAttribute::Position, 2, AttribType::Float, false),
            field(VertexAttribute::Color, 4, AttribType::UnsignedByte, true),
            field(VertexAttribute::ColorTexCoord, 2, AttribType::Float, false),
        ],
        VertexFormat::Batch => seq![
            field(VertexAttribute::Position, 2, AttribType::Float, false),
            field(VertexAttribute::Color, 4, AttribType::UnsignedByte, false),
            field(VertexAttribute::ColorTexCoord, 2, AttribType::Float, false),
            field(VertexAttribute::MaskTexCoord, 2, AttribType::UnsignedShort, false),
            field(VertexAttribute::Misc, 4, AttribType::UnsignedByte, false),
        ],
        VertexFormat::RasterOp => seq![
            field(VertexAttribute::Position, 2, AttribType::Float, false),
            field(VertexAttribute::Color, 4, AttribType::UnsignedByte, true),
            field(VertexAttribute::ColorTexCoord, 2, AttribType::UnsignedShort, true),
            field(VertexAttribute::BorderRadii, 4, AttribType::Float, false),
            field(VertexAttribute::BorderPosition, 4, AttribType::Float, false),
            field(VertexAttribute::DestTextureSize, 2, AttribType::Float, false),
            field(VertexAttribute::SourceTextureSize, 2, AttribType::Float, false),
            field(VertexAttribute::BlurRadius, 1, AttribType::Float, false),
            field(VertexAttribute::Misc, 4, AttribType::UnsignedByte, false),
        ],
    }
}

/// The number of bytes that a run of packed fields occupies.
pub open spec fn fields_size(fields: Seq<VertexField>) -> int
    decreases fields.len(),
{
    if fields.len() == 0 {
        0
    } else {
        fields_size(fields.drop_last()) + fields.last().count * fields.last().ty.byte_size()
    }
}

/// Each vertex format lays out exactly the fields of its packed vertex type:
/// field by field, each attribute pointer has the field's component count,
/// type and normalisation, its offset is the size of the fields before it,
/// and the stride is the size of the whole vertex.
pub proof fn law_vertex_layout_matches_packed_vertex(f: VertexFormat)
    ensures
        ({
            let fields = packed_vertex_fields(f);
            let n = f.enabled_attributes().len();
            &&& f.layout().len() == fields.len()
            &&& f.stride() == fields_size(fields)
            &&& forall|i: int| 0 <= i < fields.len() ==> #[trigger] f.layout()[i] == attrib(
                fields[i].attribute,
                fields[i].count,
                fields[i].ty,
                fields[i].normalized,
                fields_size(fields.take(i)) as u32,
            )
            &&& f.bind_commands().len() == n + fields.len()
            &&& forall|i: int| 0 <= i < fields.len() ==> #[trigger] f.bind_commands()[n + i]
                == GlCommand::VertexAttribPointer {
                    attribute: fields[i].attribute,
                    size: fields[i].count,
                    ty: fields[i].ty,
                    normalized: fields[i].normalized,
                    stride: fields_size(fields) as i32,
                    offset: fields_size(fields.take(i)) as u32,
                }
        }),
{
    let fields = packed_vertex_fields(f);
    let offsets: Seq<int> = match f {
        VertexFormat::DebugColor => seq![0, 8, 12],
        VertexFormat::DebugFont => seq![0, 8, 12, 20],
        VertexFormat::Batch => seq![0, 8, 12, 20, 24, 28],
        VertexFormat::RasterOp => seq![0, 8, 12, 16, 32, 48, 56, 64, 68, 72],
    };
    match f {
        VertexFormat::DebugColor => {
            assert forall|i: int| 0 <= i < fields.len() implies #[trigger] offsets[i + 1] == offsets[i] + fields[i].count
                * fields[i].ty.byte_size() by {
                if i == 0 {} else if i == 1 {}
            }
        },
        VertexFormat::DebugFont => {
            assert forall|i: int| 0 <= i < fields.len() implies #[trigger] offsets[i + 1] == offsets[i] + fields[i].count
                * fields[i].ty.byte_size() by {
                if i == 0 {} else if i == 1 {} else if i == 2 {}
            }
        },
        VertexFormat::Batch => {
            assert forall|i: int| 0 <= i < fields.len() implies #[trigger] offsets[i + 1] == offsets[i] + fields[i].count
                * fields[i].ty.byte_size() by {
                if i == 0 {} else if i == 1 {} else if i == 2 {} else if i == 3 {} else if i == 4 {}
            }
        },
        VertexFormat::RasterOp => {
            assert forall|i: int| 0 <= i < fields.len() implies #[trigger] offsets[i + 1] == offsets[i] + fields[i].count
                * fields[i].ty.byte_size() by {
                if i == 0 {} else if i == 1 {} else if i == 2 {} else if i == 3 {} else if i == 4 {} else if i == 5 {} else if i == 6 {} else if i == 7 {} else if i == 8 {}
            }
        },
    }
    lemma_prefix_sizes(fields, offsets);
    assert(fields.take(fields.len() as int) =~= fields);
    let n = f.enabled_attributes().len();
    let stride = f.stride();
    assert forall|i: int| 0 <= i < fields.len() implies #[trigger] f.layout()[i] == attrib(
        fields[i].attribute,
        fields[i].count,
        fields[i].ty,
        fields[i].normalized,
        fields_size(fields.take(i)) as u32,
    ) by {
        assert(fields_size(fields.take(i)) == offsets[i]);
    }
    assert forall|i: int| 0 <= i < fields.len() implies #[trigger] f.bind_commands()[n + i]
        == GlCommand::VertexAttribPointer {
            attribute: fields[i].attribute,
            size: fields[i].count,
            ty: fields[i].ty,
            normalized: fields[i].normalized,
            stride: fields_size(fields) as i32,
            offset: fields_size(fields.take(i)) as u32,
        } by {
        assert(fields_size(fields.take(i)) == offsets[i]);
        assert(f.layout()[i] == attrib(
            fields[i].attribute,
            fields[i].count,
            fields[i].ty,
            fields[i].normalized,
            fields_size(fields.take(i)) as u32,
        ));
    }
}

proof fn lemma_prefix_sizes(fields: Seq<VertexField>, offsets: Seq<int>)
    requires
        offsets.len() == fields.len() + 1,
        offsets[0] == 0,
        forall|i: int| 0 <= i < fields.len() ==> #[trigger] offsets[i + 1] == offsets[i] + fields[i].count
            * fields[i].ty.byte_size(),
    ensures
        forall|i: int| 0 <= i <= fields.len() ==> #[trigger] fields_size(fields.take(i)) == offsets[i],
    decreases fields.len(),
{
    if fields.len() > 0 {
        let m = (fields.len() - 1) as int;
        lemma_prefix_sizes(fields.drop_last(), offsets.drop_last());
        assert forall|i: int| 0 <= i <= fields.len() implies #[trigger] fields_size(fields.take(i)) == offsets[i] by {
            if i <= m {
                assert(fields.drop_last().take(i) =~= fields.take(i));
                assert(offsets.drop_last()[i] == offsets[i]);
            } else {
                assert(fields.take(i).drop_last() =~= fields.drop_last().take(m));
                assert(fields.drop_last().take(m) =~= fields.take(m));
                assert(fields_size(fields.take(m)) == offsets[m]) by {
                    assert(offsets.drop_last()[m] == offsets[m]);
                }
            }
        }
    }
}

proof fn lemma_release_programs_exact(m: Map<u32, crate::state::Program>, keys: Seq<u32>)
    requires
        forall|i: int| 0 <= i < keys.len() ==> m.contains_key(#[trigger] keys[i]) && m[keys[i]].id == keys[i],
    ensures
        release_programs(m, keys) == keys.map_values(|k: u32| GlCommand::DeleteProgram(k)),
    decreases keys.len(),
{
    if keys.len() > 0 {
        lemma_release_programs_exact(m, keys.drop_last());
        assert(keys.map_values(|k: u32| GlCommand::DeleteProgram(k)) =~= keys.drop_last().map_values(
            |k: u32| GlCommand::DeleteProgram(k),
        ) + m[keys.last()].spec_release_commands());
    }
}

/// Releasing the device deletes each program it holds exactly once, between
/// the textures and the vertex arrays, and deletes no other program: the
/// program part of the release is one `DeleteProgram` per key of the program
/// table, in the order the table is walked.
pub proof fn law_release_deletes_each_program_once(
    s: DeviceState,
    texture_keys: Seq<u32>,
    program_keys: Seq<u32>,
    vao_keys: Seq<u32>,
)
    requires
        s.wf(),
        is_key_order(texture_keys, s.textures.dom()),
        is_key_order(program_keys, s.programs.dom()),
        is_key_order(vao_keys, s.vaos.dom()),
    ensures
        s.release_commands(texture_keys, program_keys, vao_keys) == release_textures(s.textures, texture_keys)
            + program_keys.map_values(|k: u32| GlCommand::DeleteProgram(k)) + release_vaos(
            s.vaos,
            vao_keys,
            s.platform,
        ),
        program_keys.no_duplicates(),
        forall|p: u32| #[trigger] s.programs.contains_key(p) ==> s.release_commands(
            texture_keys,
            program_keys,
            vao_keys,
        ).contains(GlCommand::DeleteProgram(p)),
{
    assert forall|i: int| 0 <= i < program_keys.len() implies s.programs.contains_key(#[trigger] program_keys[i])
        && s.programs[program_keys[i]].id == program_keys[i] by {
        assert(program_keys.to_set().contains(program_keys[i]));
    }
    lemma_release_programs_exact(s.programs, program_keys);
    let a = release_textures(s.textures, texture_keys);
    let b = program_keys.map_values(|k: u32| GlCommand::DeleteProgram(k));
    let all = s.release_commands(texture_keys, program_keys, vao_keys);
    assert forall|p: u32| #[trigger] s.programs.contains_key(p) implies all.contains(GlCommand::DeleteProgram(p)) by {
        assert(program_keys.to_set().contains(p));
        let i = choose|i: int| 0 <= i < program_keys.len() && program_keys[i] == p;
        assert(all[a.len() + i] == b[i]);
    }
}

proof fn lemma_release_textures_deletes_fbos(m: Map<u32, TextureState>, keys: Seq<u32>, i: int, j: int)
    requires
        0 <= i < keys.len(),
        0 <= j < m[keys[i]].fbo_ids.len(),
    ensures
        release_textures(m, keys).contains(GlCommand::DeleteFramebuffer(m[keys[i]].fbo_ids[j].0)),
    decreases keys.len(),
{
    let last = m[keys.last()].release_commands();
    let rest = release_textures(m, keys.drop_last());
    let x = GlCommand::DeleteFramebuffer(m[keys[i]].fbo_ids[j].0);
    if i == keys.len() - 1 {
        let d = crate::state::delete_framebuffer_commands(m[keys[i]].fbo_ids);
        assert(last == d + seq![GlCommand::DeleteTexture(m[keys[i]].id)]);
        assert(d[j] == x);
        assert(last[j] == x);
        assert((rest + last)[rest.len() + j] == x);
    } else {
        lemma_release_textures_deletes_fbos(m, keys.drop_last(), i, j);
        let k = choose|k: int| 0 <= k < rest.len() && rest[k] == x;
        assert((rest + last)[k] == rest[k]);
    }
}

proof fn lemma_release_vaos_deletes_arrays(m: Map<u32, VAO>, keys: Seq<u32>, p: crate::types::Platform, i: int)
    requires
        0 <= i < keys.len(),
        !p.spec_is_gles(),
    ensures
        release_vaos(m, keys, p).contains(GlCommand::DeleteVertexArray(m[keys[i]].id)),
    decreases keys.len(),
{
    let last = m[keys.last()].spec_release_commands(p);
    let rest = release_vaos(m, keys.drop_last(), p);
    if i == keys.len() - 1 {
        assert((rest + last)[rest.len() as int] == GlCommand::DeleteVertexArray(m[keys[i]].id));
    } else {
        lemma_release_vaos_deletes_arrays(m, keys.drop_last(), p, i);
        let k = choose|k: int| 0 <= k < rest.len() && rest[k] == GlCommand::DeleteVertexArray(m[keys[i]].id);
        assert((rest + last)[k] == rest[k]);
    }
}

/// Releasing the device deletes every framebuffer of every texture it
/// holds, and on desktop GL every vertex array object it holds.
pub proof fn law_release_deletes_framebuffers_and_vertex_arrays(
    s: DeviceState,
    texture_keys: Seq<u32>,
    program_keys: Seq<u32>,
    vao_keys: Seq<u32>,
)
    requires
        s.wf(),
        is_key_order(texture_keys, s.textures.dom()),
        is_key_order(program_keys, s.programs.dom()),
        is_key_order(vao_keys, s.vaos.dom()),
    ensures
        forall|t: u32, j: int| #![trigger s.textures[t].fbo_ids[j]] s.textures.contains_key(t) && 0 <= j < s.textures[t].fbo_ids.len()
            ==> s.release_commands(texture_keys, program_keys, vao_keys).contains(
            GlCommand::DeleteFramebuffer(s.textures[t].fbo_ids[j].0),
        ),
        !s.platform.spec_is_gles() ==> forall|v: u32| #[trigger] s.vaos.contains_key(v) ==> s.release_commands(
            texture_keys,
            program_keys,
            vao_keys,
        ).contains(GlCommand::DeleteVertexArray(v)),
{
    let all = s.release_commands(texture_keys, program_keys, vao_keys);
    let a = release_textures(s.textures, texture_keys);
    let b = release_programs(s.programs, program_keys);
    let c = release_vaos(s.vaos, vao_keys, s.platform);
    assert(all == a + b + c);
    assert forall|t: u32, j: int| #![trigger s.textures[t].fbo_ids[j]] s.textures.contains_key(t) && 0 <= j < s.textures[t].fbo_ids.len()
        implies all.contains(GlCommand::DeleteFramebuffer(s.textures[t].fbo_ids[j].0)) by {
        assert(texture_keys.to_set().contains(t));
        let i = choose|i: int| 0 <= i < texture_keys.len() && texture_keys[i] == t;
        lemma_release_textures_deletes_fbos(s.textures, texture_keys, i, j);
        let k = choose|k: int| 0 <= k < a.len() && a[k] == GlCommand::DeleteFramebuffer(s.textures[t].fbo_ids[j].0);
        assert(all[k] == a[k]);
    }
    if !s.platform.spec_is_gles() {
        assert forall|v: u32| #[trigger] s.vaos.contains_key(v) implies all.contains(GlCommand::DeleteVertexArray(v)) by {
            assert(vao_keys.to_set().contains(v));
            let i = choose|i: int| 0 <= i < vao_keys.len() && vao_keys[i] == v;
            lemma_release_vaos_deletes_arrays(s.vaos, vao_keys, s.platform, i);
            let k = choose|k: int| 0 <= k < c.len() && c[k] == GlCommand::DeleteVertexArray(s.vaos[v].id);
            assert(all[a.len() + b.len() + k] == c[k]);
        }
    }
}

/// Newly created textures have no size, no alpha, no format and no
/// framebuffer, and the textures the device already had are untouched.
pub proof fn law_created_textures_are_empty(s: DeviceState, names: Seq<u32>, t: u32)
    ensures
        ({
            let c = s.after_create_textures(names);
            &&& names.contains(t) ==> {
                &&& c.textures.contains_key(t)
                &&& c.texture_dimensions(t) == (0u32, 0u32)
                &&& !c.texture_has_alpha(t)
                &&& c.textures[t].format == ImageFormat::Invalid
                &&& !c.can_render_to(Some(TextureId(t)))
            }
            &&& !names.contains(t) ==> c.textures.contains_key(t) == s.textures.contains_key(t)
                && (s.textures.contains_key(t) ==> c.textures[t] == s.textures[t])
        }),
{
}

/// Binding a program the device created sets the transform uniform at the
/// location the program was created with, after switching to the program if
/// another was bound.
pub proof fn law_bind_program_sets_created_transform(s: DeviceState, p: u32, u: ProgramUniforms)
    ensures
        ({
            let created = s.after_create_program(p, u);
            let cmds = created.bind_program_commands(p);
            &&& created.programs.contains_key(p)
            &&& cmds.len() > 0
            &&& cmds.last() == GlCommand::UniformTransform(u.transform)
            &&& created.bound_program != p ==> cmds.len() == 2 && cmds[0] == GlCommand::UseProgram(p)
            &&& created.bound_program == p ==> cmds.len() == 1
            &&& created.with_program(p).bound_program == p
        }),
{
}

/// Deleting a vertex array forgets it and unbinds it if it was bound, and
/// leaves any other binding and every other vertex array alone.
pub proof fn law_delete_vao_forgets_it(s: DeviceState, v: u32, w: u32)
    ensures
        !s.after_delete_vao(v).vaos.contains_key(v),
        s.bound_vao == v ==> s.after_delete_vao(v).bound_vao == 0,
        s.bound_vao != v ==> s.after_delete_vao(v).bound_vao == s.bound_vao,
        w != v ==> s.after_delete_vao(v).vaos.contains_key(w) == s.vaos.contains_key(w)
            && (s.vaos.contains_key(w) ==> s.after_delete_vao(v).vaos[w] == s.vaos[w]),
{
}

} // verus!
