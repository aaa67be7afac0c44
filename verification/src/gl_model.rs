//! A model of the GL context state that the device's commands act on, used
//! to state what a command sequence achieves rather than which commands it
//! holds.

use crate::command::{
    AttribType, BufferTarget, BufferUsage, GlCommand, PixelFormat, TexParameterName, TexParameterValue,
    TextureUnit,
};
use crate::types::FBOId;
use crate::types::TextureSampler;
use crate::vertex::{AttribLayout, VertexAttribute};
use vstd::prelude::*;

verus! {

/// Where an enabled attribute array reads from.
pub struct AttribPointer {
    pub buffer: u32,
    pub size: i32,
    pub ty: AttribType,
    pub normalized: bool,
    pub stride: i32,
    pub offset: u32,
}

/// The storage allocated for a texture.
pub struct TextureStorage {
    pub internal_format: PixelFormat,
    pub width: i32,
    pub height: i32,
    pub format: PixelFormat,
    /// Whether the caller's pixels were uploaded (rather than leaving the
    /// contents undefined).
    pub with_pixels: bool,
}

/// The parts of a GL context that the device's commands change.
pub struct GlContext {
    pub active_unit: TextureUnit,
    /// The `TEXTURE_2D` binding of texture units 0 and 1.
    pub texture0: u32,
    pub texture1: u32,
    pub program: u32,
    pub vertex_array: u32,
    pub array_buffer: u32,
    pub element_buffer: u32,
    pub framebuffer: u32,
    pub enabled: Set<VertexAttribute>,
    pub pointers: Map<VertexAttribute, AttribPointer>,
    pub storage: Map<u32, TextureStorage>,
    /// The texture attached as color attachment 0 of each framebuffer.
    pub attachments: Map<u32, u32>,
    /// Integer uniform values, by program and location.
    pub int_uniforms: Map<(u32, i32), int>,
    pub unpack_alignment: i32,
    pub deleted_textures: Set<u32>,
    pub deleted_framebuffers: Set<u32>,
    pub deleted_buffers: Set<u32>,
    pub deleted_vertex_arrays: Set<u32>,
    pub deleted_programs: Set<u32>,
    /// The last rectangle written into a texture: texture, x0, y0, width,
    /// height and the format of the written pixels.
    pub last_sub_image: Option<(u32, i32, i32, i32, i32, PixelFormat)>,
    /// The last framebuffer rectangle copied into a texture: texture, x, y,
    /// width, height.
    pub last_copy: Option<(u32, i32, i32, i32, i32)>,
    /// The last buffer filled: its target, the buffer and the usage.
    pub last_upload: Option<(BufferTarget, u32, BufferUsage)>,
    /// (program, shader) pairs attached.
    pub attached_shaders: Set<(u32, u32)>,
    /// The location each program binds each attribute to.
    pub attrib_locations: Map<(u32, VertexAttribute), u32>,
    pub linked_programs: Set<u32>,
    /// Texture parameters, by texture and parameter.
    pub tex_params: Map<(u32, TexParameterName), TexParameterValue>,
}

/// The index of a texture unit (`TEXTUREi` is unit `i`).
pub open spec fn unit_index(u: TextureUnit) -> int {
    match u {
        TextureUnit::Unit0 => 0,
        TextureUnit::Unit1 => 1,
    }
}

impl GlContext {
    /// The texture bound to the active unit.
    pub open spec fn active_texture(self) -> u32 {
        match self.active_unit {
            TextureUnit::Unit0 => self.texture0,
            TextureUnit::Unit1 => self.texture1,
        }
    }

    /// The effect of one GL call.
    pub open spec fn step(self, cmd: GlCommand) -> GlContext {
        match cmd {
            GlCommand::ActiveTexture(u) => GlContext { active_unit: u, ..self },
            GlCommand::BindTexture(t) => match self.active_unit {
                TextureUnit::Unit0 => GlContext { texture0: t, ..self },
                TextureUnit::Unit1 => GlContext { texture1: t, ..self },
            },
            GlCommand::UseProgram(p) => GlContext { program: p, ..self },
            GlCommand::BindVertexArray(v) => GlContext { vertex_array: v, ..self },
            GlCommand::BindBuffer(BufferTarget::Array, b) => GlContext { array_buffer: b, ..self },
            GlCommand::BindBuffer(BufferTarget::ElementArray, b) => GlContext { element_buffer: b, ..self },
            GlCommand::BindFramebuffer(f) => GlContext { framebuffer: f, ..self },
            GlCommand::EnableVertexAttribArray(a) => GlContext { enabled: self.enabled.insert(a), ..self },
            GlCommand::DisableVertexAttribArray(a) => GlContext { enabled: self.enabled.remove(a), ..self },
            GlCommand::VertexAttribPointer { attribute, size, ty, normalized, stride, offset } => GlContext {
                pointers: self.pointers.insert(
                    attribute,
                    AttribPointer { buffer: self.array_buffer, size, ty, normalized, stride, offset },
                ),
                ..self
            },
            GlCommand::TexImage2D { internal_format, width, height, format, with_pixels } => GlContext {
                storage: self.storage.insert(
                    self.active_texture(),
                    TextureStorage { internal_format, width, height, format, with_pixels },
                ),
                ..self
            },
            GlCommand::FramebufferTexture2D(t) => GlContext {
                attachments: self.attachments.insert(self.framebuffer, t),
                ..self
            },
            GlCommand::UniformSampler { location, sampler } => GlContext {
                int_uniforms: self.int_uniforms.insert((self.program, location), sampler.spec_unit() as int),
                ..self
            },
            GlCommand::TexParameter(name, value) => GlContext {
                tex_params: self.tex_params.insert((self.active_texture(), name), value),
                ..self
            },
            GlCommand::PixelStoreUnpackAlignment(a) => GlContext { unpack_alignment: a, ..self },
            GlCommand::DeleteTexture(t) => GlContext { deleted_textures: self.deleted_textures.insert(t), ..self },
            GlCommand::DeleteFramebuffer(f) => GlContext {
                deleted_framebuffers: self.deleted_framebuffers.insert(f),
                ..self
            },
            GlCommand::DeleteBuffer(b) => GlContext { deleted_buffers: self.deleted_buffers.insert(b), ..self },
            GlCommand::DeleteVertexArray(v) => GlContext {
                deleted_vertex_arrays: self.deleted_vertex_arrays.insert(v),
                ..self
            },
            GlCommand::DeleteProgram(p) => GlContext { deleted_programs: self.deleted_programs.insert(p), ..self },
            GlCommand::TexSubImage2D { x0, y0, width, height, format } => GlContext {
                last_sub_image: Some((self.active_texture(), x0, y0, width, height, format)),
                ..self
            },
            GlCommand::CopyTexSubImage2D { x, y, width, height } => GlContext {
                last_copy: Some((self.active_texture(), x, y, width, height)),
                ..self
            },
            GlCommand::BufferData(target, usage) => GlContext {
                last_upload: Some(
                    (
                        target,
                        match target {
                            BufferTarget::Array => self.array_buffer,
                            BufferTarget::ElementArray => self.element_buffer,
                        },
                        usage,
                    ),
                ),
                ..self
            },
            GlCommand::AttachShader { program, shader } => GlContext {
                attached_shaders: self.attached_shaders.insert((program, shader)),
                ..self
            },
            GlCommand::BindAttribLocation { program, attribute } => GlContext {
                attrib_locations: self.attrib_locations.insert((program, attribute), attribute.spec_index()),
                ..self
            },
            GlCommand::LinkProgram(p) => GlContext { linked_programs: self.linked_programs.insert(p), ..self },
            _ => self,
        }
    }

    /// The effect of a sequence of GL calls, in order.
    pub open spec fn run(self, cmds: Seq<GlCommand>) -> GlContext
        decreases cmds.len(),
    {
        if cmds.len() == 0 {
            self
        } else {
            self.run(cmds.drop_last()).step(cmds.last())
        }
    }
}

pub proof fn lemma_run_concat(c: GlContext, a: Seq<GlCommand>, b: Seq<GlCommand>)
    ensures
        c.run(a + b) == c.run(a).run(b),
    decreases b.len(),
{
    if b.len() == 0 {
        assert(a + b =~= a);
    } else {
        assert((a + b).drop_last() =~= a + b.drop_last());
        assert((a + b).last() == b.last());
        lemma_run_concat(c, a, b.drop_last());
    }
}

pub proof fn lemma_run_one(c: GlContext, x: GlCommand)
    ensures
        c.run(seq![x]) == c.step(x),
{
    assert(seq![x].drop_last() =~= Seq::<GlCommand>::empty());
    assert(c.run(seq![x].drop_last()) == c);
    assert(seq![x].last() == x);
}

pub proof fn lemma_run_empty(c: GlContext)
    ensures
        c.run(Seq::<GlCommand>::empty()) == c,
{
}

/// Enabling a list of attribute arrays adds exactly those to the enabled set
/// and touches nothing else.
pub proof fn lemma_run_enables(c: GlContext, attrs: Seq<VertexAttribute>)
    ensures
        ({
            let g = c.run(attrs.map_values(|a: VertexAttribute| GlCommand::EnableVertexAttribArray(a)));
            &&& g.enabled == c.enabled + attrs.to_set()
            &&& g.pointers == c.pointers
            &&& g.array_buffer == c.array_buffer
            &&& g.element_buffer == c.element_buffer
            &&& g.storage == c.storage
            &&& g.active_unit == c.active_unit
            &&& g.texture0 == c.texture0
            &&& g.texture1 == c.texture1
            &&& g.program == c.program
            &&& g.framebuffer == c.framebuffer
            &&& g.vertex_array == c.vertex_array
        }),
    decreases attrs.len(),
{
    let cmds = attrs.map_values(|a: VertexAttribute| GlCommand::EnableVertexAttribArray(a));
    if attrs.len() == 0 {
        assert(c.enabled + attrs.to_set() =~= c.enabled);
    } else {
        lemma_run_enables(c, attrs.drop_last());
        assert(cmds.drop_last() =~= attrs.drop_last().map_values(
            |a: VertexAttribute| GlCommand::EnableVertexAttribArray(a),
        ));
        let g0 = c.run(cmds.drop_last());
        assert(attrs =~= attrs.drop_last().push(attrs.last()));
        assert(c.enabled + attrs.to_set() =~= (c.enabled + attrs.drop_last().to_set()).insert(attrs.last())) by {
            assert forall|a: VertexAttribute| attrs.to_set().contains(a) <==> (attrs.drop_last().to_set().contains(a) || a == attrs.last()) by {
                if attrs.contains(a) {
                    let i = choose|i: int| 0 <= i < attrs.len() && attrs[i] == a;
                    if i < attrs.len() - 1 {
                        assert(attrs.drop_last()[i] == a);
                    }
                }
                if attrs.drop_last().contains(a) {
                    let i = choose|i: int| 0 <= i < attrs.drop_last().len() && attrs.drop_last()[i] == a;
                    assert(attrs[i] == a);
                }
                if a == attrs.last() {
                    assert(attrs[attrs.len() - 1] == a);
                }
            }
        }
    }
}

/// Disabling a list of attribute arrays removes exactly those from the
/// enabled set and touches nothing else.
pub proof fn lemma_run_disables(c: GlContext, attrs: Seq<VertexAttribute>)
    ensures
        ({
            let g = c.run(attrs.map_values(|a: VertexAttribute| GlCommand::DisableVertexAttribArray(a)));
            &&& g.enabled == c.enabled - attrs.to_set()
            &&& g.pointers == c.pointers
            &&& g.array_buffer == c.array_buffer
            &&& g.element_buffer == c.element_buffer
            &&& g.storage == c.storage
            &&& g.active_unit == c.active_unit
            &&& g.texture0 == c.texture0
            &&& g.texture1 == c.texture1
            &&& g.program == c.program
            &&& g.framebuffer == c.framebuffer
            &&& g.vertex_array == c.vertex_array
        }),
    decreases attrs.len(),
{
    let cmds = attrs.map_values(|a: VertexAttribute| GlCommand::DisableVertexAttribArray(a));
    if attrs.len() == 0 {
        assert(c.enabled - attrs.to_set() =~= c.enabled);
    } else {
        lemma_run_disables(c, attrs.drop_last());
        assert(cmds.drop_last() =~= attrs.drop_last().map_values(
            |a: VertexAttribute| GlCommand::DisableVertexAttribArray(a),
        ));
        assert(c.enabled - attrs.to_set() =~= (c.enabled - attrs.drop_last().to_set()).remove(attrs.last())) by {
            assert forall|a: VertexAttribute| attrs.to_set().contains(a) <==> (attrs.drop_last().to_set().contains(a) || a == attrs.last()) by {
                if attrs.contains(a) {
                    let i = choose|i: int| 0 <= i < attrs.len() && attrs[i] == a;
                    if i < attrs.len() - 1 {
                        assert(attrs.drop_last()[i] == a);
                    }
                }
                if attrs.drop_last().contains(a) {
                    let i = choose|i: int| 0 <= i < attrs.drop_last().len() && attrs.drop_last()[i] == a;
                    assert(attrs[i] == a);
                }
                if a == attrs.last() {
                    assert(attrs[attrs.len() - 1] == a);
                }
            }
        }
    }
}

/// Pointing a list of attributes with distinct names at their places makes
/// each read the bound vertex buffer at that place, and touches nothing but
/// the pointers.
pub proof fn lemma_run_pointers(c: GlContext, ls: Seq<AttribLayout>, stride: i32)
    requires
        forall|i: int, j: int| 0 <= i < j < ls.len() ==> ls[i].attribute != ls[j].attribute,
    ensures
        ({
            let g = c.run(ls.map_values(|l: AttribLayout| l.pointer_command(stride)));
            &&& forall|i: int| 0 <= i < ls.len() ==> g.pointers.contains_key(#[trigger] ls[i].attribute)
                && g.pointers[ls[i].attribute] == AttribPointer {
                    buffer: c.array_buffer,
                    size: ls[i].size,
                    ty: ls[i].ty,
                    normalized: ls[i].normalized,
                    stride,
                    offset: ls[i].offset,
                }
            &&& g.enabled == c.enabled
            &&& g.array_buffer == c.array_buffer
            &&& g.element_buffer == c.element_buffer
            &&& g.storage == c.storage
            &&& g.active_unit == c.active_unit
            &&& g.texture0 == c.texture0
            &&& g.texture1 == c.texture1
            &&& g.program == c.program
            &&& g.framebuffer == c.framebuffer
            &&& g.vertex_array == c.vertex_array
        }),
    decreases ls.len(),
{
    let cmds = ls.map_values(|l: AttribLayout| l.pointer_command(stride));
    if ls.len() > 0 {
        lemma_run_pointers(c, ls.drop_last(), stride);
        assert(cmds.drop_last() =~= ls.drop_last().map_values(|l: AttribLayout| l.pointer_command(stride)));
        let g0 = c.run(cmds.drop_last());
        let g = c.run(cmds);
        assert forall|i: int| 0 <= i < ls.len() implies g.pointers.contains_key(#[trigger] ls[i].attribute)
            && g.pointers[ls[i].attribute] == AttribPointer {
                buffer: c.array_buffer,
                size: ls[i].size,
                ty: ls[i].ty,
                normalized: ls[i].normalized,
                stride,
                offset: ls[i].offset,
            } by {
            if i < ls.len() - 1 {
                assert(ls.drop_last()[i] == ls[i]);
                assert(ls[i].attribute != ls[ls.len() - 1].attribute);
            }
        }
    }
}

/// Deleting a list of framebuffers deletes each of them and changes nothing
/// but the set of deleted framebuffers.
pub proof fn lemma_run_delete_framebuffers(c: GlContext, fbos: Seq<FBOId>)
    ensures
        ({
            let g = c.run(fbos.map_values(|f: FBOId| GlCommand::DeleteFramebuffer(f.0)));
            &&& forall|i: int| 0 <= i < fbos.len() ==> g.deleted_framebuffers.contains(#[trigger] fbos[i].0)
            &&& g.deleted_framebuffers.subset_of(c.deleted_framebuffers + fbos.map_values(|f: FBOId| f.0).to_set())
            &&& c.deleted_framebuffers.subset_of(g.deleted_framebuffers)
            &&& g.storage == c.storage
            &&& g.active_unit == c.active_unit
            &&& g.texture0 == c.texture0
            &&& g.texture1 == c.texture1
            &&& g.program == c.program
            &&& g.framebuffer == c.framebuffer
            &&& g.deleted_textures == c.deleted_textures
        }),
    decreases fbos.len(),
{
    let cmds = fbos.map_values(|f: FBOId| GlCommand::DeleteFramebuffer(f.0));
    if fbos.len() > 0 {
        lemma_run_delete_framebuffers(c, fbos.drop_last());
        assert(cmds.drop_last() =~= fbos.drop_last().map_values(|f: FBOId| GlCommand::DeleteFramebuffer(f.0)));
        let g = c.run(cmds);
        assert forall|i: int| 0 <= i < fbos.len() implies g.deleted_framebuffers.contains(#[trigger] fbos[i].0) by {
            if i < fbos.len() - 1 {
                assert(fbos.drop_last()[i] == fbos[i]);
            }
        }
        let names = fbos.map_values(|f: FBOId| f.0);
        let prev_names = fbos.drop_last().map_values(|f: FBOId| f.0);
        assert forall|x: u32| prev_names.to_set().contains(x) implies names.to_set().contains(x) by {
            let j = choose|j: int| 0 <= j < prev_names.len() && prev_names[j] == x;
            assert(names[j] == x);
        }
        assert(names[fbos.len() - 1] == fbos.last().0);
        assert(names.to_set().contains(fbos.last().0));
    }
}

} // verus!
