//! The device: the state of the GL objects the renderer owns and of what is
//! bound, and the GL commands that each operation issues.

use crate::command::{
    BufferTarget, GlCommand, IndexType, PixelFormat, PrimitiveMode, TexParameterName,
    TexParameterValue, TextureUnit,
};
use crate::fnv_map::{fnv_map_get, fnv_map_insert, fnv_map_keys, fnv_map_new, fnv_map_remove, FnvMap};
use crate::state::{
    alpha_format, attach_commands, bytes_per_pixel, delete_framebuffer_commands, fbo_ids_of,
    filter_value, fresh_texture, is_key_order, program_link_commands, program_setup_commands,
    release_programs, release_textures, release_vaos, texture_parameter_commands, update_format,
    upload_formats, DeviceState, Program, ProgramUniforms, TextureState, VAO,
};
use crate::types::{
    FBOId, IBOId, ImageFormat, Platform, ProgramId, RenderTargetMode, TextureFilter, TextureId,
    TextureSampler, VAOId, VBOId, VertexFormat, VertexUsageHint,
};
use crate::vertex::VertexAttribute;
use vstd::prelude::*;

verus! {

/// A texture the device created.
pub struct Texture {
    pub id: u32,
    pub format: ImageFormat,
    pub width: u32,
    pub height: u32,
    pub fbo_ids: Vec<FBOId>,
}

impl View for Texture {
    type V = TextureState;

    open spec fn view(&self) -> TextureState {
        TextureState {
            id: self.id,
            format: self.format,
            width: self.width,
            height: self.height,
            fbo_ids: self.fbo_ids@,
        }
    }
}

pub open spec fn texture_views(m: Map<u32, Texture>) -> Map<u32, TextureState> {
    m.map_values(|t: Texture| t@)
}

proof fn lemma_texture_views_insert(m: Map<u32, Texture>, k: u32, v: Texture)
    ensures
        texture_views(m.insert(k, v)) == texture_views(m).insert(k, v@),
{
    assert(texture_views(m.insert(k, v)) =~= texture_views(m).insert(k, v@));
}

proof fn lemma_texture_views_remove(m: Map<u32, Texture>, k: u32)
    ensures
        texture_views(m.remove(k)) == texture_views(m).remove(k),
{
    assert(texture_views(m.remove(k)) =~= texture_views(m).remove(k));
}

impl Texture {
    /// What dropping the texture deletes: its framebuffers, if it has any,
    /// then the texture itself.
    pub fn release_commands(&self) -> (r: Vec<GlCommand>)
        ensures
            r@ == self@.release_commands(),
    {
        let mut r = Vec::new();
        if self.fbo_ids.len() != 0 {
            emit_delete_framebuffers(&self.fbo_ids, &mut r);
        }
        r.push(GlCommand::DeleteTexture(self.id));
        assert(r@ =~= self@.release_commands());
        r
    }
}

impl Program {
    /// What dropping the program deletes.
    pub fn release_commands(&self) -> (r: Vec<GlCommand>)
        ensures
            r@ == self.spec_release_commands(),
    {
        let mut r = Vec::new();
        r.push(GlCommand::DeleteProgram(self.id));
        assert(r@ =~= self.spec_release_commands());
        r
    }
}

impl VAO {
    /// What dropping the vertex array deletes on the given platform.
    pub fn release_commands(&self, platform: Platform) -> (r: Vec<GlCommand>)
        ensures
            r@ == self.spec_release_commands(platform),
    {
        let mut r = Vec::new();
        if !platform.is_gles() {
            r.push(GlCommand::DeleteVertexArray(self.id));
        }
        r.push(GlCommand::DeleteBuffer(self.vbo_id.0));
        r.push(GlCommand::DeleteBuffer(self.ibo_id.0));
        assert(r@ =~= self.spec_release_commands(platform));
        r
    }
}

fn emit_delete_framebuffers(fbos: &Vec<FBOId>, out: &mut Vec<GlCommand>)
    ensures
        final(out)@ == old(out)@ + delete_framebuffer_commands(fbos@),
{
    let ghost start = out@;
    let n = fbos.len();
    for i in 0..n
        invariant
            n == fbos@.len(),
            out@ == start + delete_framebuffer_commands(fbos@.take(i as int)),
    {
        assert(fbos@.take(i + 1) =~= fbos@.take(i as int).push(fbos@[i as int]));
        out.push(GlCommand::DeleteFramebuffer(fbos[i].0));
        assert(delete_framebuffer_commands(fbos@.take(i + 1)) =~= delete_framebuffer_commands(
            fbos@.take(i as int),
        ).push(GlCommand::DeleteFramebuffer(fbos@[i as int].0)));
    }
    assert(fbos@.take(n as int) =~= fbos@);
}

fn filter_parameter(filter: TextureFilter) -> (r: TexParameterValue)
    ensures
        r == filter_value(filter),
{
    match filter {
        TextureFilter::Nearest => TexParameterValue::Nearest,
        TextureFilter::Linear => TexParameterValue::Linear,
    }
}

fn emit_texture_parameters(filter: TextureFilter, out: &mut Vec<GlCommand>)
    ensures
        final(out)@ == old(out)@ + texture_parameter_commands(filter),
{
    let ghost start = out@;
    let value = filter_parameter(filter);
    out.push(GlCommand::TexParameter(TexParameterName::MagFilter, value));
    out.push(GlCommand::TexParameter(TexParameterName::MinFilter, value));
    out.push(GlCommand::TexParameter(TexParameterName::WrapS, TexParameterValue::ClampToEdge));
    out.push(GlCommand::TexParameter(TexParameterName::WrapT, TexParameterValue::ClampToEdge));
    assert(out@ =~= start + texture_parameter_commands(filter));
}

fn alpha_pixel_format(platform: Platform) -> (r: PixelFormat)
    ensures
        r == alpha_format(platform),
{
    if platform.is_gles() {
        PixelFormat::Alpha
    } else {
        PixelFormat::Red
    }
}

/// The (internal format, format) pair that a texture of `format` is
/// allocated with on `platform`.
pub fn texture_upload_formats(platform: Platform, format: ImageFormat) -> (r: (PixelFormat, PixelFormat))
    requires
        format != ImageFormat::Invalid,
    ensures
        r == upload_formats(platform, format),
{
    match format {
        ImageFormat::A8 => (alpha_pixel_format(platform), alpha_pixel_format(platform)),
        ImageFormat::RGB8 => (PixelFormat::Rgb, PixelFormat::Rgb),
        _ => {
            if platform == Platform::Android {
                (PixelFormat::Bgra, PixelFormat::Bgra)
            } else {
                (PixelFormat::Rgba, PixelFormat::Bgra)
            }
        },
    }
}

/// The format that updates of a texture of `format` are given in on
/// `platform`, and its bytes per pixel.
pub fn texture_update_format(platform: Platform, format: ImageFormat) -> (r: (PixelFormat, u32))
    requires
        format != ImageFormat::Invalid,
    ensures
        r == (update_format(platform, format), bytes_per_pixel(format)),
{
    match format {
        ImageFormat::A8 => (alpha_pixel_format(platform), 1),
        ImageFormat::RGB8 => (PixelFormat::Rgb, 3),
        _ => (PixelFormat::Bgra, 4),
    }
}

/// The GL device: what the renderer has created and what is bound.
pub struct Device {
    platform: Platform,
    bound_color_texture: TextureId,
    bound_mask_texture: TextureId,
    bound_program: ProgramId,
    bound_vao: VAOId,
    bound_fbo: FBOId,
    default_fbo: u32,
    inside_frame: bool,
    textures: FnvMap<Texture>,
    raw_textures: FnvMap<(u32, u32, u32, u32)>,
    programs: FnvMap<Program>,
    vaos: FnvMap<VAO>,
    next_vao_id: u32,
}

impl View for Device {
    type V = DeviceState;

    closed spec fn view(&self) -> DeviceState {
        DeviceState {
            platform: self.platform,
            bound_color_texture: self.bound_color_texture.0,
            bound_mask_texture: self.bound_mask_texture.0,
            bound_program: self.bound_program.0,
            bound_vao: self.bound_vao.0,
            bound_fbo: self.bound_fbo.0,
            default_fbo: self.default_fbo,
            inside_frame: self.inside_frame,
            textures: texture_views(self.textures@),
            raw_textures: self.raw_textures@,
            programs: self.programs@,
            vaos: self.vaos@,
            next_vao_id: self.next_vao_id,
        }
    }
}

impl Device {
    /// A device for the given platform, outside any frame, with nothing
    /// created and nothing bound.
    pub fn new(platform: Platform) -> (r: Device)
        ensures
            r@ == DeviceState::initial(platform),
            r@.wf(),
    {
        let r = Device {
            platform,
            bound_color_texture: TextureId(0),
            bound_mask_texture: TextureId(0),
            bound_program: ProgramId(0),
            bound_vao: VAOId(0),
            bound_fbo: FBOId(0),
            default_fbo: 0,
            inside_frame: false,
            textures: fnv_map_new(),
            raw_textures: fnv_map_new(),
            programs: fnv_map_new(),
            vaos: fnv_map_new(),
            next_vao_id: 1,
        };
        assert(r@.textures =~= Map::<u32, TextureState>::empty());
        assert(r@.raw_textures =~= Map::<u32, (u32, u32, u32, u32)>::empty());
        assert(r@.programs =~= Map::<u32, Program>::empty());
        assert(r@.vaos =~= Map::<u32, VAO>::empty());
        r
    }

    fn emit_bind_color_texture(&mut self, texture_id: TextureId, out: &mut Vec<GlCommand>)
        ensures
            final(self)@ == old(self)@.with_color_texture(texture_id.0),
            final(out)@ == old(out)@ + old(self)@.bind_color_texture_commands(texture_id.0),
    {
        let ghost start = out@;
        if self.bound_color_texture != texture_id {
            self.bound_color_texture = texture_id;
            out.push(GlCommand::BindTexture(texture_id.0));
        }
        assert(out@ =~= start + old(self)@.bind_color_texture_commands(texture_id.0));
        assert(self@ =~= old(self)@.with_color_texture(texture_id.0));
    }

    fn emit_clear_vertex_array(&self, out: &mut Vec<GlCommand>)
        ensures
            final(out)@ == old(out)@ + self@.clear_vertex_array_commands(),
    {
        let ghost start = out@;
        if self.platform.is_gles() {
            out.push(GlCommand::DisableVertexAttribArray(VertexAttribute::Position));
            out.push(GlCommand::DisableVertexAttribArray(VertexAttribute::Color));
            out.push(GlCommand::DisableVertexAttribArray(VertexAttribute::ColorTexCoord));
            out.push(GlCommand::DisableVertexAttribArray(VertexAttribute::MaskTexCoord));
            out.push(GlCommand::DisableVertexAttribArray(VertexAttribute::BorderRadii));
            out.push(GlCommand::DisableVertexAttribArray(VertexAttribute::BorderPosition));
            out.push(GlCommand::DisableVertexAttribArray(VertexAttribute::BlurRadius));
            out.push(GlCommand::DisableVertexAttribArray(VertexAttribute::DestTextureSize));
            out.push(GlCommand::DisableVertexAttribArray(VertexAttribute::SourceTextureSize));
            out.push(GlCommand::DisableVertexAttribArray(VertexAttribute::Misc));
        } else {
            out.push(GlCommand::BindVertexArray(0));
        }
        assert(out@ =~= start + self@.clear_vertex_array_commands());
    }

    fn emit_bind_render_target(&mut self, texture_id: Option<TextureId>, out: &mut Vec<GlCommand>)
        requires
            old(self)@.can_render_to(texture_id),
        ensures
            final(self)@ == old(self)@.with_render_target(texture_id),
            final(out)@ == old(out)@ + old(self)@.bind_render_target_commands(texture_id),
    {
        let ghost start = out@;
        let fbo_id = match texture_id {
            None => FBOId(self.default_fbo),
            Some(t) => {
                let texture = fnv_map_get(&self.textures, t.0).unwrap();
                texture.fbo_ids[0]
            },
        };
        if self.bound_fbo != fbo_id {
            self.bound_fbo = fbo_id;
            out.push(GlCommand::BindFramebuffer(fbo_id.0));
        }
        assert(out@ =~= start + old(self)@.bind_render_target_commands(texture_id));
        assert(self@ =~= old(self)@.with_render_target(texture_id));
    }

    // ---- frames --------------------------------------------------------

    /// Starts a frame. `framebuffer_binding` is the value of
    /// `FRAMEBUFFER_BINDING` when the frame starts; it becomes the default
    /// framebuffer. Everything else is unbound.
    pub fn begin_frame(&mut self, framebuffer_binding: i32) -> (r: Vec<GlCommand>)
        requires
            !old(self)@.inside_frame,
        ensures
            final(self)@ == old(self)@.after_begin_frame(framebuffer_binding),
            r@ == old(self)@.begin_frame_commands(),
    {
        let mut r = Vec::new();
        self.inside_frame = true;
        self.default_fbo = framebuffer_binding as u32;

        self.bound_color_texture = TextureId(0);
        r.push(GlCommand::ActiveTexture(TextureUnit::Unit0));
        r.push(GlCommand::BindTexture(0));

        self.bound_mask_texture = TextureId(0);
        r.push(GlCommand::ActiveTexture(TextureUnit::Unit1));
        r.push(GlCommand::BindTexture(0));

        self.bound_program = ProgramId(0);
        r.push(GlCommand::UseProgram(0));

        self.bound_vao = VAOId(0);
        self.emit_clear_vertex_array(&mut r);

        self.bound_fbo = FBOId(self.default_fbo);

        r.push(GlCommand::PixelStoreUnpackAlignment(1));
        r.push(GlCommand::ActiveTexture(TextureUnit::Unit0));
        assert(r@ =~= old(self)@.begin_frame_commands());
        assert(self@ =~= old(self)@.after_begin_frame(framebuffer_binding));
        r
    }

    /// Ends the frame: renders into the default framebuffer again and
    /// unbinds the texture and program.
    pub fn end_frame(&mut self) -> (r: Vec<GlCommand>)
        requires
            old(self)@.inside_frame,
        ensures
            final(self)@ == old(self)@.after_end_frame(),
            r@ == old(self)@.end_frame_commands(),
    {
        let mut r = Vec::new();
        self.emit_bind_render_target(None, &mut r);
        self.inside_frame = false;
        r.push(GlCommand::BindTexture(0));
        r.push(GlCommand::UseProgram(0));
        assert(r@ =~= old(self)@.end_frame_commands());
        assert(self@ =~= old(self)@.after_end_frame());
        r
    }

    // ---- binding -------------------------------------------------------

    /// Binds a texture to the color unit, unless it is bound there already.
    pub fn bind_color_texture(&mut self, texture_id: TextureId) -> (r: Vec<GlCommand>)
        requires
            old(self)@.inside_frame,
        ensures
            final(self)@ == old(self)@.with_color_texture(texture_id.0),
            r@ == old(self)@.bind_color_texture_commands(texture_id.0),
    {
        let mut r = Vec::new();
        self.emit_bind_color_texture(texture_id, &mut r);
        assert(r@ =~= old(self)@.bind_color_texture_commands(texture_id.0));
        r
    }

    /// Binds a texture to the mask unit, unless it is bound there already.
    pub fn bind_mask_texture(&mut self, texture_id: TextureId) -> (r: Vec<GlCommand>)
        requires
            old(self)@.inside_frame,
        ensures
            final(self)@ == old(self)@.with_mask_texture(texture_id.0),
            r@ == old(self)@.bind_mask_texture_commands(texture_id.0),
    {
        let mut r = Vec::new();
        if self.bound_mask_texture != texture_id {
            self.bound_mask_texture = texture_id;
            r.push(GlCommand::ActiveTexture(TextureUnit::Unit1));
            r.push(GlCommand::BindTexture(texture_id.0));
            r.push(GlCommand::ActiveTexture(TextureUnit::Unit0));
        }
        assert(r@ =~= old(self)@.bind_mask_texture_commands(texture_id.0));
        assert(self@ =~= old(self)@.with_mask_texture(texture_id.0));
        r
    }

    /// Renders into the texture's framebuffer, or into the default
    /// framebuffer for `None`, binding it unless it is bound already.
    pub fn bind_render_target(&mut self, texture_id: Option<TextureId>) -> (r: Vec<GlCommand>)
        requires
            old(self)@.inside_frame,
            old(self)@.can_render_to(texture_id),
        ensures
            final(self)@ == old(self)@.with_render_target(texture_id),
            r@ == old(self)@.bind_render_target_commands(texture_id),
    {
        let mut r = Vec::new();
        self.emit_bind_render_target(texture_id, &mut r);
        assert(r@ =~= old(self)@.bind_render_target_commands(texture_id));
        r
    }

    /// Binds a program, unless it is bound already, and sets its transform
    /// uniform (to the projection that the caller holds).
    pub fn bind_program(&mut self, program_id: ProgramId) -> (r: Vec<GlCommand>)
        requires
            old(self)@.inside_frame,
            old(self)@.programs.contains_key(program_id.0),
        ensures
            final(self)@ == old(self)@.with_program(program_id.0),
            r@ == old(self)@.bind_program_commands(program_id.0),
    {
        let mut r = Vec::new();
        if self.bound_program != program_id {
            self.bound_program = program_id;
            r.push(GlCommand::UseProgram(program_id.0));
        }
        let program = fnv_map_get(&self.programs, program_id.0).unwrap();
        r.push(GlCommand::UniformTransform(program.u_transform));
        assert(r@ =~= old(self)@.bind_program_commands(program_id.0));
        assert(self@ =~= old(self)@.with_program(program_id.0));
        r
    }

    // ---- textures ------------------------------------------------------

    /// Registers the textures that `gen_textures` named, each uninitialised:
    /// no format, no size, no framebuffers.
    pub fn create_texture_ids(&mut self, names: Vec<u32>) -> (r: Vec<TextureId>)
        requires
            old(self)@.wf(),
            names@.no_duplicates(),
            forall|i: int| 0 <= i < names@.len() ==> !old(self)@.textures.contains_key(#[trigger] names@[i]),
        ensures
            final(self)@ == old(self)@.after_create_textures(names@),
            final(self)@.wf(),
            r@ == names@.map_values(|n: u32| TextureId(n)),
    {
        let mut r: Vec<TextureId> = Vec::new();
        let n = names.len();
        proof {
            let s0 = old(self)@.after_create_textures(names@.take(0));
            assert(s0.textures =~= self@.textures);
        }
        for i in 0..n
            invariant
                n == names@.len(),
                names@.no_duplicates(),
                forall|j: int| 0 <= j < names@.len() ==> !old(self)@.textures.contains_key(#[trigger] names@[j]),
                self@ == old(self)@.after_create_textures(names@.take(i as int)),
                r@ == names@.take(i as int).map_values(|n: u32| TextureId(n)),
                self@.wf(),
        {
            let id = names[i];
            let texture_id = TextureId(id);
            let texture = Texture {
                id,
                width: 0,
                height: 0,
                format: ImageFormat::Invalid,
                fbo_ids: Vec::new(),
            };
            proof {
                lemma_texture_views_insert(self.textures@, id, texture);
                assert(texture@ =~= fresh_texture(id));
                assert(names@.take(i + 1) =~= names@.take(i as int).push(id));
                assert(!names@.take(i as int).contains(id)) by {
                    if names@.take(i as int).contains(id) {
                        let j = choose|j: int| 0 <= j < i && names@.take(i as int)[j] == id;
                        assert(names@[j] == names@[i as int]);
                    }
                }
                let prev = names@.take(i as int);
                let next = names@.take(i + 1);
                assert forall|k: u32| next.contains(k) <==> (prev.contains(k) || k == id) by {
                    if next.contains(k) {
                        let j = choose|j: int| 0 <= j < next.len() && next[j] == k;
                        if j < i {
                            assert(prev[j] == k);
                        }
                    }
                    if prev.contains(k) {
                        let j = choose|j: int| 0 <= j < prev.len() && prev[j] == k;
                        assert(next[j] == k);
                    }
                    if k == id {
                        assert(next[i as int] == k);
                    }
                }
                assert(old(self)@.after_create_textures(next).textures =~=
                    old(self)@.after_create_textures(prev).textures.insert(id, fresh_texture(id)));
            }
            let ghost before = self@;
            fnv_map_insert(&mut self.textures, id, texture);
            proof {
                assert(self@.textures == before.textures.insert(id, fresh_texture(id)));
                assert forall|k: u32| #[trigger] self@.textures.contains_key(k) implies self@.textures[k].id == k by {
                    if k != id {
                        assert(before.textures.contains_key(k));
                    }
                }
                assert(before.wf());
                assert(self@.programs == before.programs);
                assert(self@.vaos == before.vaos);
                assert(self@.platform == before.platform);
                assert(self@.next_vao_id == before.next_vao_id);
                assert(self@.wf());
            }
            r.push(texture_id);
            assert(r@ =~= names@.take(i + 1).map_values(|n: u32| TextureId(n)));
        }
        assert(names@.take(n as int) =~= names@);
        r
    }

    /// The size of a texture the device created, or else the size last given
    /// to `update_raw_texture` for it.
    pub fn get_texture_dimensions(&self, texture_id: TextureId) -> (r: (u32, u32))
        requires
            self@.textures.contains_key(texture_id.0) || self@.raw_textures.contains_key(texture_id.0),
        ensures
            r == self@.texture_dimensions(texture_id.0),
    {
        if let Some(texture) = fnv_map_get(&self.textures, texture_id.0) {
            (texture.width, texture.height)
        } else {
            let dimensions = fnv_map_get(&self.raw_textures, texture_id.0).unwrap();
            (dimensions.2, dimensions.3)
        }
    }

    /// Whether the texture has an alpha channel: an RGBA8 texture does, and
    /// so, it is assumed, does any texture the device did not create.
    pub fn texture_has_alpha(&self, texture_id: TextureId) -> (r: bool)
        ensures
            r == self@.texture_has_alpha(texture_id.0),
    {
        if let Some(texture) = fnv_map_get(&self.textures, texture_id.0) {
            texture.format == ImageFormat::RGBA8
        } else {
            true
        }
    }

    /// Records the rectangle of a texture that the device does not own.
    pub fn update_raw_texture(&mut self, texture_id: TextureId, x0: u32, y0: u32, width: u32, height: u32)
        ensures
            final(self)@ == old(self)@.after_update_raw_texture(texture_id.0, x0, y0, width, height),
    {
        fnv_map_insert(&mut self.raw_textures, texture_id.0, (x0, y0, width, height));
        assert(self@ =~= old(self)@.after_update_raw_texture(texture_id.0, x0, y0, width, height));
    }

    /// Allocates the texture's storage with the given size and format.
    ///
    /// A render target is bound to the color unit, allocated without
    /// pixels, and attached to each framebuffer of `fbo_names` (the names
    /// `gen_framebuffers` gave), after which the default framebuffer is bound
    /// again. Any other texture is bound directly, without going through the
    /// color unit's cache, and allocated with `pixels` when given.
    pub fn init_texture(
        &mut self,
        texture_id: TextureId,
        width: u32,
        height: u32,
        format: ImageFormat,
        filter: TextureFilter,
        mode: RenderTargetMode,
        fbo_names: Vec<u32>,
        pixels: Option<&[u8]>,
    ) -> (r: Vec<GlCommand>)
        requires
            old(self)@.inside_frame,
            old(self)@.wf(),
            old(self)@.textures.contains_key(texture_id.0),
            format != ImageFormat::Invalid,
        ensures
            final(self)@ == old(self)@.after_init_texture(
                texture_id.0,
                width,
                height,
                format,
                mode,
                fbo_names@,
            ),
            final(self)@.wf(),
            r@ == old(self)@.init_texture_commands(
                texture_id.0,
                width,
                height,
                format,
                filter,
                mode,
                fbo_names@,
                pixels.is_some(),
            ),
    {
        let ghost s = self@;
        let mut r = Vec::new();
        proof {
            lemma_texture_views_remove(self.textures@, texture_id.0);
        }
        let mut texture = fnv_map_remove(&mut self.textures, texture_id.0).unwrap();
        texture.format = format;
        texture.width = width;
        texture.height = height;

        let (internal_format, gl_format) = texture_upload_formats(self.platform, format);
        match mode {
            RenderTargetMode::RenderTarget => {
                self.emit_bind_color_texture(texture_id, &mut r);
                emit_texture_parameters(filter, &mut r);
                r.push(GlCommand::TexImage2D {
                    internal_format,
                    width: width as i32,
                    height: height as i32,
                    format: gl_format,
                    with_pixels: false,
                });
                let ghost before_attach = r@;
                let mut fbo_ids: Vec<FBOId> = Vec::new();
                let n = fbo_names.len();
                for i in 0..n
                    invariant
                        n == fbo_names@.len(),
                        r@ == before_attach + attach_commands(fbo_names@.take(i as int), texture_id.0),
                        fbo_ids@ == fbo_ids_of(fbo_names@.take(i as int)),
                {
                    let fbo = fbo_names[i];
                    r.push(GlCommand::BindFramebuffer(fbo));
                    r.push(GlCommand::FramebufferTexture2D(texture_id.0));
                    fbo_ids.push(FBOId(fbo));
                    assert(fbo_names@.take(i + 1).drop_last() =~= fbo_names@.take(i as int));
                    assert(fbo_ids@ =~= fbo_ids_of(fbo_names@.take(i + 1)));
                }
                assert(fbo_names@.take(n as int) =~= fbo_names@);
                r.push(GlCommand::BindFramebuffer(self.default_fbo));
                texture.fbo_ids = fbo_ids;
            },
            RenderTargetMode::NoTarget => {
                r.push(GlCommand::BindTexture(texture_id.0));
                emit_texture_parameters(filter, &mut r);
                r.push(GlCommand::TexImage2D {
                    internal_format,
                    width: width as i32,
                    height: height as i32,
                    format: gl_format,
                    with_pixels: pixels.is_some(),
                });
            },
        }
        proof {
            lemma_texture_views_insert(self.textures@, texture_id.0, texture);
        }
        fnv_map_insert(&mut self.textures, texture_id.0, texture);
        proof {
            let post = s.after_init_texture(texture_id.0, width, height, format, mode, fbo_names@);
            assert(self@.textures =~= post.textures);
            assert(self@ =~= post);
        }
        assert(r@ =~= s.init_texture_commands(
            texture_id.0,
            width,
            height,
            format,
            filter,
            mode,
            fbo_names@,
            pixels.is_some(),
        ));
        r
    }

    /// Binds the texture, releases its storage and framebuffers, and returns
    /// it to the state it was created in.
    pub fn deinit_texture(&mut self, texture_id: TextureId) -> (r: Vec<GlCommand>)
        requires
            old(self)@.inside_frame,
            old(self)@.wf(),
            old(self)@.textures.contains_key(texture_id.0),
        ensures
            final(self)@ == old(self)@.after_deinit_texture(texture_id.0),
            final(self)@.wf(),
            r@ == old(self)@.deinit_texture_commands(texture_id.0),
    {
        let ghost s = self@;
        let mut r = Vec::new();
        self.emit_bind_color_texture(texture_id, &mut r);
        r.push(GlCommand::TexImage2D {
            internal_format: PixelFormat::Rgb,
            width: 0,
            height: 0,
            format: PixelFormat::Rgb,
            with_pixels: false,
        });
        proof {
            lemma_texture_views_remove(self.textures@, texture_id.0);
        }
        let mut texture = fnv_map_remove(&mut self.textures, texture_id.0).unwrap();
        if texture.fbo_ids.len() != 0 {
            emit_delete_framebuffers(&texture.fbo_ids, &mut r);
        }
        proof {
            if texture.fbo_ids@.len() == 0 {
                assert(delete_framebuffer_commands(texture.fbo_ids@) =~= Seq::<GlCommand>::empty());
            }
        }
        texture.format = ImageFormat::Invalid;
        texture.width = 0;
        texture.height = 0;
        texture.fbo_ids.clear();
        proof {
            assert(texture@ =~= fresh_texture(texture_id.0));
            lemma_texture_views_insert(self.textures@, texture_id.0, texture);
        }
        fnv_map_insert(&mut self.textures, texture_id.0, texture);
        proof {
            let post = s.after_deinit_texture(texture_id.0);
            assert(self@.textures =~= post.textures);
            assert(self@ =~= post);
        }
        assert(r@ =~= s.deinit_texture_commands(texture_id.0));
        r
    }

    /// Replaces a rectangle of the texture with `data`, which holds exactly
    /// its pixels in the texture's format.
    pub fn update_texture_for_noncomposite_operation(
        &mut self,
        texture_id: TextureId,
        x0: u32,
        y0: u32,
        width: u32,
        height: u32,
        data: &[u8],
    ) -> (r: Vec<GlCommand>)
        requires
            old(self)@.inside_frame,
            old(self)@.can_update_texture(texture_id.0, width, height, data@.len() as usize),
        ensures
            final(self)@ == old(self)@.with_color_texture(texture_id.0),
            r@ == old(self)@.update_texture_commands(texture_id.0, x0, y0, width, height),
    {
        let ghost s = self@;
        let texture = fnv_map_get(&self.textures, texture_id.0).unwrap();
        let (gl_format, _bpp) = texture_update_format(self.platform, texture.format);
        let mut r = Vec::new();
        self.emit_bind_color_texture(texture_id, &mut r);
        r.push(GlCommand::TexSubImage2D {
            x0: x0 as i32,
            y0: y0 as i32,
            width: width as i32,
            height: height as i32,
            format: gl_format,
        });
        assert(r@ =~= s.update_texture_commands(texture_id.0, x0, y0, width, height));
        r
    }

    /// Copies a rectangle of the bound framebuffer into the texture, at its
    /// origin.
    pub fn read_framebuffer_rect(
        &mut self,
        texture_id: TextureId,
        x: i32,
        y: i32,
        width: i32,
        height: i32,
    ) -> (r: Vec<GlCommand>)
        requires
            old(self)@.inside_frame,
        ensures
            final(self)@ == old(self)@.with_color_texture(texture_id.0),
            r@ == old(self)@.read_framebuffer_rect_commands(texture_id.0, x, y, width, height),
    {
        let mut r = Vec::new();
        self.emit_bind_color_texture(texture_id, &mut r);
        r.push(GlCommand::CopyTexSubImage2D { x, y, width, height });
        assert(r@ =~= old(self)@.read_framebuffer_rect_commands(texture_id.0, x, y, width, height));
        r
    }

    // ---- programs ------------------------------------------------------

    /// The commands that assemble program `program` from its compiled vertex
    /// and fragment shaders: attach both, bind every vertex attribute to its
    /// location, and link.
    pub fn program_link_commands(&self, program: u32, vs_id: u32, fs_id: u32) -> (r: Vec<GlCommand>)
        requires
            self@.inside_frame,
        ensures
            r@ == program_link_commands(program, vs_id, fs_id),
    {
        let mut r = Vec::new();
        r.push(GlCommand::AttachShader { program, shader: vs_id });
        r.push(GlCommand::AttachShader { program, shader: fs_id });
        r.push(GlCommand::BindAttribLocation { program, attribute: VertexAttribute::Position });
        r.push(GlCommand::BindAttribLocation { program, attribute: VertexAttribute::Color });
        r.push(GlCommand::BindAttribLocation { program, attribute: VertexAttribute::ColorTexCoord });
        r.push(GlCommand::BindAttribLocation { program, attribute: VertexAttribute::MaskTexCoord });
        r.push(GlCommand::BindAttribLocation { program, attribute: VertexAttribute::BorderRadii });
        r.push(GlCommand::BindAttribLocation { program, attribute: VertexAttribute::BorderPosition });
        r.push(GlCommand::BindAttribLocation { program, attribute: VertexAttribute::BlurRadius });
        r.push(GlCommand::BindAttribLocation { program, attribute: VertexAttribute::DestTextureSize });
        r.push(GlCommand::BindAttribLocation { program, attribute: VertexAttribute::SourceTextureSize });
        r.push(GlCommand::BindAttribLocation { program, attribute: VertexAttribute::Misc });
        r.push(GlCommand::LinkProgram(program));
        assert(r@ =~= program_link_commands(program, vs_id, fs_id));
        r
    }

    /// Registers the linked program `pid` with the locations of its
    /// uniforms, then binds it (leaving the cache of the bound program as it
    /// was) and points its samplers and device pixel ratio uniform, where it
    /// has them, at their values.
    pub fn create_program(&mut self, pid: u32, uniforms: ProgramUniforms) -> (r: (ProgramId, Vec<GlCommand>))
        requires
            old(self)@.inside_frame,
            old(self)@.wf(),
            !old(self)@.programs.contains_key(pid),
        ensures
            r.0 == ProgramId(pid),
            final(self)@ == old(self)@.after_create_program(pid, uniforms),
            final(self)@.wf(),
            r.1@ == program_setup_commands(pid, uniforms),
    {
        let program_id = ProgramId(pid);
        let program = Program { id: pid, u_transform: uniforms.transform };
        fnv_map_insert(&mut self.programs, pid, program);

        let mut r = Vec::new();
        r.push(GlCommand::UseProgram(pid));
        if uniforms.diffuse != -1 {
            r.push(GlCommand::UniformSampler { location: uniforms.diffuse, sampler: TextureSampler::Color });
        }
        if uniforms.mask != -1 {
            r.push(GlCommand::UniformSampler { location: uniforms.mask, sampler: TextureSampler::Mask });
        }
        if uniforms.diffuse_2d != -1 {
            r.push(GlCommand::UniformSampler { location: uniforms.diffuse_2d, sampler: TextureSampler::Color });
        }
        if uniforms.mask_2d != -1 {
            r.push(GlCommand::UniformSampler { location: uniforms.mask_2d, sampler: TextureSampler::Mask });
        }
        if uniforms.device_pixel_ratio != -1 {
            r.push(GlCommand::UniformDevicePixelRatio(uniforms.device_pixel_ratio));
        }
        assert(r@ =~= program_setup_commands(pid, uniforms));
        assert(self@ =~= old(self)@.after_create_program(pid, uniforms));
        (program_id, r)
    }

    // ---- vertex arrays -------------------------------------------------

    /// Binds a vertex array, unless it is bound already. On GLES, where
    /// vertex arrays are emulated, this disables the attributes of the one
    /// bound before (if the device knows it), binds the new one's buffers and
    /// sets up its attributes.
    pub fn bind_vao(&mut self, vao_id: VAOId) -> (r: Vec<GlCommand>)
        requires
            old(self)@.inside_frame,
            old(self)@.can_bind_vao(vao_id.0),
        ensures
            final(self)@ == old(self)@.with_vao(vao_id.0),
            r@ == old(self)@.bind_vao_commands(vao_id.0),
    {
        let ghost s = self@;
        let mut r = Vec::new();
        if self.bound_vao != vao_id {
            if self.platform.is_gles() {
                if let Some(prev_vao) = fnv_map_get(&self.vaos, self.bound_vao.0) {
                    prev_vao.vertex_format.emit_unbind(&mut r);
                }
                let vao = fnv_map_get(&self.vaos, vao_id.0).unwrap();
                let vbo = vao.vbo_id;
                let ibo = vao.ibo_id;
                let format = vao.vertex_format;
                self.bound_vao = vao_id;
                r.push(GlCommand::BindBuffer(BufferTarget::Array, vbo.0));
                r.push(GlCommand::BindBuffer(BufferTarget::ElementArray, ibo.0));
                format.emit_bind(&mut r);
            } else {
                self.bound_vao = vao_id;
                r.push(GlCommand::BindVertexArray(vao_id.0));
            }
        }
        assert(r@ =~= s.bind_vao_commands(vao_id.0));
        assert(self@ =~= s.with_vao(vao_id.0));
        r
    }

    /// Registers a new vertex array of the given format over the buffers
    /// `vbo` and `ibo` (the names `gen_buffers` gave).
    ///
    /// On desktop GL the array is `vertex_array` (the name
    /// `gen_vertex_arrays` gave); it is set up with its buffers and
    /// attributes, and unbound again. On GLES the device numbers its
    /// emulated arrays itself, `vertex_array` is not used, and nothing is
    /// issued.
    pub fn create_vao(&mut self, format: VertexFormat, vertex_array: u32, vbo: u32, ibo: u32) -> (r: (VAOId, Vec<GlCommand>))
        requires
            old(self)@.inside_frame,
            old(self)@.wf(),
            old(self)@.can_create_vao(vertex_array),
        ensures
            r.0 == VAOId(old(self)@.new_vao_id(vertex_array)),
            !old(self)@.vaos.contains_key(r.0.0),
            final(self)@ == old(self)@.after_create_vao(format, vertex_array, vbo, ibo),
            final(self)@.wf(),
            r.1@ == old(self)@.create_vao_commands(format, vertex_array, vbo, ibo),
    {
        let ghost s = self@;
        let mut r = Vec::new();
        let vao_id;
        if self.platform.is_gles() {
            vao_id = self.next_vao_id;
            self.next_vao_id = self.next_vao_id + 1;
        } else {
            vao_id = vertex_array;
            r.push(GlCommand::BindVertexArray(vertex_array));
            r.push(GlCommand::BindBuffer(BufferTarget::Array, vbo));
            r.push(GlCommand::BindBuffer(BufferTarget::ElementArray, ibo));
            format.emit_bind(&mut r);
            r.push(GlCommand::BindVertexArray(0));
        }
        let vao = VAO { id: vao_id, vertex_format: format, vbo_id: VBOId(vbo), ibo_id: IBOId(ibo) };
        fnv_map_insert(&mut self.vaos, vao_id, vao);
        proof {
            let post = s.after_create_vao(format, vertex_array, vbo, ibo);
            assert(self@ =~= post);
            assert forall|k: u32| #[trigger] self@.vaos.contains_key(k) implies self@.vaos[k].id == k by {
                if k != vao_id {
                    assert(s.vaos.contains_key(k));
                }
            }
            if s.platform.spec_is_gles() {
                assert forall|k: u32| #[trigger] self@.vaos.contains_key(k) implies k < self@.next_vao_id by {
                    if k != vao_id {
                        assert(s.vaos.contains_key(k));
                    }
                }
            }
        }
        assert(r@ =~= s.create_vao_commands(format, vertex_array, vbo, ibo));
        (VAOId(vao_id), r)
    }

    /// Binds the bound vertex array's vertex buffer and fills it with the
    /// caller's vertices.
    pub fn update_vao_vertices(&mut self, vao_id: VAOId, usage_hint: VertexUsageHint) -> (r: Vec<GlCommand>)
        requires
            old(self)@.can_update_vao(vao_id.0),
        ensures
            final(self)@ == old(self)@,
            r@ == old(self)@.update_vao_commands(vao_id.0, BufferTarget::Array, usage_hint),
    {
        let vao = fnv_map_get(&self.vaos, vao_id.0).unwrap();
        let mut r = Vec::new();
        r.push(GlCommand::BindBuffer(BufferTarget::Array, vao.vbo_id.0));
        r.push(GlCommand::BufferData(BufferTarget::Array, usage_hint.to_gl()));
        assert(r@ =~= self@.update_vao_commands(vao_id.0, BufferTarget::Array, usage_hint));
        r
    }

    /// Binds the bound vertex array's index buffer and fills it with the
    /// caller's indices.
    pub fn update_vao_indices(&mut self, vao_id: VAOId, usage_hint: VertexUsageHint) -> (r: Vec<GlCommand>)
        requires
            old(self)@.can_update_vao(vao_id.0),
        ensures
            final(self)@ == old(self)@,
            r@ == old(self)@.update_vao_commands(vao_id.0, BufferTarget::ElementArray, usage_hint),
    {
        let vao = fnv_map_get(&self.vaos, vao_id.0).unwrap();
        let mut r = Vec::new();
        r.push(GlCommand::BindBuffer(BufferTarget::ElementArray, vao.ibo_id.0));
        r.push(GlCommand::BufferData(BufferTarget::ElementArray, usage_hint.to_gl()));
        assert(r@ =~= self@.update_vao_commands(vao_id.0, BufferTarget::ElementArray, usage_hint));
        r
    }

    /// Draws `index_count` 16-bit indices as triangles, starting at index
    /// `first_vertex` of the bound index buffer.
    pub fn draw_triangles_u16(&mut self, first_vertex: i32, index_count: i32) -> (r: Vec<GlCommand>)
        requires
            old(self)@.inside_frame,
            0 <= first_vertex,
        ensures
            final(self)@ == old(self)@,
            r@ == seq![
                GlCommand::DrawElements {
                    mode: PrimitiveMode::Triangles,
                    count: index_count,
                    index_type: IndexType::UnsignedShort,
                    offset: (first_vertex * 2) as u32,
                },
            ],
    {
        let mut r = Vec::new();
        r.push(GlCommand::DrawElements {
            mode: PrimitiveMode::Triangles,
            count: index_count,
            index_type: IndexType::UnsignedShort,
            offset: first_vertex as u32 * 2,
        });
        assert(r@ =~= seq![
            GlCommand::DrawElements {
                mode: PrimitiveMode::Triangles,
                count: index_count,
                index_type: IndexType::UnsignedShort,
                offset: (first_vertex * 2) as u32,
            },
        ]);
        r
    }

    /// Draws `index_count` 32-bit indices as triangles, starting at index
    /// `first_vertex` of the bound index buffer.
    pub fn draw_triangles_u32(&mut self, first_vertex: i32, index_count: i32) -> (r: Vec<GlCommand>)
        requires
            old(self)@.inside_frame,
            0 <= first_vertex < 0x4000_0000,
        ensures
            final(self)@ == old(self)@,
            r@ == seq![
                GlCommand::DrawElements {
                    mode: PrimitiveMode::Triangles,
                    count: index_count,
                    index_type: IndexType::UnsignedInt,
                    offset: (first_vertex * 4) as u32,
                },
            ],
    {
        let mut r = Vec::new();
        r.push(GlCommand::DrawElements {
            mode: PrimitiveMode::Triangles,
            count: index_count,
            index_type: IndexType::UnsignedInt,
            offset: first_vertex as u32 * 4,
        });
        assert(r@ =~= seq![
            GlCommand::DrawElements {
                mode: PrimitiveMode::Triangles,
                count: index_count,
                index_type: IndexType::UnsignedInt,
                offset: (first_vertex * 4) as u32,
            },
        ]);
        r
    }

    /// Draws `vertex_count` vertices of the bound vertex buffer as lines,
    /// starting at `first_vertex`.
    pub fn draw_nonindexed_lines(&mut self, first_vertex: i32, vertex_count: i32) -> (r: Vec<GlCommand>)
        requires
            old(self)@.inside_frame,
        ensures
            final(self)@ == old(self)@,
            r@ == seq![GlCommand::DrawArrays { mode: PrimitiveMode::Lines, first: first_vertex, count: vertex_count }],
    {
        let mut r = Vec::new();
        r.push(GlCommand::DrawArrays { mode: PrimitiveMode::Lines, first: first_vertex, count: vertex_count });
        assert(r@ =~= seq![GlCommand::DrawArrays { mode: PrimitiveMode::Lines, first: first_vertex, count: vertex_count }]);
        r
    }

    /// Forgets a vertex array, deleting it and its buffers, and unbinds it if
    /// it was bound.
    pub fn delete_vao(&mut self, vao_id: VAOId) -> (r: Vec<GlCommand>)
        requires
            old(self)@.wf(),
            old(self)@.vaos.contains_key(vao_id.0),
        ensures
            final(self)@ == old(self)@.after_delete_vao(vao_id.0),
            final(self)@.wf(),
            r@ == old(self)@.vaos[vao_id.0].spec_release_commands(old(self)@.platform),
    {
        let ghost s = self@;
        let vao = fnv_map_remove(&mut self.vaos, vao_id.0).unwrap();
        if self.bound_vao == vao_id {
            self.bound_vao = VAOId(0);
        }
        let r = vao.release_commands(self.platform);
        proof {
            assert(self@ =~= s.after_delete_vao(vao_id.0));
            assert forall|k: u32| #[trigger] self@.vaos.contains_key(k) implies s.vaos.contains_key(k) by {}
        }
        r
    }

    // ---- release -------------------------------------------------------

    /// Releases the device: deletes every texture (with its framebuffers),
    /// then every program, then every vertex array (with its buffers), each
    /// table walked in its own iteration order.
    pub fn release(self) -> (r: Vec<GlCommand>)
        ensures
            exists|tk: Seq<u32>, pk: Seq<u32>, vk: Seq<u32>|
                {
                    &&& is_key_order(tk, self@.textures.dom())
                    &&& is_key_order(pk, self@.programs.dom())
                    &&& is_key_order(vk, self@.vaos.dom())
                    &&& r@ == self@.release_commands(tk, pk, vk)
                },
    {
        let ghost s = self@;
        let mut r: Vec<GlCommand> = Vec::new();

        let texture_keys = fnv_map_keys(&self.textures);
        let n = texture_keys.len();
        for i in 0..n
            invariant
                n == texture_keys@.len(),
                texture_keys@.to_set() == self.textures@.dom(),
                s == self@,
                r@ == release_textures(s.textures, texture_keys@.take(i as int)),
        {
            let k = texture_keys[i];
            assert(texture_keys@.to_set().contains(k));
            let texture = fnv_map_get(&self.textures, k).unwrap();
            let mut cmds = texture.release_commands();
            r.append(&mut cmds);
            assert(texture_keys@.take(i + 1).drop_last() =~= texture_keys@.take(i as int));
        }
        assert(texture_keys@.take(n as int) =~= texture_keys@);
        proof {
            assert(texture_views(self.textures@).dom() =~= self.textures@.dom());
        }
        let ghost after_textures = r@;

        let program_keys = fnv_map_keys(&self.programs);
        let n = program_keys.len();
        for i in 0..n
            invariant
                n == program_keys@.len(),
                program_keys@.to_set() == self.programs@.dom(),
                s == self@,
                r@ == after_textures + release_programs(s.programs, program_keys@.take(i as int)),
        {
            let k = program_keys[i];
            assert(program_keys@.to_set().contains(k));
            let program = fnv_map_get(&self.programs, k).unwrap();
            let mut cmds = program.release_commands();
            r.append(&mut cmds);
            assert(program_keys@.take(i + 1).drop_last() =~= program_keys@.take(i as int));
        }
        assert(program_keys@.take(n as int) =~= program_keys@);
        let ghost after_programs = r@;

        let vao_keys = fnv_map_keys(&self.vaos);
        let n = vao_keys.len();
        for i in 0..n
            invariant
                n == vao_keys@.len(),
                vao_keys@.to_set() == self.vaos@.dom(),
                s == self@,
                r@ == after_programs + release_vaos(s.vaos, vao_keys@.take(i as int), s.platform),
        {
            let k = vao_keys[i];
            assert(vao_keys@.to_set().contains(k));
            let vao = fnv_map_get(&self.vaos, k).unwrap();
            let mut cmds = vao.release_commands(self.platform);
            r.append(&mut cmds);
            assert(vao_keys@.take(i + 1).drop_last() =~= vao_keys@.take(i as int));
        }
        assert(vao_keys@.take(n as int) =~= vao_keys@);
        assert(r@ =~= s.release_commands(texture_keys@, program_keys@, vao_keys@));
        r
    }

    // ---- queries -------------------------------------------------------

    pub fn platform(&self) -> (r: Platform)
        ensures
            r == self@.platform,
    {
        self.platform
    }

    /// Whether a frame is in progress.
    pub fn inside_frame(&self) -> (r: bool)
        ensures
            r == self@.inside_frame,
    {
        self.inside_frame
    }

    pub fn bound_color_texture(&self) -> (r: TextureId)
        ensures
            r.0 == self@.bound_color_texture,
    {
        self.bound_color_texture
    }

    pub fn bound_mask_texture(&self) -> (r: TextureId)
        ensures
            r.0 == self@.bound_mask_texture,
    {
        self.bound_mask_texture
    }

    pub fn bound_program(&self) -> (r: ProgramId)
        ensures
            r.0 == self@.bound_program,
    {
        self.bound_program
    }

    pub fn bound_vao(&self) -> (r: VAOId)
        ensures
            r.0 == self@.bound_vao,
    {
        self.bound_vao
    }

    pub fn bound_fbo(&self) -> (r: FBOId)
        ensures
            r.0 == self@.bound_fbo,
    {
        self.bound_fbo
    }

    /// The framebuffer that was bound when the current (or last) frame began.
    pub fn default_fbo(&self) -> (r: u32)
        ensures
            r == self@.default_fbo,
    {
        self.default_fbo
    }

    /// The program registered under `program_id`, if any.
    pub fn program(&self, program_id: ProgramId) -> (r: Option<Program>)
        ensures
            match r {
                Some(p) => self@.programs.contains_key(program_id.0) && p == self@.programs[program_id.0],
                None => !self@.programs.contains_key(program_id.0),
            },
    {
        match fnv_map_get(&self.programs, program_id.0) {
            Some(p) => Some(*p),
            None => None,
        }
    }

    /// The format of a texture the device created, if it did.
    pub fn texture_format(&self, texture_id: TextureId) -> (r: Option<ImageFormat>)
        ensures
            match r {
                Some(f) => self@.textures.contains_key(texture_id.0) && f == self@.textures[texture_id.0].format,
                None => !self@.textures.contains_key(texture_id.0),
            },
    {
        match fnv_map_get(&self.textures, texture_id.0) {
            Some(t) => Some(t.format),
            None => None,
        }
    }

    /// The vertex array registered under `vao_id`, if any.
    pub fn vao(&self, vao_id: VAOId) -> (r: Option<VAO>)
        ensures
            match r {
                Some(v) => self@.vaos.contains_key(vao_id.0) && v == self@.vaos[vao_id.0],
                None => !self@.vaos.contains_key(vao_id.0),
            },
    {
        match fnv_map_get(&self.vaos, vao_id.0) {
            Some(v) => Some(*v),
            None => None,
        }
    }

    // ---- preconditions, checked -----------------------------------------

    /// Whether `bind_render_target(texture_id)` can be asked: the default
    /// framebuffer always, a texture when the device created it with a
    /// framebuffer.
    pub fn can_render_to(&self, texture_id: Option<TextureId>) -> (r: bool)
        ensures
            r == self@.can_render_to(texture_id),
    {
        match texture_id {
            None => true,
            Some(t) => match fnv_map_get(&self.textures, t.0) {
                Some(texture) => texture.fbo_ids.len() > 0,
                None => false,
            },
        }
    }

    /// Whether the device has dimensions for the texture: it created it, or
    /// was told its rectangle.
    pub fn knows_texture(&self, texture_id: TextureId) -> (r: bool)
        ensures
            r == (self@.textures.contains_key(texture_id.0) || self@.raw_textures.contains_key(texture_id.0)),
    {
        fnv_map_get(&self.textures, texture_id.0).is_some() || fnv_map_get(&self.raw_textures, texture_id.0).is_some()
    }

    /// Whether `bind_vao(vao_id)` can be asked: on GLES, switching to a
    /// vertex array needs the device to know it.
    pub fn can_bind_vao(&self, vao_id: VAOId) -> (r: bool)
        ensures
            r == self@.can_bind_vao(vao_id.0),
    {
        if self.platform.is_gles() && self.bound_vao != vao_id {
            fnv_map_get(&self.vaos, vao_id.0).is_some()
        } else {
            true
        }
    }

    /// Whether `create_vao` can register `vertex_array` (desktop GL: the name
    /// is not taken) or number another emulated array (GLES).
    pub fn can_create_vao(&self, vertex_array: u32) -> (r: bool)
        ensures
            r == self@.can_create_vao(vertex_array),
    {
        if self.platform.is_gles() {
            self.next_vao_id < u32::MAX
        } else {
            fnv_map_get(&self.vaos, vertex_array).is_none()
        }
    }

    /// Whether `data_len` bytes are exactly a `width` by `height` rectangle
    /// of an initialised texture of the device.
    pub fn can_update_texture(&self, texture_id: TextureId, width: u32, height: u32, data_len: usize) -> (r: bool)
        ensures
            r == self@.can_update_texture(texture_id.0, width, height, data_len),
    {
        match fnv_map_get(&self.textures, texture_id.0) {
            None => false,
            Some(texture) => {
                if texture.format == ImageFormat::Invalid {
                    false
                } else {
                    let (_format, bpp) = texture_update_format(self.platform, texture.format);
                    assert(bpp <= 4);
                    assert(bpp as u64 * width as u64 <= 4 * u32::MAX) by (nonlinear_arith)
                        requires
                            bpp <= 4,
                    ;
                    let row = bpp as u64 * width as u64;
                    if row > u32::MAX as u64 {
                        false
                    } else {
                        assert(row * height <= u32::MAX * u32::MAX) by (nonlinear_arith)
                            requires
                                row <= u32::MAX,
                                height <= u32::MAX,
                        ;
                        let total = row * height as u64;
                        if total > u32::MAX as u64 {
                            false
                        } else {
                            data_len as u32 == total as u32
                        }
                    }
                }
            },
        }
    }
}

} // verus!
