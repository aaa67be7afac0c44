//! The abstract state of the device, and what each device operation does to
//! it and which GL commands it issues.

use crate::command::{BufferTarget, GlCommand, PixelFormat, TexParameterName, TexParameterValue, TextureUnit};
use crate::types::{
    FBOId, IBOId, ImageFormat, Platform, RenderTargetMode, TextureFilter, TextureId, TextureSampler,
    VBOId, VertexFormat, VertexUsageHint,
};
use crate::vertex::{all_attributes, VertexAttribute};
use vstd::prelude::*;

verus! {

/// What the device knows of a texture it created.
pub struct TextureState {
    pub id: u32,
    pub format: ImageFormat,
    pub width: u32,
    pub height: u32,
    /// The framebuffers that render into the texture (empty unless it was
    /// initialised as a render target).
    pub fbo_ids: Seq<FBOId>,
}

/// A linked program: its GL name and the location of its `uTransform`.
#[derive(PartialEq, Eq, Structural, Debug, Clone, Copy)]
pub struct Program {
    pub id: u32,
    pub u_transform: i32,
}

/// A vertex array: its id, the layout of its vertices and its two buffers.
#[derive(PartialEq, Eq, Structural, Debug, Clone, Copy)]
pub struct VAO {
    pub id: u32,
    pub vertex_format: VertexFormat,
    pub vbo_id: VBOId,
    pub ibo_id: IBOId,
}

/// The locations of the uniforms that the device sets up in every program
/// it creates (`-1` for one the program lacks).
#[derive(PartialEq, Eq, Structural, Debug, Clone, Copy)]
pub struct ProgramUniforms {
    pub transform: i32,
    pub diffuse: i32,
    pub mask: i32,
    pub diffuse_2d: i32,
    pub mask_2d: i32,
    pub device_pixel_ratio: i32,
}

/// The uniforms that the device looks up in every program it creates.
#[derive(PartialEq, Eq, Structural, Debug, Clone, Copy)]
pub enum ProgramUniform {
    Transform,
    Diffuse,
    Mask,
    Diffuse2D,
    Mask2D,
    DevicePixelRatio,
}

impl ProgramUniform {
    /// The name the shaders give the uniform.
    pub fn name(&self) -> (r: &'static str)
        ensures
            *self == ProgramUniform::Transform ==> r@ == "uTransform"@,
            *self == ProgramUniform::Diffuse ==> r@ == "sDiffuse"@,
            *self == ProgramUniform::Mask ==> r@ == "sMask"@,
            *self == ProgramUniform::Diffuse2D ==> r@ == "sDiffuse2D"@,
            *self == ProgramUniform::Mask2D ==> r@ == "sMask2D"@,
            *self == ProgramUniform::DevicePixelRatio ==> r@ == "uDevicePixelRatio"@,
    {
        match self {
            ProgramUniform::Transform => "uTransform",
            ProgramUniform::Diffuse => "sDiffuse",
            ProgramUniform::Mask => "sMask",
            ProgramUniform::Diffuse2D => "sDiffuse2D",
            ProgramUniform::Mask2D => "sMask2D",
            ProgramUniform::DevicePixelRatio => "uDevicePixelRatio",
        }
    }
}

/// The state of the device.
pub struct DeviceState {
    pub platform: Platform,
    pub bound_color_texture: u32,
    pub bound_mask_texture: u32,
    pub bound_program: u32,
    pub bound_vao: u32,
    pub bound_fbo: u32,
    pub default_fbo: u32,
    pub inside_frame: bool,
    pub textures: Map<u32, TextureState>,
    pub raw_textures: Map<u32, (u32, u32, u32, u32)>,
    pub programs: Map<u32, Program>,
    pub vaos: Map<u32, VAO>,
    /// The id that the next emulated vertex array gets (GLES only).
    pub next_vao_id: u32,
}

/// The format GL is given for single-channel textures.
pub open spec fn alpha_format(p: Platform) -> PixelFormat {
    if p.spec_is_gles() {
        PixelFormat::Alpha
    } else {
        PixelFormat::Red
    }
}

/// The (internal format, format) pair that a texture of `format` is
/// allocated with.
pub open spec fn upload_formats(p: Platform, format: ImageFormat) -> (PixelFormat, PixelFormat) {
    match format {
        ImageFormat::A8 => (alpha_format(p), alpha_format(p)),
        ImageFormat::RGB8 => (PixelFormat::Rgb, PixelFormat::Rgb),
        _ => if p == Platform::Android {
            (PixelFormat::Bgra, PixelFormat::Bgra)
        } else {
            (PixelFormat::Rgba, PixelFormat::Bgra)
        },
    }
}

/// The format that updates of a texture of `format` are given in.
pub open spec fn update_format(p: Platform, format: ImageFormat) -> PixelFormat {
    match format {
        ImageFormat::A8 => alpha_format(p),
        ImageFormat::RGB8 => PixelFormat::Rgb,
        _ => PixelFormat::Bgra,
    }
}

/// Bytes per pixel of a valid format.
pub open spec fn bytes_per_pixel(format: ImageFormat) -> u32 {
    match format {
        ImageFormat::A8 => 1,
        ImageFormat::RGB8 => 3,
        _ => 4,
    }
}

pub open spec fn filter_value(filter: TextureFilter) -> TexParameterValue {
    match filter {
        TextureFilter::Nearest => TexParameterValue::Nearest,
        TextureFilter::Linear => TexParameterValue::Linear,
    }
}

/// Sets the filter of the bound texture and clamps it at its edges.
pub open spec fn texture_parameter_commands(filter: TextureFilter) -> Seq<GlCommand> {
    seq![
        GlCommand::TexParameter(TexParameterName::MagFilter, filter_value(filter)),
        GlCommand::TexParameter(TexParameterName::MinFilter, filter_value(filter)),
        GlCommand::TexParameter(TexParameterName::WrapS, TexParameterValue::ClampToEdge),
        GlCommand::TexParameter(TexParameterName::WrapT, TexParameterValue::ClampToEdge),
    ]
}

/// Binds each framebuffer in turn and attaches the texture to it.
pub open spec fn attach_commands(fbos: Seq<u32>, texture: u32) -> Seq<GlCommand>
    decreases fbos.len(),
{
    if fbos.len() == 0 {
        seq![]
    } else {
        attach_commands(fbos.drop_last(), texture) + seq![
            GlCommand::BindFramebuffer(fbos.last()),
            GlCommand::FramebufferTexture2D(texture),
        ]
    }
}

pub open spec fn fbo_ids_of(names: Seq<u32>) -> Seq<FBOId> {
    names.map_values(|n: u32| FBOId(n))
}

pub open spec fn delete_framebuffer_commands(fbos: Seq<FBOId>) -> Seq<GlCommand> {
    fbos.map_values(|f: FBOId| GlCommand::DeleteFramebuffer(f.0))
}

/// What a texture that was created but never initialised looks like.
pub open spec fn fresh_texture(id: u32) -> TextureState {
    TextureState { id, format: ImageFormat::Invalid, width: 0, height: 0, fbo_ids: seq![] }
}

impl TextureState {
    /// Deletes the texture's framebuffers, if it has any, then the texture.
    pub open spec fn release_commands(self) -> Seq<GlCommand> {
        (if self.fbo_ids.len() != 0 {
            delete_framebuffer_commands(self.fbo_ids)
        } else {
            seq![]
        }) + seq![GlCommand::DeleteTexture(self.id)]
    }
}

impl Program {
    pub open spec fn spec_release_commands(self) -> Seq<GlCommand> {
        seq![GlCommand::DeleteProgram(self.id)]
    }
}

impl VAO {
    /// Deletes the vertex array (which GLES only emulates) and its buffers.
    pub open spec fn spec_release_commands(self, p: Platform) -> Seq<GlCommand> {
        if p.spec_is_gles() {
            seq![GlCommand::DeleteBuffer(self.vbo_id.0), GlCommand::DeleteBuffer(self.ibo_id.0)]
        } else {
            seq![
                GlCommand::DeleteVertexArray(self.id),
                GlCommand::DeleteBuffer(self.vbo_id.0),
                GlCommand::DeleteBuffer(self.ibo_id.0),
            ]
        }
    }
}

/// Commands that set a sampler uniform, unless the program lacks it.
pub open spec fn sampler_commands(location: i32, sampler: TextureSampler) -> Seq<GlCommand> {
    if location != -1 {
        seq![GlCommand::UniformSampler { location, sampler }]
    } else {
        seq![]
    }
}

/// Attaches the two shaders, binds every attribute to its location and links.
pub open spec fn program_link_commands(program: u32, vs: u32, fs: u32) -> Seq<GlCommand> {
    seq![
        GlCommand::AttachShader { program, shader: vs },
        GlCommand::AttachShader { program, shader: fs },
    ] + all_attributes().map_values(
        |a: VertexAttribute| GlCommand::BindAttribLocation { program, attribute: a },
    ) + seq![GlCommand::LinkProgram(program)]
}

/// Binds a new program and points its samplers at their texture units and
/// its device pixel ratio uniform at the device's ratio.
pub open spec fn program_setup_commands(program: u32, u: ProgramUniforms) -> Seq<GlCommand> {
    seq![GlCommand::UseProgram(program)] + sampler_commands(u.diffuse, TextureSampler::Color)
        + sampler_commands(u.mask, TextureSampler::Mask) + sampler_commands(
        u.diffuse_2d,
        TextureSampler::Color,
    ) + sampler_commands(u.mask_2d, TextureSampler::Mask) + (if u.device_pixel_ratio != -1 {
        seq![GlCommand::UniformDevicePixelRatio(u.device_pixel_ratio)]
    } else {
        seq![]
    })
}

/// An order in which a table's keys can be walked: each key exactly once.
pub open spec fn is_key_order(keys: Seq<u32>, dom: Set<u32>) -> bool {
    keys.no_duplicates() && keys.to_set() == dom
}

/// Deletes the textures under `keys`, in that order.
pub open spec fn release_textures(m: Map<u32, TextureState>, keys: Seq<u32>) -> Seq<GlCommand>
    decreases keys.len(),
{
    if keys.len() == 0 {
        seq![]
    } else {
        release_textures(m, keys.drop_last()) + m[keys.last()].release_commands()
    }
}

/// Deletes the programs under `keys`, in that order.
pub open spec fn release_programs(m: Map<u32, Program>, keys: Seq<u32>) -> Seq<GlCommand>
    decreases keys.len(),
{
    if keys.len() == 0 {
        seq![]
    } else {
        release_programs(m, keys.drop_last()) + m[keys.last()].spec_release_commands()
    }
}

/// Deletes the vertex arrays under `keys`, in that order.
pub open spec fn release_vaos(m: Map<u32, VAO>, keys: Seq<u32>, p: Platform) -> Seq<GlCommand>
    decreases keys.len(),
{
    if keys.len() == 0 {
        seq![]
    } else {
        release_vaos(m, keys.drop_last(), p) + m[keys.last()].spec_release_commands(p)
    }
}

impl DeviceState {
    /// What releasing the device deletes, given the orders in which its
    /// texture, program and vertex array tables are walked: every texture,
    /// then every program, then every vertex array.
    pub open spec fn release_commands(self, texture_keys: Seq<u32>, program_keys: Seq<u32>, vao_keys: Seq<u32>) -> Seq<GlCommand> {
        release_textures(self.textures, texture_keys) + release_programs(self.programs, program_keys)
            + release_vaos(self.vaos, vao_keys, self.platform)
    }

    /// The resource tables are keyed by the name of what they hold, and on
    /// GLES every emulated vertex array id is below the next one handed out.
    pub open spec fn wf(self) -> bool {
        &&& forall|k: u32| #[trigger] self.textures.contains_key(k) ==> self.textures[k].id == k
        &&& forall|k: u32| #[trigger] self.programs.contains_key(k) ==> self.programs[k].id == k
        &&& forall|k: u32| #[trigger] self.vaos.contains_key(k) ==> self.vaos[k].id == k
        &&& self.platform.spec_is_gles() ==> forall|k: u32|
            #[trigger] self.vaos.contains_key(k) ==> k < self.next_vao_id
    }

    pub open spec fn initial(platform: Platform) -> DeviceState {
        DeviceState {
            platform,
            bound_color_texture: 0,
            bound_mask_texture: 0,
            bound_program: 0,
            bound_vao: 0,
            bound_fbo: 0,
            default_fbo: 0,
            inside_frame: false,
            textures: Map::empty(),
            raw_textures: Map::empty(),
            programs: Map::empty(),
            vaos: Map::empty(),
            next_vao_id: 1,
        }
    }

    // ---- binding -------------------------------------------------------

    pub open spec fn bind_color_texture_commands(self, t: u32) -> Seq<GlCommand> {
        if self.bound_color_texture != t {
            seq![GlCommand::BindTexture(t)]
        } else {
            seq![]
        }
    }

    pub open spec fn with_color_texture(self, t: u32) -> DeviceState {
        DeviceState { bound_color_texture: t, ..self }
    }

    pub open spec fn bind_mask_texture_commands(self, t: u32) -> Seq<GlCommand> {
        if self.bound_mask_texture != t {
            seq![
                GlCommand::ActiveTexture(TextureUnit::Unit1),
                GlCommand::BindTexture(t),
                GlCommand::ActiveTexture(TextureUnit::Unit0),
            ]
        } else {
            seq![]
        }
    }

    pub open spec fn with_mask_texture(self, t: u32) -> DeviceState {
        DeviceState { bound_mask_texture: t, ..self }
    }

    /// The framebuffer that rendering into `target` goes to: the default one,
    /// or the first framebuffer of the texture.
    pub open spec fn render_target_fbo(self, target: Option<TextureId>) -> u32 {
        match target {
            Some(t) => self.textures[t.0].fbo_ids[0].0,
            None => self.default_fbo,
        }
    }

    pub open spec fn can_render_to(self, target: Option<TextureId>) -> bool {
        match target {
            Some(t) => self.textures.contains_key(t.0) && self.textures[t.0].fbo_ids.len() > 0,
            None => true,
        }
    }

    pub open spec fn bind_render_target_commands(self, target: Option<TextureId>) -> Seq<GlCommand> {
        if self.bound_fbo != self.render_target_fbo(target) {
            seq![GlCommand::BindFramebuffer(self.render_target_fbo(target))]
        } else {
            seq![]
        }
    }

    pub open spec fn with_render_target(self, target: Option<TextureId>) -> DeviceState {
        DeviceState { bound_fbo: self.render_target_fbo(target), ..self }
    }

    pub open spec fn bind_program_commands(self, p: u32) -> Seq<GlCommand> {
        (if self.bound_program != p {
            seq![GlCommand::UseProgram(p)]
        } else {
            seq![]
        }) + seq![GlCommand::UniformTransform(self.programs[p].u_transform)]
    }

    pub open spec fn with_program(self, p: u32) -> DeviceState {
        DeviceState { bound_program: p, ..self }
    }

    /// Unbinds whatever vertex array state is bound.
    pub open spec fn clear_vertex_array_commands(self) -> Seq<GlCommand> {
        if self.platform.spec_is_gles() {
            all_attributes().map_values(|a: VertexAttribute| GlCommand::DisableVertexAttribArray(a))
        } else {
            seq![GlCommand::BindVertexArray(0)]
        }
    }

    /// What binding vertex array `v` needs: always a known array on GLES,
    /// where the array is emulated, when it is not the bound one.
    pub open spec fn can_bind_vao(self, v: u32) -> bool {
        self.platform.spec_is_gles() && self.bound_vao != v ==> self.vaos.contains_key(v)
    }

    pub open spec fn bind_vao_commands(self, v: u32) -> Seq<GlCommand> {
        if self.bound_vao == v {
            seq![]
        } else if !self.platform.spec_is_gles() {
            seq![GlCommand::BindVertexArray(v)]
        } else {
            (if self.vaos.contains_key(self.bound_vao) {
                self.vaos[self.bound_vao].vertex_format.unbind_commands()
            } else {
                seq![]
            }) + seq![
                GlCommand::BindBuffer(BufferTarget::Array, self.vaos[v].vbo_id.0),
                GlCommand::BindBuffer(BufferTarget::ElementArray, self.vaos[v].ibo_id.0),
            ] + self.vaos[v].vertex_format.bind_commands()
        }
    }

    pub open spec fn with_vao(self, v: u32) -> DeviceState {
        DeviceState { bound_vao: v, ..self }
    }

    // ---- frames --------------------------------------------------------

    pub open spec fn begin_frame_commands(self) -> Seq<GlCommand> {
        seq![
            GlCommand::ActiveTexture(TextureUnit::Unit0),
            GlCommand::BindTexture(0),
            GlCommand::ActiveTexture(TextureUnit::Unit1),
            GlCommand::BindTexture(0),
            GlCommand::UseProgram(0),
        ] + self.clear_vertex_array_commands() + seq![
            GlCommand::PixelStoreUnpackAlignment(1),
            GlCommand::ActiveTexture(TextureUnit::Unit0),
        ]
    }

    /// A frame begins with nothing bound but the framebuffer that was bound
    /// when it began, which becomes the default one.
    pub open spec fn after_begin_frame(self, framebuffer_binding: i32) -> DeviceState {
        DeviceState {
            inside_frame: true,
            default_fbo: framebuffer_binding as u32,
            bound_color_texture: 0,
            bound_mask_texture: 0,
            bound_program: 0,
            bound_vao: 0,
            bound_fbo: framebuffer_binding as u32,
            ..self
        }
    }

    pub open spec fn end_frame_commands(self) -> Seq<GlCommand> {
        self.bind_render_target_commands(None) + seq![
            GlCommand::BindTexture(0),
            GlCommand::UseProgram(0),
        ]
    }

    pub open spec fn after_end_frame(self) -> DeviceState {
        DeviceState { inside_frame: false, ..self.with_render_target(None) }
    }

    // ---- textures ------------------------------------------------------

    pub open spec fn after_create_textures(self, names: Seq<u32>) -> DeviceState {
        DeviceState {
            textures: self.textures.union_prefer_right(
                Map::new(|k: u32| names.contains(k), |k: u32| fresh_texture(k)),
            ),
            ..self
        }
    }

    /// The size of a texture, or of a raw texture that the device did not
    /// create.
    pub open spec fn texture_dimensions(self, t: u32) -> (u32, u32) {
        if self.textures.contains_key(t) {
            (self.textures[t].width, self.textures[t].height)
        } else {
            (self.raw_textures[t].2, self.raw_textures[t].3)
        }
    }

    /// Whether a texture has an alpha channel; textures the device did not
    /// create are taken to have one.
    pub open spec fn texture_has_alpha(self, t: u32) -> bool {
        self.textures.contains_key(t) ==> self.textures[t].format == ImageFormat::RGBA8
    }

    pub open spec fn after_update_raw_texture(
        self,
        t: u32,
        x0: u32,
        y0: u32,
        width: u32,
        height: u32,
    ) -> DeviceState {
        DeviceState { raw_textures: self.raw_textures.insert(t, (x0, y0, width, height)), ..self }
    }

    pub open spec fn init_texture_commands(
        self,
        t: u32,
        width: u32,
        height: u32,
        format: ImageFormat,
        filter: TextureFilter,
        mode: RenderTargetMode,
        fbo_names: Seq<u32>,
        with_pixels: bool,
    ) -> Seq<GlCommand> {
        let (internal, gl_format) = upload_formats(self.platform, format);
        match mode {
            RenderTargetMode::RenderTarget => self.bind_color_texture_commands(t)
                + texture_parameter_commands(filter) + seq![
                GlCommand::TexImage2D {
                    internal_format: internal,
                    width: width as i32,
                    height: height as i32,
                    format: gl_format,
                    with_pixels: false,
                },
            ] + attach_commands(fbo_names, t) + seq![GlCommand::BindFramebuffer(self.default_fbo)],
            RenderTargetMode::NoTarget => seq![GlCommand::BindTexture(t)]
                + texture_parameter_commands(filter) + seq![
                GlCommand::TexImage2D {
                    internal_format: internal,
                    width: width as i32,
                    height: height as i32,
                    format: gl_format,
                    with_pixels,
                },
            ],
        }
    }

    /// The texture takes the given format and size; a render target also
    /// becomes the bound color texture and gets the given framebuffers.
    pub open spec fn after_init_texture(
        self,
        t: u32,
        width: u32,
        height: u32,
        format: ImageFormat,
        mode: RenderTargetMode,
        fbo_names: Seq<u32>,
    ) -> DeviceState {
        let old_tex = self.textures[t];
        match mode {
            RenderTargetMode::RenderTarget => DeviceState {
                bound_color_texture: t,
                textures: self.textures.insert(
                    t,
                    TextureState { format, width, height, fbo_ids: fbo_ids_of(fbo_names), ..old_tex },
                ),
                ..self
            },
            RenderTargetMode::NoTarget => DeviceState {
                textures: self.textures.insert(
                    t,
                    TextureState { format, width, height, ..old_tex },
                ),
                ..self
            },
        }
    }

    pub open spec fn deinit_texture_commands(self, t: u32) -> Seq<GlCommand> {
        self.bind_color_texture_commands(t) + seq![
            GlCommand::TexImage2D {
                internal_format: PixelFormat::Rgb,
                width: 0,
                height: 0,
                format: PixelFormat::Rgb,
                with_pixels: false,
            },
        ] + delete_framebuffer_commands(self.textures[t].fbo_ids)
    }

    /// The texture is bound and goes back to the state it was created in.
    pub open spec fn after_deinit_texture(self, t: u32) -> DeviceState {
        DeviceState {
            bound_color_texture: t,
            textures: self.textures.insert(t, fresh_texture(t)),
            ..self
        }
    }

    pub open spec fn can_update_texture(self, t: u32, width: u32, height: u32, data_len: usize) -> bool {
        &&& self.textures.contains_key(t)
        &&& self.textures[t].format != ImageFormat::Invalid
        &&& bytes_per_pixel(self.textures[t].format) * width <= u32::MAX
        &&& bytes_per_pixel(self.textures[t].format) * width * height <= u32::MAX
        &&& data_len as u32 == bytes_per_pixel(self.textures[t].format) * width * height
    }

    pub open spec fn update_texture_commands(
        self,
        t: u32,
        x0: u32,
        y0: u32,
        width: u32,
        height: u32,
    ) -> Seq<GlCommand> {
        self.bind_color_texture_commands(t) + seq![
            GlCommand::TexSubImage2D {
                x0: x0 as i32,
                y0: y0 as i32,
                width: width as i32,
                height: height as i32,
                format: update_format(self.platform, self.textures[t].format),
            },
        ]
    }

    pub open spec fn read_framebuffer_rect_commands(
        self,
        t: u32,
        x: i32,
        y: i32,
        width: i32,
        height: i32,
    ) -> Seq<GlCommand> {
        self.bind_color_texture_commands(t) + seq![
            GlCommand::CopyTexSubImage2D { x, y, width, height },
        ]
    }

    // ---- programs ------------------------------------------------------

    pub open spec fn after_create_program(self, p: u32, u: ProgramUniforms) -> DeviceState {
        DeviceState {
            programs: self.programs.insert(p, Program { id: p, u_transform: u.transform }),
            ..self
        }
    }

    // ---- vertex arrays -------------------------------------------------

    /// The id that the next vertex array gets: the generated name on desktop
    /// GL, the device's own counter on GLES.
    pub open spec fn new_vao_id(self, vertex_array: u32) -> u32 {
        if self.platform.spec_is_gles() {
            self.next_vao_id
        } else {
            vertex_array
        }
    }

    pub open spec fn can_create_vao(self, vertex_array: u32) -> bool {
        if self.platform.spec_is_gles() {
            self.next_vao_id < u32::MAX
        } else {
            !self.vaos.contains_key(vertex_array)
        }
    }

    pub open spec fn create_vao_commands(
        self,
        format: VertexFormat,
        vertex_array: u32,
        vbo: u32,
        ibo: u32,
    ) -> Seq<GlCommand> {
        if self.platform.spec_is_gles() {
            seq![]
        } else {
            seq![
                GlCommand::BindVertexArray(vertex_array),
                GlCommand::BindBuffer(BufferTarget::Array, vbo),
                GlCommand::BindBuffer(BufferTarget::ElementArray, ibo),
            ] + format.bind_commands() + seq![GlCommand::BindVertexArray(0)]
        }
    }

    pub open spec fn after_create_vao(
        self,
        format: VertexFormat,
        vertex_array: u32,
        vbo: u32,
        ibo: u32,
    ) -> DeviceState {
        let id = self.new_vao_id(vertex_array);
        DeviceState {
            vaos: self.vaos.insert(
                id,
                VAO { id, vertex_format: format, vbo_id: VBOId(vbo), ibo_id: IBOId(ibo) },
            ),
            next_vao_id: if self.platform.spec_is_gles() {
                (self.next_vao_id + 1) as u32
            } else {
                self.next_vao_id
            },
            ..self
        }
    }

    pub open spec fn can_update_vao(self, v: u32) -> bool {
        self.inside_frame && self.vaos.contains_key(v) && self.bound_vao == v
    }

    pub open spec fn update_vao_commands(self, v: u32, target: BufferTarget, usage: VertexUsageHint) -> Seq<GlCommand> {
        seq![
            GlCommand::BindBuffer(
                target,
                match target {
                    BufferTarget::Array => self.vaos[v].vbo_id.0,
                    BufferTarget::ElementArray => self.vaos[v].ibo_id.0,
                },
            ),
            GlCommand::BufferData(target, usage.spec_to_gl()),
        ]
    }

    pub open spec fn after_delete_vao(self, v: u32) -> DeviceState {
        DeviceState {
            vaos: self.vaos.remove(v),
            bound_vao: if self.bound_vao == v {
                0
            } else {
                self.bound_vao
            },
            ..self
        }
    }
}

} // verus!
