//! Identifiers of GL objects and the small enumerations that the device
//! works with.

use vstd::prelude::*;

verus! {

/// A texture, named by its GL texture name.
#[derive(PartialEq, Eq, Structural, Hash, Debug, Clone, Copy)]
pub struct TextureId(pub u32);

/// A linked shader program, named by its GL program name.
#[derive(PartialEq, Eq, Structural, Hash, Debug, Clone, Copy)]
pub struct ProgramId(pub u32);

/// A vertex array object (or, on GLES, an emulated one).
#[derive(PartialEq, Eq, Structural, Hash, Debug, Clone, Copy)]
pub struct VAOId(pub u32);

/// A framebuffer object.
#[derive(PartialEq, Eq, Structural, Hash, Debug, Clone, Copy)]
pub struct FBOId(pub u32);

/// A vertex buffer object.
#[derive(PartialEq, Eq, Structural, Hash, Debug, Clone, Copy)]
pub struct VBOId(pub u32);

/// An index (element) buffer object.
#[derive(PartialEq, Eq, Structural, Hash, Debug, Clone, Copy)]
pub struct IBOId(pub u32);

/// The location of a uniform in a linked program (`-1` when absent).
#[derive(PartialEq, Eq, Structural, Debug, Clone, Copy)]
pub struct UniformLocation(pub i32);

impl TextureId {
    /// The texture name that GL reserves for "no texture".
    pub fn invalid() -> (r: TextureId)
        ensures
            r.0 == 0,
    {
        TextureId(0)
    }
}

impl ProgramId {
    /// The GL program name.
    pub fn name(&self) -> (r: u32)
        ensures
            r == self.0,
    {
        self.0
    }
}

impl VAOId {
    /// The vertex array name (the emulated id on GLES).
    pub fn name(&self) -> (r: u32)
        ensures
            r == self.0,
    {
        self.0
    }
}

impl FBOId {
    /// The GL framebuffer name.
    pub fn name(&self) -> (r: u32)
        ensures
            r == self.0,
    {
        self.0
    }
}

/// How a texture is sampled.
#[derive(PartialEq, Eq, Structural, Debug, Clone, Copy)]
pub enum TextureFilter {
    Nearest,
    Linear,
}

/// The vertex layouts that the renderer draws with.
#[derive(PartialEq, Eq, Structural, Debug, Clone, Copy)]
pub enum VertexFormat {
    Batch,
    DebugFont,
    DebugColor,
    RasterOp,
}

/// How often the contents of a vertex or index buffer change.
#[derive(PartialEq, Eq, Structural, Debug, Clone, Copy)]
pub enum VertexUsageHint {
    Static,
    Dynamic,
}

/// The pixel format of a texture's contents.
#[derive(PartialEq, Eq, Structural, Debug, Clone, Copy)]
pub enum ImageFormat {
    Invalid,
    A8,
    RGB8,
    RGBA8,
}

/// Whether a texture is also made a render target (gets a framebuffer).
#[derive(PartialEq, Eq, Structural, Debug, Clone, Copy)]
pub enum RenderTargetMode {
    NoTarget,
    RenderTarget,
}

/// The texture unit a sampler reads from.
#[derive(PartialEq, Eq, Structural, Debug, Clone, Copy)]
pub enum TextureSampler {
    Color,
    Mask,
}

/// The GL flavour the device drives. Desktop GL has vertex array objects;
/// the GLES targets (Android and Gonk) emulate them, use `ALPHA` for
/// single-channel textures, and Android alone stores RGBA8 textures in BGRA.
#[derive(PartialEq, Eq, Structural, Debug, Clone, Copy)]
pub enum Platform {
    Desktop,
    Android,
    Gonk,
}

impl TextureSampler {
    pub open spec fn spec_unit(self) -> i32 {
        match self {
            TextureSampler::Color => 0,
            TextureSampler::Mask => 1,
        }
    }

    /// The texture unit that this sampler is bound to.
    pub fn unit(&self) -> (r: i32)
        ensures
            r == self.spec_unit(),
    {
        match self {
            TextureSampler::Color => 0,
            TextureSampler::Mask => 1,
        }
    }
}

impl Platform {
    /// Whether the platform runs GLES, where vertex arrays are emulated.
    pub open spec fn spec_is_gles(self) -> bool {
        self != Platform::Desktop
    }

    pub fn is_gles(&self) -> (r: bool)
        ensures
            r == self.spec_is_gles(),
    {
        match self {
            Platform::Desktop => false,
            _ => true,
        }
    }

    /// The file that every vertex shader source is prefixed with.
    pub fn vertex_shader_preamble(&self) -> (r: &'static str)
        ensures
            self.spec_is_gles() ==> r@ == "es2_common.vs.glsl"@,
            !self.spec_is_gles() ==> r@ == "gl3_common.vs.glsl"@,
    {
        match self {
            Platform::Desktop => "gl3_common.vs.glsl",
            _ => "es2_common.vs.glsl",
        }
    }

    /// The file that every fragment shader source is prefixed with.
    pub fn fragment_shader_preamble(&self) -> (r: &'static str)
        ensures
            self.spec_is_gles() ==> r@ == "es2_common.fs.glsl"@,
            !self.spec_is_gles() ==> r@ == "gl3_common.fs.glsl"@,
    {
        match self {
            Platform::Desktop => "gl3_common.fs.glsl",
            _ => "es2_common.fs.glsl",
        }
    }
}

} // verus!
