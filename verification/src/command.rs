//! The GL commands that the device issues, as plain values.
//!
//! A command names GL enums symbolically; the embedder maps them to the GL
//! constants of its binding. Commands whose payload the library does not hold
//! (pixel data, vertex and index data, floating-point uniform values) carry no
//! payload: the embedder supplies it from what it handed the operation.

use crate::types::{TextureSampler, VertexUsageHint};
use crate::vertex::VertexAttribute;
use vstd::prelude::*;

verus! {

/// `TEXTURE0` or `TEXTURE1`.
#[derive(PartialEq, Eq, Structural, Debug, Clone, Copy)]
pub enum TextureUnit {
    Unit0,
    Unit1,
}

/// `ARRAY_BUFFER` or `ELEMENT_ARRAY_BUFFER`.
#[derive(PartialEq, Eq, Structural, Debug, Clone, Copy)]
pub enum BufferTarget {
    Array,
    ElementArray,
}

/// The pixel formats the device hands to `tex_image_2d` and
/// `tex_sub_image_2d` (`BGRA` is `BGRA_EXT` on GLES; both are `0x80E1`).
#[derive(PartialEq, Eq, Structural, Debug, Clone, Copy)]
pub enum PixelFormat {
    Red,
    Alpha,
    Rgb,
    Rgba,
    Bgra,
}

/// The texture parameters the device sets.
#[derive(PartialEq, Eq, Structural, Debug, Clone, Copy)]
pub enum TexParameterName {
    MagFilter,
    MinFilter,
    WrapS,
    WrapT,
}

/// The values the device gives those parameters.
#[derive(PartialEq, Eq, Structural, Debug, Clone, Copy)]
pub enum TexParameterValue {
    Nearest,
    Linear,
    ClampToEdge,
}

/// Component types of vertex attributes.
#[derive(PartialEq, Eq, Structural, Debug, Clone, Copy)]
pub enum AttribType {
    Float,
    UnsignedByte,
    UnsignedShort,
}

/// Index types of indexed draws.
#[derive(PartialEq, Eq, Structural, Debug, Clone, Copy)]
pub enum IndexType {
    UnsignedShort,
    UnsignedInt,
}

/// Primitive kinds of draws.
#[derive(PartialEq, Eq, Structural, Debug, Clone, Copy)]
pub enum PrimitiveMode {
    Triangles,
    Lines,
}

/// `STATIC_DRAW` or `DYNAMIC_DRAW`.
#[derive(PartialEq, Eq, Structural, Debug, Clone, Copy)]
pub enum BufferUsage {
    StaticDraw,
    DynamicDraw,
}

/// One GL call. Texture commands act on the `TEXTURE_2D` target of the active
/// texture unit, framebuffer commands on the `FRAMEBUFFER` target.
#[derive(PartialEq, Eq, Structural, Debug, Clone, Copy)]
pub enum GlCommand {
    ActiveTexture(TextureUnit),
    BindTexture(u32),
    UseProgram(u32),
    BindVertexArray(u32),
    BindBuffer(BufferTarget, u32),
    BindFramebuffer(u32),
    /// `pixel_store_i(UNPACK_ALIGNMENT, ..)`.
    PixelStoreUnpackAlignment(i32),
    EnableVertexAttribArray(VertexAttribute),
    DisableVertexAttribArray(VertexAttribute),
    VertexAttribPointer {
        attribute: VertexAttribute,
        size: i32,
        ty: AttribType,
        normalized: bool,
        stride: i32,
        offset: u32,
    },
    TexParameter(TexParameterName, TexParameterValue),
    /// `tex_image_2d` at level 0 with `UNSIGNED_BYTE` data; the caller's
    /// pixels are uploaded when `with_pixels` holds, none otherwise.
    TexImage2D {
        internal_format: PixelFormat,
        width: i32,
        height: i32,
        format: PixelFormat,
        with_pixels: bool,
    },
    /// `tex_sub_image_2d` at level 0 with the caller's `UNSIGNED_BYTE` data.
    TexSubImage2D { x0: i32, y0: i32, width: i32, height: i32, format: PixelFormat },
    /// `copy_tex_sub_image_2d` at level 0 into offset (0, 0).
    CopyTexSubImage2D { x: i32, y: i32, width: i32, height: i32 },
    /// Attaches a texture as `COLOR_ATTACHMENT0` of the bound framebuffer.
    FramebufferTexture2D(u32),
    DeleteFramebuffer(u32),
    DeleteTexture(u32),
    DeleteProgram(u32),
    DeleteVertexArray(u32),
    DeleteBuffer(u32),
    AttachShader { program: u32, shader: u32 },
    BindAttribLocation { program: u32, attribute: VertexAttribute },
    LinkProgram(u32),
    /// `uniform_1i` with the texture unit of a sampler.
    UniformSampler { location: i32, sampler: TextureSampler },
    /// `uniform_1f` with the embedder's device pixel ratio.
    UniformDevicePixelRatio(i32),
    /// `uniform_matrix_4fv`, untransposed, with the caller's matrix.
    UniformTransform(i32),
    /// `buffer_data` with the caller's vertices or indices.
    BufferData(BufferTarget, BufferUsage),
    DrawElements { mode: PrimitiveMode, count: i32, index_type: IndexType, offset: u32 },
    DrawArrays { mode: PrimitiveMode, first: i32, count: i32 },
}

impl VertexUsageHint {
    pub open spec fn spec_to_gl(self) -> BufferUsage {
        match self {
            VertexUsageHint::Static => BufferUsage::StaticDraw,
            VertexUsageHint::Dynamic => BufferUsage::DynamicDraw,
        }
    }

    /// The GL usage that the hint stands for.
    pub fn to_gl(&self) -> (r: BufferUsage)
        ensures
            r == self.spec_to_gl(),
    {
        match self {
            VertexUsageHint::Static => BufferUsage::StaticDraw,
            VertexUsageHint::Dynamic => BufferUsage::DynamicDraw,
        }
    }
}

} // verus!
