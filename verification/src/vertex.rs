//! Vertex attributes and the memory layout of each vertex format.

use crate::command::{AttribType, GlCommand};
use crate::types::VertexFormat;
use vstd::prelude::*;

verus! {

/// The attributes that shaders read, in the order of their attribute
/// locations.
#[derive(PartialEq, Eq, Structural, Debug, Clone, Copy)]
pub enum VertexAttribute {
    Position,
    Color,
    ColorTexCoord,
    MaskTexCoord,
    BorderRadii,
    BorderPosition,
    BlurRadius,
    DestTextureSize,
    SourceTextureSize,
    Misc,
}

/// Every attribute, in location order.
pub open spec fn all_attributes() -> Seq<VertexAttribute> {
    seq![
        VertexAttribute::Position,
        VertexAttribute::Color,
        VertexAttribute::ColorTexCoord,
        VertexAttribute::MaskTexCoord,
        VertexAttribute::BorderRadii,
        VertexAttribute::BorderPosition,
        VertexAttribute::BlurRadius,
        VertexAttribute::DestTextureSize,
        VertexAttribute::SourceTextureSize,
        VertexAttribute::Misc,
    ]
}

impl VertexAttribute {
    /// The attribute's location: its position in [`all_attributes`].
    pub open spec fn spec_index(self) -> u32 {
        match self {
            VertexAttribute::Position => 0,
            VertexAttribute::Color => 1,
            VertexAttribute::ColorTexCoord => 2,
            VertexAttribute::MaskTexCoord => 3,
            VertexAttribute::BorderRadii => 4,
            VertexAttribute::BorderPosition => 5,
            VertexAttribute::BlurRadius => 6,
            VertexAttribute::DestTextureSize => 7,
            VertexAttribute::SourceTextureSize => 8,
            VertexAttribute::Misc => 9,
        }
    }

    /// The attribute location that programs bind this attribute to.
    pub fn index(&self) -> (r: u32)
        ensures
            r == self.spec_index(),
            all_attributes()[r as int] == *self,
    {
        match self {
            VertexAttribute::Position => 0,
            VertexAttribute::Color => 1,
            VertexAttribute::ColorTexCoord => 2,
            VertexAttribute::MaskTexCoord => 3,
            VertexAttribute::BorderRadii => 4,
            VertexAttribute::BorderPosition => 5,
            VertexAttribute::BlurRadius => 6,
            VertexAttribute::DestTextureSize => 7,
            VertexAttribute::SourceTextureSize => 8,
            VertexAttribute::Misc => 9,
        }
    }

    /// The name the shaders give this attribute.
    pub fn name(&self) -> (r: &'static str)
        ensures
            *self == VertexAttribute::Position ==> r@ == "aPosition"@,
            *self == VertexAttribute::Color ==> r@ == "aColor"@,
            *self == VertexAttribute::ColorTexCoord ==> r@ == "aColorTexCoord"@,
            *self == VertexAttribute::MaskTexCoord ==> r@ == "aMaskTexCoord"@,
            *self == VertexAttribute::BorderRadii ==> r@ == "aBorderRadii"@,
            *self == VertexAttribute::BorderPosition ==> r@ == "aBorderPosition"@,
            *self == VertexAttribute::BlurRadius ==> r@ == "aBlurRadius"@,
            *self == VertexAttribute::DestTextureSize ==> r@ == "aDestTextureSize"@,
            *self == VertexAttribute::SourceTextureSize ==> r@ == "aSourceTextureSize"@,
            *self == VertexAttribute::Misc ==> r@ == "aMisc"@,
    {
        match self {
            VertexAttribute::Position => "aPosition",
            VertexAttribute::Color => "aColor",
            VertexAttribute::ColorTexCoord => "aColorTexCoord",
            VertexAttribute::MaskTexCoord => "aMaskTexCoord",
            VertexAttribute::BorderRadii => "aBorderRadii",
            VertexAttribute::BorderPosition => "aBorderPosition",
            VertexAttribute::BlurRadius => "aBlurRadius",
            VertexAttribute::DestTextureSize => "aDestTextureSize",
            VertexAttribute::SourceTextureSize => "aSourceTextureSize",
            VertexAttribute::Misc => "aMisc",
        }
    }
}

impl AttribType {
    /// Bytes per component.
    pub open spec fn byte_size(self) -> int {
        match self {
            AttribType::Float => 4,
            AttribType::UnsignedByte => 1,
            AttribType::UnsignedShort => 2,
        }
    }
}

/// Where one attribute sits inside a vertex.
pub struct AttribLayout {
    pub attribute: VertexAttribute,
    pub size: i32,
    pub ty: AttribType,
    pub normalized: bool,
    pub offset: u32,
}

pub open spec fn attrib(
    attribute: VertexAttribute,
    size: i32,
    ty: AttribType,
    normalized: bool,
    offset: u32,
) -> AttribLayout {
    AttribLayout { attribute, size, ty, normalized, offset }
}

impl AttribLayout {
    /// The first byte after the attribute.
    pub open spec fn end(self) -> int {
        self.offset + self.size * self.ty.byte_size()
    }

    pub open spec fn pointer_command(self, stride: i32) -> GlCommand {
        GlCommand::VertexAttribPointer {
            attribute: self.attribute,
            size: self.size,
            ty: self.ty,
            normalized: self.normalized,
            stride,
            offset: self.offset,
        }
    }
}

impl VertexFormat {
    /// The size in bytes of one vertex of this format.
    pub open spec fn stride(self) -> i32 {
        match self {
            VertexFormat::DebugFont => 20,
            VertexFormat::DebugColor => 12,
            VertexFormat::Batch => 28,
            VertexFormat::RasterOp => 72,
        }
    }

    /// The attributes a vertex of this format carries, in the order that
    /// their arrays are enabled.
    pub open spec fn enabled_attributes(self) -> Seq<VertexAttribute> {
        match self {
            VertexFormat::DebugFont => seq![
                VertexAttribute::Position,
                VertexAttribute::Color,
                VertexAttribute::ColorTexCoord,
            ],
            VertexFormat::DebugColor => seq![VertexAttribute::Position, VertexAttribute::Color],
            VertexFormat::Batch => seq![
                VertexAttribute::Position,
                VertexAttribute::Color,
                VertexAttribute::ColorTexCoord,
                VertexAttribute::MaskTexCoord,
                VertexAttribute::Misc,
            ],
            VertexFormat::RasterOp => seq![
                VertexAttribute::Position,
                VertexAttribute::Color,
                VertexAttribute::ColorTexCoord,
                VertexAttribute::BorderRadii,
                VertexAttribute::BorderPosition,
                VertexAttribute::BlurRadius,
                VertexAttribute::DestTextureSize,
                VertexAttribute::SourceTextureSize,
                VertexAttribute::Misc,
            ],
        }
    }

    /// The layout of a vertex, attribute by attribute in memory order.
    pub open spec fn layout(self) -> Seq<AttribLayout> {
        match self {
            VertexFormat::DebugFont => seq![
                attrib(VertexAttribute::Position, 2, AttribType::Float, false, 0),
                attrib(VertexAttribute::Color, 4, AttribType::UnsignedByte, true, 8),
                attrib(VertexAttribute::ColorTexCoord, 2, AttribType::Float, false, 12),
            ],
            VertexFormat::DebugColor => seq![
                attrib(VertexAttribute::Position, 2, AttribType::Float, false, 0),
                attrib(VertexAttribute::Color, 4, AttribType::UnsignedByte, true, 8),
            ],
            VertexFormat::Batch => seq![
                attrib(VertexAttribute::Position, 2, AttribType::Float, false, 0),
                attrib(VertexAttribute::Color, 4, AttribType::UnsignedByte, false, 8),
                attrib(VertexAttribute::ColorTexCoord, 2, AttribType::Float, false, 12),
                attrib(VertexAttribute::MaskTexCoord, 2, AttribType::UnsignedShort, false, 20),
                attrib(VertexAttribute::Misc, 4, AttribType::UnsignedByte, false, 24),
            ],
            VertexFormat::RasterOp => seq![
                attrib(VertexAttribute::Position, 2, AttribType::Float, false, 0),
                attrib(VertexAttribute::Color, 4, AttribType::UnsignedByte, true, 8),
                attrib(VertexAttribute::ColorTexCoord, 2, AttribType::UnsignedShort, true, 12),
                attrib(VertexAttribute::BorderRadii, 4, AttribType::Float, false, 16),
                attrib(VertexAttribute::BorderPosition, 4, AttribType::Float, false, 32),
                attrib(VertexAttribute::DestTextureSize, 2, AttribType::Float, false, 48),
                attrib(VertexAttribute::SourceTextureSize, 2, AttribType::Float, false, 56),
                attrib(VertexAttribute::BlurRadius, 1, AttribType::Float, false, 64),
                attrib(VertexAttribute::Misc, 4, AttribType::UnsignedByte, false, 68),
            ],
        }
    }

    /// Enables the format's attribute arrays, then points each at its place
    /// in the vertex.
    pub open spec fn bind_commands(self) -> Seq<GlCommand> {
        self.enabled_attributes().map_values(|a: VertexAttribute| GlCommand::EnableVertexAttribArray(a))
            + self.layout().map_values(|l: AttribLayout| l.pointer_command(self.stride()))
    }

    /// Disables the format's attribute arrays.
    pub open spec fn unbind_commands(self) -> Seq<GlCommand> {
        self.enabled_attributes().map_values(|a: VertexAttribute| GlCommand::DisableVertexAttribArray(a))
    }
}

} // verus!

verus! {

impl VertexFormat {
    /// Appends the commands that set up the vertex attribute arrays of this
    /// format for the bound vertex buffer.
    pub(crate) fn emit_bind(&self, out: &mut Vec<GlCommand>)
        ensures
            final(out)@ == old(out)@ + self.bind_commands(),
    {
        let ghost start = out@;
        match self {
            VertexFormat::DebugFont => {
                out.push(GlCommand::EnableVertexAttribArray(VertexAttribute::Position));
                out.push(GlCommand::EnableVertexAttribArray(VertexAttribute::Color));
                out.push(GlCommand::EnableVertexAttribArray(VertexAttribute::ColorTexCoord));
                let vertex_stride: i32 = 20;
                out.push(GlCommand::VertexAttribPointer {
                    attribute: VertexAttribute::Position,
                    size: 2,
                    ty: AttribType::Float,
                    normalized: false,
                    stride: vertex_stride,
                    offset: 0,
                });
                out.push(GlCommand::VertexAttribPointer {
                    attribute: VertexAttribute::Color,
                    size: 4,
                    ty: AttribType::UnsignedByte,
                    normalized: true,
                    stride: vertex_stride,
                    offset: 8,
                });
                out.push(GlCommand::VertexAttribPointer {
                    attribute: VertexAttribute::ColorTexCoord,
                    size: 2,
                    ty: AttribType::Float,
                    normalized: false,
                    stride: vertex_stride,
                    offset: 12,
                });
            },
            VertexFormat::DebugColor => {
                out.push(GlCommand::EnableVertexAttribArray(VertexAttribute::Position));
                out.push(GlCommand::EnableVertexAttribArray(VertexAttribute::Color));
                let vertex_stride: i32 = 12;
                out.push(GlCommand::VertexAttribPointer {
                    attribute: VertexAttribute::Position,
                    size: 2,
                    ty: AttribType::Float,
                    normalized: false,
                    stride: vertex_stride,
                    offset: 0,
                });
                out.push(GlCommand::VertexAttribPointer {
                    attribute: VertexAttribute::Color,
                    size: 4,
                    ty: AttribType::UnsignedByte,
                    normalized: true,
                    stride: vertex_stride,
                    offset: 8,
                });
            },
            VertexFormat::Batch => {
                out.push(GlCommand::EnableVertexAttribArray(VertexAttribute::Position));
                out.push(GlCommand::EnableVertexAttribArray(VertexAttribute::Color));
                out.push(GlCommand::EnableVertexAttribArray(VertexAttribute::ColorTexCoord));
                out.push(GlCommand::EnableVertexAttribArray(VertexAttribute::MaskTexCoord));
                out.push(GlCommand::EnableVertexAttribArray(VertexAttribute::Misc));
                let vertex_stride: i32 = 28;
                out.push(GlCommand::VertexAttribPointer {
                    attribute: VertexAttribute::Position,
                    size: 2,
                    ty: AttribType::Float,
                    normalized: false,
                    stride: vertex_stride,
                    offset: 0,
                });
                out.push(GlCommand::VertexAttribPointer {
                    attribute: VertexAttribute::Color,
                    size: 4,
                    ty: AttribType::UnsignedByte,
                    normalized: false,
                    stride: vertex_stride,
                    offset: 8,
                });
                out.push(GlCommand::VertexAttribPointer {
                    attribute: VertexAttribute::ColorTexCoord,
                    size: 2,
                    ty: AttribType::Float,
                    normalized: false,
                    stride: vertex_stride,
                    offset: 12,
                });
                out.push(GlCommand::VertexAttribPointer {
                    attribute: VertexAttribute::MaskTexCoord,
                    size: 2,
                    ty: AttribType::UnsignedShort,
                    normalized: false,
                    stride: vertex_stride,
                    offset: 20,
                });
                out.push(GlCommand::VertexAttribPointer {
                    attribute: VertexAttribute::Misc,
                    size: 4,
                    ty: AttribType::UnsignedByte,
                    normalized: false,
                    stride: vertex_stride,
                    offset: 24,
                });
            },
            VertexFormat::RasterOp => {
                out.push(GlCommand::EnableVertexAttribArray(VertexAttribute::Position));
                out.push(GlCommand::EnableVertexAttribArray(VertexAttribute::Color));
                out.push(GlCommand::EnableVertexAttribArray(VertexAttribute::ColorTexCoord));
                out.push(GlCommand::EnableVertexAttribArray(VertexAttribute::BorderRadii));
                out.push(GlCommand::EnableVertexAttribArray(VertexAttribute::BorderPosition));
                out.push(GlCommand::EnableVertexAttribArray(VertexAttribute::BlurRadius));
                out.push(GlCommand::EnableVertexAttribArray(VertexAttribute::DestTextureSize));
                out.push(GlCommand::EnableVertexAttribArray(VertexAttribute::SourceTextureSize));
                out.push(GlCommand::EnableVertexAttribArray(VertexAttribute::Misc));
                let vertex_stride: i32 = 72;
                out.push(GlCommand::VertexAttribPointer {
                    attribute: VertexAttribute::Position,
                    size: 2,
                    ty: AttribType::Float,
                    normalized: false,
                    stride: vertex_stride,
                    offset: 0,
                });
                out.push(GlCommand::VertexAttribPointer {
                    attribute: VertexAttribute::Color,
                    size: 4,
                    ty: AttribType::UnsignedByte,
                    normalized: true,
                    stride: vertex_stride,
                    offset: 8,
                });
                out.push(GlCommand::VertexAttribPointer {
                    attribute: VertexAttribute::ColorTexCoord,
                    size: 2,
                    ty: AttribType::UnsignedShort,
                    normalized: true,
                    stride: vertex_stride,
                    offset: 12,
                });
                out.push(GlCommand::VertexAttribPointer {
                    attribute: VertexAttribute::BorderRadii,
                    size: 4,
                    ty: AttribType::Float,
                    normalized: false,
                    stride: vertex_stride,
                    offset: 16,
                });
                out.push(GlCommand::VertexAttribPointer {
                    attribute: VertexAttribute::BorderPosition,
                    size: 4,
                    ty: AttribType::Float,
                    normalized: false,
                    stride: vertex_stride,
                    offset: 32,
                });
                out.push(GlCommand::VertexAttribPointer {
                    attribute: VertexAttribute::DestTextureSize,
                    size: 2,
                    ty: AttribType::Float,
                    normalized: false,
                    stride: vertex_stride,
                    offset: 48,
                });
                out.push(GlCommand::VertexAttribPointer {
                    attribute: VertexAttribute::SourceTextureSize,
                    size: 2,
                    ty: AttribType::Float,
                    normalized: false,
                    stride: vertex_stride,
                    offset: 56,
                });
                out.push(GlCommand::VertexAttribPointer {
                    attribute: VertexAttribute::BlurRadius,
                    size: 1,
                    ty: AttribType::Float,
                    normalized: false,
                    stride: vertex_stride,
                    offset: 64,
                });
                out.push(GlCommand::VertexAttribPointer {
                    attribute: VertexAttribute::Misc,
                    size: 4,
                    ty: AttribType::UnsignedByte,
                    normalized: false,
                    stride: vertex_stride,
                    offset: 68,
                });
            },
        }
        assert(out@ =~= start + self.bind_commands());
    }

    /// Appends the commands that disable the attribute arrays of this format.
    pub(crate) fn emit_unbind(&self, out: &mut Vec<GlCommand>)
        ensures
            final(out)@ == old(out)@ + self.unbind_commands(),
    {
        let ghost start = out@;
        match self {
            VertexFormat::DebugFont => {
                out.push(GlCommand::DisableVertexAttribArray(VertexAttribute::Position));
                out.push(GlCommand::DisableVertexAttribArray(VertexAttribute::Color));
                out.push(GlCommand::DisableVertexAttribArray(VertexAttribute::ColorTexCoord));
            },
            VertexFormat::DebugColor => {
                out.push(GlCommand::DisableVertexAttribArray(VertexAttribute::Position));
                out.push(GlCommand::DisableVertexAttribArray(VertexAttribute::Color));
            },
            VertexFormat::Batch => {
                out.push(GlCommand::DisableVertexAttribArray(VertexAttribute::Position));
                out.push(GlCommand::DisableVertexAttribArray(VertexAttribute::Color));
                out.push(GlCommand::DisableVertexAttribArray(VertexAttribute::ColorTexCoord));
                out.push(GlCommand::DisableVertexAttribArray(VertexAttribute::MaskTexCoord));
                out.push(GlCommand::DisableVertexAttribArray(VertexAttribute::Misc));
            },
            VertexFormat::RasterOp => {
                out.push(GlCommand::DisableVertexAttribArray(VertexAttribute::Position));
                out.push(GlCommand::DisableVertexAttribArray(VertexAttribute::Color));
                out.push(GlCommand::DisableVertexAttribArray(VertexAttribute::ColorTexCoord));
                out.push(GlCommand::DisableVertexAttribArray(VertexAttribute::BorderRadii));
                out.push(GlCommand::DisableVertexAttribArray(VertexAttribute::BorderPosition));
                out.push(GlCommand::DisableVertexAttribArray(VertexAttribute::BlurRadius));
                out.push(GlCommand::DisableVertexAttribArray(VertexAttribute::DestTextureSize));
                out.push(GlCommand::DisableVertexAttribArray(VertexAttribute::SourceTextureSize));
                out.push(GlCommand::DisableVertexAttribArray(VertexAttribute::Misc));
            },
        }
        assert(out@ =~= start + self.unbind_commands());
    }

    /// The commands that set up the vertex attribute arrays of this format.
    pub fn bind(&self) -> (r: Vec<GlCommand>)
        ensures
            r@ == self.bind_commands(),
    {
        let mut r = Vec::new();
        self.emit_bind(&mut r);
        assert(r@ =~= self.bind_commands());
        r
    }

    /// The commands that disable the attribute arrays of this format.
    pub fn unbind(&self) -> (r: Vec<GlCommand>)
        ensures
            r@ == self.unbind_commands(),
    {
        let mut r = Vec::new();
        self.emit_unbind(&mut r);
        assert(r@ =~= self.unbind_commands());
        r
    }
}

} // verus!
