//! Enumeration tables: closed sets of named constants, each bound to the
//! exact numeric value mandated by the graphics specification.
//!
//! The numeric mapping is the wire contract of the whole crate: every value
//! is handed to the driver or host verbatim, so no variant may ever be
//! renumbered.  Each enumeration pairs a spec-level table (`spec_code`) with
//! a verified executable projection (`code`) proved equal to it.

use vstd::prelude::*;

verus! {

/// The buffer targets a buffer object can be bound to.
#[derive(Clone, Copy, PartialEq, Eq, Structural, Debug)]
pub enum BufferKind {
    Array,
    ElementArray,
}

impl BufferKind {
    /// The constant the graphics specification assigns to this target.
    pub open spec fn spec_code(self) -> u32 {
        match self {
            BufferKind::Array => 0x8892u32,
            BufferKind::ElementArray => 0x8893u32,
        }
    }

    /// Numeric value sent over the wire for this buffer target.
    pub fn code(self) -> (c: u32)
        ensures
            c == self.spec_code(),
    {
        match self {
            BufferKind::Array => 0x8892,
            BufferKind::ElementArray => 0x8893,
        }
    }
}

/// Usage hints for buffer data stores.
#[derive(Clone, Copy, PartialEq, Eq, Structural, Debug)]
pub enum DrawMode {
    Stream,
    Static,
    Dynamic,
}

impl DrawMode {
    /// The constant the graphics specification assigns to this usage hint.
    pub open spec fn spec_code(self) -> u32 {
        match self {
            DrawMode::Stream => 0x88E0u32,
            DrawMode::Static => 0x88E4u32,
            DrawMode::Dynamic => 0x88E8u32,
        }
    }

    /// Numeric value sent over the wire for this usage hint.
    pub fn code(self) -> (c: u32)
        ensures
            c == self.spec_code(),
    {
        match self {
            DrawMode::Stream => 0x88E0,
            DrawMode::Static => 0x88E4,
            DrawMode::Dynamic => 0x88E8,
        }
    }
}

/// The two kinds of shader objects.
#[derive(Clone, Copy, PartialEq, Eq, Structural, Debug)]
pub enum ShaderKind {
    Fragment,
    Vertex,
}

impl ShaderKind {
    /// The constant the graphics specification assigns to this shader kind.
    pub open spec fn spec_code(self) -> u32 {
        match self {
            ShaderKind::Fragment => 0x8B30u32,
            ShaderKind::Vertex => 0x8B31u32,
        }
    }

    /// Numeric value sent over the wire for this shader kind.
    pub fn code(self) -> (c: u32)
        ensures
            c == self.spec_code(),
    {
        match self {
            ShaderKind::Fragment => 0x8B30,
            ShaderKind::Vertex => 0x8B31,
        }
    }
}

/// Buffer-clear bit flags.  Unlike the other tables these are combinable:
/// several bits may be OR'd into a single mask.
#[derive(Clone, Copy, PartialEq, Eq, Structural, Debug)]
pub enum BufferBit {
    Depth,
    Stencil,
    Color,
}

impl BufferBit {
    /// The bit flag the graphics specification assigns to this buffer.
    pub open spec fn spec_code(self) -> u32 {
        match self {
            BufferBit::Depth => 0x00000100u32,
            BufferBit::Stencil => 0x00000400u32,
            BufferBit::Color => 0x00004000u32,
        }
    }

    /// Numeric bit flag sent over the wire for this buffer.
    pub fn code(self) -> (c: u32)
        ensures
            c == self.spec_code(),
    {
        match self {
            BufferBit::Depth => 0x00000100,
            BufferBit::Stencil => 0x00000400,
            BufferBit::Color => 0x00004000,
        }
    }
}

/// The OR of the bit flags of a sequence of clear bits.
pub open spec fn spec_mask(bits: Seq<BufferBit>) -> u32
    decreases bits.len(),
{
    if bits.len() == 0 {
        0u32
    } else {
        spec_mask(bits.drop_last()) | bits.last().spec_code()
    }
}

/// Combines clear-bit flags into the single numeric mask the wire expects.
pub fn mask_of(bits: &Vec<BufferBit>) -> (m: u32)
    ensures
        m == spec_mask(bits@),
{
    let mut m: u32 = 0;
    let mut i: usize = 0;
    while i < bits.len()
        invariant
            0 <= i <= bits@.len(),
            m == spec_mask(bits@.take(i as int)),
        decreases bits@.len() - i,
    {
        proof {
            assert(bits@.take(i + 1).drop_last() =~= bits@.take(i as int));
            assert(bits@.take(i + 1).last() == bits@[i as int]);
        }
        m = m | bits[i].code();
        i = i + 1;
    }
    proof {
        assert(bits@.take(bits@.len() as int) =~= bits@);
    }
    m
}

/// Texture binding targets.
#[derive(Clone, Copy, PartialEq, Eq, Structural, Debug)]
pub enum TextureKind {
    Texture2d,
    TextureCubeMap,
}

impl TextureKind {
    /// The constant the graphics specification assigns to this texture target.
    pub open spec fn spec_code(self) -> u32 {
        match self {
            TextureKind::Texture2d => 0x0DE1u32,
            TextureKind::TextureCubeMap => 0x8513u32,
        }
    }

    /// Numeric value sent over the wire for this texture target.
    pub fn code(self) -> (c: u32)
        ensures
            c == self.spec_code(),
    {
        match self {
            TextureKind::Texture2d => 0x0DE1,
            TextureKind::TextureCubeMap => 0x8513,
        }
    }
}

/// Texture parameter names.
#[derive(Clone, Copy, PartialEq, Eq, Structural, Debug)]
pub enum TextureParameter {
    TextureMagFilter,
    TextureMinFilter,
    TextureWrapS,
    TextureWrapT,
    TextureWrapR,
}

impl TextureParameter {
    /// The constant the graphics specification assigns to this parameter name.
    pub open spec fn spec_code(self) -> u32 {
        match self {
            TextureParameter::TextureMagFilter => 0x2800u32,
            TextureParameter::TextureMinFilter => 0x2801u32,
            TextureParameter::TextureWrapS => 0x2802u32,
            TextureParameter::TextureWrapT => 0x2803u32,
            TextureParameter::TextureWrapR => 0x8072u32,
        }
    }

    /// Numeric value sent over the wire for this parameter name.
    pub fn code(self) -> (c: u32)
        ensures
            c == self.spec_code(),
    {
        match self {
            TextureParameter::TextureMagFilter => 0x2800,
            TextureParameter::TextureMinFilter => 0x2801,
            TextureParameter::TextureWrapS => 0x2802,
            TextureParameter::TextureWrapT => 0x2803,
            TextureParameter::TextureWrapR => 0x8072,
        }
    }
}

/// Blend-function factors.
#[derive(Clone, Copy, PartialEq, Eq, Structural, Debug)]
pub enum BlendMode {
    Zero,
    One,
    SrcColor,
    OneMinusSrcColor,
    SrcAlpha,
    OneMinusSrcAlpha,
    DstAlpha,
    OneMinusDstAlpha,
    DstColor,
    OneMinusDstColor,
    SrcAlphaSaturate,
}

impl BlendMode {
    /// The constant the graphics specification assigns to this blend factor.
    pub open spec fn spec_code(self) -> u32 {
        match self {
            BlendMode::Zero => 0u32,
            BlendMode::One => 1u32,
            BlendMode::SrcColor => 0x0300u32,
            BlendMode::OneMinusSrcColor => 0x0301u32,
            BlendMode::SrcAlpha => 0x0302u32,
            BlendMode::OneMinusSrcAlpha => 0x0303u32,
            BlendMode::DstAlpha => 0x0304u32,
            BlendMode::OneMinusDstAlpha => 0x0305u32,
            BlendMode::DstColor => 0x0306u32,
            BlendMode::OneMinusDstColor => 0x0307u32,
            BlendMode::SrcAlphaSaturate => 0x0308u32,
        }
    }

    /// Numeric value sent over the wire for this blend factor.
    pub fn code(self) -> (c: u32)
        ensures
            c == self.spec_code(),
    {
        match self {
            BlendMode::Zero => 0,
            BlendMode::One => 1,
            BlendMode::SrcColor => 0x0300,
            BlendMode::OneMinusSrcColor => 0x0301,
            BlendMode::SrcAlpha => 0x0302,
            BlendMode::OneMinusSrcAlpha => 0x0303,
            BlendMode::DstAlpha => 0x0304,
            BlendMode::OneMinusDstAlpha => 0x0305,
            BlendMode::DstColor => 0x0306,
            BlendMode::OneMinusDstColor => 0x0307,
            BlendMode::SrcAlphaSaturate => 0x0308,
        }
    }
}

/// Blend equations.
#[derive(Clone, Copy, PartialEq, Eq, Structural, Debug)]
pub enum BlendEquation {
    FuncAdd,
    FuncSubtract,
    FuncReverseSubtract,
}

impl BlendEquation {
    /// The constant the graphics specification assigns to this equation.
    pub open spec fn spec_code(self) -> u32 {
        match self {
            BlendEquation::FuncAdd => 0x8006u32,
            BlendEquation::FuncSubtract => 0x800Au32,
            BlendEquation::FuncReverseSubtract => 0x800Bu32,
        }
    }

    /// Numeric value sent over the wire for this equation.
    pub fn code(self) -> (c: u32)
        ensures
            c == self.spec_code(),
    {
        match self {
            BlendEquation::FuncAdd => 0x8006,
            BlendEquation::FuncSubtract => 0x800A,
            BlendEquation::FuncReverseSubtract => 0x800B,
        }
    }
}

/// Pixel formats.
#[derive(Clone, Copy, PartialEq, Eq, Structural, Debug)]
pub enum PixelFormat {
    DepthComponent,
    Alpha,
    Rgb,
    Rgba,
    Luminance,
    LuminanceAlpha,
}

impl PixelFormat {
    /// The constant the graphics specification assigns to this pixel format.
    pub open spec fn spec_code(self) -> u32 {
        match self {
            PixelFormat::DepthComponent => 0x1902u32,
            PixelFormat::Alpha => 0x1906u32,
            PixelFormat::Rgb => 0x1907u32,
            PixelFormat::Rgba => 0x1908u32,
            PixelFormat::Luminance => 0x1909u32,
            PixelFormat::LuminanceAlpha => 0x190Au32,
        }
    }

    /// Numeric value sent over the wire for this pixel format.
    pub fn code(self) -> (c: u32)
        ensures
            c == self.spec_code(),
    {
        match self {
            PixelFormat::DepthComponent => 0x1902,
            PixelFormat::Alpha => 0x1906,
            PixelFormat::Rgb => 0x1907,
            PixelFormat::Rgba => 0x1908,
            PixelFormat::Luminance => 0x1909,
            PixelFormat::LuminanceAlpha => 0x190A,
        }
    }
}

/// Pixel component types.
#[derive(Clone, Copy, PartialEq, Eq, Structural, Debug)]
pub enum PixelType {
    UnsignedByte,
    UnsignedShort4444,
    UnsignedShort5551,
    UnsignedShort565,
}

impl PixelType {
    /// The constant the graphics specification assigns to this component type.
    pub open spec fn spec_code(self) -> u32 {
        match self {
            PixelType::UnsignedByte => 0x1401u32,
            PixelType::UnsignedShort4444 => 0x8033u32,
            PixelType::UnsignedShort5551 => 0x8034u32,
            PixelType::UnsignedShort565 => 0x8363u32,
        }
    }

    /// Numeric value sent over the wire for this component type.
    pub fn code(self) -> (c: u32)
        ensures
            c == self.spec_code(),
    {
        match self {
            PixelType::UnsignedByte => 0x1401,
            PixelType::UnsignedShort4444 => 0x8033,
            PixelType::UnsignedShort5551 => 0x8034,
            PixelType::UnsignedShort565 => 0x8363,
        }
    }
}

/// Primitive topologies for draw calls.
#[derive(Clone, Copy, PartialEq, Eq, Structural, Debug)]
pub enum Primitives {
    Points,
    Lines,
    LineLoop,
    LineStrip,
    Triangles,
    TriangleStrip,
    TriangleFan,
}

impl Primitives {
    /// The constant the graphics specification assigns to this topology.
    pub open spec fn spec_code(self) -> u32 {
        match self {
            Primitives::Points => 0u32,
            Primitives::Lines => 1u32,
            Primitives::LineLoop => 2u32,
            Primitives::LineStrip => 3u32,
            Primitives::Triangles => 4u32,
            Primitives::TriangleStrip => 5u32,
            Primitives::TriangleFan => 6u32,
        }
    }

    /// Numeric value sent over the wire for this topology.
    pub fn code(self) -> (c: u32)
        ensures
            c == self.spec_code(),
    {
        match self {
            Primitives::Points => 0,
            Primitives::Lines => 1,
            Primitives::LineLoop => 2,
            Primitives::LineStrip => 3,
            Primitives::Triangles => 4,
            Primitives::TriangleStrip => 5,
            Primitives::TriangleFan => 6,
        }
    }
}

} // verus!
