//! Exhaustive table-driven checks: every enumeration value's numeric
//! representation equals the published specification constant.

use uni_gl::BlendEquation;
use uni_gl::BlendMode;
use uni_gl::BufferBit;
use uni_gl::BufferKind;
use uni_gl::DrawMode;
use uni_gl::PixelFormat;
use uni_gl::PixelType;
use uni_gl::Primitives;
use uni_gl::ShaderKind;
use uni_gl::TextureKind;
use uni_gl::TextureParameter;
use uni_gl::glenum::mask_of;

#[test]
fn buffer_kind_constants() {
    assert_eq!(BufferKind::Array.code(), 0x8892);
    assert_eq!(BufferKind::ElementArray.code(), 0x8893);
}

#[test]
fn draw_mode_constants() {
    assert_eq!(DrawMode::Stream.code(), 0x88E0);
    assert_eq!(DrawMode::Static.code(), 0x88E4);
    assert_eq!(DrawMode::Dynamic.code(), 0x88E8);
}

#[test]
fn shader_kind_constants() {
    assert_eq!(ShaderKind::Fragment.code(), 0x8B30);
    assert_eq!(ShaderKind::Vertex.code(), 0x8B31);
}

#[test]
fn buffer_bit_constants() {
    assert_eq!(BufferBit::Depth.code(), 0x0000_0100);
    assert_eq!(BufferBit::Stencil.code(), 0x0000_0400);
    assert_eq!(BufferBit::Color.code(), 0x0000_4000);
}

#[test]
fn buffer_bits_combine_to_published_masks() {
    assert_eq!(BufferBit::Color.code() | BufferBit::Depth.code(), 0x0000_4100);
    assert_eq!(mask_of(&vec![]), 0);
    assert_eq!(mask_of(&vec![BufferBit::Color]), 0x0000_4000);
    assert_eq!(mask_of(&vec![BufferBit::Color, BufferBit::Depth]), 0x0000_4100);
    assert_eq!(
        mask_of(&vec![BufferBit::Color, BufferBit::Depth, BufferBit::Stencil]),
        0x0000_4500
    );
}

#[test]
fn texture_kind_constants() {
    assert_eq!(TextureKind::Texture2d.code(), 0x0DE1);
    assert_eq!(TextureKind::TextureCubeMap.code(), 0x8513);
}

#[test]
fn texture_parameter_constants() {
    assert_eq!(TextureParameter::TextureMagFilter.code(), 0x2800);
    assert_eq!(TextureParameter::TextureMinFilter.code(), 0x2801);
    assert_eq!(TextureParameter::TextureWrapS.code(), 0x2802);
    assert_eq!(TextureParameter::TextureWrapT.code(), 0x2803);
    assert_eq!(TextureParameter::TextureWrapR.code(), 0x8072);
}

#[test]
fn blend_mode_constants() {
    assert_eq!(BlendMode::Zero.code(), 0);
    assert_eq!(BlendMode::One.code(), 1);
    assert_eq!(BlendMode::SrcColor.code(), 0x0300);
    assert_eq!(BlendMode::OneMinusSrcColor.code(), 0x0301);
    assert_eq!(BlendMode::SrcAlpha.code(), 0x0302);
    assert_eq!(BlendMode::OneMinusSrcAlpha.code(), 0x0303);
    assert_eq!(BlendMode::DstAlpha.code(), 0x0304);
    assert_eq!(BlendMode::OneMinusDstAlpha.code(), 0x0305);
    assert_eq!(BlendMode::DstColor.code(), 0x0306);
    assert_eq!(BlendMode::OneMinusDstColor.code(), 0x0307);
    assert_eq!(BlendMode::SrcAlphaSaturate.code(), 0x0308);
}

#[test]
fn blend_equation_constants() {
    assert_eq!(BlendEquation::FuncAdd.code(), 0x8006);
    assert_eq!(BlendEquation::FuncSubtract.code(), 0x800A);
    assert_eq!(BlendEquation::FuncReverseSubtract.code(), 0x800B);
}

#[test]
fn pixel_format_constants() {
    assert_eq!(PixelFormat::DepthComponent.code(), 0x1902);
    assert_eq!(PixelFormat::Alpha.code(), 0x1906);
    assert_eq!(PixelFormat::Rgb.code(), 0x1907);
    assert_eq!(PixelFormat::Rgba.code(), 0x1908);
    assert_eq!(PixelFormat::Luminance.code(), 0x1909);
    assert_eq!(PixelFormat::LuminanceAlpha.code(), 0x190A);
}

#[test]
fn pixel_type_constants() {
    assert_eq!(PixelType::UnsignedByte.code(), 0x1401);
    assert_eq!(PixelType::UnsignedShort4444.code(), 0x8033);
    assert_eq!(PixelType::UnsignedShort5551.code(), 0x8034);
    assert_eq!(PixelType::UnsignedShort565.code(), 0x8363);
}

#[test]
fn primitives_constants() {
    assert_eq!(Primitives::Points.code(), 0);
    assert_eq!(Primitives::Lines.code(), 1);
    assert_eq!(Primitives::LineLoop.code(), 2);
    assert_eq!(Primitives::LineStrip.code(), 3);
    assert_eq!(Primitives::Triangles.code(), 4);
    assert_eq!(Primitives::TriangleStrip.code(), 5);
    assert_eq!(Primitives::TriangleFan.code(), 6);
}
