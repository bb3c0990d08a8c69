//! A backend-agnostic abstraction over the OpenGL / WebGL family of
//! stateful, handle-based graphics interfaces.
//!
//! One uniform set of operations and resource types is presented to
//! application code, while two execution environments are targeted
//! underneath: a hosted backend forwarding to a managed in-browser graphics
//! context ([`webgl::GLContext`]), and a native backend whose decisions are
//! made here and whose raw driver entry points are invoked by a thin
//! embedding shell ([`native::NativeContext`]).  Both backends share the
//! enumeration tables ([`glenum`]), the resource handle wrappers
//! ([`common`]) and one boundary-call model ([`call`]) over which their
//! contracts are stated and compared.

use std::io::Write;
use vstd::prelude::*;

pub mod cache;
pub mod call;
pub mod common;
pub mod glenum;
pub mod native;
pub mod webgl;

verus! {

pub use crate::cache::NameCache;
pub use crate::call::GlCall;
pub use crate::common::WebGLBuffer;
pub use crate::common::WebGLFrameBuffer;
pub use crate::common::WebGLProgram;
pub use crate::common::WebGLShader;
pub use crate::common::WebGLTexture;
pub use crate::common::WebGLUniformLocation;
pub use crate::common::WebGLVertexArray;
pub use crate::glenum::BlendEquation;
pub use crate::glenum::BlendMode;
pub use crate::glenum::BufferBit;
pub use crate::glenum::BufferKind;
pub use crate::glenum::DrawMode;
pub use crate::glenum::PixelFormat;
pub use crate::glenum::PixelType;
pub use crate::glenum::Primitives;
pub use crate::glenum::ShaderKind;
pub use crate::glenum::TextureKind;
pub use crate::glenum::TextureParameter;
pub use crate::native::NativeContext;
pub use crate::webgl::GLContext;
pub use crate::webgl::WebGLContext;
pub use crate::webgl::WebGLRenderingContext;

/// Relies on the `writeln` macro over std::io::stdout: writes one line to
/// the process's standard output.
#[verifier::external_body]
fn emit_line(s: &str) {
    let _ = writeln!(std::io::stdout(), "{}", s);
}

/// Utility function to print a diagnostic line.  A best-effort side
/// channel, not part of any functional contract.
pub fn print(s: &str) {
    emit_line(s);
}

} // verus!
