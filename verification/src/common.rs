//! Resource handle wrappers: typed, backend-agnostic containers for the
//! backend-native handle of one GPU resource.
//!
//! A wrapper carries no behaviour and performs no validation; liveness and
//! context affinity of the underlying resource stay the backend's business.
//! Its job is purely to make heterogeneous backend handles (managed host
//! references vs. raw integer names) interchangeable at the call-site type
//! level.

use vstd::prelude::*;

verus! {

/// A buffer object handle, created by the context's `create_buffer`.
///
/// Buffers store vertex attributes (position, normal, uv coordinates) and
/// indexes for indexed rendering.
#[derive(Debug)]
pub struct WebGLBuffer<T>(pub T);

impl<T> WebGLBuffer<T> {
    /// Read-only projection to the backend-native handle.
    pub fn handle(&self) -> (r: &T)
        ensures
            r == self.0,
    {
        &self.0
    }
}

/// A shader object handle, created by the context's `create_shader`.
///
/// There are two kinds of shaders ([`crate::glenum::ShaderKind`]): vertex
/// and fragment.
#[derive(Debug)]
pub struct WebGLShader<T>(pub T);

impl<T> WebGLShader<T> {
    /// Read-only projection to the backend-native handle.
    pub fn handle(&self) -> (r: &T)
        ensures
            r == self.0,
    {
        &self.0
    }
}

/// A program object handle, built from a vertex and a fragment shader.
#[derive(Debug)]
pub struct WebGLProgram<T>(pub T);

impl<T> WebGLProgram<T> {
    /// Read-only projection to the backend-native handle.
    pub fn handle(&self) -> (r: &T)
        ensures
            r == self.0,
    {
        &self.0
    }
}

/// A texture object handle, created by the context's texture creation call.
#[derive(Debug)]
pub struct WebGLTexture<T>(pub T);

impl<T> WebGLTexture<T> {
    /// Read-only projection to the backend-native handle.
    pub fn handle(&self) -> (r: &T)
        ensures
            r == self.0,
    {
        &self.0
    }
}

/// A vertex array object handle.
///
/// Vertex array objects store all the state needed to supply vertex data.
#[derive(Debug)]
pub struct WebGLVertexArray<T>(pub T);

impl<T> WebGLVertexArray<T> {
    /// Read-only projection to the backend-native handle.
    pub fn handle(&self) -> (r: &T)
        ensures
            r == self.0,
    {
        &self.0
    }
}

/// A framebuffer object handle: a special buffer usable as a destination
/// for rendering.
#[derive(Debug)]
pub struct WebGLFrameBuffer<T>(pub T);

impl<T> WebGLFrameBuffer<T> {
    /// Read-only projection to the backend-native handle.
    pub fn handle(&self) -> (r: &T)
        ensures
            r == self.0,
    {
        &self.0
    }
}

/// The reference to a uniform (global shader variable) inside a program,
/// obtained from the context's `get_uniform_location`.
///
/// Besides the backend handle it keeps the queried name, which lets the
/// hosted backend cache locations by name instead of re-querying the host.
#[derive(Debug)]
pub struct WebGLUniformLocation<T> {
    pub reference: T,
    pub name: String,
}

impl<T> WebGLUniformLocation<T> {
    /// Read-only projection to the backend-native handle.
    pub fn handle(&self) -> (r: &T)
        ensures
            r == self.reference,
    {
        &self.reference
    }

    /// The name this location was queried under.
    pub fn queried_name(&self) -> (r: &String)
        ensures
            r == self.name,
    {
        &self.name
    }
}

} // verus!
