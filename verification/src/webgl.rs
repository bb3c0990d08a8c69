//! Context, hosted backend.
//!
//! Every operation forwards to the host's managed graphics-context object,
//! translating two things at each boundary crossing: enumeration values to
//! their wire constants, and resource handle wrappers to the host-native
//! managed references they carry.  The host objects themselves are opaque
//! here, so each wrapper pairs the managed reference with a ghost logical
//! name, and the contracts speak of those names through the shared
//! boundary-call model.

use vstd::prelude::*;

use wasm_bindgen::JsCast;

use crate::cache::NameCache;
use crate::call::CallV;
use crate::call::GlCall;
use crate::call::GlOp;
use crate::call::BoundSlots;
use crate::call::lower_hosted;
use crate::call::scrub;
use crate::call::slots_init;
use crate::call::with_slot;
use crate::common::WebGLBuffer;
use crate::common::WebGLProgram;
use crate::common::WebGLShader;
use crate::common::WebGLUniformLocation;
use crate::glenum::BufferBit;
use crate::glenum::BufferKind;
use crate::glenum::DrawMode;
use crate::glenum::ShaderKind;

verus! {

/// Whether this backend speaks the embedded-system profile of the
/// interface: the hosted graphics context always does.
pub const IS_GL_ES: bool = true;

#[verifier::external_type_specification]
#[verifier::external_body]
pub struct ExWebGlRenderingContext(web_sys::WebGlRenderingContext);

#[verifier::external_type_specification]
#[verifier::external_body]
pub struct ExWebGlBuffer(web_sys::WebGlBuffer);

#[verifier::external_type_specification]
#[verifier::external_body]
pub struct ExWebGlShader(web_sys::WebGlShader);

#[verifier::external_type_specification]
#[verifier::external_body]
pub struct ExWebGlProgram(web_sys::WebGlProgram);

#[verifier::external_type_specification]
#[verifier::external_body]
pub struct ExWebGlUniformLocation(web_sys::WebGlUniformLocation);

#[verifier::external_type_specification]
#[verifier::external_body]
pub struct ExHtmlCanvasElement(web_sys::HtmlCanvasElement);

/// Relies on web_sys::console::log_1: writes one line to the host's
/// console.  A best-effort diagnostic side channel, no functional contract.
#[verifier::external_body]
fn js_console_log(msg: &str) {
    web_sys::console::log_1(&wasm_bindgen::JsValue::from_str(msg));
}

/// Relies on web_sys::HtmlCanvasElement::get_context: asks the canvas for
/// its graphics context object, or nothing if the host refuses to grant
/// one (the cast rejects host objects of any other context flavour).
#[verifier::external_body]
fn request_webgl_context(canvas: &web_sys::HtmlCanvasElement) -> (r: Option<
    web_sys::WebGlRenderingContext,
>) {
    match canvas.get_context("webgl") {
        Ok(Some(obj)) => obj.dyn_into::<web_sys::WebGlRenderingContext>().ok(),
        _ => None,
    }
}

/// Relies on web_sys::WebGlRenderingContext::create_buffer: asks the host
/// for a fresh buffer object, or nothing if the host refuses to allocate.
#[verifier::external_body]
fn ctx_create_buffer(ctx: &web_sys::WebGlRenderingContext) -> (r: Option<web_sys::WebGlBuffer>) {
    ctx.create_buffer()
}

/// Relies on web_sys::WebGlRenderingContext::delete_buffer: releases the
/// host's buffer object.
#[verifier::external_body]
fn ctx_delete_buffer(ctx: &web_sys::WebGlRenderingContext, buffer: &web_sys::WebGlBuffer) {
    ctx.delete_buffer(Some(buffer));
}

/// Relies on web_sys::WebGlRenderingContext::bind_buffer: binds the given
/// buffer object — or none — to the target named by `target`.
#[verifier::external_body]
fn ctx_bind_buffer(
    ctx: &web_sys::WebGlRenderingContext,
    target: u32,
    buffer: Option<&web_sys::WebGlBuffer>,
) {
    ctx.bind_buffer(target, buffer);
}

/// Relies on web_sys::WebGlRenderingContext::buffer_data_with_u8_array:
/// uploads the bytes into the buffer bound to `target`, with the given
/// usage hint.
#[verifier::external_body]
fn ctx_buffer_data(ctx: &web_sys::WebGlRenderingContext, target: u32, data: &[u8], usage: u32) {
    ctx.buffer_data_with_u8_array(target, data, usage);
}

/// Relies on web_sys::WebGlRenderingContext::create_shader: asks the host
/// for a fresh shader object of the given kind, or nothing if the host
/// refuses to allocate.
#[verifier::external_body]
fn ctx_create_shader(ctx: &web_sys::WebGlRenderingContext, kind: u32) -> (r: Option<
    web_sys::WebGlShader,
>) {
    ctx.create_shader(kind)
}

/// Relies on web_sys::WebGlRenderingContext::clear: clears the buffers
/// named by the bit mask.
#[verifier::external_body]
fn ctx_clear(ctx: &web_sys::WebGlRenderingContext, mask: u32) {
    ctx.clear(mask);
}

/// Relies on web_sys::WebGlRenderingContext::get_uniform_location: asks the
/// host for the location of the named uniform in the program, or nothing if
/// the name is not an active uniform.
#[verifier::external_body]
fn ctx_get_uniform_location(
    ctx: &web_sys::WebGlRenderingContext,
    program: &web_sys::WebGlProgram,
    name: &str,
) -> (r: Option<web_sys::WebGlUniformLocation>) {
    ctx.get_uniform_location(program, name)
}

/// Relies on Clone for web_sys::WebGlUniformLocation: clones the managed
/// reference, which keeps denoting the same host location object.
#[verifier::external_body]
fn clone_uniform_location(
    loc: &web_sys::WebGlUniformLocation,
) -> (r: web_sys::WebGlUniformLocation) {
    loc.clone()
}

/// The managed reference a hosted buffer wrapper carries, paired with the
/// ghost logical name the call model tracks it under.
pub struct HostedBuffer {
    /// The host's managed buffer object.
    pub raw: web_sys::WebGlBuffer,
    /// The logical name of this resource in the boundary-call model.
    pub id: Ghost<nat>,
}

/// The managed reference a hosted shader wrapper carries, paired with its
/// ghost logical name.
pub struct HostedShader {
    /// The host's managed shader object.
    pub raw: web_sys::WebGlShader,
    /// The logical name of this resource in the boundary-call model.
    pub id: Ghost<nat>,
}

/// The managed reference a hosted program wrapper carries, paired with its
/// ghost logical name.
pub struct HostedProgram {
    /// The host's managed program object.
    pub raw: web_sys::WebGlProgram,
    /// The logical name of this resource in the boundary-call model.
    pub id: Ghost<nat>,
}

/// The managed reference a hosted uniform-location wrapper carries, paired
/// with its ghost logical name.
pub struct HostedLoc {
    /// The host's managed location object.
    pub raw: web_sys::WebGlUniformLocation,
    /// The logical name of this location in the boundary-call model.
    pub id: Ghost<nat>,
}

/// The drawable surface a hosted context is constructed from.
pub type WebGLContext<'a> = &'a web_sys::HtmlCanvasElement;

/// The hosted rendering context.
///
/// The host owns every resource; this context holds the managed context
/// object, the by-name uniform-location cache, and the ghost model of its
/// own behaviour: the logical names it has handed out, the implicit
/// bound-resource state, and `hist`, the history of every boundary call it
/// has forwarded to the host, newest last.
pub struct GLContext {
    /// The host's managed graphics-context object.
    pub reference: web_sys::WebGlRenderingContext,
    /// Whether the extended feature set is available.  The hosted graphics
    /// interface always exposes the feature set this crate uses.
    pub is_webgl2: bool,
    /// The next logical resource name to hand out.
    pub counter: Ghost<nat>,
    /// The implicit bound-resource state.
    pub bound: Ghost<BoundSlots>,
    /// History of every boundary call forwarded to the host.
    pub hist: Ghost<Seq<CallV>>,
    /// Uniform locations already obtained from the host, by name.
    pub uniforms: NameCache<HostedLoc>,
}

impl GLContext {
    /// Writes one diagnostic line naming the current call to the host's
    /// console.  A side channel only: no functional contract.
    pub fn log(&self, msg: &str) {
        js_console_log(msg);
    }

    /// Writes one line to the host's console.
    pub fn print(msg: &str) {
        js_console_log(msg);
    }

    /// Requests a graphics context from the drawable surface.  The host
    /// refusing one is an unrecoverable construction failure, surfaced
    /// here; on success nothing is bound, no call has crossed, and no name
    /// has been handed out.
    pub fn new(canvas: &WebGLContext) -> (r: Option<GLContext>)
        ensures
            match r {
                Some(c) => {
                    &&& c.is_webgl2 == true
                    &&& c.counter@ == 0
                    &&& c.bound@ == slots_init()
                    &&& c.hist@ == Seq::<CallV>::empty()
                    &&& c.uniforms.entries@ == Seq::<(String, HostedLoc)>::empty()
                },
                None => true,
            },
    {
        match request_webgl_context(*canvas) {
            Some(context) => Some(
                GLContext {
                    reference: context,
                    is_webgl2: true,
                    counter: Ghost(0),
                    bound: Ghost(slots_init()),
                    hist: Ghost(Seq::empty()),
                    uniforms: NameCache::new(),
                },
            ),
            None => None,
        }
    }

    /// Asks the host for a new buffer object.  On success the wrapper
    /// carries a logical name never handed out before, and exactly one
    /// creation call crossed the boundary; a refused allocation leaves the
    /// model unchanged and is surfaced at the call site.
    pub fn create_buffer(&mut self) -> (r: Option<WebGLBuffer<HostedBuffer>>)
        ensures
            final(self).is_webgl2 == old(self).is_webgl2,
            final(self).bound@ == old(self).bound@,
            final(self).uniforms == old(self).uniforms,
            match r {
                Some(b) => {
                    &&& b.0.id@ == old(self).counter@
                    &&& final(self).counter@ == old(self).counter@ + 1
                    &&& final(self).hist@ == old(self).hist@.push(
                        lower_hosted(GlOp::CreateBuffer { id: b.0.id@ }),
                    )
                },
                None => {
                    &&& final(self).counter@ == old(self).counter@
                    &&& final(self).hist@ == old(self).hist@
                },
            },
    {
        self.log("create_buffer");
        match ctx_create_buffer(&self.reference) {
            Some(raw) => {
                let ghost id = self.counter@;
                proof {
                    self.counter@ = self.counter@ + 1;
                    self.hist@ = self.hist@.push(lower_hosted(GlOp::CreateBuffer { id }));
                }
                Some(WebGLBuffer(HostedBuffer { raw, id: Ghost(id) }))
            },
            None => None,
        }
    }

    /// Releases the buffer's host object.  Any target it was bound to
    /// falls back to "none", as the host unbinds a deleted buffer; the
    /// wrapper itself is invalid from this point on.
    pub fn delete_buffer(&mut self, buffer: &WebGLBuffer<HostedBuffer>)
        ensures
            final(self).is_webgl2 == old(self).is_webgl2,
            final(self).counter@ == old(self).counter@,
            final(self).uniforms == old(self).uniforms,
            final(self).bound@ == scrub(old(self).bound@, buffer.0.id@),
            final(self).hist@ == old(self).hist@.push(
                lower_hosted(GlOp::DeleteBuffer { id: buffer.0.id@ }),
            ),
    {
        self.log("delete_buffer");
        ctx_delete_buffer(&self.reference, &buffer.0.raw);
        proof {
            self.bound@ = scrub(self.bound@, buffer.0.id@);
            self.hist@ = self.hist@.push(lower_hosted(GlOp::DeleteBuffer { id: buffer.0.id@ }));
        }
    }

    /// Binds the buffer to the given target: the target's slot transitions
    /// to this buffer's logical name, and one bind call crosses with the
    /// target's wire constant and the unwrapped handle.
    pub fn bind_buffer(&mut self, kind: BufferKind, buffer: &WebGLBuffer<HostedBuffer>)
        ensures
            final(self).is_webgl2 == old(self).is_webgl2,
            final(self).counter@ == old(self).counter@,
            final(self).uniforms == old(self).uniforms,
            final(self).bound@ == with_slot(old(self).bound@, kind, Some(buffer.0.id@)),
            final(self).hist@ == old(self).hist@.push(
                lower_hosted(GlOp::BindBuffer { kind, id: buffer.0.id@ }),
            ),
    {
        self.log("bind_buffer");
        ctx_bind_buffer(&self.reference, kind.code(), Some(&buffer.0.raw));
        proof {
            self.bound@ = with_slot(self.bound@, kind, Some(buffer.0.id@));
            self.hist@ = self.hist@.push(
                lower_hosted(GlOp::BindBuffer { kind, id: buffer.0.id@ }),
            );
        }
    }

    /// Unbinds whatever buffer is bound to the given target: the slot
    /// transitions back to "none", and one bind-to-none call crosses.
    pub fn unbind_buffer(&mut self, kind: BufferKind)
        ensures
            final(self).is_webgl2 == old(self).is_webgl2,
            final(self).counter@ == old(self).counter@,
            final(self).uniforms == old(self).uniforms,
            final(self).bound@ == with_slot(old(self).bound@, kind, None::<nat>),
            final(self).hist@ == old(self).hist@.push(lower_hosted(GlOp::UnbindBuffer { kind })),
    {
        self.log("unbind_buffer");
        ctx_bind_buffer(&self.reference, kind.code(), None);
        proof {
            self.bound@ = with_slot(self.bound@, kind, None::<nat>);
            self.hist@ = self.hist@.push(lower_hosted(GlOp::UnbindBuffer { kind }));
        }
    }

    /// Uploads the bytes into whatever buffer is currently bound to the
    /// target, with the given usage hint.  Well-defined only after the
    /// matching bind, an ordering this layer inherits from the underlying
    /// interface rather than enforcing; the slots themselves are untouched.
    pub fn buffer_data(&mut self, kind: BufferKind, data: &[u8], draw: DrawMode)
        ensures
            final(self).is_webgl2 == old(self).is_webgl2,
            final(self).counter@ == old(self).counter@,
            final(self).uniforms == old(self).uniforms,
            final(self).bound@ == old(self).bound@,
            final(self).hist@ == old(self).hist@.push(
                lower_hosted(GlOp::BufferData { kind, len: data@.len(), usage: draw }),
            ),
    {
        self.log("buffer_data");
        ctx_buffer_data(&self.reference, kind.code(), data, draw.code());
        proof {
            self.hist@ = self.hist@.push(
                lower_hosted(GlOp::BufferData { kind, len: data@.len(), usage: draw }),
            );
        }
    }

    /// Asks the host for a new shader object of the given kind.  On
    /// success the wrapper carries a fresh logical name and exactly one
    /// creation call crossed, with the kind's wire constant; a refused
    /// allocation leaves the model unchanged.
    pub fn create_shader(&mut self, kind: ShaderKind) -> (r: Option<WebGLShader<HostedShader>>)
        ensures
            final(self).is_webgl2 == old(self).is_webgl2,
            final(self).bound@ == old(self).bound@,
            final(self).uniforms == old(self).uniforms,
            match r {
                Some(s) => {
                    &&& s.0.id@ == old(self).counter@
                    &&& final(self).counter@ == old(self).counter@ + 1
                    &&& final(self).hist@ == old(self).hist@.push(
                        lower_hosted(GlOp::CreateShader { kind, id: s.0.id@ }),
                    )
                },
                None => {
                    &&& final(self).counter@ == old(self).counter@
                    &&& final(self).hist@ == old(self).hist@
                },
            },
    {
        self.log("create_shader");
        match ctx_create_shader(&self.reference, kind.code()) {
            Some(raw) => {
                let ghost id = self.counter@;
                proof {
                    self.counter@ = self.counter@ + 1;
                    self.hist@ = self.hist@.push(lower_hosted(GlOp::CreateShader { kind, id }));
                }
                Some(WebGLShader(HostedShader { raw, id: Ghost(id) }))
            },
            None => None,
        }
    }

    /// Records the setting of the clear colour.  The four components pass
    /// through uninterpreted, carried as their bit patterns; floating-point
    /// values cannot cross this boundary, so the returned call descriptor
    /// is what the embedding shell forwards to the host.
    pub fn clear_color(
        &mut self,
        red_bits: u32,
        green_bits: u32,
        blue_bits: u32,
        alpha_bits: u32,
    ) -> (c: GlCall)
        ensures
            final(self).is_webgl2 == old(self).is_webgl2,
            final(self).counter@ == old(self).counter@,
            final(self).uniforms == old(self).uniforms,
            final(self).bound@ == old(self).bound@,
            c@ == lower_hosted(GlOp::ClearColor { red_bits, green_bits, blue_bits, alpha_bits }),
            final(self).hist@ == old(self).hist@.push(c@),
    {
        self.log("clear_color");
        let call = GlCall::ClearColor { red_bits, green_bits, blue_bits, alpha_bits };
        proof {
            self.hist@ = self.hist@.push(call@);
        }
        call
    }

    /// Clears the given buffer.  The mask crossing the boundary is exactly
    /// that buffer's published bit constant, never a combined mask.
    pub fn clear(&mut self, bit: BufferBit)
        ensures
            final(self).is_webgl2 == old(self).is_webgl2,
            final(self).counter@ == old(self).counter@,
            final(self).uniforms == old(self).uniforms,
            final(self).bound@ == old(self).bound@,
            final(self).hist@ == old(self).hist@.push(lower_hosted(GlOp::Clear { bit })),
    {
        self.log("clear");
        ctx_clear(&self.reference, bit.code());
        proof {
            self.hist@ = self.hist@.push(lower_hosted(GlOp::Clear { bit }));
        }
    }

    /// The location of the named uniform in the program.
    ///
    /// The first successful request for a name queries the host and caches
    /// the location under that name; any later request for the same name
    /// reuses the cached location and issues no host query at all.  A name
    /// the host knows no location for is answered with nothing, uncached,
    /// and queried again next time.
    pub fn get_uniform_location(
        &mut self,
        program: &WebGLProgram<HostedProgram>,
        name: &str,
    ) -> (r: Option<WebGLUniformLocation<HostedLoc>>)
        ensures
            final(self).is_webgl2 == old(self).is_webgl2,
            final(self).bound@ == old(self).bound@,
            old(self).uniforms.has_name(name@) ==> {
                &&& final(self).hist@ == old(self).hist@
                &&& final(self).counter@ == old(self).counter@
                &&& final(self).uniforms == old(self).uniforms
                &&& match r {
                    Some(u) => u.name@ == name@ && exists|i: int|
                        {
                            &&& 0 <= i < old(self).uniforms.entries@.len()
                            &&& old(self).uniforms.entries@[i].0@ == name@
                            &&& old(self).uniforms.entries@[i].1.id@ == u.reference.id@
                        },
                    None => false,
                }
            },
            !old(self).uniforms.has_name(name@) ==> {
                &&& final(self).hist@ == old(self).hist@.push(
                    lower_hosted(
                        GlOp::UniformLocationQuery { program: program.0.id@, name: name@ },
                    ),
                )
                &&& match r {
                    Some(u) => {
                        &&& u.name@ == name@
                        &&& u.reference.id@ == old(self).counter@
                        &&& final(self).counter@ == old(self).counter@ + 1
                        &&& final(self).uniforms.entries@.len() == old(
                            self,
                        ).uniforms.entries@.len() + 1
                        &&& final(self).uniforms.entries@.take(
                            old(self).uniforms.entries@.len() as int,
                        ) == old(self).uniforms.entries@
                        &&& final(self).uniforms.entries@.last().0@ == name@
                        &&& final(self).uniforms.entries@.last().1.id@ == u.reference.id@
                    },
                    None => {
                        &&& final(self).counter@ == old(self).counter@
                        &&& final(self).uniforms == old(self).uniforms
                    },
                }
            },
    {
        self.log("get_uniform_location");
        let key: String = name.to_owned();
        match self.uniforms.find(&key) {
            Some(i) => {
                let raw = clone_uniform_location(&self.uniforms.entries[i].1.raw);
                let ghost eid = self.uniforms.entries@[i as int].1.id@;
                proof {
                    assert(old(self).uniforms.entries@[i as int].0@ == name@);
                }
                Some(
                    WebGLUniformLocation {
                        reference: HostedLoc { raw, id: Ghost(eid) },
                        name: key,
                    },
                )
            },
            None => {
                proof {
                    self.hist@ = self.hist@.push(
                        lower_hosted(
                            GlOp::UniformLocationQuery { program: program.0.id@, name: name@ },
                        ),
                    );
                }
                match ctx_get_uniform_location(&self.reference, &program.0.raw, name) {
                    Some(raw) => {
                        let ghost id = self.counter@;
                        proof {
                            self.counter@ = self.counter@ + 1;
                        }
                        let kept = clone_uniform_location(&raw);
                        self.uniforms.insert(key.clone(), HostedLoc { raw: kept, id: Ghost(id) });
                        proof {
                            assert(final(self).uniforms.entries@.take(
                                old(self).uniforms.entries@.len() as int,
                            ) =~= old(self).uniforms.entries@);
                        }
                        Some(
                            WebGLUniformLocation {
                                reference: HostedLoc { raw, id: Ghost(id) },
                                name: key,
                            },
                        )
                    },
                    None => None,
                }
            },
        }
    }
}

/// The hosted rendering context behind its portable facade name.
pub struct WebGLRenderingContext {
    /// The backend context all operations go through.
    pub common: GLContext,
}

impl WebGLRenderingContext {
    /// Requests a context from the drawable surface; the host refusing one
    /// is an unrecoverable construction failure, surfaced here.
    pub fn new(canvas: &WebGLContext) -> (r: Option<WebGLRenderingContext>)
        ensures
            match r {
                Some(w) => {
                    &&& w.common.is_webgl2 == true
                    &&& w.common.counter@ == 0
                    &&& w.common.bound@ == slots_init()
                    &&& w.common.hist@ == Seq::<CallV>::empty()
                    &&& w.common.uniforms.entries@ == Seq::<(String, HostedLoc)>::empty()
                },
                None => true,
            },
    {
        match GLContext::new(canvas) {
            Some(common) => Some(WebGLRenderingContext { common }),
            None => None,
        }
    }
}

} // verus!
