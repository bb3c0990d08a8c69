//! Context, native backend.
//!
//! On a native target every operation is a direct forwarding call through a
//! process-wide function-pointer table resolved against the driver, and
//! those raw entry points cannot be invoked from verified code.  The split
//! is therefore: this type makes every decision — it translates enumeration
//! values, keeps the implicit bound-resource state, and lowers each
//! operation to the one [`GlCall`] the driver must receive — while the thin
//! embedding shell performs the actual entry-point call it is handed.
//! Handles on this backend are the driver's small integer names, so
//! wrap/unwrap is a zero-cost reinterpretation.

use vstd::prelude::*;

use crate::call::CallV;
use crate::call::GlCall;
use crate::call::GlOp;
use crate::call::BoundSlots;
use crate::call::lower_native;
use crate::call::scrub;
use crate::call::slots_init;
use crate::call::with_slot;
use crate::common::WebGLBuffer;
use crate::common::WebGLProgram;
use crate::common::WebGLShader;
use crate::common::WebGLUniformLocation;
use crate::glenum::BufferBit;
use crate::glenum::BufferKind;
use crate::glenum::DrawMode;
use crate::glenum::ShaderKind;

verus! {

/// Whether this backend speaks the embedded-system profile of the
/// interface: a native driver context does not.
pub const IS_GL_ES: bool = false;

/// The native rendering context.
///
/// The driver owns every resource; this context only records which name is
/// bound to which target and what call crosses the boundary next.  `hist`
/// is the mathematical history of all boundary calls this context has
/// directed at the driver, newest last.
pub struct NativeContext {
    /// Whether the driver reported the extended feature set at construction.
    pub is_webgl2: bool,
    /// Name of the buffer bound to the vertex-data target, if any.
    pub bound_array_buffer: Option<u32>,
    /// Name of the buffer bound to the index-data target, if any.
    pub bound_element_array_buffer: Option<u32>,
    /// History of every boundary call directed at the driver.
    pub hist: Ghost<Seq<CallV>>,
}

/// A driver name, as the logical handle the call model speaks of.
pub open spec fn name_id(n: u32) -> nat {
    n as nat
}

/// A possibly absent driver name, as a logical handle.
pub open spec fn opt_name_id(n: Option<u32>) -> Option<nat> {
    match n {
        Some(v) => Some(name_id(v)),
        None => None,
    }
}

impl NativeContext {
    /// The bound-slot state this context models.
    pub open spec fn slots(self) -> BoundSlots {
        BoundSlots {
            array_buffer: opt_name_id(self.bound_array_buffer),
            element_array_buffer: opt_name_id(self.bound_element_array_buffer),
        }
    }

    /// A fresh context over an already resolved driver: nothing bound, no
    /// call issued yet.  The capability flag is whatever feature level the
    /// resolved driver actually reported.
    pub fn new(is_webgl2: bool) -> (c: Self)
        ensures
            c.is_webgl2 == is_webgl2,
            c.slots() == slots_init(),
            c.hist@ == Seq::<CallV>::empty(),
    {
        let c = NativeContext {
            is_webgl2,
            bound_array_buffer: None,
            bound_element_array_buffer: None,
            hist: Ghost(Seq::empty()),
        };
        proof {
            assert(c.slots() =~= slots_init());
        }
        c
    }

    /// Adopts the buffer name the driver allocated and returns the wrapper
    /// for it, together with the boundary call that produced the name.
    pub fn create_buffer(&mut self, name: u32) -> (r: (WebGLBuffer<u32>, GlCall))
        ensures
            r.0.0 == name,
            r.1@ == lower_native(GlOp::CreateBuffer { id: name_id(name) }),
            final(self).hist@ == old(self).hist@.push(r.1@),
            final(self).slots() == old(self).slots(),
            final(self).is_webgl2 == old(self).is_webgl2,
    {
        let call = GlCall::CreateBuffer { handle: name };
        proof {
            self.hist@ = self.hist@.push(call@);
        }
        (WebGLBuffer(name), call)
    }

    /// Lowers the deletion of a buffer.  Any target the buffer was bound to
    /// falls back to "none", as the driver unbinds a deleted buffer; the
    /// wrapper itself is invalid from this point on.
    pub fn delete_buffer(&mut self, buffer: &WebGLBuffer<u32>) -> (c: GlCall)
        ensures
            c@ == lower_native(GlOp::DeleteBuffer { id: name_id(buffer.0) }),
            final(self).hist@ == old(self).hist@.push(c@),
            final(self).slots() == scrub(old(self).slots(), name_id(buffer.0)),
            final(self).is_webgl2 == old(self).is_webgl2,
    {
        if self.bound_array_buffer == Some(buffer.0) {
            self.bound_array_buffer = None;
        }
        if self.bound_element_array_buffer == Some(buffer.0) {
            self.bound_element_array_buffer = None;
        }
        let call = GlCall::DeleteBuffer { handle: buffer.0 };
        proof {
            self.hist@ = self.hist@.push(call@);
            assert(self.slots() =~= scrub(old(self).slots(), name_id(buffer.0)));
        }
        call
    }

    /// Lowers the binding of a buffer to a target: the target's slot
    /// transitions to this buffer's name.
    pub fn bind_buffer(&mut self, kind: BufferKind, buffer: &WebGLBuffer<u32>) -> (c: GlCall)
        ensures
            c@ == lower_native(GlOp::BindBuffer { kind, id: name_id(buffer.0) }),
            final(self).hist@ == old(self).hist@.push(c@),
            final(self).slots() == with_slot(old(self).slots(), kind, Some(name_id(buffer.0))),
            final(self).is_webgl2 == old(self).is_webgl2,
    {
        match kind {
            BufferKind::Array => {
                self.bound_array_buffer = Some(buffer.0);
            },
            BufferKind::ElementArray => {
                self.bound_element_array_buffer = Some(buffer.0);
            },
        }
        let call = GlCall::BindBuffer { target: kind.code(), handle: Some(buffer.0) };
        proof {
            self.hist@ = self.hist@.push(call@);
            assert(self.slots() =~= with_slot(old(self).slots(), kind, Some(name_id(buffer.0))));
        }
        call
    }

    /// Lowers the unbinding of a target: its slot transitions back to
    /// "none".
    pub fn unbind_buffer(&mut self, kind: BufferKind) -> (c: GlCall)
        ensures
            c@ == lower_native(GlOp::UnbindBuffer { kind }),
            final(self).hist@ == old(self).hist@.push(c@),
            final(self).slots() == with_slot(old(self).slots(), kind, None::<nat>),
            final(self).is_webgl2 == old(self).is_webgl2,
    {
        match kind {
            BufferKind::Array => {
                self.bound_array_buffer = None;
            },
            BufferKind::ElementArray => {
                self.bound_element_array_buffer = None;
            },
        }
        let call = GlCall::BindBuffer { target: kind.code(), handle: None };
        proof {
            self.hist@ = self.hist@.push(call@);
            assert(self.slots() =~= with_slot(old(self).slots(), kind, None::<nat>));
        }
        call
    }

    /// Lowers a data upload into whatever buffer is currently bound to the
    /// target.  Well-defined only after the matching bind, an ordering this
    /// layer inherits from the underlying interface rather than enforcing;
    /// the slots themselves are untouched.
    pub fn buffer_data(&mut self, kind: BufferKind, data: &[u8], draw: DrawMode) -> (c: GlCall)
        ensures
            c@ == lower_native(GlOp::BufferData { kind, len: data@.len(), usage: draw }),
            final(self).hist@ == old(self).hist@.push(c@),
            final(self).slots() == old(self).slots(),
            final(self).is_webgl2 == old(self).is_webgl2,
    {
        let call = GlCall::BufferData { target: kind.code(), len: data.len(), usage: draw.code() };
        proof {
            self.hist@ = self.hist@.push(call@);
        }
        call
    }

    /// Adopts the shader name the driver allocated for the given shader
    /// kind and returns the wrapper for it, together with the boundary call
    /// that produced the name.
    pub fn create_shader(&mut self, kind: ShaderKind, name: u32) -> (r: (WebGLShader<u32>, GlCall))
        ensures
            r.0.0 == name,
            r.1@ == lower_native(GlOp::CreateShader { kind, id: name_id(name) }),
            final(self).hist@ == old(self).hist@.push(r.1@),
            final(self).slots() == old(self).slots(),
            final(self).is_webgl2 == old(self).is_webgl2,
    {
        let call = GlCall::CreateShader { kind: kind.code(), handle: name };
        proof {
            self.hist@ = self.hist@.push(call@);
        }
        (WebGLShader(name), call)
    }

    /// Lowers the setting of the clear colour.  The four components pass
    /// through uninterpreted and are carried as their bit patterns; the
    /// bound-slot state is untouched.
    pub fn clear_color(
        &mut self,
        red_bits: u32,
        green_bits: u32,
        blue_bits: u32,
        alpha_bits: u32,
    ) -> (c: GlCall)
        ensures
            c@ == lower_native(GlOp::ClearColor { red_bits, green_bits, blue_bits, alpha_bits }),
            final(self).hist@ == old(self).hist@.push(c@),
            final(self).slots() == old(self).slots(),
            final(self).is_webgl2 == old(self).is_webgl2,
    {
        let call = GlCall::ClearColor { red_bits, green_bits, blue_bits, alpha_bits };
        proof {
            self.hist@ = self.hist@.push(call@);
        }
        call
    }

    /// Lowers a clear of the given buffer: the mask crossing the boundary
    /// is exactly that buffer's published bit constant, never a combined
    /// mask.
    pub fn clear(&mut self, bit: BufferBit) -> (c: GlCall)
        ensures
            c@ == lower_native(GlOp::Clear { bit }),
            c@ == (CallV::Clear { mask: bit.spec_code() }),
            final(self).hist@ == old(self).hist@.push(c@),
            final(self).slots() == old(self).slots(),
            final(self).is_webgl2 == old(self).is_webgl2,
    {
        let call = GlCall::Clear { mask: bit.code() };
        proof {
            self.hist@ = self.hist@.push(call@);
        }
        call
    }

    /// Adopts the driver's answer to a uniform-location query.  This
    /// backend keeps no cache: every request is lowered to a fresh query,
    /// and the wrapper simply pairs the driver's location with the queried
    /// name.  `driver_loc` is the location the driver reported, or nothing
    /// if the name is not an active uniform of the program.
    pub fn get_uniform_location(
        &mut self,
        program: &WebGLProgram<u32>,
        name: &str,
        driver_loc: Option<u32>,
    ) -> (r: (Option<WebGLUniformLocation<u32>>, GlCall))
        ensures
            r.1@ == lower_native(
                GlOp::UniformLocationQuery { program: name_id(program.0), name: name@ },
            ),
            final(self).hist@ == old(self).hist@.push(r.1@),
            final(self).slots() == old(self).slots(),
            final(self).is_webgl2 == old(self).is_webgl2,
            match r.0 {
                Some(u) => driver_loc == Some(u.reference) && u.name@ == name@,
                None => driver_loc is None,
            },
    {
        let call = GlCall::UniformLocationQuery { program: program.0, name: name.to_owned() };
        proof {
            self.hist@ = self.hist@.push(call@);
        }
        let wrapper = match driver_loc {
            Some(loc) => Some(
                WebGLUniformLocation { reference: loc, name: name.to_owned() },
            ),
            None => None,
        };
        (wrapper, call)
    }
}

} // verus!
