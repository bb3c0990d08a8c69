//! The boundary-call model shared by both backends.
//!
//! Every operation a context performs is lowered to exactly one driver/host
//! call, described here as plain data: the numeric constants from the
//! enumeration tables and the logical names of the handles involved.  Both
//! backends state their contracts over this one model, which is what makes
//! them comparable call for call.

use vstd::prelude::*;

use crate::glenum::BufferBit;
use crate::glenum::BufferKind;
use crate::glenum::DrawMode;
use crate::glenum::ShaderKind;

verus! {

/// A backend-independent description of one logical operation, before it is
/// lowered to the numeric form the wire expects.  Handles appear as their
/// logical names; colour components as the bit patterns they are carried in.
pub enum GlOp {
    CreateBuffer { id: nat },
    DeleteBuffer { id: nat },
    BindBuffer { kind: BufferKind, id: nat },
    UnbindBuffer { kind: BufferKind },
    BufferData { kind: BufferKind, len: nat, usage: DrawMode },
    CreateShader { kind: ShaderKind, id: nat },
    ClearColor { red_bits: u32, green_bits: u32, blue_bits: u32, alpha_bits: u32 },
    Clear { bit: BufferBit },
    UniformLocationQuery { program: nat, name: Seq<char> },
}

/// The mathematical description of one driver/host boundary call: every
/// enumeration value already translated to its wire constant, every handle
/// reduced to its logical name.
pub enum CallV {
    CreateBuffer { handle: nat },
    DeleteBuffer { handle: nat },
    BindBuffer { target: u32, handle: Option<nat> },
    BufferData { target: u32, len: nat, usage: u32 },
    CreateShader { kind: u32, handle: nat },
    ClearColor { red_bits: u32, green_bits: u32, blue_bits: u32, alpha_bits: u32 },
    Clear { mask: u32 },
    UniformLocationQuery { program: nat, name: Seq<char> },
}

/// One driver/host boundary call as runtime data, for handing to an
/// embedding shell or inspecting in tests.  Handles appear under their
/// logical integer names.
#[derive(Clone, PartialEq, Eq, Debug)]
pub enum GlCall {
    CreateBuffer { handle: u32 },
    DeleteBuffer { handle: u32 },
    BindBuffer { target: u32, handle: Option<u32> },
    BufferData { target: u32, len: usize, usage: u32 },
    CreateShader { kind: u32, handle: u32 },
    ClearColor { red_bits: u32, green_bits: u32, blue_bits: u32, alpha_bits: u32 },
    Clear { mask: u32 },
    UniformLocationQuery { program: u32, name: String },
}

impl View for GlCall {
    type V = CallV;

    open spec fn view(&self) -> CallV {
        match self {
            GlCall::CreateBuffer { handle } => CallV::CreateBuffer { handle: *handle as nat },
            GlCall::DeleteBuffer { handle } => CallV::DeleteBuffer { handle: *handle as nat },
            GlCall::BindBuffer { target, handle } => CallV::BindBuffer {
                target: *target,
                handle: match handle {
                    Some(h) => Some(*h as nat),
                    None => None,
                },
            },
            GlCall::BufferData { target, len, usage } => CallV::BufferData {
                target: *target,
                len: *len as nat,
                usage: *usage,
            },
            GlCall::CreateShader { kind, handle } => CallV::CreateShader {
                kind: *kind,
                handle: *handle as nat,
            },
            GlCall::ClearColor { red_bits, green_bits, blue_bits, alpha_bits } => CallV::ClearColor {
                red_bits: *red_bits,
                green_bits: *green_bits,
                blue_bits: *blue_bits,
                alpha_bits: *alpha_bits,
            },
            GlCall::Clear { mask } => CallV::Clear { mask: *mask },
            GlCall::UniformLocationQuery { program, name } => CallV::UniformLocationQuery {
                program: *program as nat,
                name: name@,
            },
        }
    }
}

/// How the hosted backend lowers a logical operation to the one boundary
/// call it forwards to the managed host context.
pub open spec fn lower_hosted(op: GlOp) -> CallV {
    match op {
        GlOp::CreateBuffer { id } => CallV::CreateBuffer { handle: id },
        GlOp::DeleteBuffer { id } => CallV::DeleteBuffer { handle: id },
        GlOp::BindBuffer { kind, id } => CallV::BindBuffer {
            target: kind.spec_code(),
            handle: Some(id),
        },
        GlOp::UnbindBuffer { kind } => CallV::BindBuffer { target: kind.spec_code(), handle: None },
        GlOp::BufferData { kind, len, usage } => CallV::BufferData {
            target: kind.spec_code(),
            len: len,
            usage: usage.spec_code(),
        },
        GlOp::CreateShader { kind, id } => CallV::CreateShader {
            kind: kind.spec_code(),
            handle: id,
        },
        GlOp::ClearColor { red_bits, green_bits, blue_bits, alpha_bits } => CallV::ClearColor {
            red_bits,
            green_bits,
            blue_bits,
            alpha_bits,
        },
        GlOp::Clear { bit } => CallV::Clear { mask: bit.spec_code() },
        GlOp::UniformLocationQuery { program, name } => CallV::UniformLocationQuery {
            program,
            name,
        },
    }
}

/// How the native backend lowers a logical operation to the one boundary
/// call it forwards to the driver's entry points.
pub open spec fn lower_native(op: GlOp) -> CallV {
    match op {
        GlOp::CreateBuffer { id } => CallV::CreateBuffer { handle: id },
        GlOp::DeleteBuffer { id } => CallV::DeleteBuffer { handle: id },
        GlOp::BindBuffer { kind, id } => CallV::BindBuffer {
            target: kind.spec_code(),
            handle: Some(id),
        },
        GlOp::UnbindBuffer { kind } => CallV::BindBuffer { target: kind.spec_code(), handle: None },
        GlOp::BufferData { kind, len, usage } => CallV::BufferData {
            target: kind.spec_code(),
            len: len,
            usage: usage.spec_code(),
        },
        GlOp::CreateShader { kind, id } => CallV::CreateShader {
            kind: kind.spec_code(),
            handle: id,
        },
        GlOp::ClearColor { red_bits, green_bits, blue_bits, alpha_bits } => CallV::ClearColor {
            red_bits,
            green_bits,
            blue_bits,
            alpha_bits,
        },
        GlOp::Clear { bit } => CallV::Clear { mask: bit.spec_code() },
        GlOp::UniformLocationQuery { program, name } => CallV::UniformLocationQuery {
            program,
            name,
        },
    }
}

/// Cross-backend behavioural equivalence at the mapping level: for every
/// logical operation, both backends forward the same enumeration constants
/// and the same handle-wrap/unwrap pairing in their one boundary call.
/// (Whether a call is forwarded at all can still differ in one place: the
/// hosted backend answers a repeated uniform-location request from its
/// cache, as its own contract states.)
pub proof fn lemma_backends_agree(op: GlOp)
    ensures
        lower_hosted(op) == lower_native(op),
{
}

/// The context's implicit bound-resource state: one "currently bound" slot
/// per buffer target, holding the logical name of the bound buffer, if any.
#[verifier::ext_equal]
pub struct BoundSlots {
    pub array_buffer: Option<nat>,
    pub element_array_buffer: Option<nat>,
}

/// The bound-slot state of a freshly constructed context: nothing bound.
pub open spec fn slots_init() -> BoundSlots {
    BoundSlots { array_buffer: None, element_array_buffer: None }
}

/// The slot a buffer target selects.
pub open spec fn slot_of(s: BoundSlots, kind: BufferKind) -> Option<nat> {
    match kind {
        BufferKind::Array => s.array_buffer,
        BufferKind::ElementArray => s.element_array_buffer,
    }
}

/// The state after one slot transitions to `v`, all others untouched.
pub open spec fn with_slot(s: BoundSlots, kind: BufferKind, v: Option<nat>) -> BoundSlots {
    match kind {
        BufferKind::Array => BoundSlots { array_buffer: v, ..s },
        BufferKind::ElementArray => BoundSlots { element_array_buffer: v, ..s },
    }
}

/// The state after the resource named `id` is deleted: every slot it was
/// bound to falls back to "none", exactly as the underlying interface
/// unbinds a deleted buffer from all its targets.
pub open spec fn scrub(s: BoundSlots, id: nat) -> BoundSlots {
    BoundSlots {
        array_buffer: if s.array_buffer == Some(id) {
            None
        } else {
            s.array_buffer
        },
        element_array_buffer: if s.element_array_buffer == Some(id) {
            None
        } else {
            s.element_array_buffer
        },
    }
}

/// Round trip on bind/unbind: binding a buffer to a previously free target,
/// operating on it (data uploads leave the slots untouched), then unbinding
/// that target restores the bound-slot state that held before the bind.
pub proof fn lemma_bind_unbind_round_trip(s: BoundSlots, kind: BufferKind, id: nat)
    requires
        slot_of(s, kind) is None,
    ensures
        with_slot(with_slot(s, kind, Some(id)), kind, None::<nat>) == s,
{
    assert(with_slot(with_slot(s, kind, Some(id)), kind, None::<nat>) =~= s);
}

/// Isolation: deleting one resource never disturbs a slot bound to a
/// different resource, so wrappers for other resources stay usable.
pub proof fn lemma_delete_spares_others(s: BoundSlots, deleted: nat, kind: BufferKind)
    requires
        slot_of(s, kind) is Some,
        slot_of(s, kind) != Some(deleted),
    ensures
        slot_of(scrub(s, deleted), kind) == slot_of(s, kind),
{
}

} // verus!
