//! Scenario tests for the native-backend context: the call descriptors it
//! lowers each operation to, and the bound-slot state it keeps.

use uni_gl::BufferBit;
use uni_gl::BufferKind;
use uni_gl::DrawMode;
use uni_gl::GlCall;
use uni_gl::NativeContext;
use uni_gl::ShaderKind;
use uni_gl::WebGLProgram;

#[test]
fn scenario_buffer_upload_call_order() {
    // Create a buffer, bind it to the vertex-data target, upload bytes with
    // the static-draw usage hint, unbind: exactly one create, one bind, one
    // upload, one bind-to-none, in that order.
    let mut ctx = NativeContext::new(false);
    let (buffer, c1) = ctx.create_buffer(1);
    let c2 = ctx.bind_buffer(BufferKind::Array, &buffer);
    let data: Vec<u8> = vec![10, 20, 30, 40, 50];
    let c3 = ctx.buffer_data(BufferKind::Array, &data, DrawMode::Static);
    let c4 = ctx.unbind_buffer(BufferKind::Array);
    assert_eq!(
        vec![c1, c2, c3, c4],
        vec![
            GlCall::CreateBuffer { handle: 1 },
            GlCall::BindBuffer { target: 0x8892, handle: Some(1) },
            GlCall::BufferData { target: 0x8892, len: 5, usage: 0x88E4 },
            GlCall::BindBuffer { target: 0x8892, handle: None },
        ]
    );
}

#[test]
fn scenario_clear_color_then_clear_mask() {
    // Clearing the colour buffer after setting colour (0,0,0,1): the mask
    // handed to the backend is exactly the colour buffer's bit constant,
    // not a combined mask.
    let mut ctx = NativeContext::new(false);
    let c1 = ctx.clear_color(
        0.0f32.to_bits(),
        0.0f32.to_bits(),
        0.0f32.to_bits(),
        1.0f32.to_bits(),
    );
    let c2 = ctx.clear(BufferBit::Color);
    assert_eq!(
        c1,
        GlCall::ClearColor {
            red_bits: 0,
            green_bits: 0,
            blue_bits: 0,
            alpha_bits: 0x3F80_0000,
        }
    );
    assert_eq!(c2, GlCall::Clear { mask: 0x0000_4000 });
}

#[test]
fn delete_one_buffer_spares_the_other() {
    // Creating two buffers, deleting the first, then uploading through the
    // second still succeeds and targets the second buffer's name.
    let mut ctx = NativeContext::new(false);
    let (first, _) = ctx.create_buffer(1);
    let (second, _) = ctx.create_buffer(2);
    let del = ctx.delete_buffer(&first);
    assert_eq!(del, GlCall::DeleteBuffer { handle: 1 });
    let bind = ctx.bind_buffer(BufferKind::Array, &second);
    assert_eq!(bind, GlCall::BindBuffer { target: 0x8892, handle: Some(2) });
    let data: Vec<u8> = vec![7, 8];
    let upload = ctx.buffer_data(BufferKind::Array, &data, DrawMode::Dynamic);
    assert_eq!(upload, GlCall::BufferData { target: 0x8892, len: 2, usage: 0x88E8 });
    assert_eq!(ctx.bound_array_buffer, Some(2));
}

#[test]
fn deleting_a_bound_buffer_frees_its_slot() {
    let mut ctx = NativeContext::new(false);
    let (buffer, _) = ctx.create_buffer(3);
    ctx.bind_buffer(BufferKind::ElementArray, &buffer);
    assert_eq!(ctx.bound_element_array_buffer, Some(3));
    ctx.delete_buffer(&buffer);
    assert_eq!(ctx.bound_element_array_buffer, None);
}

#[test]
fn bind_operate_unbind_round_trip() {
    // Bind, operate, unbind: the bound-slot state afterwards equals the
    // state before the bind.
    let mut ctx = NativeContext::new(false);
    assert_eq!(ctx.bound_array_buffer, None);
    assert_eq!(ctx.bound_element_array_buffer, None);
    let (buffer, _) = ctx.create_buffer(4);
    ctx.bind_buffer(BufferKind::Array, &buffer);
    assert_eq!(ctx.bound_array_buffer, Some(4));
    let data: Vec<u8> = vec![1];
    ctx.buffer_data(BufferKind::Array, &data, DrawMode::Stream);
    assert_eq!(ctx.bound_array_buffer, Some(4));
    ctx.unbind_buffer(BufferKind::Array);
    assert_eq!(ctx.bound_array_buffer, None);
    assert_eq!(ctx.bound_element_array_buffer, None);
}

#[test]
fn create_shader_lowers_kind_constant() {
    let mut ctx = NativeContext::new(true);
    let (vertex, cv) = ctx.create_shader(ShaderKind::Vertex, 11);
    let (fragment, cf) = ctx.create_shader(ShaderKind::Fragment, 12);
    assert_eq!(*vertex.handle(), 11);
    assert_eq!(*fragment.handle(), 12);
    assert_eq!(cv, GlCall::CreateShader { kind: 0x8B31, handle: 11 });
    assert_eq!(cf, GlCall::CreateShader { kind: 0x8B30, handle: 12 });
}

#[test]
fn native_queries_uniform_location_each_time() {
    // The native backend keeps no cache: both requests for the same name
    // lower to a fresh query.
    let mut ctx = NativeContext::new(false);
    let program: WebGLProgram<u32> = WebGLProgram(9);
    let (first, q1) = ctx.get_uniform_location(&program, "mvp", Some(5));
    let (second, q2) = ctx.get_uniform_location(&program, "mvp", Some(5));
    let expected = GlCall::UniformLocationQuery { program: 9, name: String::from("mvp") };
    assert_eq!(q1, expected);
    assert_eq!(q2, expected);
    let first = first.unwrap();
    let second = second.unwrap();
    assert_eq!(first.reference, 5);
    assert_eq!(first.name, "mvp");
    assert_eq!(second.reference, 5);
}

#[test]
fn unknown_uniform_name_yields_no_wrapper() {
    let mut ctx = NativeContext::new(false);
    let program: WebGLProgram<u32> = WebGLProgram(9);
    let (wrapper, call) = ctx.get_uniform_location(&program, "missing", None);
    assert!(wrapper.is_none());
    assert_eq!(
        call,
        GlCall::UniformLocationQuery { program: 9, name: String::from("missing") }
    );
}
