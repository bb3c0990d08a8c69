//! Checks of the portable surface: handle wrappers, the by-name cache the
//! hosted backend reuses uniform locations from, and the diagnostic sink.

use uni_gl::NameCache;
use uni_gl::WebGLBuffer;
use uni_gl::WebGLFrameBuffer;
use uni_gl::WebGLProgram;
use uni_gl::WebGLShader;
use uni_gl::WebGLTexture;
use uni_gl::WebGLUniformLocation;
use uni_gl::WebGLVertexArray;

#[test]
fn wrappers_project_their_handle() {
    assert_eq!(*WebGLBuffer(5u32).handle(), 5);
    assert_eq!(*WebGLShader(6u32).handle(), 6);
    assert_eq!(*WebGLProgram(7u32).handle(), 7);
    assert_eq!(*WebGLTexture(8u32).handle(), 8);
    assert_eq!(*WebGLVertexArray(9u32).handle(), 9);
    assert_eq!(*WebGLFrameBuffer(10u32).handle(), 10);
}

#[test]
fn uniform_location_keeps_its_queried_name() {
    let loc = WebGLUniformLocation { reference: 3u32, name: String::from("mvp") };
    assert_eq!(*loc.handle(), 3);
    assert_eq!(loc.queried_name(), "mvp");
}

#[test]
fn cache_miss_then_hit_by_name() {
    // The hosted backend's reuse discipline on its cache: the first request
    // for a name misses (and would query the host), the second finds the
    // entry left behind and issues no further query.
    let mut cache: NameCache<u32> = NameCache::new();
    assert_eq!(cache.find(&String::from("mvp")), None);
    cache.insert(String::from("mvp"), 41);
    assert_eq!(cache.find(&String::from("mvp")), Some(0));
    assert_eq!(cache.entries[0].1, 41);
    assert_eq!(cache.find(&String::from("light")), None);
    cache.insert(String::from("light"), 42);
    assert_eq!(cache.find(&String::from("light")), Some(1));
    assert_eq!(cache.find(&String::from("mvp")), Some(0));
}

#[test]
fn print_accepts_a_line() {
    uni_gl::print("diagnostic line");
}

#[test]
fn backend_profiles() {
    assert!(uni_gl::webgl::IS_GL_ES);
    assert!(!uni_gl::native::IS_GL_ES);
}
