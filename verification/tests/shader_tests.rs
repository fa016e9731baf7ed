use gl_pipeline::GlError;
use gl_pipeline::driver::GlDriver;
use gl_pipeline::shaders::{Shader, ShaderType};

const VALID_SRC: &str = "void main() {}";

#[test]
fn shader_create_returns_nonzero_handle() {
    let mut gl = GlDriver::new();
    let v = Shader::new(&mut gl, ShaderType::Vertex).unwrap();
    assert_ne!(v.handle, 0);
    let f = Shader::new(&mut gl, ShaderType::Fragment).unwrap();
    assert_ne!(f.handle, 0);
    assert_ne!(v.handle, f.handle);
    assert_eq!(gl.live_shader_count(), 2);
}

#[test]
fn shader_create_reports_allocation_failure() {
    let mut gl = GlDriver::with_alloc_budget(0);
    let r = Shader::new(&mut gl, ShaderType::Vertex);
    assert!(matches!(r, Err(GlError::AllocationFailure)));
    assert_eq!(gl.live_shader_count(), 0);
}

#[test]
fn from_source_accepts_valid_source() {
    let mut gl = GlDriver::new();
    let s = Shader::from_source(&mut gl, ShaderType::Vertex, VALID_SRC).unwrap();
    assert_ne!(s.handle, 0);
    assert!(s.compile_success(&gl));
    assert_eq!(gl.live_shader_count(), 1);
}

#[test]
fn from_source_invalid_yields_compile_error() {
    let mut gl = GlDriver::new();
    let r = Shader::from_source(&mut gl, ShaderType::Fragment, "");
    match r {
        Err(GlError::CompileError { stage, log }) => {
            assert_eq!(stage, ShaderType::Fragment);
            assert!(!log.is_empty());
            assert_eq!(log, "shader compilation failed");
            // the diagnostic has exactly the length the driver's probe
            // reports for the object the compile failed on
            assert_eq!(log.chars().count(), gl.shader_log_len(1));
        },
        _ => panic!("expected a fragment-stage compile error"),
    }
    // the failed object was released before the error propagated
    assert_eq!(gl.live_shader_count(), 0);
}

#[test]
fn info_log_length_matches_probe() {
    let mut gl = GlDriver::new();
    let s = Shader::new(&mut gl, ShaderType::Vertex).unwrap();
    s.set_source(&mut gl, "");
    s.compile(&mut gl);
    assert!(!s.compile_success(&gl));
    let probed = gl.shader_log_len(s.handle);
    let log = s.info_log(&gl);
    assert_eq!(log.chars().count(), probed);
    assert!(probed > 0);
    s.delete(&mut gl);
    assert_eq!(gl.live_shader_count(), 0);
}

#[test]
fn compile_status_follows_last_compile() {
    let mut gl = GlDriver::new();
    let s = Shader::new(&mut gl, ShaderType::Vertex).unwrap();
    s.set_source(&mut gl, VALID_SRC);
    s.compile(&mut gl);
    assert!(s.compile_success(&gl));
    assert_eq!(s.info_log(&gl), "");
    s.set_source(&mut gl, "");
    s.compile(&mut gl);
    assert!(!s.compile_success(&gl));
}

#[test]
fn delete_releases_the_handle() {
    let mut gl = GlDriver::new();
    let s = Shader::new(&mut gl, ShaderType::Fragment).unwrap();
    assert_eq!(gl.live_shader_count(), 1);
    s.delete(&mut gl);
    assert_eq!(gl.live_shader_count(), 0);
}
