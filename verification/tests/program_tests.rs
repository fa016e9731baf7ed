use gl_pipeline::GlError;
use gl_pipeline::driver::GlDriver;
use gl_pipeline::shader_program::ShaderProgram;
use gl_pipeline::shaders::{Shader, ShaderType};

const VERT_SRC: &str = "void main() { gl_Position = vec4(0.0); }";
const FRAG_SRC: &str = "void main() { color = vec4(1.0); }";

#[test]
fn from_vert_frag_links_and_releases_shaders() {
    let mut gl = GlDriver::new();
    let p = ShaderProgram::from_vert_frag(&mut gl, VERT_SRC, FRAG_SRC).unwrap();
    assert_ne!(p.handle, 0);
    assert!(p.link_success(&gl));
    // both intermediate shader handles are no longer allocated
    assert_eq!(gl.live_shader_count(), 0);
    assert_eq!(gl.live_program_count(), 1);
}

#[test]
fn from_vert_frag_fragment_error_releases_vertex_shader() {
    let mut gl = GlDriver::new();
    let r = ShaderProgram::from_vert_frag(&mut gl, VERT_SRC, "");
    match r {
        Err(GlError::CompileError { stage, log }) => {
            assert_eq!(stage, ShaderType::Fragment);
            assert!(!log.is_empty());
        },
        _ => panic!("expected a fragment-stage compile error"),
    }
    // the already-compiled vertex shader was released: the allocation
    // counter is back where it started
    assert_eq!(gl.live_shader_count(), 0);
    assert_eq!(gl.live_program_count(), 0);
}

#[test]
fn from_vert_frag_vertex_error_comes_first() {
    let mut gl = GlDriver::new();
    let r = ShaderProgram::from_vert_frag(&mut gl, "", "");
    assert!(matches!(
        r,
        Err(GlError::CompileError { stage: ShaderType::Vertex, .. })
    ));
    assert_eq!(gl.live_shader_count(), 0);
    assert_eq!(gl.live_program_count(), 0);
}

#[test]
fn from_vert_frag_allocation_failures_leak_nothing() {
    // no allocation at all: the program object itself fails
    let mut gl = GlDriver::with_alloc_budget(0);
    let r = ShaderProgram::from_vert_frag(&mut gl, VERT_SRC, FRAG_SRC);
    assert!(matches!(r, Err(GlError::AllocationFailure)));
    assert_eq!(gl.live_program_count(), 0);

    // the vertex shader's allocation fails after the program's succeeded
    let mut gl = GlDriver::with_alloc_budget(1);
    let r = ShaderProgram::from_vert_frag(&mut gl, VERT_SRC, FRAG_SRC);
    assert!(matches!(r, Err(GlError::AllocationFailure)));
    assert_eq!(gl.live_shader_count(), 0);
    assert_eq!(gl.live_program_count(), 0);

    // the fragment shader's allocation fails last
    let mut gl = GlDriver::with_alloc_budget(2);
    let r = ShaderProgram::from_vert_frag(&mut gl, VERT_SRC, FRAG_SRC);
    assert!(matches!(r, Err(GlError::AllocationFailure)));
    assert_eq!(gl.live_shader_count(), 0);
    assert_eq!(gl.live_program_count(), 0);

    // three allocations are enough to reach linking
    let mut gl = GlDriver::with_alloc_budget(3);
    let r = ShaderProgram::from_vert_frag(&mut gl, VERT_SRC, FRAG_SRC);
    assert!(r.is_ok());
}

#[test]
fn from_vert_frag_reports_link_error() {
    let mut gl = GlDriver::new();
    gl.set_link_fault(true);
    let r = ShaderProgram::from_vert_frag(&mut gl, VERT_SRC, FRAG_SRC);
    match r {
        Err(GlError::LinkError { log }) => {
            assert!(!log.is_empty());
            assert_eq!(log, "program linking failed");
        },
        _ => panic!("expected a link error"),
    }
    // the failed program and both shaders were released
    assert_eq!(gl.live_shader_count(), 0);
    assert_eq!(gl.live_program_count(), 0);
}

#[test]
fn manual_attach_and_link_flow() {
    let mut gl = GlDriver::new();
    let p = ShaderProgram::new(&mut gl).unwrap();
    let v = Shader::from_source(&mut gl, ShaderType::Vertex, VERT_SRC).unwrap();
    let f = Shader::from_source(&mut gl, ShaderType::Fragment, FRAG_SRC).unwrap();
    p.attach_shader(&mut gl, &v);
    p.attach_shader(&mut gl, &f);
    p.link_program(&mut gl);
    v.delete(&mut gl);
    f.delete(&mut gl);
    assert!(p.link_success(&gl));
    assert_eq!(p.info_log(&gl), "");
    p.use_program(&mut gl);
    assert_eq!(gl.current_program, p.handle);
}

#[test]
fn two_same_stage_shaders_do_not_link() {
    let mut gl = GlDriver::new();
    let p = ShaderProgram::new(&mut gl).unwrap();
    let a = Shader::from_source(&mut gl, ShaderType::Vertex, VERT_SRC).unwrap();
    let b = Shader::from_source(&mut gl, ShaderType::Vertex, VERT_SRC).unwrap();
    p.attach_shader(&mut gl, &a);
    p.attach_shader(&mut gl, &b);
    p.link_program(&mut gl);
    assert!(!p.link_success(&gl));
    assert_eq!(p.info_log(&gl), "program linking failed");
}

#[test]
fn activating_the_current_program_again_changes_nothing() {
    let mut gl = GlDriver::new();
    let p = ShaderProgram::from_vert_frag(&mut gl, VERT_SRC, FRAG_SRC).unwrap();
    p.use_program(&mut gl);
    let trace_len = gl.trace.len();
    let programs = gl.live_program_count();
    p.use_program(&mut gl);
    assert_eq!(gl.current_program, p.handle);
    assert_eq!(gl.trace.len(), trace_len);
    assert_eq!(gl.live_program_count(), programs);
}

#[test]
fn delete_of_active_program_is_deferred() {
    let mut gl = GlDriver::new();
    let p = ShaderProgram::from_vert_frag(&mut gl, VERT_SRC, FRAG_SRC).unwrap();
    let handle = p.handle;
    p.use_program(&mut gl);
    p.delete(&mut gl);
    // still allocated while it is the current program
    assert_eq!(gl.live_program_count(), 1);
    assert_eq!(gl.current_program, handle);
    // released once another (here: no) program becomes current
    gl.use_program(0);
    assert_eq!(gl.live_program_count(), 0);
}
