use gl_pipeline::GlError;
use gl_pipeline::buffers::BufferType;
use gl_pipeline::driver::{AttribKind, AttribPointer, GlDriver, TraceEvent};
use gl_pipeline::pipeline::{POSITION_COMPONENTS, VERTEX_STRIDE, render_setup};
use gl_pipeline::shaders::ShaderType;

type Vertex = [f32; 3];

const VERTICES: [Vertex; 3] = [[-0.5, -0.5, 0.0], [0.5, -0.5, 0.0], [0.0, 0.5, 0.0]];

const VERT_SRC: &str =
    "#version 330 core\nlayout (location = 0) in vec3 pos;\nvoid main() { gl_Position = vec4(pos.x, pos.y, pos.z, 1.0); }";

const FRAG_SRC: &str =
    "#version 330 core\nout vec4 final_color;\nvoid main() { final_color = vec4(1.0, 0.5, 0.2, 1.0); }";

#[test]
fn triangle_setup_reaches_draw_ready_state() {
    let mut gl = GlDriver::new();
    let bytes: &[u8] = bytemuck::cast_slice(&VERTICES);
    assert_eq!(bytes.len(), 36);
    let pl = render_setup(&mut gl, bytes, VERT_SRC, FRAG_SRC).unwrap();

    // an activated, linked program
    assert!(pl.program.link_success(&gl));
    assert_eq!(gl.current_program, pl.program.handle);

    // the vertex data landed in the buffer bound to the array slot
    assert_eq!(gl.bound_array, pl.vbo.handle);
    assert_eq!(gl.buffer_contents(pl.vbo.handle), bytes.to_vec());

    // an attribute layout enabling index 0 with component count 3
    assert_eq!(gl.bound_vao, pl.vao.handle);
    let attrib = gl.vaos[(pl.vao.handle - 1) as usize].attribs[0];
    assert!(attrib.enabled);
    assert_eq!(
        attrib.pointer,
        Some(AttribPointer {
            size: POSITION_COMPONENTS,
            kind: AttribKind::Float,
            normalized: false,
            stride: VERTEX_STRIDE,
            offset: 0,
        })
    );
    assert_eq!(POSITION_COMPONENTS, 3);
    assert_eq!(VERTEX_STRIDE, 12);

    // all of that stands before any draw call is issued
    assert!(gl.trace.iter().all(|ev| !matches!(ev, TraceEvent::DrawArrays { .. })));

    // and a draw call can now be made
    gl.draw_arrays(0, 3);
    let n = gl.trace.len();
    assert_eq!(gl.trace[n - 1], TraceEvent::DrawArrays { first: 0, count: 3 });
}

#[test]
fn setup_binds_before_uploading() {
    let mut gl = GlDriver::new();
    let bytes: &[u8] = bytemuck::cast_slice(&VERTICES);
    render_setup(&mut gl, bytes, VERT_SRC, FRAG_SRC).unwrap();
    let upload_at = gl
        .trace
        .iter()
        .position(|ev| matches!(ev, TraceEvent::BufferData { .. }))
        .unwrap();
    assert!(upload_at >= 1);
    assert!(matches!(
        gl.trace[upload_at - 1],
        TraceEvent::BindBuffer { target: BufferType::Array, handle } if handle != 0
    ));
}

#[test]
fn setup_propagates_fragment_compile_error() {
    let mut gl = GlDriver::new();
    let bytes: &[u8] = bytemuck::cast_slice(&VERTICES);
    let r = render_setup(&mut gl, bytes, VERT_SRC, "");
    assert!(matches!(
        r,
        Err(GlError::CompileError { stage: ShaderType::Fragment, .. })
    ));
    assert_eq!(gl.live_shader_count(), 0);
    assert_eq!(gl.live_program_count(), 0);
}

#[test]
fn setup_propagates_link_error() {
    let mut gl = GlDriver::new();
    gl.set_link_fault(true);
    let bytes: &[u8] = bytemuck::cast_slice(&VERTICES);
    let r = render_setup(&mut gl, bytes, VERT_SRC, FRAG_SRC);
    assert!(matches!(r, Err(GlError::LinkError { .. })));
}

#[test]
fn setup_needs_five_allocations() {
    let bytes_owned: Vec<u8> = bytemuck::cast_slice(&VERTICES).to_vec();

    let mut gl = GlDriver::with_alloc_budget(4);
    let r = render_setup(&mut gl, &bytes_owned, VERT_SRC, FRAG_SRC);
    assert!(matches!(r, Err(GlError::AllocationFailure)));

    let mut gl = GlDriver::with_alloc_budget(5);
    let r = render_setup(&mut gl, &bytes_owned, VERT_SRC, FRAG_SRC);
    assert!(r.is_ok());
}
