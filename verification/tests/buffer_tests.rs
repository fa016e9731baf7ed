use gl_pipeline::GlError;
use gl_pipeline::buffers::{Buffer, BufferType, UsageHint, buffer_data};
use gl_pipeline::driver::{GlDriver, TraceEvent};
use gl_pipeline::vertex_array::VertexArray;

#[test]
fn upload_read_back_round_trip() {
    let mut gl = GlDriver::new();
    let b = Buffer::new(&mut gl, BufferType::Array).unwrap();
    b.bind(&mut gl);
    let bytes: Vec<u8> = vec![1, 2, 3, 4, 5];
    buffer_data(&mut gl, BufferType::Array, &bytes, UsageHint::StaticDraw);
    let back = gl.buffer_contents(b.handle);
    assert_eq!(back, bytes);
    assert_eq!(back.len(), 5);
}

#[test]
fn upload_empty_slice_round_trips() {
    let mut gl = GlDriver::new();
    let b = Buffer::new(&mut gl, BufferType::ElementArray).unwrap();
    b.bind(&mut gl);
    let bytes: Vec<u8> = vec![];
    buffer_data(&mut gl, BufferType::ElementArray, &bytes, UsageHint::StreamDraw);
    assert_eq!(gl.buffer_contents(b.handle), bytes);
}

#[test]
fn second_upload_overwrites_first() {
    let mut gl = GlDriver::new();
    let b = Buffer::new(&mut gl, BufferType::Array).unwrap();
    b.bind(&mut gl);
    buffer_data(&mut gl, BufferType::Array, &[9, 9, 9], UsageHint::DynamicDraw);
    buffer_data(&mut gl, BufferType::Array, &[7], UsageHint::DynamicDraw);
    assert_eq!(gl.buffer_contents(b.handle), vec![7]);
}

#[test]
fn upload_lands_in_most_recently_bound_buffer() {
    let mut gl = GlDriver::new();
    let first = Buffer::new(&mut gl, BufferType::Array).unwrap();
    let second = Buffer::new(&mut gl, BufferType::Array).unwrap();
    first.bind(&mut gl);
    second.bind(&mut gl);
    buffer_data(&mut gl, BufferType::Array, &[42], UsageHint::StaticDraw);
    assert_eq!(gl.buffer_contents(second.handle), vec![42]);
    assert_eq!(gl.buffer_contents(first.handle), Vec::<u8>::new());
}

#[test]
fn bind_is_recorded_immediately_before_upload() {
    let mut gl = GlDriver::new();
    let b = Buffer::new(&mut gl, BufferType::Array).unwrap();
    b.bind(&mut gl);
    buffer_data(&mut gl, BufferType::Array, &[1, 2], UsageHint::StaticDraw);
    // the recorded call sequence shows a bind of the same kind
    // immediately prior to the upload
    let n = gl.trace.len();
    assert!(n >= 2);
    assert_eq!(
        gl.trace[n - 1],
        TraceEvent::BufferData { target: BufferType::Array, len: 2, usage: UsageHint::StaticDraw }
    );
    assert_eq!(
        gl.trace[n - 2],
        TraceEvent::BindBuffer { target: BufferType::Array, handle: b.handle }
    );
}

#[test]
fn clear_binding_leaves_slot_empty() {
    let mut gl = GlDriver::new();
    let a = Buffer::new(&mut gl, BufferType::Array).unwrap();
    let e = Buffer::new(&mut gl, BufferType::ElementArray).unwrap();
    a.bind(&mut gl);
    e.bind(&mut gl);
    assert_eq!(gl.bound_array, a.handle);
    assert_eq!(gl.bound_element, e.handle);
    Buffer::clear_binding(&mut gl, BufferType::Array);
    assert_eq!(gl.bound_array, 0);
    // the other slot's binding is untouched
    assert_eq!(gl.bound_element, e.handle);
}

#[test]
fn buffer_create_reports_allocation_failure() {
    let mut gl = GlDriver::with_alloc_budget(0);
    let r = Buffer::new(&mut gl, BufferType::Array);
    assert!(matches!(r, Err(GlError::AllocationFailure)));
}

#[test]
fn vertex_array_bind_and_clear() {
    let mut gl = GlDriver::new();
    let vao = VertexArray::new(&mut gl).unwrap();
    assert_ne!(vao.handle, 0);
    vao.bind(&mut gl);
    assert_eq!(gl.bound_vao, vao.handle);
    VertexArray::clear_binding(&mut gl);
    assert_eq!(gl.bound_vao, 0);
}

#[test]
fn vertex_array_create_reports_allocation_failure() {
    let mut gl = GlDriver::with_alloc_budget(0);
    let r = VertexArray::new(&mut gl);
    assert!(matches!(r, Err(GlError::AllocationFailure)));
}
