//! Orchestration of a drawable state: bind vertex-array state, create and
//! fill the vertex buffer, declare the attribute layout, build and
//! activate the shader program -- everything a draw call depends on.

use vstd::prelude::*;
use crate::GlError;
use crate::buffers::{Buffer, BufferType, UsageHint, buffer_data};
use crate::driver::{
    AttribKind, AttribPointer, AttribSlot, GlDriver, HANDLE_LIMIT, MAX_ATTRIBS, compiles,
    compile_diag, link_diag, same_bindings, same_buffers, same_faults, same_programs,
    same_shaders, same_trace, same_vaos, updated_only,
};
use crate::shader_program::ShaderProgram;
use crate::shaders::ShaderType;
use crate::vertex_array::VertexArray;

verus! {

/// Components per vertex of the position attribute.
pub const POSITION_COMPONENTS: u32 = 3;

/// Bytes from one vertex to the next: three four-byte components.
pub const VERTEX_STRIDE: u32 = 3 * 4;

/// Declare how the bytes of the buffer bound to the array slot map onto
/// attribute `index` of the bound vertex-array object. Both binds must
/// have happened first.
pub fn declare_attribute(
    gl: &mut GlDriver,
    index: usize,
    size: u32,
    kind: AttribKind,
    normalized: bool,
    stride: u32,
    offset: u32,
)
    requires
        old(gl).wf(),
        old(gl).bound_vao != 0,
        old(gl).bound_array != 0,
        index < MAX_ATTRIBS,
        1 <= size <= 4,
    ensures
        final(gl).wf(),
        same_shaders(*old(gl), *final(gl)),
        same_programs(*old(gl), *final(gl)),
        same_buffers(*old(gl), *final(gl)),
        same_bindings(*old(gl), *final(gl)),
        same_faults(*old(gl), *final(gl)),
        same_trace(*old(gl), *final(gl)),
        updated_only(old(gl).vaos@, final(gl).vaos@, old(gl).bound_vao as int - 1),
        updated_only(old(gl).vao(old(gl).bound_vao).attribs@,
            final(gl).vao(old(gl).bound_vao).attribs@, index as int),
        final(gl).vao(old(gl).bound_vao).attribs@[index as int].pointer
            == Option::Some(AttribPointer { size, kind, normalized, stride, offset }),
        final(gl).vao(old(gl).bound_vao).attribs@[index as int].enabled
            == old(gl).vao(old(gl).bound_vao).attribs@[index as int].enabled,
{
    gl.vertex_attrib_pointer(index, size, kind, normalized, stride, offset);
}

/// Enable attribute `index` of the bound vertex-array object for use
/// during drawing.
pub fn enable_attribute(gl: &mut GlDriver, index: usize)
    requires
        old(gl).wf(),
        old(gl).bound_vao != 0,
        index < MAX_ATTRIBS,
    ensures
        final(gl).wf(),
        same_shaders(*old(gl), *final(gl)),
        same_programs(*old(gl), *final(gl)),
        same_buffers(*old(gl), *final(gl)),
        same_bindings(*old(gl), *final(gl)),
        same_faults(*old(gl), *final(gl)),
        same_trace(*old(gl), *final(gl)),
        updated_only(old(gl).vaos@, final(gl).vaos@, old(gl).bound_vao as int - 1),
        updated_only(old(gl).vao(old(gl).bound_vao).attribs@,
            final(gl).vao(old(gl).bound_vao).attribs@, index as int),
        final(gl).vao(old(gl).bound_vao).attribs@[index as int].pointer
            == old(gl).vao(old(gl).bound_vao).attribs@[index as int].pointer,
        final(gl).vao(old(gl).bound_vao).attribs@[index as int].enabled,
{
    gl.enable_vertex_attrib_array(index);
}

/// Declare and enable the one attribute this pipeline draws with:
/// attribute 0, three floating-point position components per vertex,
/// tightly packed from the start of the bound buffer.
pub fn send_data(gl: &mut GlDriver)
    requires
        old(gl).wf(),
        old(gl).bound_vao != 0,
        old(gl).bound_array != 0,
    ensures
        final(gl).wf(),
        same_shaders(*old(gl), *final(gl)),
        same_programs(*old(gl), *final(gl)),
        same_buffers(*old(gl), *final(gl)),
        same_bindings(*old(gl), *final(gl)),
        same_faults(*old(gl), *final(gl)),
        same_trace(*old(gl), *final(gl)),
        updated_only(old(gl).vaos@, final(gl).vaos@, old(gl).bound_vao as int - 1),
        updated_only(old(gl).vao(old(gl).bound_vao).attribs@,
            final(gl).vao(old(gl).bound_vao).attribs@, 0),
        final(gl).vao(old(gl).bound_vao).attribs@[0].pointer == Option::Some(
            AttribPointer {
                size: POSITION_COMPONENTS,
                kind: AttribKind::Float,
                normalized: false,
                stride: VERTEX_STRIDE,
                offset: 0,
            },
        ),
        final(gl).vao(old(gl).bound_vao).attribs@[0].enabled,
{
    declare_attribute(gl, 0, POSITION_COMPONENTS, AttribKind::Float, false, VERTEX_STRIDE, 0);
    enable_attribute(gl, 0);
}

/// The objects a finished setup hands back: the vertex-array state, the
/// vertex buffer, and the linked, activated program.
pub struct RenderPipeline {
    /// The bound vertex-array object.
    pub vao: VertexArray,
    /// The vertex buffer bound to the array slot.
    pub vbo: Buffer,
    /// The linked program current for drawing.
    pub program: ShaderProgram,
}

/// The first allocation of a setup -- the vertex-array object -- can
/// succeed in `gl`.
pub open spec fn vao_alloc_ok(gl: GlDriver) -> bool {
    gl.remaining_allocs >= 1 && gl.vaos@.len() < HANDLE_LIMIT as int
}

/// The second allocation of a setup -- the vertex buffer -- can succeed.
pub open spec fn vbo_alloc_ok(gl: GlDriver) -> bool {
    gl.remaining_allocs >= 2 && gl.buffers@.len() < HANDLE_LIMIT as int
}

/// The third allocation of a setup -- the program object -- can succeed.
pub open spec fn setup_prog_alloc_ok(gl: GlDriver) -> bool {
    gl.remaining_allocs >= 3 && gl.programs@.len() < HANDLE_LIMIT as int
}

/// The fourth allocation of a setup -- the vertex shader -- can succeed.
pub open spec fn setup_vert_alloc_ok(gl: GlDriver) -> bool {
    gl.remaining_allocs >= 4 && gl.shaders@.len() < HANDLE_LIMIT as int
}

/// The fifth allocation of a setup -- the fragment shader -- can succeed.
pub open spec fn setup_frag_alloc_ok(gl: GlDriver) -> bool {
    gl.remaining_allocs >= 5 && gl.shaders@.len() + 1 < HANDLE_LIMIT as int
}

/// A whole setup succeeds in `gl`: all five allocations can succeed,
/// both sources compile, and no link fault is injected.
pub open spec fn setup_ok(gl: GlDriver, vert: Seq<char>, frag: Seq<char>) -> bool {
    &&& vao_alloc_ok(gl)
    &&& vbo_alloc_ok(gl)
    &&& setup_prog_alloc_ok(gl)
    &&& setup_vert_alloc_ok(gl)
    &&& setup_frag_alloc_ok(gl)
    &&& compiles(vert)
    &&& compiles(frag)
    &&& !gl.link_fault
}

/// Exactly which error a failed setup reports, on which inputs; the
/// four-way taxonomy of [`crate::shader_program::expected_build_failure`]
/// shifted by the two allocations the setup makes first.
pub open spec fn expected_setup_failure(
    gl: GlDriver,
    vert: Seq<char>,
    frag: Seq<char>,
    e: GlError,
) -> bool {
    match e {
        GlError::AllocationFailure => !vao_alloc_ok(gl) || !vbo_alloc_ok(gl)
            || !setup_prog_alloc_ok(gl) || !setup_vert_alloc_ok(gl) || (compiles(vert)
            && !setup_frag_alloc_ok(gl)),
        GlError::CompileError { stage, log } => log@ == compile_diag() && log@.len() > 0
            && match stage {
            ShaderType::Vertex => vao_alloc_ok(gl) && vbo_alloc_ok(gl)
                && setup_prog_alloc_ok(gl) && setup_vert_alloc_ok(gl) && !compiles(vert),
            ShaderType::Fragment => vao_alloc_ok(gl) && vbo_alloc_ok(gl)
                && setup_prog_alloc_ok(gl) && setup_vert_alloc_ok(gl)
                && setup_frag_alloc_ok(gl) && compiles(vert) && !compiles(frag),
        },
        GlError::LinkError { log } => log@ == link_diag() && log@.len() > 0 && vao_alloc_ok(gl)
            && vbo_alloc_ok(gl) && setup_prog_alloc_ok(gl) && setup_vert_alloc_ok(gl)
            && setup_frag_alloc_ok(gl) && compiles(vert) && compiles(frag) && gl.link_fault,
    }
}

/// Sequence the whole drawable state: create and bind vertex-array
/// state, create and bind a vertex buffer, upload the vertex bytes,
/// declare the position attribute layout, build the shader program from
/// the two sources, and activate it.
///
/// On success the driver is ready to draw -- a live, linked program is
/// current, the vertex-array object is bound with attribute 0 enabled
/// over three-component float positions, and the buffer bound to the
/// array slot holds exactly `vertex_bytes` -- and no draw call has been
/// issued yet. Failures keep the error taxonomy of the pieces; see
/// [`expected_setup_failure`].
pub fn render_setup(
    gl: &mut GlDriver,
    vertex_bytes: &[u8],
    vert_src: &str,
    frag_src: &str,
) -> (r: Result<RenderPipeline, GlError>)
    requires
        old(gl).wf(),
    ensures
        final(gl).wf(),
        final(gl).link_fault == old(gl).link_fault,
        r is Ok <==> setup_ok(*old(gl), vert_src@, frag_src@),
        r matches Ok(pl) ==> pl.vao.valid_in(*final(gl))
            && pl.vbo.valid_in(*final(gl))
            && pl.vbo.kind == BufferType::Array
            && pl.program.valid_in(*final(gl))
            && pl.program.live_in(*final(gl))
            && pl.program.slot(*final(gl)).linked
            && final(gl).current_program == pl.program.handle
            && final(gl).bound_vao == pl.vao.handle
            && final(gl).bound_array == pl.vbo.handle
            && final(gl).buffer(pl.vbo.handle).data@ == vertex_bytes@
            && final(gl).vao(pl.vao.handle).attribs@[0].enabled
            && final(gl).vao(pl.vao.handle).attribs@[0].pointer == Option::Some(
                AttribPointer {
                    size: POSITION_COMPONENTS,
                    kind: AttribKind::Float,
                    normalized: false,
                    stride: VERTEX_STRIDE,
                    offset: 0,
                },
            )
            && final(gl).ready_to_draw()
            && final(gl).live_shaders() == old(gl).live_shaders()
            && final(gl).live_programs() == old(gl).live_programs() + 1 - (
                if old(gl).current_program != 0
                    && old(gl).program(old(gl).current_program).pending_delete {
                    1int
                } else {
                    0int
                }
            ),
        r matches Err(e) ==> expected_setup_failure(*old(gl), vert_src@, frag_src@, e)
            && final(gl).live_shaders() == old(gl).live_shaders()
            && final(gl).live_programs() == old(gl).live_programs(),
        final(gl).trace@.len() >= old(gl).trace@.len(),
        forall|j: int| old(gl).trace@.len() <= j < final(gl).trace@.len()
            ==> !((#[trigger] final(gl).trace@[j]) is DrawArrays),
{
    let vao = match VertexArray::new(gl) {
        Ok(v) => v,
        Err(e) => {
            return Err(e);
        },
    };
    vao.bind(gl);
    let vbo = match Buffer::new(gl, BufferType::Array) {
        Ok(b) => b,
        Err(e) => {
            return Err(e);
        },
    };
    vbo.bind(gl);
    buffer_data(gl, BufferType::Array, vertex_bytes, UsageHint::StaticDraw);
    send_data(gl);
    let program = match ShaderProgram::from_vert_frag(gl, vert_src, frag_src) {
        Ok(p) => p,
        Err(e) => {
            return Err(e);
        },
    };
    program.use_program(gl);
    proof {
        let vh = vao.handle;
        assert forall|i: int|
            0 <= i < gl.vao(gl.bound_vao).attribs@.len()
                && (#[trigger] gl.vao(gl.bound_vao).attribs@[i]).enabled
            implies gl.vao(gl.bound_vao).attribs@[i].pointer is Some by {
            if i != 0 {
                assert(gl.vao(vh).attribs@[i] == (AttribSlot {
                    pointer: Option::None,
                    enabled: false,
                }));
            }
        };
    }
    Ok(RenderPipeline { vao, vbo, program })
}

} // verus!
