//! Buffer objects: allocation, binding to a target slot, and byte uploads
//! into whichever buffer is currently bound.

use vstd::prelude::*;
use crate::GlError;
use crate::driver::{
    GlDriver, TraceEvent, grown_by_one, same_bindings, same_buffers, same_faults, same_programs,
    same_shaders, same_trace, same_vaos, updated_only,
};

verus! {

/// The types of buffer object that you can have.
#[derive(Clone, Copy, PartialEq, Eq, Structural, Debug)]
pub enum BufferType {
    /// Array buffers hold arrays of vertex data for drawing.
    Array,
    /// Element array buffers hold indexes of what vertexes to use for drawing.
    ElementArray,
}

/// Performance/intent hint handed through with an upload; it carries no
/// further meaning at this layer.
#[derive(Clone, Copy, PartialEq, Eq, Structural, Debug)]
pub enum UsageHint {
    /// The data is set once and drawn many times.
    StaticDraw,
    /// The data is changed often and drawn often.
    DynamicDraw,
    /// The data is set once and drawn at most a few times.
    StreamDraw,
}

/// A handle to one buffer object owned by the driver, together with the
/// target kind it is meant to be bound to.
pub struct Buffer {
    /// The driver's non-zero name for the object.
    pub handle: u32,
    /// The binding-slot kind this buffer is used with.
    pub kind: BufferType,
}

impl Buffer {
    /// The handle names a buffer object in `gl`.
    pub open spec fn valid_in(self, gl: GlDriver) -> bool {
        &&& self.handle != 0
        &&& gl.valid_buffer(self.handle)
    }

    /// Allocate a buffer object for binding-slot kind `ty`.
    ///
    /// Returns a buffer whose handle is non-zero, or
    /// [`GlError::AllocationFailure`] exactly when the driver has no
    /// allocation left -- a zero handle is never wrapped as success.
    pub fn new(gl: &mut GlDriver, ty: BufferType) -> (r: Result<Buffer, GlError>)
        requires
            old(gl).wf(),
        ensures
            final(gl).wf(),
            same_shaders(*old(gl), *final(gl)),
            same_programs(*old(gl), *final(gl)),
            same_vaos(*old(gl), *final(gl)),
            same_bindings(*old(gl), *final(gl)),
            same_trace(*old(gl), *final(gl)),
            final(gl).link_fault == old(gl).link_fault,
            r is Ok <==> old(gl).can_alloc(old(gl).buffers@.len() as int),
            r matches Ok(b) ==> b.handle != 0 && b.kind == ty && b.valid_in(*final(gl))
                && b.handle as int == old(gl).buffers@.len() + 1
                && grown_by_one(old(gl).buffers@, final(gl).buffers@)
                && final(gl).buffer(b.handle).data@ == Seq::<u8>::empty()
                && final(gl).remaining_allocs == old(gl).remaining_allocs - 1,
            r matches Err(e) ==> e is AllocationFailure && *final(gl) == *old(gl),
    {
        let h = gl.gen_buffer();
        if h == 0 {
            Err(GlError::AllocationFailure)
        } else {
            Ok(Buffer { handle: h, kind: ty })
        }
    }

    /// Bind this buffer to the binding slot of its kind; it stays the
    /// active buffer of that kind until the slot is bound again.
    pub fn bind(&self, gl: &mut GlDriver)
        requires
            old(gl).wf(),
            self.valid_in(*old(gl)),
        ensures
            final(gl).wf(),
            same_shaders(*old(gl), *final(gl)),
            same_programs(*old(gl), *final(gl)),
            same_buffers(*old(gl), *final(gl)),
            same_vaos(*old(gl), *final(gl)),
            same_faults(*old(gl), *final(gl)),
            final(gl).bound(self.kind) == self.handle,
            self.kind != BufferType::Array ==> final(gl).bound_array == old(gl).bound_array,
            self.kind != BufferType::ElementArray
                ==> final(gl).bound_element == old(gl).bound_element,
            final(gl).bound_vao == old(gl).bound_vao,
            final(gl).current_program == old(gl).current_program,
            final(gl).trace@ == old(gl).trace@.push(
                TraceEvent::BindBuffer { target: self.kind, handle: self.handle },
            ),
    {
        gl.bind_buffer(self.kind, self.handle);
    }

    /// Clear the binding slot of kind `ty`, leaving no buffer bound
    /// there; usable without a live instance.
    pub fn clear_binding(gl: &mut GlDriver, ty: BufferType)
        requires
            old(gl).wf(),
        ensures
            final(gl).wf(),
            same_shaders(*old(gl), *final(gl)),
            same_programs(*old(gl), *final(gl)),
            same_buffers(*old(gl), *final(gl)),
            same_vaos(*old(gl), *final(gl)),
            same_faults(*old(gl), *final(gl)),
            final(gl).bound(ty) == 0,
            ty != BufferType::Array ==> final(gl).bound_array == old(gl).bound_array,
            ty != BufferType::ElementArray
                ==> final(gl).bound_element == old(gl).bound_element,
            final(gl).bound_vao == old(gl).bound_vao,
            final(gl).current_program == old(gl).current_program,
            final(gl).trace@ == old(gl).trace@.push(
                TraceEvent::BindBuffer { target: ty, handle: 0 },
            ),
    {
        gl.bind_buffer(ty, 0);
    }
}

/// Place a slice of data into the buffer currently bound to the slot of
/// kind `ty`.
///
/// Binding the right buffer first is a precondition, not something the
/// operation can check against the caller's intent: the upload always
/// lands in whichever buffer the most recent bind of this kind left in
/// the slot.
pub fn buffer_data(gl: &mut GlDriver, ty: BufferType, data: &[u8], usage: UsageHint)
    requires
        old(gl).wf(),
        old(gl).bound(ty) != 0,
    ensures
        final(gl).wf(),
        same_shaders(*old(gl), *final(gl)),
        same_programs(*old(gl), *final(gl)),
        same_vaos(*old(gl), *final(gl)),
        same_bindings(*old(gl), *final(gl)),
        same_faults(*old(gl), *final(gl)),
        updated_only(old(gl).buffers@, final(gl).buffers@, old(gl).bound(ty) as int - 1),
        final(gl).buffer(old(gl).bound(ty)).data@ == data@,
        final(gl).trace@ == old(gl).trace@.push(
            TraceEvent::BufferData { target: ty, len: data.len(), usage },
        ),
{
    gl.buffer_data(ty, data, usage);
}

/// Round-trip law: an upload immediately followed by a read-back of the
/// buffer bound to that slot returns exactly the uploaded bytes, with
/// the length preserved exactly.
///
/// The premises are what [`buffer_data`] ensures of the driver states
/// before and after an upload; [`GlDriver::buffer_contents`] then hands
/// back `post.buffer(post.bound(ty)).data`.
pub proof fn lemma_upload_read_back(pre: GlDriver, post: GlDriver, ty: BufferType, data: Seq<u8>)
    requires
        pre.wf(),
        pre.bound(ty) != 0,
        updated_only(pre.buffers@, post.buffers@, pre.bound(ty) as int - 1),
        post.buffer(pre.bound(ty)).data@ == data,
        same_bindings(pre, post),
    ensures
        post.buffer(post.bound(ty)).data@ == data,
        post.buffer(post.bound(ty)).data@.len() == data.len(),
{
}

/// Call-order law: binding a buffer and then uploading appends exactly
/// two adjacent trace events, the bind immediately before the upload --
/// the recorded sequence a test double checks when it asserts that an
/// upload was preceded by a bind of the same kind.
pub proof fn lemma_bind_precedes_upload(
    pre: GlDriver,
    mid: GlDriver,
    post: GlDriver,
    handle: u32,
    ty: BufferType,
    len: usize,
    usage: UsageHint,
)
    requires
        mid.trace@ == pre.trace@.push(TraceEvent::BindBuffer { target: ty, handle }),
        post.trace@ == mid.trace@.push(TraceEvent::BufferData { target: ty, len, usage }),
    ensures
        post.trace@.len() >= 2,
        post.trace@[post.trace@.len() - 1] == (TraceEvent::BufferData { target: ty, len, usage }),
        post.trace@[post.trace@.len() - 2] == (TraceEvent::BindBuffer { target: ty, handle }),
{
}

} // verus!
