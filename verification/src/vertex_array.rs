//! Vertex-array objects: the container for attribute-layout state that
//! buffer bindings and attribute declarations are recorded against while
//! it is bound.

use vstd::prelude::*;
use crate::GlError;
use crate::driver::{
    GlDriver, TraceEvent, VaoSlot, fresh_vao, grown_by_one, same_bindings, same_buffers,
    same_faults, same_programs, same_shaders, same_trace, same_vaos,
};

verus! {

/// A handle to one vertex-array object owned by the driver.
pub struct VertexArray {
    /// The driver's non-zero name for the object.
    pub handle: u32,
}

impl VertexArray {
    /// The handle names a vertex-array object in `gl`.
    pub open spec fn valid_in(self, gl: GlDriver) -> bool {
        &&& self.handle != 0
        &&& gl.valid_vao(self.handle)
    }

    /// The driver slot this handle names.
    pub open spec fn slot(self, gl: GlDriver) -> VaoSlot {
        gl.vao(self.handle)
    }

    /// Allocate a vertex-array object.
    ///
    /// Returns a vertex array whose handle is non-zero, or
    /// [`GlError::AllocationFailure`] exactly when the driver has no
    /// allocation left -- a zero handle is never wrapped as success.
    pub fn new(gl: &mut GlDriver) -> (r: Result<VertexArray, GlError>)
        requires
            old(gl).wf(),
        ensures
            final(gl).wf(),
            same_shaders(*old(gl), *final(gl)),
            same_programs(*old(gl), *final(gl)),
            same_buffers(*old(gl), *final(gl)),
            same_bindings(*old(gl), *final(gl)),
            same_trace(*old(gl), *final(gl)),
            final(gl).link_fault == old(gl).link_fault,
            r is Ok <==> old(gl).can_alloc(old(gl).vaos@.len() as int),
            r matches Ok(v) ==> v.handle != 0 && v.valid_in(*final(gl))
                && v.handle as int == old(gl).vaos@.len() + 1
                && grown_by_one(old(gl).vaos@, final(gl).vaos@)
                && fresh_vao(v.slot(*final(gl)))
                && final(gl).remaining_allocs == old(gl).remaining_allocs - 1,
            r matches Err(e) ==> e is AllocationFailure && *final(gl) == *old(gl),
    {
        let h = gl.gen_vertex_array();
        if h == 0 {
            Err(GlError::AllocationFailure)
        } else {
            Ok(VertexArray { handle: h })
        }
    }

    /// Bind this vertex-array object: until another bind, attribute
    /// declarations apply to it.
    pub fn bind(&self, gl: &mut GlDriver)
        requires
            old(gl).wf(),
            self.valid_in(*old(gl)),
        ensures
            final(gl).wf(),
            same_shaders(*old(gl), *final(gl)),
            same_programs(*old(gl), *final(gl)),
            same_buffers(*old(gl), *final(gl)),
            same_vaos(*old(gl), *final(gl)),
            same_faults(*old(gl), *final(gl)),
            final(gl).bound_array == old(gl).bound_array,
            final(gl).bound_element == old(gl).bound_element,
            final(gl).bound_vao == self.handle,
            final(gl).current_program == old(gl).current_program,
            final(gl).trace@ == old(gl).trace@.push(
                TraceEvent::BindVertexArray { handle: self.handle },
            ),
    {
        gl.bind_vertex_array(self.handle);
    }

    /// Leave no vertex-array object bound; usable without a live
    /// instance, symmetrically with [`crate::buffers::Buffer::clear_binding`].
    pub fn clear_binding(gl: &mut GlDriver)
        requires
            old(gl).wf(),
        ensures
            final(gl).wf(),
            same_shaders(*old(gl), *final(gl)),
            same_programs(*old(gl), *final(gl)),
            same_buffers(*old(gl), *final(gl)),
            same_vaos(*old(gl), *final(gl)),
            same_faults(*old(gl), *final(gl)),
            final(gl).bound_array == old(gl).bound_array,
            final(gl).bound_element == old(gl).bound_element,
            final(gl).bound_vao == 0,
            final(gl).current_program == old(gl).current_program,
            final(gl).trace@ == old(gl).trace@.push(
                TraceEvent::BindVertexArray { handle: 0 },
            ),
    {
        gl.bind_vertex_array(0);
    }
}

} // verus!
