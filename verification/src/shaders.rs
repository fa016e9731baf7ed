//! Shader-stage objects: allocation, source upload, compilation, and the
//! compile-diagnostic protocol.

use vstd::prelude::*;
use crate::GlError;
use crate::driver::{
    GlDriver, ShaderSlot, compiles, compile_diag, fresh_shader, grown_by_one, same_bindings,
    same_buffers, same_faults, same_programs, same_trace, same_vaos, updated_only,
    lemma_count_live_shaders_alive_eq, lemma_count_live_shaders_update,
    lemma_compile_diag_nonempty,
};

verus! {

/// The types of shader object.
#[derive(Clone, Copy, PartialEq, Eq, Structural, Debug)]
pub enum ShaderType {
    /// Vertex shaders determine the position of geometry within the screen.
    Vertex,
    /// Fragment shaders determine the color output of geometry.
    Fragment,
}

/// A handle to one shader-stage object owned by the driver.
///
/// The value owns the handle: it is created by [`Shader::new`] or
/// [`Shader::from_source`] and consumed by [`Shader::delete`], so each
/// handle is released at most once.
pub struct Shader {
    /// The driver's non-zero name for the object.
    pub handle: u32,
    /// The stage the object was allocated for.
    pub stage: ShaderType,
}

impl Shader {
    /// The handle names a shader object of this stage in `gl`.
    pub open spec fn valid_in(self, gl: GlDriver) -> bool {
        &&& self.handle != 0
        &&& gl.valid_shader(self.handle)
        &&& gl.shader(self.handle).stage == self.stage
    }

    /// The driver slot this handle names.
    pub open spec fn slot(self, gl: GlDriver) -> ShaderSlot {
        gl.shader(self.handle)
    }

    /// The handle is still allocated in `gl`.
    pub open spec fn live_in(self, gl: GlDriver) -> bool {
        gl.shader(self.handle).alive
    }

    /// Allocate a shader object for stage `ty`.
    ///
    /// Returns a shader whose handle is non-zero, or
    /// [`GlError::AllocationFailure`] exactly when the driver has no
    /// allocation left -- a zero handle is never wrapped as success.
    pub fn new(gl: &mut GlDriver, ty: ShaderType) -> (r: Result<Shader, GlError>)
        requires
            old(gl).wf(),
        ensures
            final(gl).wf(),
            same_programs(*old(gl), *final(gl)),
            same_buffers(*old(gl), *final(gl)),
            same_vaos(*old(gl), *final(gl)),
            same_bindings(*old(gl), *final(gl)),
            same_trace(*old(gl), *final(gl)),
            final(gl).link_fault == old(gl).link_fault,
            r is Ok <==> old(gl).can_alloc(old(gl).shaders@.len() as int),
            r matches Ok(s) ==> s.handle != 0 && s.stage == ty && s.valid_in(*final(gl))
                && s.handle as int == old(gl).shaders@.len() + 1
                && grown_by_one(old(gl).shaders@, final(gl).shaders@)
                && fresh_shader(s.slot(*final(gl)), ty)
                && final(gl).remaining_allocs == old(gl).remaining_allocs - 1
                && final(gl).live_shaders() == old(gl).live_shaders() + 1,
            r matches Err(e) ==> e is AllocationFailure && *final(gl) == *old(gl),
    {
        let h = gl.create_shader(ty);
        if h == 0 {
            Err(GlError::AllocationFailure)
        } else {
            proof {
                lemma_count_live_shaders_alive_eq(
                    old(gl).shaders@,
                    gl.shaders@,
                    old(gl).shaders@.len() as int,
                );
            }
            Ok(Shader { handle: h, stage: ty })
        }
    }

    /// Upload `source` as the object's source text.
    pub fn set_source(&self, gl: &mut GlDriver, source: &str)
        requires
            old(gl).wf(),
            self.valid_in(*old(gl)),
            self.live_in(*old(gl)),
        ensures
            final(gl).wf(),
            same_programs(*old(gl), *final(gl)),
            same_buffers(*old(gl), *final(gl)),
            same_vaos(*old(gl), *final(gl)),
            same_bindings(*old(gl), *final(gl)),
            same_faults(*old(gl), *final(gl)),
            same_trace(*old(gl), *final(gl)),
            updated_only(old(gl).shaders@, final(gl).shaders@, self.handle as int - 1),
            self.valid_in(*final(gl)),
            self.live_in(*final(gl)),
            self.slot(*final(gl)).source@ == source@,
            self.slot(*final(gl)).compiled == self.slot(*old(gl)).compiled,
            self.slot(*final(gl)).log == self.slot(*old(gl)).log,
            final(gl).live_shaders() == old(gl).live_shaders(),
    {
        gl.shader_source(self.handle, source);
        proof {
            lemma_count_live_shaders_alive_eq(
                old(gl).shaders@,
                gl.shaders@,
                old(gl).shaders@.len() as int,
            );
        }
    }

    /// Compile the object's current source text.
    pub fn compile(&self, gl: &mut GlDriver)
        requires
            old(gl).wf(),
            self.valid_in(*old(gl)),
            self.live_in(*old(gl)),
        ensures
            final(gl).wf(),
            same_programs(*old(gl), *final(gl)),
            same_buffers(*old(gl), *final(gl)),
            same_vaos(*old(gl), *final(gl)),
            same_bindings(*old(gl), *final(gl)),
            same_faults(*old(gl), *final(gl)),
            same_trace(*old(gl), *final(gl)),
            updated_only(old(gl).shaders@, final(gl).shaders@, self.handle as int - 1),
            self.valid_in(*final(gl)),
            self.live_in(*final(gl)),
            self.slot(*final(gl)).source == self.slot(*old(gl)).source,
            self.slot(*final(gl)).compiled == compiles(self.slot(*old(gl)).source@),
            self.slot(*final(gl)).log@ == if compiles(self.slot(*old(gl)).source@) {
                Seq::<char>::empty()
            } else {
                compile_diag()
            },
            final(gl).live_shaders() == old(gl).live_shaders(),
    {
        gl.compile_shader(self.handle);
        proof {
            lemma_count_live_shaders_alive_eq(
                old(gl).shaders@,
                gl.shaders@,
                old(gl).shaders@.len() as int,
            );
        }
    }

    /// Report whether the most recent compile succeeded: the driver's
    /// compile-status flag read back as a boolean.
    pub fn compile_success(&self, gl: &GlDriver) -> (ok: bool)
        requires
            self.valid_in(*gl),
        ensures
            ok == self.slot(*gl).compiled,
    {
        gl.compile_status(self.handle)
    }

    /// Retrieve the compile diagnostic log through the two-call
    /// protocol: probe the driver-reported length, then fetch into a
    /// buffer of exactly that length.
    pub fn info_log(&self, gl: &GlDriver) -> (log: String)
        requires
            self.valid_in(*gl),
        ensures
            log@ == self.slot(*gl).log@,
    {
        let needed_len = gl.shader_log_len(self.handle);
        gl.shader_log(self.handle, needed_len)
    }

    /// Release the object, consuming the handle; the handle stops being
    /// allocated, so a release can happen at most once.
    pub fn delete(self, gl: &mut GlDriver)
        requires
            old(gl).wf(),
            self.valid_in(*old(gl)),
            self.live_in(*old(gl)),
        ensures
            final(gl).wf(),
            same_programs(*old(gl), *final(gl)),
            same_buffers(*old(gl), *final(gl)),
            same_vaos(*old(gl), *final(gl)),
            same_bindings(*old(gl), *final(gl)),
            same_faults(*old(gl), *final(gl)),
            same_trace(*old(gl), *final(gl)),
            updated_only(old(gl).shaders@, final(gl).shaders@, self.handle as int - 1),
            !final(gl).shader(self.handle).alive,
            final(gl).shader(self.handle).stage == old(gl).shader(self.handle).stage,
            final(gl).shader(self.handle).source == old(gl).shader(self.handle).source,
            final(gl).shader(self.handle).compiled == old(gl).shader(self.handle).compiled,
            final(gl).shader(self.handle).log == old(gl).shader(self.handle).log,
            final(gl).live_shaders() == old(gl).live_shaders() - 1,
    {
        gl.delete_shader(self.handle);
        proof {
            lemma_count_live_shaders_update(
                old(gl).shaders@,
                gl.shaders@,
                old(gl).shaders@.len() as int,
                self.handle as int - 1,
            );
        }
    }

    /// Compile `source` for stage `ty` from start to finish: allocate,
    /// upload the source, compile, and check the status.
    ///
    /// Succeeds exactly when an object can still be allocated and the
    /// source compiles. On a rejected source the full diagnostic log is
    /// retrieved and the object is released before the error returns, so
    /// no handle leaks on the failure path.
    pub fn from_source(gl: &mut GlDriver, ty: ShaderType, source: &str) -> (r: Result<
        Shader,
        GlError,
    >)
        requires
            old(gl).wf(),
        ensures
            final(gl).wf(),
            same_programs(*old(gl), *final(gl)),
            same_buffers(*old(gl), *final(gl)),
            same_vaos(*old(gl), *final(gl)),
            same_bindings(*old(gl), *final(gl)),
            same_trace(*old(gl), *final(gl)),
            final(gl).link_fault == old(gl).link_fault,
            r is Ok <==> old(gl).can_alloc(old(gl).shaders@.len() as int)
                && compiles(source@),
            r matches Ok(s) ==> s.handle != 0 && s.stage == ty && s.valid_in(*final(gl))
                && s.handle as int == old(gl).shaders@.len() + 1
                && grown_by_one(old(gl).shaders@, final(gl).shaders@)
                && final(gl).remaining_allocs == old(gl).remaining_allocs - 1
                && s.live_in(*final(gl))
                && s.slot(*final(gl)).compiled
                && s.slot(*final(gl)).source@ == source@
                && final(gl).live_shaders() == old(gl).live_shaders() + 1,
            r matches Err(e) ==> final(gl).live_shaders() == old(gl).live_shaders()
                && !(e is LinkError),
            r matches Err(GlError::AllocationFailure) <==> !old(gl).can_alloc(
                old(gl).shaders@.len() as int,
            ),
            r matches Err(GlError::AllocationFailure) ==> *final(gl) == *old(gl),
            r matches Err(GlError::CompileError { stage, log }) ==> stage == ty
                && !compiles(source@)
                && log@ == compile_diag()
                && log@.len() > 0
                && log@ == final(gl).shaders@[old(gl).shaders@.len() as int].log@
                && grown_by_one(old(gl).shaders@, final(gl).shaders@)
                && final(gl).remaining_allocs == old(gl).remaining_allocs - 1
                && !final(gl).shaders@[old(gl).shaders@.len() as int].alive,
    {
        let shader = match Shader::new(gl, ty) {
            Ok(s) => s,
            Err(e) => {
                return Err(e);
            },
        };
        shader.set_source(gl, source);
        shader.compile(gl);
        if shader.compile_success(gl) {
            Ok(shader)
        } else {
            let out = shader.info_log(gl);
            proof {
                lemma_compile_diag_nonempty();
            }
            shader.delete(gl);
            Err(GlError::CompileError { stage: ty, log: out })
        }
    }
}

} // verus!
