//! Program objects: attaching compiled shaders, linking, activation, and
//! the composite build operation from a pair of source texts.

use vstd::prelude::*;
use crate::GlError;
use crate::driver::{
    GlDriver, ProgramSlot, HANDLE_LIMIT, compiles, compile_diag, fresh_program, grown_by_one,
    link_diag, same_bindings, same_buffers, same_faults, same_programs, same_shaders, same_trace,
    same_vaos, updated_only, lemma_count_live_programs_alive_eq,
    lemma_count_live_programs_update, lemma_link_diag_nonempty,
};
use crate::shaders::{Shader, ShaderType};

verus! {

/// A handle to one program object owned by the driver.
///
/// The value owns the handle: it is created by [`ShaderProgram::new`] or
/// [`ShaderProgram::from_vert_frag`] and consumed by
/// [`ShaderProgram::delete`].
pub struct ShaderProgram {
    /// The driver's non-zero name for the object.
    pub handle: u32,
}

/// The first allocation of a program build -- the program object itself
/// -- can succeed in `gl`.
pub open spec fn prog_alloc_ok(gl: GlDriver) -> bool {
    gl.remaining_allocs >= 1 && gl.programs@.len() < HANDLE_LIMIT as int
}

/// The second allocation of a program build -- the vertex shader,
/// after the program consumed one allocation -- can succeed in `gl`.
pub open spec fn vert_alloc_ok(gl: GlDriver) -> bool {
    gl.remaining_allocs >= 2 && gl.shaders@.len() < HANDLE_LIMIT as int
}

/// The third allocation of a program build -- the fragment shader,
/// after the program and the vertex shader -- can succeed in `gl`.
pub open spec fn frag_alloc_ok(gl: GlDriver) -> bool {
    gl.remaining_allocs >= 3 && gl.shaders@.len() + 1 < HANDLE_LIMIT as int
}

/// A whole program build succeeds in `gl`: all three allocations can
/// succeed, both sources compile, and no link fault is injected.
pub open spec fn program_build_ok(gl: GlDriver, vert: Seq<char>, frag: Seq<char>) -> bool {
    &&& prog_alloc_ok(gl)
    &&& vert_alloc_ok(gl)
    &&& frag_alloc_ok(gl)
    &&& compiles(vert)
    &&& compiles(frag)
    &&& !gl.link_fault
}

/// Exactly which error a failed program build reports, on which inputs:
/// allocation failures, a vertex-stage compile error, a fragment-stage
/// compile error (reached only once the vertex source compiled), and a
/// link error (reached only once both sources compiled), each carrying
/// the driver's non-empty diagnostic where there is one.
pub open spec fn expected_build_failure(
    gl: GlDriver,
    vert: Seq<char>,
    frag: Seq<char>,
    e: GlError,
) -> bool {
    match e {
        GlError::AllocationFailure => !prog_alloc_ok(gl) || !vert_alloc_ok(gl) || (compiles(vert)
            && !frag_alloc_ok(gl)),
        GlError::CompileError { stage, log } => log@ == compile_diag() && log@.len() > 0
            && match stage {
            ShaderType::Vertex => prog_alloc_ok(gl) && vert_alloc_ok(gl) && !compiles(vert),
            ShaderType::Fragment => prog_alloc_ok(gl) && vert_alloc_ok(gl) && frag_alloc_ok(gl)
                && compiles(vert) && !compiles(frag),
        },
        GlError::LinkError { log } => log@ == link_diag() && log@.len() > 0 && prog_alloc_ok(gl)
            && vert_alloc_ok(gl) && frag_alloc_ok(gl) && compiles(vert) && compiles(frag)
            && gl.link_fault,
    }
}

impl ShaderProgram {
    /// The handle names a program object in `gl`.
    pub open spec fn valid_in(self, gl: GlDriver) -> bool {
        &&& self.handle != 0
        &&& gl.valid_program(self.handle)
    }

    /// The driver slot this handle names.
    pub open spec fn slot(self, gl: GlDriver) -> ProgramSlot {
        gl.program(self.handle)
    }

    /// The handle is still allocated in `gl`.
    pub open spec fn live_in(self, gl: GlDriver) -> bool {
        gl.program(self.handle).alive
    }

    /// Allocate a program object.
    ///
    /// Returns a program whose handle is non-zero, or
    /// [`GlError::AllocationFailure`] exactly when the driver has no
    /// allocation left -- a zero handle is never wrapped as success.
    ///
    /// Prefer [`ShaderProgram::from_vert_frag`]; it makes a complete
    /// program from the vertex and fragment sources all at once.
    pub fn new(gl: &mut GlDriver) -> (r: Result<ShaderProgram, GlError>)
        requires
            old(gl).wf(),
        ensures
            final(gl).wf(),
            same_shaders(*old(gl), *final(gl)),
            same_buffers(*old(gl), *final(gl)),
            same_vaos(*old(gl), *final(gl)),
            same_bindings(*old(gl), *final(gl)),
            same_trace(*old(gl), *final(gl)),
            final(gl).link_fault == old(gl).link_fault,
            r is Ok <==> old(gl).can_alloc(old(gl).programs@.len() as int),
            r matches Ok(p) ==> p.handle != 0 && p.valid_in(*final(gl))
                && p.handle as int == old(gl).programs@.len() + 1
                && grown_by_one(old(gl).programs@, final(gl).programs@)
                && fresh_program(p.slot(*final(gl)))
                && final(gl).remaining_allocs == old(gl).remaining_allocs - 1
                && final(gl).live_programs() == old(gl).live_programs() + 1,
            r matches Err(e) ==> e is AllocationFailure && *final(gl) == *old(gl),
    {
        let h = gl.create_program();
        if h == 0 {
            Err(GlError::AllocationFailure)
        } else {
            proof {
                lemma_count_live_programs_alive_eq(
                    old(gl).programs@,
                    gl.programs@,
                    old(gl).programs@.len() as int,
                );
            }
            Ok(ShaderProgram { handle: h })
        }
    }

    /// Attach a shader object to this program object. This design
    /// attaches at most two shaders to a program, one per stage.
    pub fn attach_shader(&self, gl: &mut GlDriver, shader: &Shader)
        requires
            old(gl).wf(),
            self.valid_in(*old(gl)),
            self.live_in(*old(gl)),
            shader.valid_in(*old(gl)),
            shader.live_in(*old(gl)),
            old(gl).program(self.handle).attached@.len() < 2,
        ensures
            final(gl).wf(),
            same_shaders(*old(gl), *final(gl)),
            same_buffers(*old(gl), *final(gl)),
            same_vaos(*old(gl), *final(gl)),
            same_bindings(*old(gl), *final(gl)),
            same_faults(*old(gl), *final(gl)),
            same_trace(*old(gl), *final(gl)),
            updated_only(old(gl).programs@, final(gl).programs@, self.handle as int - 1),
            self.slot(*final(gl)).attached@ == self.slot(*old(gl)).attached@.push(
                shader.handle,
            ),
            self.slot(*final(gl)).linked == self.slot(*old(gl)).linked,
            self.live_in(*final(gl)),
            self.slot(*final(gl)).pending_delete == self.slot(*old(gl)).pending_delete,
            final(gl).live_programs() == old(gl).live_programs(),
    {
        gl.attach_shader(self.handle, shader.handle);
        proof {
            lemma_count_live_programs_alive_eq(
                old(gl).programs@,
                gl.programs@,
                old(gl).programs@.len() as int,
            );
        }
    }

    /// Link the attached, compiled shader objects into a usable program,
    /// recording the link status and diagnostic log.
    pub fn link_program(&self, gl: &mut GlDriver)
        requires
            old(gl).wf(),
            self.valid_in(*old(gl)),
            self.live_in(*old(gl)),
        ensures
            final(gl).wf(),
            same_shaders(*old(gl), *final(gl)),
            same_buffers(*old(gl), *final(gl)),
            same_vaos(*old(gl), *final(gl)),
            same_bindings(*old(gl), *final(gl)),
            same_faults(*old(gl), *final(gl)),
            same_trace(*old(gl), *final(gl)),
            updated_only(old(gl).programs@, final(gl).programs@, self.handle as int - 1),
            self.slot(*final(gl)).attached == self.slot(*old(gl)).attached,
            self.live_in(*final(gl)),
            self.slot(*final(gl)).pending_delete == self.slot(*old(gl)).pending_delete,
            self.slot(*final(gl)).linked == old(gl).links_ok(self.handle),
            self.slot(*final(gl)).log@ == if old(gl).links_ok(self.handle) {
                Seq::<char>::empty()
            } else {
                link_diag()
            },
            final(gl).live_programs() == old(gl).live_programs(),
    {
        gl.link_program(self.handle);
        proof {
            lemma_count_live_programs_alive_eq(
                old(gl).programs@,
                gl.programs@,
                old(gl).programs@.len() as int,
            );
        }
    }

    /// Report whether the last linking operation was successful: the
    /// driver's link-status flag read back as a boolean.
    pub fn link_success(&self, gl: &GlDriver) -> (ok: bool)
        requires
            self.valid_in(*gl),
        ensures
            ok == self.slot(*gl).linked,
    {
        gl.link_status(self.handle)
    }

    /// Retrieve the link diagnostic log through the two-call protocol:
    /// probe the driver-reported length, then fetch into a buffer of
    /// exactly that length.
    pub fn info_log(&self, gl: &GlDriver) -> (log: String)
        requires
            self.valid_in(*gl),
        ensures
            log@ == self.slot(*gl).log@,
    {
        let needed_len = gl.program_log_len(self.handle);
        gl.program_log(self.handle, needed_len)
    }

    /// Make this the program used for drawing. A previously current
    /// program whose deletion was deferred is released now. Activation
    /// is idempotent: activating the already-current program changes
    /// nothing.
    pub fn use_program(&self, gl: &mut GlDriver)
        requires
            old(gl).wf(),
            self.valid_in(*old(gl)),
            self.live_in(*old(gl)),
        ensures
            old(gl).current_program == self.handle ==> *final(gl) == *old(gl),
            final(gl).wf(),
            same_shaders(*old(gl), *final(gl)),
            same_buffers(*old(gl), *final(gl)),
            same_vaos(*old(gl), *final(gl)),
            same_faults(*old(gl), *final(gl)),
            same_trace(*old(gl), *final(gl)),
            final(gl).bound_array == old(gl).bound_array,
            final(gl).bound_element == old(gl).bound_element,
            final(gl).bound_vao == old(gl).bound_vao,
            final(gl).current_program == self.handle,
            self.live_in(*final(gl)),
            self.slot(*final(gl)).linked == self.slot(*old(gl)).linked,
            if old(gl).current_program != 0 && old(gl).current_program != self.handle
                && old(gl).program(old(gl).current_program).pending_delete {
                final(gl).live_programs() == old(gl).live_programs() - 1
            } else {
                same_programs(*old(gl), *final(gl))
            },
    {
        let ghost pre = *gl;
        gl.use_program(self.handle);
        proof {
            if pre.current_program != 0 && pre.current_program != self.handle
                && pre.program(pre.current_program).pending_delete {
                lemma_count_live_programs_update(
                    pre.programs@,
                    gl.programs@,
                    pre.programs@.len() as int,
                    pre.current_program as int - 1,
                );
            }
        }
    }

    /// Mark the program for destruction, consuming the handle.
    ///
    /// If the program is currently in use its release is deferred: the
    /// handle stays allocated until another (or no) program is made
    /// current. Otherwise the handle stops being allocated at once.
    pub fn delete(self, gl: &mut GlDriver)
        requires
            old(gl).wf(),
            self.valid_in(*old(gl)),
            self.live_in(*old(gl)),
            !old(gl).program(self.handle).pending_delete,
        ensures
            final(gl).wf(),
            same_shaders(*old(gl), *final(gl)),
            same_buffers(*old(gl), *final(gl)),
            same_vaos(*old(gl), *final(gl)),
            same_bindings(*old(gl), *final(gl)),
            same_faults(*old(gl), *final(gl)),
            same_trace(*old(gl), *final(gl)),
            updated_only(old(gl).programs@, final(gl).programs@, self.handle as int - 1),
            if self.handle == old(gl).current_program {
                final(gl).program(self.handle).alive
                    && final(gl).program(self.handle).pending_delete
                    && final(gl).live_programs() == old(gl).live_programs()
            } else {
                !final(gl).program(self.handle).alive
                    && final(gl).live_programs() == old(gl).live_programs() - 1
            },
    {
        let ghost pre = *gl;
        gl.delete_program(self.handle);
        proof {
            if self.handle == pre.current_program {
                lemma_count_live_programs_alive_eq(
                    pre.programs@,
                    gl.programs@,
                    pre.programs@.len() as int,
                );
            } else {
                lemma_count_live_programs_update(
                    pre.programs@,
                    gl.programs@,
                    pre.programs@.len() as int,
                    self.handle as int - 1,
                );
            }
        }
    }

    /// Build a complete program from a vertex and a fragment source
    /// text: allocate the program, compile both shaders, attach them,
    /// link, and release both shader objects unconditionally -- their
    /// compiled state is only needed during linking.
    ///
    /// Succeeds exactly when all three allocations can succeed, both
    /// sources compile and the driver injects no link fault. Every
    /// failure path releases whatever it had already allocated, so
    /// neither shader nor program handles leak, and the failure keeps
    /// the four-way taxonomy distinct: allocation, vertex compile,
    /// fragment compile, link (see [`expected_build_failure`]).
    pub fn from_vert_frag(gl: &mut GlDriver, vert: &str, frag: &str) -> (r: Result<
        ShaderProgram,
        GlError,
    >)
        requires
            old(gl).wf(),
        ensures
            final(gl).wf(),
            same_buffers(*old(gl), *final(gl)),
            same_vaos(*old(gl), *final(gl)),
            same_bindings(*old(gl), *final(gl)),
            same_trace(*old(gl), *final(gl)),
            final(gl).link_fault == old(gl).link_fault,
            r is Ok <==> program_build_ok(*old(gl), vert@, frag@),
            r matches Ok(p) ==> p.handle != 0 && p.valid_in(*final(gl))
                && p.handle as int == old(gl).programs@.len() + 1
                && grown_by_one(old(gl).programs@, final(gl).programs@)
                && p.live_in(*final(gl))
                && !p.slot(*final(gl)).pending_delete
                && p.slot(*final(gl)).linked
                && final(gl).live_programs() == old(gl).live_programs() + 1
                && final(gl).live_shaders() == old(gl).live_shaders(),
            r matches Err(e) ==> expected_build_failure(*old(gl), vert@, frag@, e)
                && final(gl).live_shaders() == old(gl).live_shaders()
                && final(gl).live_programs() == old(gl).live_programs(),
    {
        let p = match ShaderProgram::new(gl) {
            Ok(p) => p,
            Err(e) => {
                return Err(e);
            },
        };
        let v = match Shader::from_source(gl, ShaderType::Vertex, vert) {
            Ok(v) => v,
            Err(e) => {
                p.delete(gl);
                return Err(e);
            },
        };
        let f = match Shader::from_source(gl, ShaderType::Fragment, frag) {
            Ok(f) => f,
            Err(e) => {
                v.delete(gl);
                p.delete(gl);
                return Err(e);
            },
        };
        p.attach_shader(gl, &v);
        p.attach_shader(gl, &f);
        p.link_program(gl);
        v.delete(gl);
        f.delete(gl);
        if p.link_success(gl) {
            Ok(p)
        } else {
            let out = p.info_log(gl);
            proof {
                lemma_link_diag_nonempty();
            }
            p.delete(gl);
            Err(GlError::LinkError { log: out })
        }
    }
}

} // verus!
