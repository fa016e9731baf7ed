//! An in-memory model of the graphics driver.
//!
//! [`GlDriver`] holds, as plain data, everything the driver tracks that this
//! library's logic can observe: the object tables for shaders, programs,
//! buffers and vertex-array objects, the global binding slots, and the
//! recorded call trace. Each method models one driver entry point with an
//! exact contract, so the resource-lifecycle components can be verified --
//! and exercised by tests -- without a live rendering context.
//!
//! The model also offers two fault-injection knobs that real drivers
//! exhibit but cannot be forced from outside: a bounded allocation budget
//! (a zero handle once it is spent) and a link fault (linking fails even
//! for well-formed programs).

use vstd::prelude::*;
use vstd::string::StrSliceExecFns;
use crate::buffers::{BufferType, UsageHint};
use crate::shaders::ShaderType;

verus! {

/// Number of vertex attribute slots each vertex-array object carries.
pub const MAX_ATTRIBS: usize = 16;

/// Largest number of objects of one kind the model will allocate; a
/// handle must fit in a non-zero `u32`.
pub const HANDLE_LIMIT: usize = 0xFFFF_FFFF;

/// One shader object as the driver sees it.
pub struct ShaderSlot {
    /// Which pipeline stage the object was allocated for.
    pub stage: ShaderType,
    /// The most recently uploaded source text.
    pub source: String,
    /// Whether the most recent compile succeeded.
    pub compiled: bool,
    /// Diagnostic log of the most recent compile.
    pub log: String,
    /// Whether the handle is still allocated.
    pub alive: bool,
}

/// One program object as the driver sees it.
pub struct ProgramSlot {
    /// Handles of the shader objects attached so far.
    pub attached: Vec<u32>,
    /// Whether the most recent link succeeded.
    pub linked: bool,
    /// Diagnostic log of the most recent link.
    pub log: String,
    /// Whether the handle is still allocated.
    pub alive: bool,
    /// Deletion was requested while the program was in use; it is
    /// released when it stops being the current program.
    pub pending_delete: bool,
}

/// One buffer object: the bytes of its most recent upload.
pub struct BufferSlot {
    /// The stored bytes.
    pub data: Vec<u8>,
}

/// Component type of a vertex attribute.
#[derive(Clone, Copy, PartialEq, Eq, Structural, Debug)]
pub enum AttribKind {
    /// 32-bit floating-point components.
    Float,
    /// 32-bit signed integer components.
    Int,
    /// 8-bit unsigned integer components.
    UnsignedByte,
}

/// How the bytes of a buffer map onto one attribute slot.
#[derive(Clone, Copy, PartialEq, Eq, Debug)]
pub struct AttribPointer {
    /// Components per vertex, between 1 and 4.
    pub size: u32,
    /// Component type.
    pub kind: AttribKind,
    /// Whether integer components are normalized to the unit range.
    pub normalized: bool,
    /// Bytes from one vertex's attribute to the next.
    pub stride: u32,
    /// Byte offset of the first component inside the buffer.
    pub offset: u32,
}

/// State of one attribute slot of a vertex-array object.
#[derive(Clone, Copy, PartialEq, Eq, Debug)]
pub struct AttribSlot {
    /// The declared layout, once one was declared.
    pub pointer: Option<AttribPointer>,
    /// Whether the slot is enabled for drawing.
    pub enabled: bool,
}

/// One vertex-array object: its attribute slots.
pub struct VaoSlot {
    /// Exactly [`MAX_ATTRIBS`] attribute slots.
    pub attribs: Vec<AttribSlot>,
}

/// One recorded driver call. The trace lets tests check call-order
/// discipline, such as a bind standing immediately before an upload.
#[derive(Clone, Copy, PartialEq, Eq, Debug)]
pub enum TraceEvent {
    /// A buffer was bound (or, with handle 0, unbound) to a target slot.
    BindBuffer { target: BufferType, handle: u32 },
    /// Bytes were uploaded to the buffer bound to a target slot.
    BufferData { target: BufferType, len: usize, usage: UsageHint },
    /// A vertex-array object was bound (or, with handle 0, unbound).
    BindVertexArray { handle: u32 },
    /// A draw call was issued.
    DrawArrays { first: u32, count: u32 },
}

/// The model compiler's acceptance rule: any non-empty source text
/// compiles, the empty text is rejected as a syntax error.
pub open spec fn compiles(source: Seq<char>) -> bool {
    source.len() > 0
}

/// The diagnostic the model driver records for a failed compile.
pub open spec fn compile_diag() -> Seq<char> {
    "shader compilation failed"@
}

/// The diagnostic the model driver records for a failed link.
pub open spec fn link_diag() -> Seq<char> {
    "program linking failed"@
}

/// The failed-compile diagnostic is not empty.
pub proof fn lemma_compile_diag_nonempty()
    ensures
        compile_diag().len() > 0,
{
    reveal_strlit("shader compilation failed");
}

/// The failed-link diagnostic is not empty.
pub proof fn lemma_link_diag_nonempty()
    ensures
        link_diag().len() > 0,
{
    reveal_strlit("program linking failed");
}

/// `post` is `pre` with at most the element at `i` replaced.
pub open spec fn updated_only<T>(pre: Seq<T>, post: Seq<T>, i: int) -> bool {
    &&& post.len() == pre.len()
    &&& forall|j: int| 0 <= j < pre.len() && j != i ==> post[j] == pre[j]
}

/// `post` is `pre` with exactly one element appended.
pub open spec fn grown_by_one<T>(pre: Seq<T>, post: Seq<T>) -> bool {
    &&& post.len() == pre.len() + 1
    &&& forall|j: int| 0 <= j < pre.len() ==> post[j] == pre[j]
}

/// A shader slot exactly as allocation leaves it.
pub open spec fn fresh_shader(s: ShaderSlot, ty: ShaderType) -> bool {
    &&& s.stage == ty
    &&& s.source@ == Seq::<char>::empty()
    &&& !s.compiled
    &&& s.log@ == Seq::<char>::empty()
    &&& s.alive
}

/// The shader tables of `pre` and `post` are the same.
pub open spec fn same_shaders(pre: GlDriver, post: GlDriver) -> bool {
    post.shaders == pre.shaders
}

/// The program tables of `pre` and `post` are the same.
pub open spec fn same_programs(pre: GlDriver, post: GlDriver) -> bool {
    post.programs == pre.programs
}

/// The buffer tables of `pre` and `post` are the same.
pub open spec fn same_buffers(pre: GlDriver, post: GlDriver) -> bool {
    post.buffers == pre.buffers
}

/// The vertex-array tables of `pre` and `post` are the same.
pub open spec fn same_vaos(pre: GlDriver, post: GlDriver) -> bool {
    post.vaos == pre.vaos
}

/// All four global binding slots of `pre` and `post` agree.
pub open spec fn same_bindings(pre: GlDriver, post: GlDriver) -> bool {
    &&& post.bound_array == pre.bound_array
    &&& post.bound_element == pre.bound_element
    &&& post.bound_vao == pre.bound_vao
    &&& post.current_program == pre.current_program
}

/// The fault-injection knobs of `pre` and `post` agree.
pub open spec fn same_faults(pre: GlDriver, post: GlDriver) -> bool {
    &&& post.remaining_allocs == pre.remaining_allocs
    &&& post.link_fault == pre.link_fault
}

/// The recorded call traces of `pre` and `post` are the same.
pub open spec fn same_trace(pre: GlDriver, post: GlDriver) -> bool {
    post.trace == pre.trace
}

/// The in-memory driver double. See the module documentation.
pub struct GlDriver {
    /// Shader objects; the handle of `shaders[i]` is `i + 1`.
    pub shaders: Vec<ShaderSlot>,
    /// Program objects; the handle of `programs[i]` is `i + 1`.
    pub programs: Vec<ProgramSlot>,
    /// Buffer objects; the handle of `buffers[i]` is `i + 1`.
    pub buffers: Vec<BufferSlot>,
    /// Vertex-array objects; the handle of `vaos[i]` is `i + 1`.
    pub vaos: Vec<VaoSlot>,
    /// Handle bound to the array-buffer slot, 0 for none.
    pub bound_array: u32,
    /// Handle bound to the element-array-buffer slot, 0 for none.
    pub bound_element: u32,
    /// Handle of the bound vertex-array object, 0 for none.
    pub bound_vao: u32,
    /// Handle of the program used for drawing, 0 for none.
    pub current_program: u32,
    /// Fault injection: how many further allocations will succeed.
    pub remaining_allocs: u32,
    /// Fault injection: when set, every link fails.
    pub link_fault: bool,
    /// Recorded call trace.
    pub trace: Vec<TraceEvent>,
}

impl GlDriver {
    /// `h` names a shader object (live or deleted).
    pub open spec fn valid_shader(self, h: u32) -> bool {
        1 <= h && h as int <= self.shaders@.len()
    }

    /// The shader slot named by `h`.
    pub open spec fn shader(self, h: u32) -> ShaderSlot {
        self.shaders@[h as int - 1]
    }

    /// `h` names a program object (live or deleted).
    pub open spec fn valid_program(self, h: u32) -> bool {
        1 <= h && h as int <= self.programs@.len()
    }

    /// The program slot named by `h`.
    pub open spec fn program(self, h: u32) -> ProgramSlot {
        self.programs@[h as int - 1]
    }

    /// `h` names a buffer object.
    pub open spec fn valid_buffer(self, h: u32) -> bool {
        1 <= h && h as int <= self.buffers@.len()
    }

    /// The buffer slot named by `h`.
    pub open spec fn buffer(self, h: u32) -> BufferSlot {
        self.buffers@[h as int - 1]
    }

    /// `h` names a vertex-array object.
    pub open spec fn valid_vao(self, h: u32) -> bool {
        1 <= h && h as int <= self.vaos@.len()
    }

    /// The vertex-array slot named by `h`.
    pub open spec fn vao(self, h: u32) -> VaoSlot {
        self.vaos@[h as int - 1]
    }

    /// The handle bound to the binding slot of kind `t`.
    pub open spec fn bound(self, t: BufferType) -> u32 {
        match t {
            BufferType::Array => self.bound_array,
            BufferType::ElementArray => self.bound_element,
        }
    }

    /// An allocation into a table of `len` objects can still succeed.
    pub open spec fn can_alloc(self, len: int) -> bool {
        self.remaining_allocs > 0 && len < HANDLE_LIMIT as int
    }

    /// The binding slots only ever hold 0 or a handle of an existing
    /// object, the current program is live, and every vertex-array
    /// object carries its full set of attribute slots.
    pub open spec fn wf(self) -> bool {
        &&& (self.bound_array == 0 || self.valid_buffer(self.bound_array))
        &&& (self.bound_element == 0 || self.valid_buffer(self.bound_element))
        &&& (self.bound_vao == 0 || self.valid_vao(self.bound_vao))
        &&& (self.current_program == 0 || (self.valid_program(self.current_program)
            && self.program(self.current_program).alive))
        &&& forall|i: int| 0 <= i < self.vaos@.len()
            ==> (#[trigger] self.vaos@[i]).attribs@.len() == MAX_ATTRIBS as int
    }

    /// A fresh driver with nothing allocated, nothing bound, an
    /// effectively unlimited allocation budget and no link fault.
    pub fn new() -> (gl: GlDriver)
        ensures
            gl.wf(),
            gl.shaders@.len() == 0,
            gl.programs@.len() == 0,
            gl.buffers@.len() == 0,
            gl.vaos@.len() == 0,
            gl.bound_array == 0,
            gl.bound_element == 0,
            gl.bound_vao == 0,
            gl.current_program == 0,
            gl.remaining_allocs == u32::MAX,
            !gl.link_fault,
            gl.trace@.len() == 0,
    {
        GlDriver {
            shaders: Vec::new(),
            programs: Vec::new(),
            buffers: Vec::new(),
            vaos: Vec::new(),
            bound_array: 0,
            bound_element: 0,
            bound_vao: 0,
            current_program: 0,
            remaining_allocs: u32::MAX,
            link_fault: false,
            trace: Vec::new(),
        }
    }

    /// A fresh driver whose next `budget` allocations succeed and whose
    /// later ones return a zero handle.
    pub fn with_alloc_budget(budget: u32) -> (gl: GlDriver)
        ensures
            gl.wf(),
            gl.shaders@.len() == 0,
            gl.programs@.len() == 0,
            gl.buffers@.len() == 0,
            gl.vaos@.len() == 0,
            gl.bound_array == 0,
            gl.bound_element == 0,
            gl.bound_vao == 0,
            gl.current_program == 0,
            gl.remaining_allocs == budget,
            !gl.link_fault,
            gl.trace@.len() == 0,
    {
        let mut gl = GlDriver::new();
        gl.remaining_allocs = budget;
        gl
    }

    /// Turn the link fault on or off.
    pub fn set_link_fault(&mut self, fault: bool)
        requires
            old(self).wf(),
        ensures
            final(self).wf(),
            same_shaders(*old(self), *final(self)),
            same_programs(*old(self), *final(self)),
            same_buffers(*old(self), *final(self)),
            same_vaos(*old(self), *final(self)),
            same_bindings(*old(self), *final(self)),
            same_trace(*old(self), *final(self)),
            final(self).remaining_allocs == old(self).remaining_allocs,
            final(self).link_fault == fault,
    {
        self.link_fault = fault;
    }

    /// Allocate a shader object for stage `ty`. Returns its non-zero
    /// handle, or 0 exactly when the driver is out of allocations.
    pub fn create_shader(&mut self, ty: ShaderType) -> (h: u32)
        requires
            old(self).wf(),
        ensures
            final(self).wf(),
            same_programs(*old(self), *final(self)),
            same_buffers(*old(self), *final(self)),
            same_vaos(*old(self), *final(self)),
            same_bindings(*old(self), *final(self)),
            same_trace(*old(self), *final(self)),
            final(self).link_fault == old(self).link_fault,
            h != 0 <==> old(self).can_alloc(old(self).shaders@.len() as int),
            h == 0 ==> *final(self) == *old(self),
            h != 0 ==> grown_by_one(old(self).shaders@, final(self).shaders@)
                && h as int == old(self).shaders@.len() + 1
                && fresh_shader(final(self).shader(h), ty)
                && final(self).remaining_allocs == old(self).remaining_allocs - 1,
    {
        if self.remaining_allocs == 0 || self.shaders.len() >= HANDLE_LIMIT {
            return 0;
        }
        self.remaining_allocs = self.remaining_allocs - 1;
        self.shaders.push(ShaderSlot {
            stage: ty,
            source: String::new(),
            compiled: false,
            log: String::new(),
            alive: true,
        });
        self.shaders.len() as u32
    }

    /// Replace the source text of shader `h`. Its compile status is
    /// untouched until the next compile.
    pub fn shader_source(&mut self, h: u32, src: &str)
        requires
            old(self).wf(),
            old(self).valid_shader(h),
            old(self).shader(h).alive,
        ensures
            final(self).wf(),
            same_programs(*old(self), *final(self)),
            same_buffers(*old(self), *final(self)),
            same_vaos(*old(self), *final(self)),
            same_bindings(*old(self), *final(self)),
            same_faults(*old(self), *final(self)),
            same_trace(*old(self), *final(self)),
            updated_only(old(self).shaders@, final(self).shaders@, h as int - 1),
            final(self).shader(h).source@ == src@,
            final(self).shader(h).stage == old(self).shader(h).stage,
            final(self).shader(h).compiled == old(self).shader(h).compiled,
            final(self).shader(h).log == old(self).shader(h).log,
            final(self).shader(h).alive,
    {
        let i: usize = (h - 1) as usize;
        self.shaders[i].source = src.to_owned();
    }

    /// Compile shader `h` against the model compiler's acceptance rule,
    /// recording its compile status and diagnostic log.
    pub fn compile_shader(&mut self, h: u32)
        requires
            old(self).wf(),
            old(self).valid_shader(h),
            old(self).shader(h).alive,
        ensures
            final(self).wf(),
            same_programs(*old(self), *final(self)),
            same_buffers(*old(self), *final(self)),
            same_vaos(*old(self), *final(self)),
            same_bindings(*old(self), *final(self)),
            same_faults(*old(self), *final(self)),
            same_trace(*old(self), *final(self)),
            updated_only(old(self).shaders@, final(self).shaders@, h as int - 1),
            final(self).shader(h).source == old(self).shader(h).source,
            final(self).shader(h).stage == old(self).shader(h).stage,
            final(self).shader(h).alive,
            final(self).shader(h).compiled == compiles(old(self).shader(h).source@),
            final(self).shader(h).log@ == if compiles(old(self).shader(h).source@) {
                Seq::<char>::empty()
            } else {
                compile_diag()
            },
    {
        let i: usize = (h - 1) as usize;
        let ok = !self.shaders[i].source.as_str().is_empty();
        self.shaders[i].compiled = ok;
        if ok {
            self.shaders[i].log = String::new();
        } else {
            self.shaders[i].log = compile_failure_message();
        }
    }

    /// Report the compile status of shader `h`.
    pub fn compile_status(&self, h: u32) -> (ok: bool)
        requires
            self.valid_shader(h),
        ensures
            ok == self.shader(h).compiled,
    {
        self.shaders[(h - 1) as usize].compiled
    }

    /// Report the length of the compile log of shader `h`: the length
    /// probe of the two-call log protocol.
    pub fn shader_log_len(&self, h: u32) -> (n: usize)
        requires
            self.valid_shader(h),
        ensures
            n == self.shader(h).log@.len(),
    {
        self.shaders[(h - 1) as usize].log.as_str().unicode_len()
    }

    /// Fill a buffer of exactly the probed length with the compile log
    /// of shader `h`: the second call of the two-call log protocol.
    pub fn shader_log(&self, h: u32, buf_len: usize) -> (log: String)
        requires
            self.valid_shader(h),
            buf_len == self.shader(h).log@.len(),
        ensures
            log@ == self.shader(h).log@,
    {
        self.shaders[(h - 1) as usize].log.clone()
    }

    /// Release shader `h`. The handle must still be allocated; it is
    /// not afterwards.
    pub fn delete_shader(&mut self, h: u32)
        requires
            old(self).wf(),
            old(self).valid_shader(h),
            old(self).shader(h).alive,
        ensures
            final(self).wf(),
            same_programs(*old(self), *final(self)),
            same_buffers(*old(self), *final(self)),
            same_vaos(*old(self), *final(self)),
            same_bindings(*old(self), *final(self)),
            same_faults(*old(self), *final(self)),
            same_trace(*old(self), *final(self)),
            updated_only(old(self).shaders@, final(self).shaders@, h as int - 1),
            final(self).shader(h).stage == old(self).shader(h).stage,
            final(self).shader(h).source == old(self).shader(h).source,
            final(self).shader(h).compiled == old(self).shader(h).compiled,
            final(self).shader(h).log == old(self).shader(h).log,
            !final(self).shader(h).alive,
    {
        let i: usize = (h - 1) as usize;
        self.shaders[i].alive = false;
    }
    /// Linking the program slot `p` succeeds: exactly two shaders are
    /// attached, one per distinct stage, both compiled, and no link
    /// fault is injected.
    pub open spec fn links_ok(self, p: u32) -> bool {
        let pr = self.program(p);
        &&& pr.attached@.len() == 2
        &&& self.valid_shader(pr.attached@[0])
        &&& self.valid_shader(pr.attached@[1])
        &&& self.shader(pr.attached@[0]).compiled
        &&& self.shader(pr.attached@[1]).compiled
        &&& self.shader(pr.attached@[0]).stage != self.shader(pr.attached@[1]).stage
        &&& !self.link_fault
    }

    /// Allocate a program object. Returns its non-zero handle, or 0
    /// exactly when the driver is out of allocations.
    pub fn create_program(&mut self) -> (h: u32)
        requires
            old(self).wf(),
        ensures
            final(self).wf(),
            same_shaders(*old(self), *final(self)),
            same_buffers(*old(self), *final(self)),
            same_vaos(*old(self), *final(self)),
            same_bindings(*old(self), *final(self)),
            same_trace(*old(self), *final(self)),
            final(self).link_fault == old(self).link_fault,
            h != 0 <==> old(self).can_alloc(old(self).programs@.len() as int),
            h == 0 ==> *final(self) == *old(self),
            h != 0 ==> grown_by_one(old(self).programs@, final(self).programs@)
                && h as int == old(self).programs@.len() + 1
                && fresh_program(final(self).program(h))
                && final(self).remaining_allocs == old(self).remaining_allocs - 1,
    {
        if self.remaining_allocs == 0 || self.programs.len() >= HANDLE_LIMIT {
            return 0;
        }
        self.remaining_allocs = self.remaining_allocs - 1;
        self.programs.push(ProgramSlot {
            attached: Vec::new(),
            linked: false,
            log: String::new(),
            alive: true,
            pending_delete: false,
        });
        self.programs.len() as u32
    }

    /// Attach shader `s` to program `p`. The model only supports this
    /// library's design of at most two attached shaders per program.
    pub fn attach_shader(&mut self, p: u32, s: u32)
        requires
            old(self).wf(),
            old(self).valid_program(p),
            old(self).program(p).alive,
            old(self).valid_shader(s),
            old(self).shader(s).alive,
            old(self).program(p).attached@.len() < 2,
        ensures
            final(self).wf(),
            same_shaders(*old(self), *final(self)),
            same_buffers(*old(self), *final(self)),
            same_vaos(*old(self), *final(self)),
            same_bindings(*old(self), *final(self)),
            same_faults(*old(self), *final(self)),
            same_trace(*old(self), *final(self)),
            updated_only(old(self).programs@, final(self).programs@, p as int - 1),
            final(self).program(p).attached@ == old(self).program(p).attached@.push(s),
            final(self).program(p).linked == old(self).program(p).linked,
            final(self).program(p).log == old(self).program(p).log,
            final(self).program(p).alive,
            final(self).program(p).pending_delete == old(self).program(p).pending_delete,
    {
        let i: usize = (p - 1) as usize;
        self.programs[i].attached.push(s);
    }

    /// Link program `p`, recording its link status and diagnostic log.
    pub fn link_program(&mut self, p: u32)
        requires
            old(self).wf(),
            old(self).valid_program(p),
            old(self).program(p).alive,
        ensures
            final(self).wf(),
            same_shaders(*old(self), *final(self)),
            same_buffers(*old(self), *final(self)),
            same_vaos(*old(self), *final(self)),
            same_bindings(*old(self), *final(self)),
            same_faults(*old(self), *final(self)),
            same_trace(*old(self), *final(self)),
            updated_only(old(self).programs@, final(self).programs@, p as int - 1),
            final(self).program(p).attached == old(self).program(p).attached,
            final(self).program(p).alive,
            final(self).program(p).pending_delete == old(self).program(p).pending_delete,
            final(self).program(p).linked == old(self).links_ok(p),
            final(self).program(p).log@ == if old(self).links_ok(p) {
                Seq::<char>::empty()
            } else {
                link_diag()
            },
    {
        let i: usize = (p - 1) as usize;
        let ok = self.link_check(p);
        self.programs[i].linked = ok;
        if ok {
            self.programs[i].log = String::new();
        } else {
            self.programs[i].log = link_failure_message();
        }
    }

    /// Decide whether linking program `p` succeeds; reads only.
    fn link_check(&self, p: u32) -> (ok: bool)
        requires
            self.wf(),
            self.valid_program(p),
        ensures
            ok == self.links_ok(p),
    {
        let i: usize = (p - 1) as usize;
        if self.link_fault {
            return false;
        }
        if self.programs[i].attached.len() != 2 {
            return false;
        }
        let a: u32 = self.programs[i].attached[0];
        let b: u32 = self.programs[i].attached[1];
        if a == 0 || (a as usize) > self.shaders.len() {
            return false;
        }
        if b == 0 || (b as usize) > self.shaders.len() {
            return false;
        }
        let sa = (a - 1) as usize;
        let sb = (b - 1) as usize;
        self.shaders[sa].compiled && self.shaders[sb].compiled
            && self.shaders[sa].stage != self.shaders[sb].stage
    }

    /// Report the link status of program `p`.
    pub fn link_status(&self, p: u32) -> (ok: bool)
        requires
            self.valid_program(p),
        ensures
            ok == self.program(p).linked,
    {
        self.programs[(p - 1) as usize].linked
    }

    /// Report the length of the link log of program `p`: the length
    /// probe of the two-call log protocol.
    pub fn program_log_len(&self, p: u32) -> (n: usize)
        requires
            self.valid_program(p),
        ensures
            n == self.program(p).log@.len(),
    {
        self.programs[(p - 1) as usize].log.as_str().unicode_len()
    }

    /// Fill a buffer of exactly the probed length with the link log of
    /// program `p`: the second call of the two-call log protocol.
    pub fn program_log(&self, p: u32, buf_len: usize) -> (log: String)
        requires
            self.valid_program(p),
            buf_len == self.program(p).log@.len(),
        ensures
            log@ == self.program(p).log@,
    {
        self.programs[(p - 1) as usize].log.clone()
    }

    /// Make program `p` the one used for drawing, or with `p == 0` make
    /// no program current. A previously current program whose deletion
    /// was deferred is released now. Activation is idempotent: making
    /// the current program current again changes nothing.
    pub fn use_program(&mut self, p: u32)
        requires
            old(self).wf(),
            p == 0 || (old(self).valid_program(p) && old(self).program(p).alive),
        ensures
            old(self).current_program == p ==> *final(self) == *old(self),
            final(self).wf(),
            same_shaders(*old(self), *final(self)),
            same_buffers(*old(self), *final(self)),
            same_vaos(*old(self), *final(self)),
            same_faults(*old(self), *final(self)),
            same_trace(*old(self), *final(self)),
            final(self).bound_array == old(self).bound_array,
            final(self).bound_element == old(self).bound_element,
            final(self).bound_vao == old(self).bound_vao,
            final(self).current_program == p,
            if old(self).current_program != 0 && old(self).current_program != p
                && old(self).program(old(self).current_program).pending_delete {
                updated_only(old(self).programs@, final(self).programs@,
                    old(self).current_program as int - 1)
                    && !final(self).program(old(self).current_program).alive
            } else {
                same_programs(*old(self), *final(self))
            },
    {
        let prev = self.current_program;
        if prev != 0 && prev != p {
            let i: usize = (prev - 1) as usize;
            if self.programs[i].pending_delete {
                self.programs[i].alive = false;
            }
        }
        self.current_program = p;
    }

    /// Release program `p`. If it is the current program, its release
    /// is deferred until another (or no) program is made current;
    /// otherwise the handle stops being allocated at once.
    pub fn delete_program(&mut self, p: u32)
        requires
            old(self).wf(),
            old(self).valid_program(p),
            old(self).program(p).alive,
            !old(self).program(p).pending_delete,
        ensures
            final(self).wf(),
            same_shaders(*old(self), *final(self)),
            same_buffers(*old(self), *final(self)),
            same_vaos(*old(self), *final(self)),
            same_bindings(*old(self), *final(self)),
            same_faults(*old(self), *final(self)),
            same_trace(*old(self), *final(self)),
            updated_only(old(self).programs@, final(self).programs@, p as int - 1),
            final(self).program(p).attached == old(self).program(p).attached,
            final(self).program(p).linked == old(self).program(p).linked,
            final(self).program(p).log == old(self).program(p).log,
            if p == old(self).current_program {
                final(self).program(p).alive && final(self).program(p).pending_delete
            } else {
                !final(self).program(p).alive
                    && final(self).program(p).pending_delete
                        == old(self).program(p).pending_delete
            },
    {
        let i: usize = (p - 1) as usize;
        if p == self.current_program {
            self.programs[i].pending_delete = true;
        } else {
            self.programs[i].alive = false;
        }
    }
    /// Law: the order in which a program's two shaders were attached
    /// does not affect whether linking succeeds.
    pub proof fn lemma_link_order_irrelevant(self, other: GlDriver, p: u32)
        requires
            self.valid_program(p),
            other.valid_program(p),
            self.shaders@ == other.shaders@,
            self.link_fault == other.link_fault,
            self.program(p).attached@.len() == 2,
            other.program(p).attached@ == seq![
                self.program(p).attached@[1],
                self.program(p).attached@[0],
            ],
        ensures
            other.links_ok(p) == self.links_ok(p),
    {
    }

    /// Allocate a buffer object. Returns its non-zero handle, or 0
    /// exactly when the driver is out of allocations.
    pub fn gen_buffer(&mut self) -> (h: u32)
        requires
            old(self).wf(),
        ensures
            final(self).wf(),
            same_shaders(*old(self), *final(self)),
            same_programs(*old(self), *final(self)),
            same_vaos(*old(self), *final(self)),
            same_bindings(*old(self), *final(self)),
            same_trace(*old(self), *final(self)),
            final(self).link_fault == old(self).link_fault,
            h != 0 <==> old(self).can_alloc(old(self).buffers@.len() as int),
            h == 0 ==> *final(self) == *old(self),
            h != 0 ==> grown_by_one(old(self).buffers@, final(self).buffers@)
                && h as int == old(self).buffers@.len() + 1
                && final(self).buffer(h).data@ == Seq::<u8>::empty()
                && final(self).remaining_allocs == old(self).remaining_allocs - 1,
    {
        if self.remaining_allocs == 0 || self.buffers.len() >= HANDLE_LIMIT {
            return 0;
        }
        self.remaining_allocs = self.remaining_allocs - 1;
        self.buffers.push(BufferSlot { data: Vec::new() });
        self.buffers.len() as u32
    }

    /// Bind buffer `h` to the binding slot of kind `t`, or with `h == 0`
    /// leave that slot with no buffer bound.
    pub fn bind_buffer(&mut self, t: BufferType, h: u32)
        requires
            old(self).wf(),
            h == 0 || old(self).valid_buffer(h),
        ensures
            final(self).wf(),
            same_shaders(*old(self), *final(self)),
            same_programs(*old(self), *final(self)),
            same_buffers(*old(self), *final(self)),
            same_vaos(*old(self), *final(self)),
            same_faults(*old(self), *final(self)),
            final(self).bound(t) == h,
            t != BufferType::Array ==> final(self).bound_array == old(self).bound_array,
            t != BufferType::ElementArray
                ==> final(self).bound_element == old(self).bound_element,
            final(self).bound_vao == old(self).bound_vao,
            final(self).current_program == old(self).current_program,
            final(self).trace@ == old(self).trace@.push(
                TraceEvent::BindBuffer { target: t, handle: h },
            ),
    {
        match t {
            BufferType::Array => {
                self.bound_array = h;
            },
            BufferType::ElementArray => {
                self.bound_element = h;
            },
        }
        self.trace.push(TraceEvent::BindBuffer { target: t, handle: h });
    }

    /// Copy `data` into whichever buffer is currently bound to the slot
    /// of kind `t`. Calling this with no buffer bound is outside the
    /// model's contract: a bind must come first.
    pub fn buffer_data(&mut self, t: BufferType, data: &[u8], usage: UsageHint)
        requires
            old(self).wf(),
            old(self).bound(t) != 0,
        ensures
            final(self).wf(),
            same_shaders(*old(self), *final(self)),
            same_programs(*old(self), *final(self)),
            same_vaos(*old(self), *final(self)),
            same_bindings(*old(self), *final(self)),
            same_faults(*old(self), *final(self)),
            updated_only(old(self).buffers@, final(self).buffers@,
                old(self).bound(t) as int - 1),
            final(self).buffer(old(self).bound(t)).data@ == data@,
            final(self).trace@ == old(self).trace@.push(
                TraceEvent::BufferData { target: t, len: data.len(), usage },
            ),
    {
        let h = match t {
            BufferType::Array => self.bound_array,
            BufferType::ElementArray => self.bound_element,
        };
        let i: usize = (h - 1) as usize;
        self.buffers[i].data = vstd::slice::slice_to_vec(data);
        self.trace.push(TraceEvent::BufferData { target: t, len: data.len(), usage });
    }

    /// Read back the bytes stored in buffer `h`.
    pub fn buffer_contents(&self, h: u32) -> (data: Vec<u8>)
        requires
            self.valid_buffer(h),
        ensures
            data@ == self.buffer(h).data@,
    {
        vstd::slice::slice_to_vec(self.buffers[(h - 1) as usize].data.as_slice())
    }

    /// Allocate a vertex-array object with all attribute slots in their
    /// default state. Returns its non-zero handle, or 0 exactly when the
    /// driver is out of allocations.
    pub fn gen_vertex_array(&mut self) -> (h: u32)
        requires
            old(self).wf(),
        ensures
            final(self).wf(),
            same_shaders(*old(self), *final(self)),
            same_programs(*old(self), *final(self)),
            same_buffers(*old(self), *final(self)),
            same_bindings(*old(self), *final(self)),
            same_trace(*old(self), *final(self)),
            final(self).link_fault == old(self).link_fault,
            h != 0 <==> old(self).can_alloc(old(self).vaos@.len() as int),
            h == 0 ==> *final(self) == *old(self),
            h != 0 ==> grown_by_one(old(self).vaos@, final(self).vaos@)
                && h as int == old(self).vaos@.len() + 1
                && fresh_vao(final(self).vao(h))
                && final(self).remaining_allocs == old(self).remaining_allocs - 1,
    {
        if self.remaining_allocs == 0 || self.vaos.len() >= HANDLE_LIMIT {
            return 0;
        }
        self.remaining_allocs = self.remaining_allocs - 1;
        let mut attribs: Vec<AttribSlot> = Vec::new();
        let mut k: usize = 0;
        while k < MAX_ATTRIBS
            invariant
                k <= MAX_ATTRIBS,
                attribs@.len() == k as int,
                forall|j: int| 0 <= j < k as int
                    ==> attribs@[j] == (AttribSlot { pointer: Option::None, enabled: false }),
            decreases MAX_ATTRIBS - k,
        {
            attribs.push(AttribSlot { pointer: Option::None, enabled: false });
            k = k + 1;
        }
        self.vaos.push(VaoSlot { attribs });
        self.vaos.len() as u32
    }

    /// Bind vertex-array object `h`, or with `h == 0` leave none bound.
    pub fn bind_vertex_array(&mut self, h: u32)
        requires
            old(self).wf(),
            h == 0 || old(self).valid_vao(h),
        ensures
            final(self).wf(),
            same_shaders(*old(self), *final(self)),
            same_programs(*old(self), *final(self)),
            same_buffers(*old(self), *final(self)),
            same_vaos(*old(self), *final(self)),
            same_faults(*old(self), *final(self)),
            final(self).bound_array == old(self).bound_array,
            final(self).bound_element == old(self).bound_element,
            final(self).bound_vao == h,
            final(self).current_program == old(self).current_program,
            final(self).trace@ == old(self).trace@.push(
                TraceEvent::BindVertexArray { handle: h },
            ),
    {
        self.bound_vao = h;
        self.trace.push(TraceEvent::BindVertexArray { handle: h });
    }

    /// Declare how the bytes of the buffer bound to the array slot map
    /// onto attribute `index` of the bound vertex-array object. Both
    /// binds must have happened first.
    pub fn vertex_attrib_pointer(
        &mut self,
        index: usize,
        size: u32,
        kind: AttribKind,
        normalized: bool,
        stride: u32,
        offset: u32,
    )
        requires
            old(self).wf(),
            old(self).bound_vao != 0,
            old(self).bound_array != 0,
            index < MAX_ATTRIBS,
            1 <= size <= 4,
        ensures
            final(self).wf(),
            same_shaders(*old(self), *final(self)),
            same_programs(*old(self), *final(self)),
            same_buffers(*old(self), *final(self)),
            same_bindings(*old(self), *final(self)),
            same_faults(*old(self), *final(self)),
            same_trace(*old(self), *final(self)),
            updated_only(old(self).vaos@, final(self).vaos@,
                old(self).bound_vao as int - 1),
            updated_only(old(self).vao(old(self).bound_vao).attribs@,
                final(self).vao(old(self).bound_vao).attribs@, index as int),
            final(self).vao(old(self).bound_vao).attribs@[index as int].pointer
                == Option::Some(
                    AttribPointer { size, kind, normalized, stride, offset },
                ),
            final(self).vao(old(self).bound_vao).attribs@[index as int].enabled
                == old(self).vao(old(self).bound_vao).attribs@[index as int].enabled,
    {
        let vi: usize = (self.bound_vao - 1) as usize;
        self.vaos[vi].attribs[index].pointer = Some(AttribPointer {
            size,
            kind,
            normalized,
            stride,
            offset,
        });
    }

    /// Enable attribute `index` of the bound vertex-array object for
    /// drawing. A bind must have happened first.
    pub fn enable_vertex_attrib_array(&mut self, index: usize)
        requires
            old(self).wf(),
            old(self).bound_vao != 0,
            index < MAX_ATTRIBS,
        ensures
            final(self).wf(),
            same_shaders(*old(self), *final(self)),
            same_programs(*old(self), *final(self)),
            same_buffers(*old(self), *final(self)),
            same_bindings(*old(self), *final(self)),
            same_faults(*old(self), *final(self)),
            same_trace(*old(self), *final(self)),
            updated_only(old(self).vaos@, final(self).vaos@,
                old(self).bound_vao as int - 1),
            updated_only(old(self).vao(old(self).bound_vao).attribs@,
                final(self).vao(old(self).bound_vao).attribs@, index as int),
            final(self).vao(old(self).bound_vao).attribs@[index as int].pointer
                == old(self).vao(old(self).bound_vao).attribs@[index as int].pointer,
            final(self).vao(old(self).bound_vao).attribs@[index as int].enabled,
    {
        let vi: usize = (self.bound_vao - 1) as usize;
        self.vaos[vi].attribs[index].enabled = true;
    }

    /// The state a draw call depends on is in place: a live, linked
    /// program is current, a vertex-array object is bound, and every
    /// enabled attribute slot has a declared layout.
    pub open spec fn ready_to_draw(self) -> bool {
        &&& self.current_program != 0
        &&& self.valid_program(self.current_program)
        &&& self.program(self.current_program).alive
        &&& self.program(self.current_program).linked
        &&& self.bound_vao != 0
        &&& self.valid_vao(self.bound_vao)
        &&& forall|i: int|
            0 <= i < self.vao(self.bound_vao).attribs@.len()
                && (#[trigger] self.vao(self.bound_vao).attribs@[i]).enabled
                ==> self.vao(self.bound_vao).attribs@[i].pointer is Some
    }

    /// Issue a draw call over `count` vertices starting at `first`.
    /// Everything a draw reads must be in place; see [`Self::ready_to_draw`].
    pub fn draw_arrays(&mut self, first: u32, count: u32)
        requires
            old(self).wf(),
            old(self).ready_to_draw(),
        ensures
            final(self).wf(),
            same_shaders(*old(self), *final(self)),
            same_programs(*old(self), *final(self)),
            same_buffers(*old(self), *final(self)),
            same_vaos(*old(self), *final(self)),
            same_bindings(*old(self), *final(self)),
            same_faults(*old(self), *final(self)),
            final(self).trace@ == old(self).trace@.push(
                TraceEvent::DrawArrays { first, count },
            ),
    {
        self.trace.push(TraceEvent::DrawArrays { first, count });
    }
}

/// A vertex-array slot exactly as allocation leaves it: the full set of
/// attribute slots, none declared, none enabled.
pub open spec fn fresh_vao(v: VaoSlot) -> bool {
    &&& v.attribs@.len() == MAX_ATTRIBS as int
    &&& forall|j: int| 0 <= j < v.attribs@.len()
        ==> v.attribs@[j] == (AttribSlot { pointer: Option::None, enabled: false })
}

/// A program slot exactly as allocation leaves it.
pub open spec fn fresh_program(pr: ProgramSlot) -> bool {
    &&& pr.attached@ == Seq::<u32>::empty()
    &&& !pr.linked
    &&& pr.log@ == Seq::<char>::empty()
    &&& pr.alive
    &&& !pr.pending_delete
}

/// Number of still-allocated shader objects among the first `n` slots.
pub open spec fn count_live_shaders(s: Seq<ShaderSlot>, n: int) -> int
    decreases n,
{
    if n <= 0 {
        0
    } else {
        count_live_shaders(s, n - 1) + if s[n - 1].alive {
            1int
        } else {
            0int
        }
    }
}

/// Number of still-allocated program objects among the first `n` slots.
pub open spec fn count_live_programs(s: Seq<ProgramSlot>, n: int) -> int
    decreases n,
{
    if n <= 0 {
        0
    } else {
        count_live_programs(s, n - 1) + if s[n - 1].alive {
            1int
        } else {
            0int
        }
    }
}

/// The count of live shaders among `n` slots lies between 0 and `n`.
pub proof fn lemma_count_live_shaders_le(s: Seq<ShaderSlot>, n: int)
    ensures
        0 <= count_live_shaders(s, n) <= if n <= 0 { 0int } else { n },
    decreases n,
{
    if n > 0 {
        lemma_count_live_shaders_le(s, n - 1);
    }
}

/// The count of live programs among `n` slots lies between 0 and `n`.
pub proof fn lemma_count_live_programs_le(s: Seq<ProgramSlot>, n: int)
    ensures
        0 <= count_live_programs(s, n) <= if n <= 0 { 0int } else { n },
    decreases n,
{
    if n > 0 {
        lemma_count_live_programs_le(s, n - 1);
    }
}

/// Two shader tables that agree on which of their first `n` slots are
/// alive have the same live count there.
pub proof fn lemma_count_live_shaders_alive_eq(s1: Seq<ShaderSlot>, s2: Seq<ShaderSlot>, n: int)
    requires
        forall|j: int| 0 <= j < n ==> s1[j].alive == s2[j].alive,
    ensures
        count_live_shaders(s1, n) == count_live_shaders(s2, n),
    decreases n,
{
    if n > 0 {
        lemma_count_live_shaders_alive_eq(s1, s2, n - 1);
    }
}

/// Two program tables that agree on which of their first `n` slots are
/// alive have the same live count there.
pub proof fn lemma_count_live_programs_alive_eq(s1: Seq<ProgramSlot>, s2: Seq<ProgramSlot>, n: int)
    requires
        forall|j: int| 0 <= j < n ==> s1[j].alive == s2[j].alive,
    ensures
        count_live_programs(s1, n) == count_live_programs(s2, n),
    decreases n,
{
    if n > 0 {
        lemma_count_live_programs_alive_eq(s1, s2, n - 1);
    }
}

/// Changing the liveness of slot `i` alone moves the live-shader count
/// by exactly the difference at `i`.
pub proof fn lemma_count_live_shaders_update(
    s1: Seq<ShaderSlot>,
    s2: Seq<ShaderSlot>,
    n: int,
    i: int,
)
    requires
        0 <= i < n,
        forall|j: int| 0 <= j < n && j != i ==> s1[j].alive == s2[j].alive,
    ensures
        count_live_shaders(s2, n) == count_live_shaders(s1, n) - (if s1[i].alive {
            1int
        } else {
            0int
        }) + (if s2[i].alive {
            1int
        } else {
            0int
        }),
    decreases n,
{
    if i == n - 1 {
        lemma_count_live_shaders_alive_eq(s1, s2, n - 1);
    } else {
        lemma_count_live_shaders_update(s1, s2, n - 1, i);
    }
}

/// Changing the liveness of slot `i` alone moves the live-program count
/// by exactly the difference at `i`.
pub proof fn lemma_count_live_programs_update(
    s1: Seq<ProgramSlot>,
    s2: Seq<ProgramSlot>,
    n: int,
    i: int,
)
    requires
        0 <= i < n,
        forall|j: int| 0 <= j < n && j != i ==> s1[j].alive == s2[j].alive,
    ensures
        count_live_programs(s2, n) == count_live_programs(s1, n) - (if s1[i].alive {
            1int
        } else {
            0int
        }) + (if s2[i].alive {
            1int
        } else {
            0int
        }),
    decreases n,
{
    if i == n - 1 {
        lemma_count_live_programs_alive_eq(s1, s2, n - 1);
    } else {
        lemma_count_live_programs_update(s1, s2, n - 1, i);
    }
}

impl GlDriver {
    /// Number of shader handles currently allocated: the model's
    /// handle-allocation counter for shader objects.
    pub open spec fn live_shaders(self) -> int {
        count_live_shaders(self.shaders@, self.shaders@.len() as int)
    }

    /// Number of program handles currently allocated (a program whose
    /// deletion is deferred still counts until it is released).
    pub open spec fn live_programs(self) -> int {
        count_live_programs(self.programs@, self.programs@.len() as int)
    }

    /// Count the shader handles currently allocated.
    pub fn live_shader_count(&self) -> (n: usize)
        ensures
            n as int == self.live_shaders(),
    {
        proof {
            lemma_count_live_shaders_le(self.shaders@, self.shaders@.len() as int);
        }
        let mut n: usize = 0;
        let mut i: usize = 0;
        while i < self.shaders.len()
            invariant
                i <= self.shaders@.len(),
                n as int == count_live_shaders(self.shaders@, i as int),
                n <= i,
            decreases self.shaders@.len() - i as int,
        {
            if self.shaders[i].alive {
                n = n + 1;
            }
            i = i + 1;
        }
        n
    }

    /// Count the program handles currently allocated.
    pub fn live_program_count(&self) -> (n: usize)
        ensures
            n as int == self.live_programs(),
    {
        proof {
            lemma_count_live_programs_le(self.programs@, self.programs@.len() as int);
        }
        let mut n: usize = 0;
        let mut i: usize = 0;
        while i < self.programs.len()
            invariant
                i <= self.programs@.len(),
                n as int == count_live_programs(self.programs@, i as int),
                n <= i,
            decreases self.programs@.len() - i as int,
        {
            if self.programs[i].alive {
                n = n + 1;
            }
            i = i + 1;
        }
        n
    }
}

/// The fixed text of the model driver's failed-compile diagnostic.
fn compile_failure_message() -> (s: String)
    ensures
        s@ == compile_diag(),
{
    "shader compilation failed".to_owned()
}

/// The fixed text of the model driver's failed-link diagnostic.
fn link_failure_message() -> (s: String)
    ensures
        s@ == link_diag(),
{
    "program linking failed".to_owned()
}

} // verus!
