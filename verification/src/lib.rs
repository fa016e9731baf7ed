//! Verified core of a small graphics pipeline: GPU object lifecycle
//! (shaders, programs, buffers, vertex-array state), the shader
//! compile/link protocol with its error taxonomy, and the bind-before-use
//! discipline for buffer uploads.
//!
//! The driver itself is modelled by [`driver::GlDriver`], a pure in-memory
//! double of the graphics driver's observable state. Every component is
//! specified and verified against that model, so the resource-lifecycle
//! logic (no zero handles, no leaks on failure paths, bind discipline) is
//! checked without a live rendering context. A thin unverified shell can
//! then replay the same call sequence against the native API.

use vstd::prelude::*;

pub mod buffers;
pub mod driver;
pub mod pipeline;
pub mod shader_program;
pub mod shaders;
pub mod vertex_array;

verus! {

/// How a GPU-object operation can fail.
///
/// Every fallible constructor in this library reports one of these;
/// nothing is ever terminated from inside the library.
#[derive(Debug)]
pub enum GlError {
    /// The driver returned a zero handle for a new object.
    AllocationFailure,
    /// A shader stage rejected its source text; carries the stage and the
    /// full diagnostic log the driver reported for it.
    CompileError { stage: crate::shaders::ShaderType, log: String },
    /// Program linking failed; carries the link diagnostic log.
    LinkError { log: String },
}

} // verus!
