//! A verified model of a minimal OpenGL-style shader pipeline: a shared
//! handle to a table of resolved graphics entry points, a device that owns
//! shader and program objects, and the compile/link lifecycle around them.
//!
//! The device is a faithful model of the driver side of the pipeline: object
//! identifiers are non-zero and never reused, a shader object is compiled
//! from stored source text, and a program object links exactly one ready
//! vertex stage with one ready fragment stage. Every state transition is
//! specified and proved, so a `Shader` or `Program` value can only ever
//! refer to a successfully built object.
use vstd::prelude::*;

pub mod data;
pub mod device;
pub mod handle;
pub mod program;
pub mod resources;
pub mod shader;
pub mod text;

pub use device::GlDevice;
pub use device::Phase;
pub use device::ShaderKind;
pub use handle::Gl;
pub use program::Program;
pub use resources::Resources;
pub use shader::Shader;

verus! {

/// Everything that can go wrong while building a shader or a program.
#[derive(Debug)]
pub enum Error {
    /// The resource collaborator could not produce the named source text.
    ResourceLoad { name: String, inner: resources::ResourceError },
    /// The resource name carries neither a vertex nor a fragment suffix.
    CanNotDetermineShaderTypeForResource { name: String },
    /// The device rejected the shader source; `message` is the device's
    /// diagnostic log.
    CompileError { name: String, message: String },
    /// The device rejected the program; `message` is the device's
    /// diagnostic log.
    LinkError { name: String, message: String },
}

} // verus!
