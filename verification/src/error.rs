use vstd::prelude::*;

verus! {

/// The error taxonomy of the pipeline: a shader failed to compile, a
/// program failed to link, or no usable rendering surface was available.
/// Compile and link errors carry the driver-reported diagnostic text and
/// are returned to the top-level caller rather than aborting.
#[derive(Debug)]
pub enum GlError {
    ShaderCompile { log: String },
    ProgramLink { log: String },
    SurfaceAcquisition { reason: String },
}

impl GlError {
    /// The diagnostic text carried by the error.
    pub open spec fn spec_message(self) -> Seq<char> {
        match self {
            GlError::ShaderCompile { log } => log@,
            GlError::ProgramLink { log } => log@,
            GlError::SurfaceAcquisition { reason } => reason@,
        }
    }

    pub fn message(&self) -> (m: String)
        ensures
            m@ == self.spec_message(),
    {
        match self {
            GlError::ShaderCompile { log } => log.clone(),
            GlError::ProgramLink { log } => log.clone(),
            GlError::SurfaceAcquisition { reason } => reason.clone(),
        }
    }
}

} // verus!
