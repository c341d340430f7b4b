//! Choice of rendering backend.

use vstd::prelude::*;

verus! {

/// Largest iteration count that a GPU compute shader is trusted to finish
/// within the driver's timeout on a mid-range GPU at preview resolution.
pub const GPU_MAX_SAFE_ITERATIONS: u32 = 500_000;

/// Backend that computes the iteration counts of a render.
#[derive(Debug, Clone, Copy, PartialEq, Eq, Structural)]
pub enum RenderBackend {
    /// CPU rendering parallelised over rows.
    Cpu,
}

impl Default for RenderBackend {
    fn default() -> (r: Self)
        ensures
            r == RenderBackend::Cpu,
    {
        RenderBackend::Cpu
    }
}

impl RenderBackend {
    /// Every backend available in this build.
    pub fn all() -> (r: Vec<RenderBackend>)
        ensures
            r@ == seq![RenderBackend::Cpu],
    {
        let r = vec![RenderBackend::Cpu];
        assert(r@ =~= seq![RenderBackend::Cpu]);
        r
    }

    /// Display name of the backend.
    pub fn as_str(&self) -> (r: &'static str)
        ensures
            r@ == "CPU"@,
    {
        match self {
            RenderBackend::Cpu => "CPU",
        }
    }
}

} // verus!
