//! The surface that the context presents to.

use vstd::prelude::*;
use crate::error::{ApiResult, EngineError};

verus! {

/// The presentation surface of a context, by its handle.
#[derive(Clone, Copy, Debug, PartialEq, Eq, Structural)]
pub struct SurfaceHandle {
    pub surface: u64,
}

impl SurfaceHandle {
    /// Takes over the surface that was created for the window, or passes on
    /// why it was not.
    pub fn new(created: Result<u64, ApiResult>) -> (outcome: Result<SurfaceHandle, EngineError>)
        ensures
            outcome == match created {
                Ok(surface) => Ok::<_, EngineError>(SurfaceHandle { surface }),
                Err(result) => Err(EngineError::VulkanApiError(result)),
            },
    {
        match created {
            Ok(surface) => Ok(SurfaceHandle { surface }),
            Err(result) => Err(EngineError::VulkanApiError(result)),
        }
    }
}

} // verus!
