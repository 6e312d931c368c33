//! Errors of the build stages.
use vstd::prelude::*;
use crate::handles::Release;
use crate::shaders::BytecodeFault;

verus! {

/// A platform or device capability that is missing.
#[derive(Clone, Copy, Debug, PartialEq, Eq, Structural)]
pub enum SupportIssue {
    /// The surface could not be created for the window; the status code.
    SurfaceUnavailable(i32),
    /// No enumerated accelerator passed every check.
    NoSuitableDevice,
}

/// One variant per failing native operation; status codes are raw API values.
#[derive(Clone, Copy, Debug, PartialEq, Eq, Structural)]
pub enum RenderingError {
    LoadLibraryError,
    CreateEntryError,
    SupportError(SupportIssue),
    CreateInstanceError(i32),
    ChoosePhysicalDeviceError(i32),
    CreateLogicalDeviceError(i32),
    CreateSwapChainError(i32),
    LoadShadersError(BytecodeFault),
    CreateShaderModuleError(i32),
    CreateRenderPassError(i32),
    CreatePipelineLayoutError(i32),
    BuildPipelinesError(i32),
    CreateFrameBufferError(i32),
    CreateCommandPoolError(i32),
    CreateCommandBufferError(i32),
    CreateSyncObjectsError(i32),
}

pub type RqResult<T> = Result<T, RenderingError>;

/// A stage failed: its error, and the destroy calls, in order, for what the
/// stage itself had created before the failure.
#[derive(Debug)]
pub struct BuildFailure {
    pub error: RenderingError,
    pub release: Vec<Release>,
}

} // verus!
