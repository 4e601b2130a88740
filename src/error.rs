use vstd::prelude::*;

use crate::resource::Format;

verus! {

/// Every way in which one engine operation can fail.
#[derive(Debug, Clone, Copy, PartialEq, Eq, Structural)]
pub enum EngineError {
    NoDeviceAvailable,
    NoSuitableQueueFamily,
    AllocationFailed { width: u32, height: u32, format: Format },
    ShaderCompilationFailed,
    IncompatiblePipelineState,
    BindingMismatch,
    RecordingFailed,
    SubmissionFailed,
    DeviceLost,
    TimeoutExceeded,
}

} // verus!
