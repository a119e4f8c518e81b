//! Error kinds and their severity.
//!
//! Failures fall in two classes.  Setup failures (no usable presentation
//! format, queue family or memory type; a missing or malformed shader
//! binary) are unconditionally fatal: the process aborts with a diagnostic
//! and nothing is retried.  Runtime-loop failures (a failed image
//! acquisition or presentation) break out of the frame loop gracefully and
//! are followed by a full resource teardown; they end the session without an
//! abrupt abort.  Writing past a frame slot's fixed capacity is unrecoverable
//! under this design, so it aborts like a setup failure.

use vstd::prelude::*;

verus! {

/// Every failure the rendering core can report.
#[derive(Clone, Copy, Debug, PartialEq, Eq, Structural)]
pub enum RenderError {
    /// The surface offers no presentation format the pipeline can use.
    UnsupportedPresentationFormat,
    /// No physical device has a queue family that can draw and present.
    NoCompatibleQueueFamily,
    /// No memory type is both allowed for the buffers and host-coherent.
    NoSuitableMemoryType,
    /// A shader binary's byte length is not a multiple of the word size.
    ShaderNotWordAligned,
    /// A shader binary holds no words at all.
    ShaderEmpty,
    /// A shader binary's first word is not the standard binary-shader magic.
    ShaderBadMagic,
    /// The geometry does not fit a frame slot's fixed-capacity regions.
    FrameCapacityExceeded,
    /// Acquiring the next presentable image failed.
    AcquireFailed,
    /// Presenting the finished frame failed.
    PresentFailed,
}

/// What a failure does to the session.
#[derive(Clone, Copy, Debug, PartialEq, Eq, Structural)]
pub enum FailureClass {
    /// Abort the process with a diagnostic; nothing was set up to tear down.
    FatalAbort,
    /// Break the frame loop, tear every resource down, then exit cleanly.
    GracefulTeardown,
}

/// The class of each failure: acquire and present failures end the session
/// gracefully; every other failure is fatal.
pub open spec fn spec_classify(e: RenderError) -> FailureClass {
    match e {
        RenderError::AcquireFailed => FailureClass::GracefulTeardown,
        RenderError::PresentFailed => FailureClass::GracefulTeardown,
        _ => FailureClass::FatalAbort,
    }
}

/// The class of each failure: acquire and present failures end the session
/// gracefully; every other failure is fatal.
#[verifier::when_used_as_spec(spec_classify)]
pub fn classify(e: RenderError) -> (c: FailureClass)
    ensures
        c == spec_classify(e),
{
    match e {
        RenderError::AcquireFailed => FailureClass::GracefulTeardown,
        RenderError::PresentFailed => FailureClass::GracefulTeardown,
        _ => FailureClass::FatalAbort,
    }
}

} // verus!
