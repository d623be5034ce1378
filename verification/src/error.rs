//! Why an upscale operation did not produce an image.

use vstd::prelude::*;
use crate::steps::{component_of, Component, Step};

verus! {

/// The failure of an upscale operation. Every failure is final: nothing is
/// retried.
#[derive(Clone, Copy, Debug, PartialEq, Eq, Structural)]
pub enum UpscaleError {
    /// The input path does not name an existing file.
    InputMissing,
    /// The factor lies outside the accepted range; the value is attached.
    InvalidFactor(u32),
    /// The application reported that the step failed, or answered it with
    /// an event that does not belong to it.
    StepFailed(Step),
    /// No enumerated device has a queue family with compute capability and
    /// at least one queue.
    NoComputeDevice,
    /// No memory type satisfies both the requirement mask and the host
    /// visible and host coherent properties.
    NoCompatibleMemory,
    /// The decoded pixel data does not have four bytes per pixel.
    BadPixelData,
    /// The upscaled image cannot be addressed on this machine.
    ImageTooLarge,
}

/// The classes of failure.
#[derive(Clone, Copy, Debug, PartialEq, Eq, Structural)]
pub enum ErrorKind {
    /// Rejected input, before any GPU resource is touched.
    Validation,
    /// The driver or the device context could not be set up.
    Context,
    /// A buffer, its memory or a dispatch object could not be had.
    Resource,
    /// The source could not be decoded or the result not written.
    Io,
}

/// The class a failure belongs to.
pub open spec fn kind_of(error: UpscaleError) -> ErrorKind {
    match error {
        UpscaleError::InputMissing => ErrorKind::Validation,
        UpscaleError::InvalidFactor(_) => ErrorKind::Validation,
        UpscaleError::StepFailed(step) => match component_of(step) {
            Component::Context => ErrorKind::Context,
            Component::Buffers => ErrorKind::Resource,
            Component::Dispatch => ErrorKind::Resource,
            Component::Codec => ErrorKind::Io,
        },
        UpscaleError::NoComputeDevice => ErrorKind::Context,
        UpscaleError::NoCompatibleMemory => ErrorKind::Resource,
        UpscaleError::BadPixelData => ErrorKind::Io,
        UpscaleError::ImageTooLarge => ErrorKind::Resource,
    }
}

impl UpscaleError {
    /// The class the failure belongs to.
    pub fn kind(&self) -> (kind: ErrorKind)
        ensures
            kind == kind_of(*self),
    {
        match self {
            UpscaleError::InputMissing => ErrorKind::Validation,
            UpscaleError::InvalidFactor(_) => ErrorKind::Validation,
            UpscaleError::StepFailed(step) => match step.component() {
                Component::Context => ErrorKind::Context,
                Component::Buffers => ErrorKind::Resource,
                Component::Dispatch => ErrorKind::Resource,
                Component::Codec => ErrorKind::Io,
            },
            UpscaleError::NoComputeDevice => ErrorKind::Context,
            UpscaleError::NoCompatibleMemory => ErrorKind::Resource,
            UpscaleError::BadPixelData => ErrorKind::Io,
            UpscaleError::ImageTooLarge => ErrorKind::Resource,
        }
    }
}

} // verus!
