//! Errors reported by stream descriptors and frame rescalers.
use vstd::prelude::*;

verus! {

/// A recoverable error, with its named cause.
#[derive(Debug, Clone, Copy, PartialEq, Eq, Structural)]
pub enum Error {
    /// The source pixel format of a rescaler is unset or invalid.
    InvalidSourceFormat,
    /// The resolved target pixel format of a rescaler is invalid.
    InvalidTargetFormat,
    /// The source width of a rescaler is less than one.
    InvalidSourceWidth,
    /// The source height of a rescaler is less than one.
    InvalidSourceHeight,
    /// The target width of a rescaler is less than one.
    InvalidTargetWidth,
    /// The target height of a rescaler is less than one.
    InvalidTargetHeight,
    /// The conversion engine could not create a scaling context.
    ScalerCreation,
    /// A frame's width differs from the rescaler's source width.
    FrameWidthMismatch,
    /// A frame's height differs from the rescaler's source height.
    FrameHeightMismatch,
    /// A frame's pixel format differs from the rescaler's source format.
    FramePixelFormatMismatch,
    /// A metadata key holds a NUL character.
    InvalidMetadataKey,
    /// A metadata value holds a NUL character.
    InvalidMetadataValue,
    /// The native side refused an operation with the given error code.
    Native(i32),
}

/// The message that describes an error.
pub open spec fn error_message(e: Error) -> &'static str {
    match e {
        Error::InvalidSourceFormat => "invalid source format",
        Error::InvalidTargetFormat => "invalid target format",
        Error::InvalidSourceWidth => "invalid source width",
        Error::InvalidSourceHeight => "invalid source height",
        Error::InvalidTargetWidth => "invalid target width",
        Error::InvalidTargetHeight => "invalid target height",
        Error::ScalerCreation => "unable to create a frame scaler",
        Error::FrameWidthMismatch => "frame width does not match",
        Error::FrameHeightMismatch => "frame height does not match",
        Error::FramePixelFormatMismatch => "frame pixel format does not match",
        Error::InvalidMetadataKey => "invalid metadata key",
        Error::InvalidMetadataValue => "invalid metadata value",
        Error::Native(_) => "native operation failed",
    }
}

impl Error {
    /// Get the message that describes the error.
    pub fn message(&self) -> (r: &'static str)
        ensures
            r == error_message(*self),
    {
        match self {
            Error::InvalidSourceFormat => "invalid source format",
            Error::InvalidTargetFormat => "invalid target format",
            Error::InvalidSourceWidth => "invalid source width",
            Error::InvalidSourceHeight => "invalid source height",
            Error::InvalidTargetWidth => "invalid target width",
            Error::InvalidTargetHeight => "invalid target height",
            Error::ScalerCreation => "unable to create a frame scaler",
            Error::FrameWidthMismatch => "frame width does not match",
            Error::FrameHeightMismatch => "frame height does not match",
            Error::FramePixelFormatMismatch => "frame pixel format does not match",
            Error::InvalidMetadataKey => "invalid metadata key",
            Error::InvalidMetadataValue => "invalid metadata value",
            Error::Native(_) => "native operation failed",
        }
    }
}

} // verus!
