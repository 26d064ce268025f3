//! Stream descriptors and video frame rescalers for compressed audio/video
//! containers, with their contracts stated and proved.
//!
//! The native side of a stream is held as plain values (`NativeStream`); a
//! rescaler checks every frame against its fixed source shape before the
//! conversion engine would see it.
use vstd::prelude::*;

pub mod error;
pub mod scaler;
pub mod stream;
pub mod time;

pub use error::Error;
pub use scaler::{
    Algorithm, PixelFormat, ScalerConfig, VideoFrame, VideoFrameScaler, VideoFrameScalerBuilder,
};
pub use stream::{
    CodecParameters, FrameRate, NativeStream, SideData, SideDataIter, SideDataType, Stream,
};
pub use time::{TimeBase, Timestamp};

verus! {

} // verus!
