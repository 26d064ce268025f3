//! Video frames and the validated frame rescaler.
use vstd::prelude::*;

use crate::error::Error;
use crate::time::TimeBase;

verus! {

/// A pixel format, identified by its raw code; negative codes denote no format.
#[derive(Debug, Clone, Copy, PartialEq, Eq, Structural)]
pub struct PixelFormat {
    pub raw: i32,
}

impl PixelFormat {
    /// Whether the code names an actual format.
    pub open spec fn is_valid(&self) -> bool {
        self.raw >= 0
    }

    /// Create a pixel format from its raw code.
    pub fn from_raw(raw: i32) -> (r: PixelFormat)
        ensures
            r.raw == raw,
    {
        PixelFormat { raw }
    }

    /// Get the raw code.
    pub fn into_raw(self) -> (r: i32)
        ensures
            r == self.raw,
    {
        self.raw
    }
}

/// A decoded video frame, as seen by the rescaler: its shape and time base.
#[derive(Debug, Clone, Copy, PartialEq, Eq, Structural)]
pub struct VideoFrame {
    pub pixel_format: PixelFormat,
    pub width: usize,
    pub height: usize,
    pub time_base: TimeBase,
}

impl VideoFrame {
    /// Create a frame description.
    pub fn new(pixel_format: PixelFormat, width: usize, height: usize, time_base: TimeBase) -> (r:
        VideoFrame)
        ensures
            r == (VideoFrame { pixel_format, width, height, time_base }),
    {
        VideoFrame { pixel_format, width, height, time_base }
    }

    /// Get the pixel format.
    pub fn pixel_format(&self) -> (r: PixelFormat)
        ensures
            r == self.pixel_format,
    {
        self.pixel_format
    }

    /// Get the width in pixels.
    pub fn width(&self) -> (r: usize)
        ensures
            r == self.width,
    {
        self.width
    }

    /// Get the height in pixels.
    pub fn height(&self) -> (r: usize)
        ensures
            r == self.height,
    {
        self.height
    }

    /// Get the time base.
    pub fn time_base(&self) -> (r: TimeBase)
        ensures
            r == self.time_base,
    {
        self.time_base
    }
}

/// Scaling algorithm.
#[derive(Debug, Clone, Copy, PartialEq, Eq, Structural)]
pub enum Algorithm {
    FastBilinear,
    Bilinear,
    Bicubic,
    Experimental,
    Point,
    Area,
    BicubicLinear,
    Gauss,
    Sinc,
    Lanczos,
    Spline,
}

/// The flag that selects an algorithm in the conversion engine.
pub open spec fn algorithm_flag(a: Algorithm) -> i32 {
    match a {
        Algorithm::FastBilinear => 0x1,
        Algorithm::Bilinear => 0x2,
        Algorithm::Bicubic => 0x4,
        Algorithm::Experimental => 0x8,
        Algorithm::Point => 0x10,
        Algorithm::Area => 0x20,
        Algorithm::BicubicLinear => 0x40,
        Algorithm::Gauss => 0x80,
        Algorithm::Sinc => 0x100,
        Algorithm::Lanczos => 0x200,
        Algorithm::Spline => 0x400,
    }
}

impl Algorithm {
    /// Get the engine flag of the algorithm.
    pub fn flag(self) -> (r: i32)
        ensures
            r == algorithm_flag(self),
    {
        match self {
            Algorithm::FastBilinear => 0x1,
            Algorithm::Bilinear => 0x2,
            Algorithm::Bicubic => 0x4,
            Algorithm::Experimental => 0x8,
            Algorithm::Point => 0x10,
            Algorithm::Area => 0x20,
            Algorithm::BicubicLinear => 0x40,
            Algorithm::Gauss => 0x80,
            Algorithm::Sinc => 0x100,
            Algorithm::Lanczos => 0x200,
            Algorithm::Spline => 0x400,
        }
    }
}

/// The settings a builder has collected so far.
pub ghost struct BuilderView {
    pub source_format: Option<PixelFormat>,
    pub source_width: usize,
    pub source_height: usize,
    pub target_format: Option<PixelFormat>,
    pub target_width: usize,
    pub target_height: usize,
    pub algorithm: Algorithm,
}

/// The fixed mapping a rescaler performs: source shape to target shape.
#[derive(Debug, Clone, Copy, PartialEq, Eq, Structural)]
pub struct ScalerConfig {
    pub source_format: PixelFormat,
    pub source_width: usize,
    pub source_height: usize,
    pub target_format: PixelFormat,
    pub target_width: usize,
    pub target_height: usize,
    pub algorithm: Algorithm,
}

/// Whether an optional format names an actual format.
pub open spec fn format_set(f: Option<PixelFormat>) -> bool {
    f is Some && f->0.is_valid()
}

/// The target format a builder resolves to: the source format unless one is given.
pub open spec fn resolved_target(b: BuilderView) -> Option<PixelFormat> {
    if b.target_format is Some {
        b.target_format
    } else {
        b.source_format
    }
}

/// What building from the given settings yields: the first failed check, in a
/// fixed order, or the rescaler's mapping.
pub open spec fn build_outcome(b: BuilderView) -> Result<ScalerConfig, Error> {
    if !format_set(b.source_format) {
        Err(Error::InvalidSourceFormat)
    } else if !format_set(resolved_target(b)) {
        Err(Error::InvalidTargetFormat)
    } else if b.source_width < 1 {
        Err(Error::InvalidSourceWidth)
    } else if b.source_height < 1 {
        Err(Error::InvalidSourceHeight)
    } else if b.target_width < 1 {
        Err(Error::InvalidTargetWidth)
    } else if b.target_height < 1 {
        Err(Error::InvalidTargetHeight)
    } else {
        Ok(
            ScalerConfig {
                source_format: b.source_format->0,
                source_width: b.source_width,
                source_height: b.source_height,
                target_format: resolved_target(b)->0,
                target_width: b.target_width,
                target_height: b.target_height,
                algorithm: b.algorithm,
            },
        )
    }
}

/// What scaling a frame yields: a mismatch error, checked in a fixed order, or
/// a frame of the target shape in the input's time base.
pub open spec fn scale_outcome(c: ScalerConfig, f: VideoFrame) -> Result<VideoFrame, Error> {
    if c.source_width != f.width {
        Err(Error::FrameWidthMismatch)
    } else if c.source_height != f.height {
        Err(Error::FrameHeightMismatch)
    } else if c.source_format != f.pixel_format {
        Err(Error::FramePixelFormatMismatch)
    } else {
        Ok(
            VideoFrame {
                pixel_format: c.target_format,
                width: c.target_width,
                height: c.target_height,
                time_base: f.time_base,
            },
        )
    }
}

/// Builder for a video frame scaler.
pub struct VideoFrameScalerBuilder {
    sformat: Option<PixelFormat>,
    swidth: usize,
    sheight: usize,
    tformat: Option<PixelFormat>,
    twidth: usize,
    theight: usize,
    algorithm: Algorithm,
}

impl View for VideoFrameScalerBuilder {
    type V = BuilderView;

    closed spec fn view(&self) -> BuilderView {
        BuilderView {
            source_format: self.sformat,
            source_width: self.swidth,
            source_height: self.sheight,
            target_format: self.tformat,
            target_width: self.twidth,
            target_height: self.theight,
            algorithm: self.algorithm,
        }
    }
}

impl VideoFrameScalerBuilder {
    /// Create a builder with nothing set and the bicubic algorithm.
    fn new() -> (r: Self)
        ensures
            r@ == (BuilderView {
                source_format: None,
                source_width: 0,
                source_height: 0,
                target_format: None,
                target_width: 0,
                target_height: 0,
                algorithm: Algorithm::Bicubic,
            }),
    {
        VideoFrameScalerBuilder {
            sformat: None,
            swidth: 0,
            sheight: 0,
            tformat: None,
            twidth: 0,
            theight: 0,
            algorithm: Algorithm::Bicubic,
        }
    }

    /// Set source pixel format.
    pub fn source_pixel_format(self, format: PixelFormat) -> (r: Self)
        ensures
            r@ == (BuilderView { source_format: Some(format), ..self@ }),
    {
        VideoFrameScalerBuilder { sformat: Some(format), ..self }
    }

    /// Set source frame width.
    pub fn source_width(self, width: usize) -> (r: Self)
        ensures
            r@ == (BuilderView { source_width: width, ..self@ }),
    {
        VideoFrameScalerBuilder { swidth: width, ..self }
    }

    /// Set source frame height.
    pub fn source_height(self, height: usize) -> (r: Self)
        ensures
            r@ == (BuilderView { source_height: height, ..self@ }),
    {
        VideoFrameScalerBuilder { sheight: height, ..self }
    }

    /// Set target pixel format. The default is equal to the source format.
    pub fn target_pixel_format(self, format: PixelFormat) -> (r: Self)
        ensures
            r@ == (BuilderView { target_format: Some(format), ..self@ }),
    {
        VideoFrameScalerBuilder { tformat: Some(format), ..self }
    }

    /// Set target frame width.
    pub fn target_width(self, width: usize) -> (r: Self)
        ensures
            r@ == (BuilderView { target_width: width, ..self@ }),
    {
        VideoFrameScalerBuilder { twidth: width, ..self }
    }

    /// Set target frame height.
    pub fn target_height(self, height: usize) -> (r: Self)
        ensures
            r@ == (BuilderView { target_height: height, ..self@ }),
    {
        VideoFrameScalerBuilder { theight: height, ..self }
    }

    /// Set scaling algorithm. The default is bicubic.
    pub fn algorithm(self, algorithm: Algorithm) -> (r: Self)
        ensures
            r@ == (BuilderView { algorithm, ..self@ }),
    {
        VideoFrameScalerBuilder { algorithm, ..self }
    }

    /// Build the video frame scaler, reporting the first setting that fails
    /// its check.
    pub fn build(self) -> (r: Result<VideoFrameScaler, Error>)
        ensures
            match r {
                Ok(s) => build_outcome(self@) == Ok::<ScalerConfig, Error>(s@),
                Err(e) => build_outcome(self@) == Err::<ScalerConfig, Error>(e),
            },
    {
        let tformat = match self.tformat {
            Some(f) => Some(f),
            None => self.sformat,
        };
        let sformat = match self.sformat {
            Some(f) if f.raw >= 0 => f,
            _ => {
                return Err(Error::InvalidSourceFormat);
            },
        };
        let tformat = match tformat {
            Some(f) if f.raw >= 0 => f,
            _ => {
                return Err(Error::InvalidTargetFormat);
            },
        };
        if self.swidth < 1 {
            return Err(Error::InvalidSourceWidth);
        } else if self.sheight < 1 {
            return Err(Error::InvalidSourceHeight);
        } else if self.twidth < 1 {
            return Err(Error::InvalidTargetWidth);
        } else if self.theight < 1 {
            return Err(Error::InvalidTargetHeight);
        }
        let config = ScalerConfig {
            source_format: sformat,
            source_width: self.swidth,
            source_height: self.sheight,
            target_format: tformat,
            target_width: self.twidth,
            target_height: self.theight,
            algorithm: self.algorithm,
        };
        Ok(VideoFrameScaler { config })
    }
}

/// Video frame scaler: a fixed mapping from one frame shape to another.
pub struct VideoFrameScaler {
    config: ScalerConfig,
}

impl View for VideoFrameScaler {
    type V = ScalerConfig;

    closed spec fn view(&self) -> ScalerConfig {
        self.config
    }
}

impl VideoFrameScaler {
    /// Get a frame scaler builder.
    pub fn builder() -> (r: VideoFrameScalerBuilder)
        ensures
            r@ == (BuilderView {
                source_format: None,
                source_width: 0,
                source_height: 0,
                target_format: None,
                target_width: 0,
                target_height: 0,
                algorithm: Algorithm::Bicubic,
            }),
    {
        VideoFrameScalerBuilder::new()
    }

    /// Get the mapping the scaler performs.
    pub fn config(&self) -> (r: ScalerConfig)
        ensures
            r == self@,
    {
        self.config
    }

    /// Settle a scaler once the conversion engine was asked for a context
    /// with its settings: a refused request is reported as an error.
    pub fn engine_created(self, created: bool) -> (r: Result<VideoFrameScaler, Error>)
        ensures
            created ==> r is Ok && r->Ok_0@ == self@,
            !created ==> r == Err::<VideoFrameScaler, Error>(Error::ScalerCreation),
    {
        if created {
            Ok(self)
        } else {
            Err(Error::ScalerCreation)
        }
    }

    /// Scale a given frame. A frame whose shape differs from the source shape
    /// is refused with the error that names the first difference.
    pub fn scale(&mut self, frame: &VideoFrame) -> (r: Result<VideoFrame, Error>)
        ensures
            final(self)@ == old(self)@,
            r == scale_outcome(old(self)@, *frame),
    {
        if self.config.source_width != frame.width {
            return Err(Error::FrameWidthMismatch);
        } else if self.config.source_height != frame.height {
            return Err(Error::FrameHeightMismatch);
        } else if self.config.source_format != frame.pixel_format {
            return Err(Error::FramePixelFormatMismatch);
        }
        Ok(
            VideoFrame {
                pixel_format: self.config.target_format,
                width: self.config.target_width,
                height: self.config.target_height,
                time_base: frame.time_base,
            },
        )
    }
}

/// The target format was either left unset or set to an actual format.
pub open spec fn target_format_ok(b: BuilderView) -> bool {
    b.target_format is None || format_set(b.target_format)
}

/// Leaving out one mandatory setting, with every other one given, fails with
/// the error that names it; giving all of them and no target format builds a
/// scaler whose target format is the source format.
pub proof fn lemma_build_names_missing_setting(b: BuilderView)
    ensures
        b.source_format is None ==> build_outcome(b) == Err::<ScalerConfig, Error>(
            Error::InvalidSourceFormat,
        ),
        format_set(b.source_format) && target_format_ok(b) && b.source_width == 0
            ==> build_outcome(b) == Err::<ScalerConfig, Error>(Error::InvalidSourceWidth),
        format_set(b.source_format) && target_format_ok(b) && b.source_width >= 1
            && b.source_height == 0 ==> build_outcome(b) == Err::<ScalerConfig, Error>(
            Error::InvalidSourceHeight,
        ),
        format_set(b.source_format) && target_format_ok(b) && b.source_width >= 1
            && b.source_height >= 1 && b.target_width == 0 ==> build_outcome(b) == Err::<
            ScalerConfig,
            Error,
        >(Error::InvalidTargetWidth),
        format_set(b.source_format) && target_format_ok(b) && b.source_width >= 1
            && b.source_height >= 1 && b.target_width >= 1 && b.target_height == 0
            ==> build_outcome(b) == Err::<ScalerConfig, Error>(Error::InvalidTargetHeight),
        format_set(b.source_format) && b.target_format is None && b.source_width >= 1
            && b.source_height >= 1 && b.target_width >= 1 && b.target_height >= 1
            ==> build_outcome(b) is Ok && build_outcome(b)->Ok_0.target_format
            == b.source_format->0,
{
}

/// A frame whose width, height or pixel format differs from the scaler's
/// source shape is refused with the error naming the first difference, and
/// a frame that matches is scaled to the target shape in its own time base.
pub proof fn lemma_scale_checks_shape(c: ScalerConfig, f: VideoFrame)
    ensures
        c.source_width != f.width ==> scale_outcome(c, f) == Err::<VideoFrame, Error>(
            Error::FrameWidthMismatch,
        ),
        c.source_width == f.width && c.source_height != f.height ==> scale_outcome(c, f) == Err::<
            VideoFrame,
            Error,
        >(Error::FrameHeightMismatch),
        c.source_width == f.width && c.source_height == f.height && c.source_format
            != f.pixel_format ==> scale_outcome(c, f) == Err::<VideoFrame, Error>(
            Error::FramePixelFormatMismatch,
        ),
        c.source_width == f.width && c.source_height == f.height && c.source_format
            == f.pixel_format ==> scale_outcome(c, f) is Ok && scale_outcome(c, f)->Ok_0.time_base
            == f.time_base && scale_outcome(c, f)->Ok_0.pixel_format == c.target_format
            && scale_outcome(c, f)->Ok_0.width == c.target_width && scale_outcome(c, f)->Ok_0.height
            == c.target_height,
{
}

} // verus!
