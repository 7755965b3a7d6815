use vstd::prelude::*;
use crate::image::Size;

verus! {

/// A configuration that cannot produce an image.
#[derive(Debug, Clone, Copy, PartialEq, Eq, Structural)]
pub enum ConfigError {
    /// The image is zero pixels wide.
    ZeroWidth,
    /// A side of the aspect ratio is zero.
    DegenerateAspectRatio,
    /// The aspect ratio leaves the image less than one pixel high.
    ZeroHeight,
    /// The image has more pixels than can be addressed.
    TooLarge,
    /// No samples would be drawn for a pixel.
    NoSamples,
}

/// The height, in whole pixels, of an image `width` pixels wide with the
/// aspect ratio `aspect_width : aspect_height`: the exact quotient, rounded
/// down.
pub open spec fn height_for(width: nat, aspect_width: nat, aspect_height: nat) -> nat
    recommends
        aspect_width > 0,
{
    width * aspect_height / aspect_width
}

/// The size of an image `width` pixels wide whose width and height stand in
/// the ratio `aspect_width : aspect_height`, or why there is none.
pub fn image_size(width: usize, aspect_width: usize, aspect_height: usize) -> (r: Result<
    Size,
    ConfigError,
>)
    ensures
        width == 0 ==> r == Err::<Size, ConfigError>(ConfigError::ZeroWidth),
        width > 0 && (aspect_width == 0 || aspect_height == 0) ==> r == Err::<Size, ConfigError>(
            ConfigError::DegenerateAspectRatio,
        ),
        width > 0 && aspect_width > 0 && aspect_height > 0 ==> {
            let h = height_for(width as nat, aspect_width as nat, aspect_height as nat);
            &&& h == 0 ==> r == Err::<Size, ConfigError>(ConfigError::ZeroHeight)
            &&& h > 0 && width * h > usize::MAX ==> r == Err::<Size, ConfigError>(
                ConfigError::TooLarge,
            )
            &&& h > 0 && width * h <= usize::MAX ==> r == Ok::<Size, ConfigError>(
                Size { width, height: h as usize },
            )
        },
{
    if width == 0 {
        return Err(ConfigError::ZeroWidth);
    }
    if aspect_width == 0 || aspect_height == 0 {
        return Err(ConfigError::DegenerateAspectRatio);
    }
    let w = width as u128;
    proof {
        assert(w * (aspect_height as u128) <= u128::MAX) by (nonlinear_arith)
            requires
                w <= u64::MAX,
                aspect_height <= u64::MAX,
        ;
    }
    let h = w * (aspect_height as u128) / (aspect_width as u128);
    if h == 0 {
        return Err(ConfigError::ZeroHeight);
    }
    if h > usize::MAX as u128 {
        proof {
            assert(width * h > usize::MAX) by (nonlinear_arith)
                requires
                    width >= 1,
                    h > usize::MAX,
            ;
        }
        return Err(ConfigError::TooLarge);
    }
    let height = h as usize;
    match width.checked_mul(height) {
        Some(_) => Ok(Size { width, height }),
        None => Err(ConfigError::TooLarge),
    }
}

/// How many samples are averaged into each pixel, and how many bounces each
/// light path may take before it counts as black.
#[derive(Debug, Clone, Copy, PartialEq, Eq, Structural)]
pub struct RenderSettings {
    samples_per_pixel: usize,
    max_depth: usize,
}

impl RenderSettings {
    /// At least one sample is drawn for each pixel.
    #[verifier::type_invariant]
    spec fn inv(&self) -> bool {
        self.samples_per_pixel > 0
    }

    pub closed spec fn samples_spec(&self) -> usize {
        self.samples_per_pixel
    }

    pub closed spec fn depth_spec(&self) -> usize {
        self.max_depth
    }

    /// Settings that draw `samples_per_pixel` samples per pixel and follow
    /// each path for at most `max_depth` bounces; at least one sample is
    /// needed to average.
    pub fn new(samples_per_pixel: usize, max_depth: usize) -> (r: Result<
        RenderSettings,
        ConfigError,
    >)
        ensures
            samples_per_pixel == 0 <==> r == Err::<RenderSettings, ConfigError>(
                ConfigError::NoSamples,
            ),
            samples_per_pixel > 0 ==> (r matches Ok(s) && s.samples_spec() == samples_per_pixel
                && s.depth_spec() == max_depth),
    {
        if samples_per_pixel == 0 {
            Err(ConfigError::NoSamples)
        } else {
            Ok(RenderSettings { samples_per_pixel, max_depth })
        }
    }

    pub fn samples_per_pixel(&self) -> (r: usize)
        ensures
            r == self.samples_spec(),
            r > 0,
    {
        proof {
            use_type_invariant(self);
        }
        self.samples_per_pixel
    }

    pub fn max_depth(&self) -> (r: usize)
        ensures
            r == self.depth_spec(),
    {
        self.max_depth
    }
}

} // verus!
