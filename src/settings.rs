use vstd::prelude::*;

verus! {

/// Why a set of render settings was refused.
#[derive(Clone, Copy, Debug, PartialEq, Eq, Structural)]
pub enum SettingsError {
    /// The image has no pixels: its width or its height is zero.
    EmptyImage,
    /// No sample would be taken per pixel.
    NoSamples,
}

/// The settings of a render, checked before any ray is traced: an image of
/// `width` by `height` pixels, `samples` rays per pixel.
#[derive(Clone, Copy, Debug, PartialEq, Eq, Structural)]
pub struct RenderSettings {
    width: u32,
    height: u32,
    samples: u32,
}

impl RenderSettings {
    pub closed spec fn spec_width(self) -> nat {
        self.width as nat
    }

    pub closed spec fn spec_height(self) -> nat {
        self.height as nat
    }

    pub closed spec fn spec_samples(self) -> nat {
        self.samples as nat
    }

    /// Every dimension and the sample count are positive.
    pub open spec fn wf(self) -> bool {
        &&& self.spec_width() > 0
        &&& self.spec_height() > 0
        &&& self.spec_samples() > 0
    }

    /// The settings, or the reason they are refused: an empty image first,
    /// then a zero sample count.
    pub fn new(width: u32, height: u32, samples: u32) -> (r: Result<RenderSettings, SettingsError>)
        ensures
            r is Ok <==> width > 0 && height > 0 && samples > 0,
            r == Err::<RenderSettings, SettingsError>(SettingsError::EmptyImage) <==> width == 0
                || height == 0,
            r == Err::<RenderSettings, SettingsError>(SettingsError::NoSamples) <==> width > 0
                && height > 0 && samples == 0,
            r matches Ok(s) ==> {
                &&& s.wf()
                &&& s.spec_width() == width
                &&& s.spec_height() == height
                &&& s.spec_samples() == samples
            },
    {
        if width == 0 || height == 0 {
            Err(SettingsError::EmptyImage)
        } else if samples == 0 {
            Err(SettingsError::NoSamples)
        } else {
            Ok(RenderSettings { width, height, samples })
        }
    }

    pub fn width(&self) -> (r: u32)
        ensures
            r == self.spec_width(),
    {
        self.width
    }

    pub fn height(&self) -> (r: u32)
        ensures
            r == self.spec_height(),
    {
        self.height
    }

    pub fn samples(&self) -> (r: u32)
        ensures
            r == self.spec_samples(),
    {
        self.samples
    }

    /// The number of pixels of the image.
    pub fn pixel_count(&self) -> (r: u64)
        ensures
            r == self.spec_width() * self.spec_height(),
    {
        assert(self.width as int * self.height as int <= u32::MAX as int * u32::MAX as int)
            by (nonlinear_arith);
        self.width as u64 * self.height as u64
    }
}

} // verus!
