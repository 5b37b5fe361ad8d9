//! Options for image rendering.
use vstd::prelude::*;

verus! {

/// Textures above this size (width or height, in texels) should be cropped.
pub fn default_crop_threshold() -> (t: u32)
    ensures
        t == 6000,
{
    6000
}

/// How texels are sampled when a texture is drawn larger or smaller than its size.
#[derive(Debug, Clone, Copy, PartialEq, Eq, Structural)]
pub enum SamplingFilter {
    /// Sharp texels: take the nearest one.
    Nearest,
    /// Linear interpolation of neighbouring texels.
    Linear,
}

/// Options for image rendering.
#[derive(Debug, Clone, Copy, PartialEq, Eq, Structural)]
pub enum TextureFilter {
    /// Linearly interpolate texels.
    /// Default option for smooth antialiased visualization.
    Smooth,
    /// Show texels as sharp squares.
    /// Useful when grid map image cells are investigated.
    Crisp,
    /// Chooses the best option based on the number of pixels per texel:
    /// Crisp when magnified, Smooth when minified.
    Auto,
}

impl TextureFilter {
    /// The sampling filters for magnification and minification, in this order.
    pub fn filters(self) -> (f: (SamplingFilter, SamplingFilter))
        ensures
            f == match self {
                TextureFilter::Smooth => (SamplingFilter::Linear, SamplingFilter::Linear),
                TextureFilter::Crisp => (SamplingFilter::Nearest, SamplingFilter::Nearest),
                TextureFilter::Auto => (SamplingFilter::Nearest, SamplingFilter::Linear),
            },
    {
        match self {
            TextureFilter::Smooth => (SamplingFilter::Linear, SamplingFilter::Linear),
            TextureFilter::Crisp => (SamplingFilter::Nearest, SamplingFilter::Nearest),
            TextureFilter::Auto => (SamplingFilter::Nearest, SamplingFilter::Linear),
        }
    }
}

impl Default for TextureFilter {
    /// `Auto` is the default.
    fn default() -> (f: TextureFilter)
        ensures
            f == TextureFilter::Auto,
    {
        TextureFilter::Auto
    }
}

} // verus!
