//! Screenshots of the application window.
use vstd::prelude::*;

use crate::image::{crop, is_crop_of, Image};

verus! {

/// Which part of the window a screenshot shows.
#[derive(Debug, Clone, Copy, PartialEq, Eq, Structural)]
pub enum Viewport {
    /// The whole window.
    Full,
    /// Only the central canvas.
    Clipped,
}

impl Viewport {
    /// Display name of the viewport.
    pub fn name(&self) -> (s: String)
        ensures
            s@ == match *self {
                Viewport::Full => "Full"@,
                Viewport::Clipped => "Clipped"@,
            },
    {
        match self {
            Viewport::Full => String::from_str("Full"),
            Viewport::Clipped => String::from_str("Clipped"),
        }
    }
}


/// The image that a screenshot of `viewport` keeps of the `captured` window: all of it, or
/// for the canvas the part under its clip rectangle, given in physical pixels by its corner
/// (`clip_x`, `clip_y`) and size `clip_width` x `clip_height`.
pub fn screenshot_image(
    captured: Image,
    viewport: Viewport,
    clip_x: u32,
    clip_y: u32,
    clip_width: u32,
    clip_height: u32,
) -> (out: Image)
    ensures
        viewport == Viewport::Full ==> out@ == captured@,
        viewport == Viewport::Clipped ==> is_crop_of(
            out@,
            captured@,
            clip_x as int,
            clip_y as int,
            clip_width as int,
            clip_height as int,
        ),
{
    match viewport {
        Viewport::Full => captured,
        Viewport::Clipped => crop(&captured, clip_x, clip_y, clip_width, clip_height),
    }
}

} // verus!
