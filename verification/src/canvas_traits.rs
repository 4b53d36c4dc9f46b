//! Canvas capabilities shared by canvas implementations.

use vstd::prelude::*;

verus! {

/// Screenshot and pixel reading capabilities.
///
/// Reading back rendered frames from the GPU is separate from rendering
/// because not every rendering context supports or needs it.
pub trait ScreenshotCanvas {
    /// The frame/texture type used by this canvas.
    type Frame<'a> where Self: 'a;

    /// Copies the current frame to an internal readback texture.
    ///
    /// This is a prerequisite for `read_pixels()` and should be called after
    /// rendering is complete but before the frame is presented.
    fn copy_frame_to_readback(&self, frame: &Self::Frame<'_>);

    /// Reads pixels from the readback texture into `out`: RGB data, three
    /// bytes per pixel, in bottom-to-top row order. `out` is cleared and
    /// ends up `width * height * 3` bytes long.
    fn read_pixels(&self, out: &mut Vec<u8>, x: usize, y: usize, width: usize, height: usize)
        requires
            width * height * 3 <= usize::MAX,
        ensures
            final(out)@.len() == width * height * 3,
    ;
}

} // verus!
