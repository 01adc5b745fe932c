//! Grayscale image buffers built from decoded pixel bytes.
//!
//! The buffer type of the image crate cannot be declared to the verifier (its
//! declaration carries an outside trait bound), so a frame holds it in an
//! opaque struct, and names for its pixel contents and dimensions let the
//! callers' contracts speak of it.

use vstd::prelude::*;

verus! {

/// One grayscale image: a width, a height, and `width * height` pixel bytes
/// in row-major order. The underlying image-crate buffer is reachable through
/// the public field for unverified callers.
#[verifier::external_body]
pub struct GrayFrame {
    /// The underlying image buffer.
    pub image: image::ImageBuffer<image::Luma<u8>, Vec<u8>>,
}

/// The pixel bytes a frame holds, in row-major order.
pub uninterp spec fn gray_pixels(f: GrayFrame) -> Seq<u8>;

/// The width a frame was built with.
pub uninterp spec fn gray_width(f: GrayFrame) -> u32;

/// The height a frame was built with.
pub uninterp spec fn gray_height(f: GrayFrame) -> u32;

/// Relies on the image crate's `ImageBuffer::from_raw`: for the one-channel
/// `u8` pixel it returns `Some` exactly when the container holds at least
/// `width * height` subpixels, and the returned buffer stores the given
/// width, height and container unchanged. With an exact-length buffer the
/// constructor therefore cannot fail.
#[verifier::external_body]
pub(crate) fn gray_from_exact(width: u32, height: u32, buf: Vec<u8>) -> (r: GrayFrame)
    requires
        buf@.len() == width as nat * height as nat,
    ensures
        gray_width(r) == width,
        gray_height(r) == height,
        gray_pixels(r) == buf@,
{
    GrayFrame { image: image::GrayImage::from_raw(width, height, buf).unwrap() }
}

impl GrayFrame {
    /// Relies on the image crate's `ImageBuffer::dimensions`, which returns
    /// the width and height the buffer was constructed with.
    #[verifier::external_body]
    pub fn dimensions(&self) -> (r: (u32, u32))
        ensures
            r.0 == gray_width(*self),
            r.1 == gray_height(*self),
    {
        self.image.dimensions()
    }

    /// Relies on the image crate's `ImageBuffer::into_raw`, which returns the
    /// container the buffer was constructed over, unchanged.
    #[verifier::external_body]
    pub fn into_raw(self) -> (r: Vec<u8>)
        ensures
            r@ == gray_pixels(self),
    {
        self.image.into_raw()
    }
}

} // verus!
