//! Scaling a frame and reducing it to gray. Both are done by the `image`
//! crate; this module states what the rest of the library relies on.

use vstd::prelude::*;
use crate::frame::{channel_is_zero, Frame, Pixel};
use crate::tone::{LEVEL_SCALE, WEIGHT_BLUE, WEIGHT_GREEN, WEIGHT_RED};

verus! {

/// The 8-bit luma of a pixel: the weighted sum of red, green and blue,
/// rounded down to a whole channel step. Alpha plays no part.
pub open spec fn luma_of(p: Pixel) -> u8 {
    ((WEIGHT_RED * p.r + WEIGHT_GREEN * p.g + WEIGHT_BLUE * p.b) / (LEVEL_SCALE as int)) as u8
}

/// The largest width or height, of a source or of a result, that scaling
/// is asked for: one less than 2^23.
pub const MAX_DIMENSION: u32 = 8_388_607;

/// Whether a source of `src_width` by `src_height` pixels can be scaled to
/// `width` by `height`. No dimension is above `MAX_DIMENSION`, so that the
/// filter's coordinates, which are single-precision floats, stay within a
/// pixel of where they belong. And the buffers can be allocated at all: the
/// result, at four bytes a pixel, and the intermediate image of `src_width`
/// by `height` pixels, at sixteen bytes a pixel.
pub open spec fn scalable(src_width: int, src_height: int, width: int, height: int) -> bool {
    &&& src_width <= MAX_DIMENSION
    &&& src_height <= MAX_DIMENSION
    &&& width <= MAX_DIMENSION
    &&& height <= MAX_DIMENSION
    &&& 16 * (src_width * height) <= isize::MAX
    &&& 4 * (width * height) <= isize::MAX
}

/// Calls `image::imageops::resize` with the `Lanczos3` filter on the frame's
/// pixels.
///
/// The contract claims that the result has exactly the dimensions asked
/// for, with four bytes for each pixel; that a frame which already has those
/// dimensions is copied unchanged; and that a channel which is zero in every
/// pixel of the frame is zero in every pixel of the result, since each
/// result value is a sum of source values times finite weights. Nothing else
/// is claimed about the resampled values: the filter weighs pixels by a sine
/// computed in floating point, whose last digits the standard library leaves
/// open, so the values are not treated as a function of the input.
///
/// Sizes above `MAX_DIMENSION` are left out because of how the filter finds
/// the source pixels for a result pixel. It computes the centre of the
/// result pixel in source coordinates as a single-precision float, takes the
/// source pixels within three filter widths of it, held to the image, and
/// divides their weights by the sum of the weights. From 2^24 on, pixel
/// positions are no longer exact as such floats, and the centre can come out
/// so far from every pixel of the image that all weights are zero; the
/// division then yields no number and the conversion to a byte fails. Up to
/// `MAX_DIMENSION` a position and a half is exact, the centre is off by
/// less than a pixel, and the pixel of the image nearest to it lies within
/// the filter's main lobe, where the weight is well above what the two
/// negative lobes can take away, so the sum is not zero.
#[verifier::external_body]
pub(crate) fn resample(frame: &Frame, width: u32, height: u32) -> (scaled: Frame)
    requires
        frame.wf(),
        height >= 1,
        scalable(frame.width as int, frame.height as int, width as int, height as int),
    ensures
        scaled.wf(),
        scaled.width == width,
        scaled.height == height,
        width == frame.width && height == frame.height ==> scaled.data@ == frame.data@,
        forall|index: int|
            0 <= index < 4 && #[trigger] channel_is_zero(frame@, index) ==> channel_is_zero(
                scaled@,
                index,
            ),
{
    let source = image::ImageBuffer::<image::Rgba<u8>, &[u8]>::from_raw(
        frame.width,
        frame.height,
        &frame.data[..],
    ).unwrap();
    let filter = image::imageops::FilterType::Lanczos3;
    let scaled = image::imageops::resize(&source, width, height, filter);
    Frame { width, height, data: scaled.into_raw() }
}

/// Calls `image::imageops::grayscale` on the frame's pixels. The contract
/// claims that the result holds one byte for each pixel, in the same order,
/// and that each byte is the pixel's luma as `luma_of` defines it. A frame
/// without columns is left out: on one with two rows or more the walk over
/// its pixels steps outside the image.
#[verifier::external_body]
pub(crate) fn luma_plane(frame: &Frame) -> (plane: Vec<u8>)
    requires
        frame.wf(),
        frame.width > 0,
    ensures
        plane@.len() == frame@.pixels.len(),
        forall|i: int| 0 <= i < plane@.len() ==> plane@[i] == luma_of(#[trigger] frame@.pixels[i]),
{
    let source = image::ImageBuffer::<image::Rgba<u8>, &[u8]>::from_raw(
        frame.width,
        frame.height,
        &frame.data[..],
    ).unwrap();
    image::imageops::grayscale(&source).into_raw()
}

} // verus!
