//! The boundary with the `image` crate.
//!
//! Everything in this module is believed, not proved: the type declarations,
//! the names for what an image holds, and the contracts of the wrappers. The
//! rest of the library is verified against these contracts.

use crate::geometry::distance;
use crate::geometry::greater;
use crate::geometry::lesser;
use image::imageops::FilterType;
use image::DynamicImage;
use image::GenericImageView;
use vstd::prelude::*;

verus! {

/// Makes `image::DynamicImage` known to the verifier as an opaque value.
#[verifier::external_type_specification]
#[verifier::external_body]
pub struct ExDynamicImage(image::DynamicImage);

/// Makes `image::imageops::FilterType`, a plain list of resampling filters,
/// known to the verifier.
#[verifier::external_type_specification]
pub struct ExFilterType(image::imageops::FilterType);

/// Width and height of an image, in pixels, as `GenericImageView::dimensions`
/// reports them.
pub uninterp spec fn image_dimensions(img: DynamicImage) -> (u32, u32);

/// The pixels of an image: each position `(x, y)` with `x` below the width
/// and `y` below the height maps to the four channels (red, green, blue,
/// alpha) that `GenericImageView::get_pixel(x, y)` returns for the image.
pub uninterp spec fn image_pixels(img: DynamicImage) -> Map<(int, int), (u8, u8, u8, u8)>;

/// The dimensions of what `DynamicImage::resize` returns for an image of
/// `width` by `height` pixels that is asked to fit `nwidth` by `nheight`.
/// The crate computes them in floating point from these four numbers alone.
pub uninterp spec fn resize_dimensions(width: u32, height: u32, nwidth: u32, nheight: u32) -> (
    u32,
    u32,
);

/// The longest side, of an image or of a target, that the resampling of the
/// `image` crate is trusted with: two to the power of twenty.
pub const SIDE_LIMIT: u32 = 1_048_576;

/// Whether a buffer of `width` by `height` pixels can be allocated whatever
/// the pixel type: the widest one takes sixteen bytes, and no allocation may
/// exceed `isize::MAX` bytes.
pub open spec fn buffer_fits(width: int, height: int) -> bool {
    16 * (width * height) <= isize::MAX
}

/// Whether an image of the given size can be handed to the resampling of the
/// `image` crate with the targets `nwidth` by `nheight`. Either the targets
/// are the size itself, for which the crate copies the image; or no side and
/// no target is longer than `SIDE_LIMIT`, and the two buffers that the crate
/// allocates fit: one as wide as the image and as high as the target, one
/// of the target's size, a target of zero counting as one.
pub open spec fn resize_is_safe(size: (u32, u32), nwidth: u32, nheight: u32) -> bool {
    ||| (nwidth, nheight) == size
    ||| {
        &&& size.0 <= SIDE_LIMIT
        &&& size.1 <= SIDE_LIMIT
        &&& nwidth <= SIDE_LIMIT
        &&& nheight <= SIDE_LIMIT
        &&& buffer_fits(size.0 as int, greater(nheight as int, 1))
        &&& buffer_fits(greater(nwidth as int, 1), greater(nheight as int, 1))
    }
}

/// Calls `GenericImageView::dimensions` on the image. The contract claims
/// that the pair returned is the one the name `image_dimensions` stands for.
#[verifier::external_body]
pub(crate) fn dimensions(img: &DynamicImage) -> (dims: (u32, u32))
    ensures
        dims == image_dimensions(*img),
{
    img.dimensions()
}

/// Calls `DynamicImage::crop_imm`. The contract claims what the crate's
/// source shows: the origin is first limited to the image's width and
/// height, the size to what is left from that origin, and the result holds
/// a copy of each pixel of that region.
#[verifier::external_body]
pub(crate) fn crop_imm(img: &DynamicImage, x: u32, y: u32, width: u32, height: u32) -> (out:
    DynamicImage)
    ensures
        image_dimensions(out).0 == lesser(
            width as int,
            image_dimensions(*img).0 - lesser(x as int, image_dimensions(*img).0 as int),
        ),
        image_dimensions(out).1 == lesser(
            height as int,
            image_dimensions(*img).1 - lesser(y as int, image_dimensions(*img).1 as int),
        ),
        forall|i: int, j: int|
            0 <= i < image_dimensions(out).0 && 0 <= j < image_dimensions(out).1
                ==> #[trigger] image_pixels(out)[(i, j)] == image_pixels(*img)[(
                lesser(x as int, image_dimensions(*img).0 as int) + i,
                lesser(y as int, image_dimensions(*img).1 as int) + j,
            )],
{
    img.crop_imm(x, y, width, height)
}

/// Calls `DynamicImage::resize`, which keeps the aspect ratio.
///
/// The contract is claimed for the Lanczos filter of window 3 alone, and
/// leaves out two kinds of input on which the crate panics.
/// - Targets for which its buffers cannot be allocated.
/// - Sides that its sampling cannot place. For each pixel of the result the
///   crate computes in `f32` the point of the image under it, `(x + 0.5) *
///   side / target`, and weighs the pixels within three pixels (or three
///   times the ratio) of that point. Up to `SIDE_LIMIT` a side, a target and
///   `x + 0.5` are exact in `f32`; the quotient and the product round once
///   each, so the point is off by less than `side / 2^23`, an eighth of a
///   pixel. The pixel under the exact point is then at most 0.625 away from
///   the computed one, inside the window, with a weight above 0.4, and the
///   weights of the window add up to a positive number. Beyond the limit
///   the computed point can leave the image: the window then holds one pixel
///   of weight zero, the crate divides zero by zero, and the conversion of
///   the result to a whole number panics (so it does for an image
///   60,000,000 wide and a target width of 119,999,992).
///
/// For a call that it admits the contract claims: the result has the
/// dimensions that the name `resize_dimensions` stands for; neither exceeds
/// its target, a target of zero counting as one; both are at least one
/// unless the targets are the image's own size; for an image with a pixel
/// one of them equals its target; the width times the image's height and
/// the height times the image's width differ by at most the longer side of
/// the image (the side that meets its target is the image's side times the
/// common factor exactly, the other is that product rounded or raised to
/// one); and when the targets are the image's own size the result is a copy.
///
/// Nothing is claimed of the resampled pixels. They are no function of the
/// arguments that could be named: the kernel calls `f32::sin`, whose
/// precision std leaves open. So no clause tells this filter from another.
#[verifier::external_body]
pub(crate) fn resize(
    img: &DynamicImage,
    nwidth: u32,
    nheight: u32,
    filter: FilterType,
) -> (out: DynamicImage)
    requires
        filter is Lanczos3,
        resize_is_safe(image_dimensions(*img), nwidth, nheight),
    ensures
        image_dimensions(out) == resize_dimensions(
            image_dimensions(*img).0,
            image_dimensions(*img).1,
            nwidth,
            nheight,
        ),
        image_dimensions(out).0 <= greater(nwidth as int, 1),
        image_dimensions(out).1 <= greater(nheight as int, 1),
        (nwidth, nheight) != image_dimensions(*img) ==> (image_dimensions(out).0 >= 1
            && image_dimensions(out).1 >= 1),
        image_dimensions(*img).0 >= 1 && image_dimensions(*img).1 >= 1 ==> (image_dimensions(
            out,
        ).0 == greater(nwidth as int, 1) || image_dimensions(out).1 == greater(nheight as int, 1)),
        distance(
            image_dimensions(out).0 * image_dimensions(*img).1,
            image_dimensions(out).1 * image_dimensions(*img).0,
        ) <= greater(image_dimensions(*img).0 as int, image_dimensions(*img).1 as int),
        (nwidth, nheight) == image_dimensions(*img) ==> image_dimensions(out) == (nwidth, nheight),
        (nwidth, nheight) == image_dimensions(*img) ==> forall|i: int, j: int|
            0 <= i < nwidth && 0 <= j < nheight ==> #[trigger] image_pixels(out)[(i, j)]
                == image_pixels(*img)[(i, j)],
{
    img.resize(nwidth, nheight, filter)
}

/// Calls `DynamicImage::resize_exact`, which ignores the aspect ratio.
///
/// The contract is claimed for the Lanczos filter of window 3 alone, and
/// leaves out the inputs that `resize` leaves out, for the reasons given
/// there: the crate samples the rows and the columns in the same way. It
/// claims: the result has exactly the dimensions asked for, and when they
/// are the image's own the result is a copy.
///
/// Nothing is claimed of the resampled pixels, as for `resize`.
#[verifier::external_body]
pub(crate) fn resize_exact(
    img: &DynamicImage,
    nwidth: u32,
    nheight: u32,
    filter: FilterType,
) -> (out: DynamicImage)
    requires
        filter is Lanczos3,
        resize_is_safe(image_dimensions(*img), nwidth, nheight),
    ensures
        image_dimensions(out) == (nwidth, nheight),
        (nwidth, nheight) == image_dimensions(*img) ==> forall|i: int, j: int|
            0 <= i < nwidth && 0 <= j < nheight ==> #[trigger] image_pixels(out)[(i, j)]
                == image_pixels(*img)[(i, j)],
{
    img.resize_exact(nwidth, nheight, filter)
}

} // verus!
