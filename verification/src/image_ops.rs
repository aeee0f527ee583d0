//! Cropping and resizing of whole images.

use crate::geometry::cut_extent;
use crate::geometry::fits_box;
use crate::geometry::greater;
use crate::geometry::keeps_proportions;
use crate::geometry::lesser;
use crate::geometry::touches_box;
use crate::raster::buffer_fits;
use crate::raster::crop_imm;
use crate::raster::dimensions;
use crate::raster::image_dimensions;
use crate::raster::image_pixels;
use crate::raster::resize;
use crate::raster::resize_dimensions;
use crate::raster::resize_is_safe;
use crate::raster::SIDE_LIMIT;
use image::imageops::FilterType;
use image::DynamicImage;
use vstd::prelude::*;

verus! {

/// The size of what is cut out of an image of the given dimensions at
/// (`x`, `y`) over `w` by `h` pixels.
pub open spec fn cut_size(dims: (u32, u32), x: u32, y: u32, w: u32, h: u32) -> (u32, u32) {
    (cut_extent(dims.0, x, w) as u32, cut_extent(dims.1, y, h) as u32)
}

/// Whether an image of the given dimensions can be cut at (`x`, `y`) over
/// `w` by `h` pixels and the cut then resized to fit `new_w` by `new_h`:
/// whether the cut and the targets are within what the resampling is
/// trusted with.
pub open spec fn crop_and_resize_fits(
    dims: (u32, u32),
    x: u32,
    y: u32,
    w: u32,
    h: u32,
    new_w: u32,
    new_h: u32,
) -> bool {
    resize_is_safe(cut_size(dims, x, y, w, h), new_w, new_h)
}

/// Tells whether a buffer of `width` by `height` pixels can be allocated.
pub fn fits_in_buffer(width: u32, height: u32) -> (ok: bool)
    ensures
        ok == buffer_fits(width as int, height as int),
{
    assert(width * height <= 0xffff_ffff * 0xffff_ffff) by (nonlinear_arith)
        requires
            width <= 0xffff_ffff,
            height <= 0xffff_ffff,
    ;
    let pixels: u128 = width as u128 * height as u128;
    let bytes: u128 = 16u128 * pixels;
    bytes <= isize::MAX as u128
}

/// The count `n`, or one where it is zero.
fn at_least_one(n: u32) -> (m: u32)
    ensures
        m == greater(n as int, 1),
{
    if n == 0 {
        1
    } else {
        n
    }
}

/// Tells whether an image of `width` by `height` pixels can be resized to
/// the targets `nwidth` by `nheight`: whether the targets are its own size,
/// or all four are within the side limit and the buffers can be allocated.
pub fn can_be_resized(width: u32, height: u32, nwidth: u32, nheight: u32) -> (ok: bool)
    ensures
        ok == resize_is_safe((width, height), nwidth, nheight),
{
    if nwidth == width && nheight == height {
        true
    } else {
        width <= SIDE_LIMIT && height <= SIDE_LIMIT && nwidth <= SIDE_LIMIT && nheight
            <= SIDE_LIMIT && fits_in_buffer(width, at_least_one(nheight)) && fits_in_buffer(
            at_least_one(nwidth),
            at_least_one(nheight),
        )
    }
}

/// The extent that is left of `wanted` pixels along one axis of
/// `available` pixels from `origin` on.
fn cut_along(available: u32, origin: u32, wanted: u32) -> (kept: u32)
    ensures
        kept == cut_extent(available, origin, wanted),
{
    let start: u32 = if origin < available {
        origin
    } else {
        available
    };
    if wanted < available - start {
        wanted
    } else {
        available - start
    }
}

/// Whether `out` is what cutting `img` at (`x`, `y`) over `w` by `h` pixels
/// and resizing the cut to fit `new_w` by `new_h` gives. It has the
/// dimensions that the resize gives for the cut. They fit the targets, a
/// target of zero counting as one; they are at least one each unless the
/// targets are the cut's own size; for a cut with a pixel they reach one of
/// the targets; and they have the proportions of the cut within a pixel.
/// Where the targets are the cut's own size, the result is the cut itself,
/// pixel for pixel.
pub open spec fn is_cut_and_resized(
    out: DynamicImage,
    img: DynamicImage,
    x: u32,
    y: u32,
    w: u32,
    h: u32,
    new_w: u32,
    new_h: u32,
) -> bool {
    let cut = cut_size(image_dimensions(img), x, y, w, h);
    &&& image_dimensions(out) == resize_dimensions(cut.0, cut.1, new_w, new_h)
    &&& fits_box(image_dimensions(out), (new_w, new_h))
    &&& (new_w, new_h) != cut ==> image_dimensions(out).0 >= 1 && image_dimensions(out).1 >= 1
    &&& cut.0 >= 1 && cut.1 >= 1 ==> touches_box(image_dimensions(out), (new_w, new_h))
    &&& keeps_proportions(image_dimensions(out), cut)
    &&& (new_w, new_h) == cut ==> {
        &&& image_dimensions(out) == (new_w, new_h)
        &&& forall|i: int, j: int|
            0 <= i < new_w && 0 <= j < new_h ==> #[trigger] image_pixels(out)[(i, j)]
                == image_pixels(img)[(
                lesser(x as int, image_dimensions(img).0 as int) + i,
                lesser(y as int, image_dimensions(img).1 as int) + j,
            )]
    }
}

/// Cuts the region at (`x`, `y`) of `w` by `h` pixels out of `img`, limited
/// to what the image holds, and resizes the cut to fit within `new_w` by
/// `new_h` while keeping its aspect ratio, with the Lanczos filter of
/// window 3.
pub fn crop_and_resize(
    img: &DynamicImage,
    x: u32,
    y: u32,
    w: u32,
    h: u32,
    new_w: u32,
    new_h: u32,
) -> (out: DynamicImage)
    requires
        crop_and_resize_fits(image_dimensions(*img), x, y, w, h, new_w, new_h),
    ensures
        is_cut_and_resized(out, *img, x, y, w, h, new_w, new_h),
{
    let cropped = crop_imm(img, x, y, w, h);
    resize(&cropped, new_w, new_h, FilterType::Lanczos3)
}

/// Does what `crop_and_resize` does where the cut and the targets are
/// within what the resampling is trusted with, and returns `None` where
/// they are not.
pub fn try_crop_and_resize(
    img: &DynamicImage,
    x: u32,
    y: u32,
    w: u32,
    h: u32,
    new_w: u32,
    new_h: u32,
) -> (out: Option<DynamicImage>)
    ensures
        out is Some <==> crop_and_resize_fits(image_dimensions(*img), x, y, w, h, new_w, new_h),
        out matches Some(resized) ==> is_cut_and_resized(resized, *img, x, y, w, h, new_w, new_h),
{
    let (width, height): (u32, u32) = dimensions(img);
    let across: u32 = cut_along(width, x, w);
    let down: u32 = cut_along(height, y, h);
    if can_be_resized(across, down, new_w, new_h) {
        Some(crop_and_resize(img, x, y, w, h, new_w, new_h))
    } else {
        None
    }
}

} // verus!
