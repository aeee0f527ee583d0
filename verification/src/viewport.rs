//! The preview of the image on screen: zoom, the scale that fits the image
//! into the preview area, and the way back from a selection on screen to a
//! region of the image.
//!
//! Zoom is kept as a whole number of thousandths, so that every step is
//! exact integer arithmetic.

use crate::division::lemma_floor_bounds;
use crate::division::lemma_floor_is;
use crate::division::lemma_floor_is_monotonic;
use crate::geometry::distance;
use crate::geometry::greater;
use crate::geometry::lesser;
use crate::geometry::ImageRect;
use crate::geometry::ScreenRect;
use vstd::prelude::*;

verus! {

/// The longest side, in points, that the preview may have at zoom one.
pub const PREVIEW_LIMIT: u32 = 800;

/// The zoom at which the preview is shown at its fitted size.
pub const ZOOM_ONE: u32 = 1000;

/// `v` limited to the range of `u32`.
pub open spec fn saturate_u32(v: int) -> int {
    if v < 0 {
        0
    } else if v > u32::MAX {
        u32::MAX as int
    } else {
        v
    }
}

/// The zoom after one step in: the zoom times 1.1, rounded to the nearest
/// thousandth, and held at the largest value that can be stored.
pub open spec fn zoomed_in(zoom: u32) -> u32 {
    lesser((zoom * 11 + 5) / 10, u32::MAX as int) as u32
}

/// The zoom after one step out: the zoom divided by 1.1, rounded to the
/// nearest thousandth.
pub open spec fn zoomed_out(zoom: u32) -> u32 {
    ((zoom * 10 + 5) / 11) as u32
}

/// The zoom as a whole percentage, rounded to the nearest.
pub open spec fn zoom_as_percent(zoom: u32) -> int {
    (zoom * 100 + ZOOM_ONE / 2) / (ZOOM_ONE as int)
}

/// Whether one step in from `zoom` stays below the largest zoom that can be
/// stored.
pub open spec fn zoom_in_is_exact(zoom: u32) -> bool {
    (zoom * 11 + 5) / 10 <= u32::MAX
}

/// Takes one zoom step in. A positive zoom stays positive.
pub fn zoom_in(zoom: u32) -> (next: u32)
    ensures
        next == zoomed_in(zoom),
        next >= zoom,
        zoom > 0 ==> next > 0,
{
    let scaled: u64 = (zoom as u64 * 11 + 5) / 10;
    if scaled > u32::MAX as u64 {
        u32::MAX
    } else {
        scaled as u32
    }
}

/// Takes one zoom step out. A positive zoom stays positive.
pub fn zoom_out(zoom: u32) -> (next: u32)
    ensures
        next == zoomed_out(zoom),
        next <= zoom,
        zoom > 0 ==> next > 0,
{
    ((zoom as u64 * 10 + 5) / 11) as u32
}

/// Gives the zoom as a whole percentage for display.
pub fn zoom_percent(zoom: u32) -> (percent: u32)
    ensures
        percent == zoom_as_percent(zoom),
{
    ((zoom as u64 * 100 + (ZOOM_ONE / 2) as u64) / ZOOM_ONE as u64) as u32
}

/// A step in followed by a step out gives back the zoom it started from,
/// as long as the step in did not hit the largest zoom that can be stored.
pub proof fn lemma_zoom_in_then_out(zoom: u32)
    requires
        zoom_in_is_exact(zoom),
    ensures
        zoomed_out(zoomed_in(zoom)) == zoom,
{
}

/// A step out followed by a step in ends within one thousandth of the zoom
/// it started from.
pub proof fn lemma_zoom_out_then_in(zoom: u32)
    ensures
        distance(zoomed_in(zoomed_out(zoom)) as int, zoom as int) <= 1,
{
}

/// The scale of the preview, in screen points per image pixel: the preview
/// limit over `extent`, times `zoom` thousandths.
#[derive(Clone, Copy, Debug, PartialEq, Eq, Structural)]
pub struct PreviewScale {
    pub zoom: u32,
    pub extent: u32,
}

/// The side to which the preview limit is compared: the longer side of the
/// image, or the limit itself for an image that is smaller.
pub open spec fn fit_extent(width: u32, height: u32) -> int {
    greater(greater(width as int, height as int), PREVIEW_LIMIT as int)
}

impl PreviewScale {
    /// The scale at which an image of `width` by `height` pixels is shown:
    /// the factor that fits its longer side into the preview limit (never
    /// more than one), times the zoom.
    pub open spec fn of(width: u32, height: u32, zoom: u32) -> PreviewScale {
        PreviewScale { zoom, extent: fit_extent(width, height) as u32 }
    }

    /// The scale is the fraction `num() / den()`.
    pub open spec fn num(self) -> int {
        PREVIEW_LIMIT * self.zoom
    }

    /// See `num`.
    pub open spec fn den(self) -> int {
        ZOOM_ONE * self.extent
    }

    /// Whether lengths can be taken both ways between the screen and the
    /// image, which divides by the scale and by its inverse.
    pub open spec fn is_usable(self) -> bool {
        self.zoom > 0 && self.extent > 0
    }

    /// The length on screen, in whole points, of `pixels` image pixels.
    pub open spec fn to_screen(self, pixels: int) -> int {
        pixels * self.num() / self.den()
    }

    /// The length in the image, in whole pixels, of `points` screen points.
    pub open spec fn to_image(self, points: int) -> int {
        points * self.den() / self.num()
    }

    /// The region of the image that `selection` marks when the image is shown
    /// in `preview` at this scale: the selection's origin relative to the
    /// preview's and its size, each divided by the scale. An origin left of
    /// or above the preview becomes zero, and every value is held within
    /// `u32`.
    pub open spec fn region_of(self, preview: ScreenRect, selection: ScreenRect) -> ImageRect {
        ImageRect {
            x: saturate_u32(self.to_image(selection.left - preview.left)) as u32,
            y: saturate_u32(self.to_image(selection.top - preview.top)) as u32,
            width: saturate_u32(self.to_image(selection.width as int)) as u32,
            height: saturate_u32(self.to_image(selection.height as int)) as u32,
        }
    }

    /// Computes the scale for an image of `width` by `height` pixels at the
    /// given zoom. The scale is usable exactly when the zoom is positive.
    pub fn for_image(width: u32, height: u32, zoom: u32) -> (scale: PreviewScale)
        ensures
            scale == PreviewScale::of(width, height, zoom),
            scale.extent >= PREVIEW_LIMIT,
            scale.is_usable() <==> zoom > 0,
    {
        let longer: u32 = if width >= height {
            width
        } else {
            height
        };
        let extent: u32 = if longer >= PREVIEW_LIMIT {
            longer
        } else {
            PREVIEW_LIMIT
        };
        PreviewScale { zoom, extent }
    }

    /// Takes a length in image pixels to screen points, rounding down.
    fn screen_length(&self, pixels: u32) -> (points: u64)
        requires
            self.extent > 0,
        ensures
            points == self.to_screen(pixels as int),
            points <= 0xffff_ffff * 0x320_0000_0000 / 1000,
    {
        proof {
            lemma_scale_fraction(*self);
        }
        let num: u64 = PREVIEW_LIMIT as u64 * self.zoom as u64;
        let den: u64 = ZOOM_ONE as u64 * self.extent as u64;
        assert(0 <= pixels * num <= 0xffff_ffff * 0x320_0000_0000) by (nonlinear_arith)
            requires
                0 <= pixels <= 0xffff_ffff,
                0 <= num <= 0x320_0000_0000,
        ;
        let product: u128 = pixels as u128 * num as u128;
        let quotient: u128 = product / den as u128;
        proof {
            lemma_floor_bounds(product as int, den as int);
            assert(quotient * 1000 <= quotient * den) by (nonlinear_arith)
                requires
                    quotient >= 0,
                    den >= 1000,
            ;
        }
        quotient as u64
    }

    /// Takes a length in screen points to whole image pixels, rounding down:
    /// nothing for a length that is not positive, and at most `u32::MAX`.
    fn image_length(&self, points: i128) -> (pixels: u32)
        requires
            self.is_usable(),
            -0x2_0000_0000_0000_0000 <= points <= 0x2_0000_0000_0000_0000,
        ensures
            pixels == saturate_u32(self.to_image(points as int)),
    {
        proof {
            lemma_scale_fraction(*self);
        }
        let num: u64 = PREVIEW_LIMIT as u64 * self.zoom as u64;
        let den: u64 = ZOOM_ONE as u64 * self.extent as u64;
        if points <= 0 {
            proof {
                assert(points * den <= 0) by (nonlinear_arith)
                    requires
                        points <= 0,
                        den >= 0,
                ;
                lemma_floor_is_monotonic(points as int * den as int, 0, num as int);
            }
            return 0;
        }
        assert(0 <= points * den <= 0x2_0000_0000_0000_0000 * 0x3e8_0000_0000) by (nonlinear_arith)
            requires
                0 <= points <= 0x2_0000_0000_0000_0000,
                0 <= den <= 0x3e8_0000_0000,
        ;
        let product: u128 = points as u128 * den as u128;
        let quotient: u128 = product / num as u128;
        proof {
            lemma_floor_is_monotonic(0, product as int, num as int);
        }
        if quotient > u32::MAX as u128 {
            u32::MAX
        } else {
            quotient as u32
        }
    }

    /// Maps a selection on screen to the region of the image it marks, for
    /// an image shown in `preview` at this scale.
    pub fn map_to_image(&self, preview: ScreenRect, selection: ScreenRect) -> (region: ImageRect)
        requires
            self.is_usable(),
        ensures
            region == self.region_of(preview, selection),
    {
        let across: i128 = selection.left as i128 - preview.left as i128;
        let down: i128 = selection.top as i128 - preview.top as i128;
        ImageRect {
            x: self.image_length(across),
            y: self.image_length(down),
            width: self.image_length(selection.width as i128),
            height: self.image_length(selection.height as i128),
        }
    }
}

/// The two terms of the scale, with the constants written out.
proof fn lemma_scale_fraction(scale: PreviewScale)
    ensures
        scale.num() == 800 * scale.zoom,
        scale.den() == 1000 * scale.extent,
{
    assert(PREVIEW_LIMIT * scale.zoom == 800 * scale.zoom) by (nonlinear_arith)
        requires
            PREVIEW_LIMIT == 800,
    ;
    assert(ZOOM_ONE * scale.extent == 1000 * scale.extent) by (nonlinear_arith)
        requires
            ZOOM_ONE == 1000,
    ;
}

/// Going to the screen and back never gains a pixel, and going to the image
/// and back never gains a point: both directions round down, so a length
/// that is taken there and back is at most what it was.
pub proof fn lemma_there_and_back_is_below(scale: PreviewScale, length: int)
    requires
        scale.is_usable(),
        length >= 0,
    ensures
        0 <= scale.to_image(scale.to_screen(length)) <= length,
        0 <= scale.to_screen(scale.to_image(length)) <= length,
{
    lemma_scaled_back_is_below(length, scale.num(), scale.den());
    lemma_scaled_back_is_below(length, scale.den(), scale.num());
}

proof fn lemma_scaled_back_is_below(length: int, a: int, b: int)
    requires
        length >= 0,
        a > 0,
        b > 0,
    ensures
        0 <= (length * a / b) * b / a <= length,
{
    let there = length * a / b;
    assert(0 <= length * a) by (nonlinear_arith)
        requires
            length >= 0,
            a > 0,
    ;
    lemma_floor_is_monotonic(0, length * a, b);
    lemma_floor_bounds(length * a, b);
    assert(0 <= there * b) by (nonlinear_arith)
        requires
            there >= 0,
            b > 0,
    ;
    lemma_floor_is_monotonic(0, there * b, a);
    lemma_floor_is_monotonic(there * b, length * a, a);
    lemma_floor_is(length * a, a, length);
}

/// Gives the size on screen of the preview of an image of `width` by
/// `height` pixels at the given zoom.
///
/// Neither side exceeds the preview limit times the zoom. At zoom one an
/// image that fits the limit is shown pixel for point, and a larger one has
/// its longer side at exactly the limit.
pub fn preview_size(width: u32, height: u32, zoom: u32) -> (size: (u32, u32))
    ensures
        size.0 == PreviewScale::of(width, height, zoom).to_screen(width as int),
        size.1 == PreviewScale::of(width, height, zoom).to_screen(height as int),
        size.0 <= PREVIEW_LIMIT * zoom / (ZOOM_ONE as int),
        size.1 <= PREVIEW_LIMIT * zoom / (ZOOM_ONE as int),
        zoom == ZOOM_ONE && width <= PREVIEW_LIMIT && height <= PREVIEW_LIMIT ==> size == (
            width,
            height,
        ),
        zoom == ZOOM_ONE && (width > PREVIEW_LIMIT || height > PREVIEW_LIMIT) ==> greater(
            size.0 as int,
            size.1 as int,
        ) == PREVIEW_LIMIT,
{
    let scale = PreviewScale::for_image(width, height, zoom);
    proof {
        lemma_preview_side(width, width, height, zoom);
        lemma_preview_side(height, width, height, zoom);
    }
    let across: u64 = scale.screen_length(width);
    let down: u64 = scale.screen_length(height);
    (across as u32, down as u32)
}

/// One side of the preview, `side` being the image's width or height: it
/// stays within the limit times the zoom; at zoom one it is the side itself
/// for an image within the limit, and the limit for the longer side of a
/// larger image.
pub proof fn lemma_preview_side(side: u32, width: u32, height: u32, zoom: u32)
    requires
        side == width || side == height,
    ensures
        0 <= PreviewScale::of(width, height, zoom).to_screen(side as int) <= PREVIEW_LIMIT * zoom
            / (ZOOM_ONE as int),
        PREVIEW_LIMIT * zoom / (ZOOM_ONE as int) <= u32::MAX,
        zoom == ZOOM_ONE && fit_extent(width, height) == PREVIEW_LIMIT ==> PreviewScale::of(
            width,
            height,
            zoom,
        ).to_screen(side as int) == side,
        zoom == ZOOM_ONE && side == fit_extent(width, height) ==> PreviewScale::of(
            width,
            height,
            zoom,
        ).to_screen(side as int) == PREVIEW_LIMIT,
{
    let extent = fit_extent(width, height);
    let scale = PreviewScale::of(width, height, zoom);
    let num = 800 * zoom;
    let den = 1000 * extent;
    lemma_scale_fraction(scale);
    assert(scale.num() == num && scale.den() == den);
    let shown = scale.to_screen(side as int);
    assert(shown == side * num / den);
    // The side is at most the extent, so the quotient is at most that of the
    // extent itself, in which the extent cancels.
    assert(side * num <= extent * num) by (nonlinear_arith)
        requires
            0 <= side <= extent,
            0 <= num,
    ;
    assert(0 <= side * num) by (nonlinear_arith)
        requires
            0 <= side,
            0 <= num,
    ;
    lemma_floor_is_monotonic(0, side * num, den);
    lemma_floor_is_monotonic(side * num, extent * num, den);
    let bound = num / (ZOOM_ONE as int);
    lemma_floor_bounds(num, ZOOM_ONE as int);
    assert(extent * num / den == bound) by {
        assert(bound * den <= extent * num < bound * den + den) by (nonlinear_arith)
            requires
                bound * ZOOM_ONE <= num < bound * ZOOM_ONE + ZOOM_ONE,
                den == 1000 * extent,
                ZOOM_ONE == 1000,
                extent > 0,
        ;
        lemma_floor_is(extent * num, den, bound);
    }
    if zoom == ZOOM_ONE {
        if extent == PREVIEW_LIMIT {
            assert(side * num == side * den);
            lemma_floor_is(side * num, den, side as int);
        }
        if side == extent {
            assert(bound == PREVIEW_LIMIT);
        }
    }
}

} // verus!
