//! The interactive crop controller: the state of one editing session and
//! what each user action does to it.
//!
//! The controller draws nothing and opens no file. Pointer positions, the
//! image that was read and the path that was chosen come in as values; what
//! is to be drawn or written goes out as values.

use crate::aspect::lemma_linked_dimension_is_rounded;
use crate::aspect::linked_dimension;
use crate::aspect::linked_extent;
use crate::division::rounded_quotient;
use crate::geometry::distance;
use crate::geometry::fits_box;
use crate::geometry::greater;
use crate::geometry::keeps_proportions;
use crate::geometry::touches_box;
use crate::geometry::ImageRect;
use crate::geometry::Offset;
use crate::geometry::Point;
use crate::geometry::ScreenRect;
use crate::image_ops::can_be_resized;
use crate::raster::crop_imm;
use crate::raster::dimensions;
use crate::raster::image_dimensions;
use crate::raster::image_pixels;
use crate::raster::resize;
use crate::raster::resize_dimensions;
use crate::raster::resize_exact;
use crate::raster::resize_is_safe;
use crate::save_target::file_name;
use crate::save_target::file_name_of;
use crate::save_target::format_of_path;
use crate::save_target::OutputFormat;
use crate::save_target::planned_format;
use crate::save_target::planned_path;
use crate::save_target::SaveTarget;
use crate::viewport::lemma_zoom_in_then_out;
use crate::viewport::lemma_zoom_out_then_in;
use crate::viewport::preview_size;
use crate::viewport::zoom_in;
use crate::viewport::zoom_in_is_exact;
use crate::viewport::zoom_out;
use crate::viewport::zoomed_in;
use crate::viewport::zoomed_out;
use crate::viewport::PreviewScale;
use crate::viewport::ZOOM_ONE;
use image::imageops::FilterType;
use image::DynamicImage;
use vstd::prelude::*;
use vstd::string::*;

verus! {

/// Where a drag of the primary button stands.
#[derive(Clone, Copy, Debug, PartialEq, Eq, Structural)]
pub enum DragState {
    /// No drag is under way.
    Idle,
    /// The button went down at `anchor` and the pointer has not moved yet.
    Anchored { anchor: Point },
    /// The button went down at `anchor` and the pointer is now at `cursor`.
    Dragging { anchor: Point, cursor: Point },
}

/// What the user did, as the window reports it. Pointer events carry the
/// centre of the canvas, from which the place of the preview follows.
#[derive(Clone, Copy, Debug, PartialEq, Eq, Structural)]
pub enum UiEvent {
    /// The primary button went down with the pointer at `at`.
    PointerPressed { at: Point, canvas_center: Point },
    /// The pointer moved to `at` with the primary button held.
    PointerMoved { at: Point, canvas_center: Point },
    /// The primary button came up.
    PointerReleased { canvas_center: Point },
    /// The preview was dragged along by `delta`.
    Panned { delta: Offset },
    /// The width field was set.
    WidthEdited { width: u32 },
    /// The height field was set.
    HeightEdited { height: u32 },
    /// The aspect lock was switched.
    AspectLockSet { keep: bool },
    /// The button that zooms in was clicked.
    ZoomInClicked,
    /// The button that zooms out was clicked.
    ZoomOutClicked,
    /// The button that resets the view was clicked.
    ZoomResetClicked,
    /// The button that loads an image was clicked.
    LoadClicked,
    /// The button that reads the image from its file again was clicked.
    ReloadClicked,
    /// The button that applies the resize was clicked.
    ResizeClicked,
    /// The button that saves under a new name was clicked.
    SaveAsClicked,
    /// The button that saves over the source file was clicked.
    OverwriteClicked,
}

/// What the window has to do after an event.
#[derive(Debug, PartialEq, Eq)]
pub enum UiAction {
    /// Nothing beyond drawing the next frame.
    Nothing,
    /// The image was replaced: show the new one.
    ShowImage,
    /// Ask for a file, read it and hand it to `load_image`.
    ChooseImage,
    /// Read the file at `path` again and hand it to `load_image`.
    ReloadFrom { path: String },
    /// Ask where to save and hand the answer to `save_as`.
    ChooseSaveTarget,
    /// Write the image to `path` in `format`.
    Overwrite { path: String, format: OutputFormat },
    /// The resize was not done: the image or the targets are beyond what
    /// the resampling is trusted with.
    ResizeTooLarge,
}

/// What the status bar shows.
#[derive(Debug, PartialEq, Eq)]
pub enum Status {
    /// No image is loaded.
    NoImage,
    /// An image is loaded: the name of its file and its size in pixels.
    Loaded { name: String, width: u32, height: u32 },
}

/// The state of one editing session.
pub struct SnippingApp {
    /// The file that the current image was read from, if any.
    pub image_path: Option<String>,
    /// The image being edited, if one is loaded.
    pub current_image: Option<DynamicImage>,
    /// The drag that selects the region to crop.
    pub drag: DragState,
    /// The width that a resize aims at.
    pub target_width: u32,
    /// The height that a resize aims at.
    pub target_height: u32,
    /// Whether the target dimensions keep the proportions of the image.
    pub keep_aspect: bool,
    /// The path that the image was last saved under.
    pub save_as_path: String,
    /// The zoom of the preview, in thousandths.
    pub zoom: u32,
    /// The pan of the preview.
    pub image_offset: Offset,
}

impl SnippingApp {
    /// The invariant of a session: the target dimensions and the zoom are
    /// positive.
    pub open spec fn wf(self) -> bool {
        &&& self.target_width >= 1
        &&& self.target_height >= 1
        &&& self.zoom >= 1
    }

    /// The dimensions of the current image, if one is loaded.
    pub open spec fn image_size(self) -> Option<(u32, u32)> {
        match self.current_image {
            Some(img) => Some(image_dimensions(img)),
            None => None,
        }
    }

    /// Whether an image is loaded that has at least one pixel.
    pub open spec fn has_pixels(self) -> bool {
        self.image_size() matches Some(size) && size.0 >= 1 && size.1 >= 1
    }

    /// The session as it is once `img`, read from `path`, has become its
    /// image: the target dimensions are those of the image (one where the
    /// image has none), and the view is back at zoom one without pan.
    pub open spec fn with_image(self, img: DynamicImage, path: String) -> SnippingApp {
        SnippingApp {
            image_path: Some(path),
            current_image: Some(img),
            target_width: greater(image_dimensions(img).0 as int, 1) as u32,
            target_height: greater(image_dimensions(img).1 as int, 1) as u32,
            zoom: ZOOM_ONE,
            image_offset: Offset::origin(),
            ..self
        }
    }

    /// The session with the view back at zoom one without pan.
    pub open spec fn with_view_reset(self) -> SnippingApp {
        SnippingApp { zoom: ZOOM_ONE, image_offset: Offset::origin(), ..self }
    }

    /// The session after the preview was panned by `delta`.
    pub open spec fn panned(self, delta: Offset) -> SnippingApp {
        SnippingApp { image_offset: self.image_offset.combined(delta), ..self }
    }

    /// The session after the width field was set to `width`: the target
    /// width is `width`, or one for zero; under the aspect lock, and with an
    /// image that has some width, the target height follows.
    pub open spec fn with_width(self, width: u32) -> SnippingApp {
        let entered = greater(width as int, 1) as u32;
        match self.current_image {
            Some(img) if self.keep_aspect && image_dimensions(img).0 > 0 => SnippingApp {
                target_width: entered,
                target_height: linked_extent(
                    entered,
                    image_dimensions(img).0,
                    image_dimensions(img).1,
                ) as u32,
                ..self
            },
            _ => SnippingApp { target_width: entered, ..self },
        }
    }

    /// The session after the height field was set to `height`: the target
    /// height is `height`, or one for zero; under the aspect lock, and with
    /// an image that has some height, the target width follows.
    pub open spec fn with_height(self, height: u32) -> SnippingApp {
        let entered = greater(height as int, 1) as u32;
        match self.current_image {
            Some(img) if self.keep_aspect && image_dimensions(img).1 > 0 => SnippingApp {
                target_height: entered,
                target_width: linked_extent(
                    entered,
                    image_dimensions(img).1,
                    image_dimensions(img).0,
                ) as u32,
                ..self
            },
            _ => SnippingApp { target_height: entered, ..self },
        }
    }

    /// Starts a session: no image, no drag, a target of 256 by 256 under
    /// the aspect lock, zoom one and no pan.
    pub fn new() -> (app: SnippingApp)
        ensures
            app.image_path is None,
            app.current_image is None,
            app.drag == DragState::Idle,
            app.target_width == 256,
            app.target_height == 256,
            app.keep_aspect,
            app.save_as_path@ == "output.png"@,
            app.zoom == ZOOM_ONE,
            app.image_offset == Offset::origin(),
            app.wf(),
    {
        SnippingApp {
            image_path: None,
            current_image: None,
            drag: DragState::Idle,
            target_width: 256,
            target_height: 256,
            keep_aspect: true,
            save_as_path: String::from_str("output.png"),
            zoom: ZOOM_ONE,
            image_offset: Offset::zero(),
        }
    }

    /// Makes `img`, which was read from `path`, the image of the session.
    pub fn load_image(&mut self, img: DynamicImage, path: String)
        ensures
            *final(self) == old(self).with_image(img, path),
            final(self).wf(),
    {
        let (width, height): (u32, u32) = dimensions(&img);
        self.target_width = if width == 0 {
            1
        } else {
            width
        };
        self.target_height = if height == 0 {
            1
        } else {
            height
        };
        self.current_image = Some(img);
        self.image_path = Some(path);
        self.image_offset = Offset::zero();
        self.zoom = ZOOM_ONE;
    }

    /// Moves the preview by `delta`.
    pub fn pan(&mut self, delta: Offset)
        ensures
            *final(self) == old(self).panned(delta),
            old(self).wf() ==> final(self).wf(),
    {
        self.image_offset = self.image_offset.plus(delta);
    }

    /// Takes one zoom step in.
    pub fn zoom_in(&mut self)
        ensures
            *final(self) == (SnippingApp { zoom: zoomed_in(old(self).zoom), ..*old(self) }),
            old(self).wf() ==> final(self).wf(),
    {
        self.zoom = zoom_in(self.zoom);
    }

    /// Takes one zoom step out.
    pub fn zoom_out(&mut self)
        ensures
            *final(self) == (SnippingApp { zoom: zoomed_out(old(self).zoom), ..*old(self) }),
            old(self).wf() ==> final(self).wf(),
    {
        self.zoom = zoom_out(self.zoom);
    }

    /// Puts the view back at zoom one without pan, whatever it was.
    pub fn reset_zoom(&mut self)
        ensures
            *final(self) == old(self).with_view_reset(),
            final(self).zoom == ZOOM_ONE,
            final(self).image_offset == Offset::origin(),
            old(self).wf() ==> final(self).wf(),
    {
        self.zoom = ZOOM_ONE;
        self.image_offset = Offset::zero();
    }

    /// Switches the aspect lock on or off. The targets stay as they are
    /// until the next edit.
    pub fn set_keep_aspect(&mut self, keep: bool)
        ensures
            *final(self) == (SnippingApp { keep_aspect: keep, ..*old(self) }),
            old(self).wf() ==> final(self).wf(),
    {
        self.keep_aspect = keep;
    }

    /// Sets the target width as the user entered it.
    pub fn set_target_width(&mut self, width: u32)
        ensures
            *final(self) == old(self).with_width(width),
            old(self).wf() ==> final(self).wf(),
    {
        let entered: u32 = if width == 0 {
            1
        } else {
            width
        };
        self.target_width = entered;
        if self.keep_aspect {
            match &self.current_image {
                Some(img) => {
                    let (along, across): (u32, u32) = dimensions(img);
                    if along > 0 {
                        self.target_height = linked_dimension(entered, along, across);
                    }
                },
                None => {},
            }
        }
    }

    /// Sets the target height as the user entered it.
    pub fn set_target_height(&mut self, height: u32)
        ensures
            *final(self) == old(self).with_height(height),
            old(self).wf() ==> final(self).wf(),
    {
        let entered: u32 = if height == 0 {
            1
        } else {
            height
        };
        self.target_height = entered;
        if self.keep_aspect {
            match &self.current_image {
                Some(img) => {
                    let (across, along): (u32, u32) = dimensions(img);
                    if along > 0 {
                        self.target_width = linked_dimension(entered, along, across);
                    }
                },
                None => {},
            }
        }
    }

    /// Whether the session shows the cut of `region` out of the image that
    /// `before` held: the image has the region's size and holds a copy of
    /// each of its pixels, the target dimensions are those of the region,
    /// the view is back at zoom one without pan, and the rest is as before.
    pub open spec fn shows_cut_of(self, before: SnippingApp, region: ImageRect) -> bool {
        &&& before.current_image matches Some(source)
        &&& self.current_image matches Some(cut)
        &&& image_dimensions(cut) == (region.width, region.height)
        &&& forall|i: int, j: int|
            0 <= i < region.width && 0 <= j < region.height ==> #[trigger] image_pixels(cut)[(i, j)]
                == image_pixels(source)[(region.x + i, region.y + j)]
        &&& self.target_width == region.width
        &&& self.target_height == region.height
        &&& self.zoom == ZOOM_ONE
        &&& self.image_offset == Offset::origin()
        &&& self.image_path == before.image_path
        &&& self.drag == before.drag
        &&& self.keep_aspect == before.keep_aspect
        &&& self.save_as_path == before.save_as_path
    }

    /// The part of `rect` that the current image holds, if there is an
    /// image and that part has at least one pixel.
    pub open spec fn croppable(self, rect: ImageRect) -> Option<ImageRect> {
        match self.current_image {
            Some(img) => rect.limited_to(image_dimensions(img).0, image_dimensions(img).1),
            None => None,
        }
    }

    /// Crops the current image to `rect`, a region in image pixels, limited
    /// to what the image holds from the region's origin. Tells whether the
    /// image was replaced.
    ///
    /// Without an image, or when no pixel of the region is left, nothing
    /// changes: so it is for every region whose origin lies at or beyond
    /// the image's width or height. A region with at least one pixel that
    /// lies inside the image is cut exactly: the new image has the region's
    /// width and height.
    pub fn crop_current_image(&mut self, rect: ImageRect) -> (cropped: bool)
        ensures
            cropped == old(self).croppable(rect) is Some,
            !cropped ==> *final(self) == *old(self),
            cropped ==> final(self).shows_cut_of(*old(self), old(self).croppable(rect).unwrap()),
            old(self).image_size() matches Some(size) && (rect.x >= size.0 || rect.y >= size.1)
                ==> !cropped,
            old(self).image_size() matches Some(size) && rect.has_area() && rect.is_within(
                size.0,
                size.1,
            ) ==> cropped && final(self).image_size() == Some((rect.width, rect.height)),
            old(self).wf() ==> final(self).wf(),
    {
        let cut: Option<(DynamicImage, ImageRect)> = match &self.current_image {
            Some(img) => {
                let (width, height): (u32, u32) = dimensions(img);
                match rect.clamp_to(width, height) {
                    Some(region) => Some(
                        (crop_imm(img, region.x, region.y, region.width, region.height), region),
                    ),
                    None => None,
                }
            },
            None => None,
        };
        match cut {
            Some((image, region)) => {
                self.current_image = Some(image);
                self.target_width = region.width;
                self.target_height = region.height;
                self.image_offset = Offset::zero();
                self.zoom = ZOOM_ONE;
                true
            },
            None => false,
        }
    }

    /// Whether the current image can be resized to the target dimensions:
    /// whether the targets are its own size, or its sides and the targets
    /// are within what the resampling is trusted with. Without an image
    /// there is nothing to resize.
    pub open spec fn resize_fits(self) -> bool {
        match self.current_image {
            Some(img) => resize_is_safe(
                image_dimensions(img),
                self.target_width,
                self.target_height,
            ),
            None => true,
        }
    }

    /// Whether the session shows a resize of the image that `before` held.
    ///
    /// Under the aspect lock the image has the dimensions that the resize
    /// gives when asked to fit the targets. They fit the targets, a target
    /// of zero counting as one; they are at least one each unless the
    /// targets are the old size; for an old image with a pixel they reach
    /// one of the targets; and they have the proportions of the old image
    /// within a pixel. Without the lock the image has exactly the target
    /// dimensions.
    ///
    /// Where the targets are the size that the image had, its pixels are
    /// unchanged. The view is back at zoom one without pan, and the rest is
    /// as before.
    pub open spec fn shows_resize_of(self, before: SnippingApp) -> bool {
        &&& before.current_image matches Some(source)
        &&& self.current_image matches Some(resized)
        &&& before.keep_aspect ==> {
            &&& image_dimensions(resized) == resize_dimensions(
                image_dimensions(source).0,
                image_dimensions(source).1,
                before.target_width,
                before.target_height,
            )
            &&& fits_box(image_dimensions(resized), (before.target_width, before.target_height))
            &&& (before.target_width, before.target_height) != image_dimensions(source)
                ==> image_dimensions(resized).0 >= 1 && image_dimensions(resized).1 >= 1
            &&& image_dimensions(source).0 >= 1 && image_dimensions(source).1 >= 1 ==> touches_box(
                image_dimensions(resized),
                (before.target_width, before.target_height),
            )
            &&& keeps_proportions(image_dimensions(resized), image_dimensions(source))
        }
        &&& !before.keep_aspect ==> image_dimensions(resized) == (
            before.target_width,
            before.target_height,
        )
        &&& (before.target_width, before.target_height) == image_dimensions(source) ==> {
            &&& image_dimensions(resized) == image_dimensions(source)
            &&& forall|i: int, j: int|
                0 <= i < before.target_width && 0 <= j < before.target_height
                    ==> #[trigger] image_pixels(resized)[(i, j)] == image_pixels(source)[(i, j)]
        }
        &&& self.zoom == ZOOM_ONE
        &&& self.image_offset == Offset::origin()
        &&& self.target_width == before.target_width
        &&& self.target_height == before.target_height
        &&& self.image_path == before.image_path
        &&& self.drag == before.drag
        &&& self.keep_aspect == before.keep_aspect
        &&& self.save_as_path == before.save_as_path
    }

    /// Resizes the current image to the target dimensions with the Lanczos
    /// filter of window 3. Without an image nothing changes.
    ///
    /// Under the aspect lock, for an image with a pixel and positive
    /// targets, the new image fits within the targets, reaches one of them,
    /// and has the proportions of the old one within a pixel. Without the
    /// lock it has exactly the target width and height.
    pub fn resize_current_image(&mut self)
        requires
            old(self).resize_fits(),
        ensures
            old(self).current_image is None ==> *final(self) == *old(self),
            old(self).current_image is Some ==> final(self).shows_resize_of(*old(self)),
            old(self).current_image is Some && old(self).keep_aspect ==> {
                &&& final(self).image_size() matches Some(resized)
                &&& keeps_proportions(resized, old(self).image_size()->0)
                &&& fits_box(resized, (old(self).target_width, old(self).target_height))
            },
            old(self).keep_aspect && old(self).has_pixels() && old(self).target_width >= 1 && old(
                self,
            ).target_height >= 1 ==> {
                &&& final(self).image_size() matches Some(resized)
                &&& 1 <= resized.0 <= old(self).target_width
                &&& 1 <= resized.1 <= old(self).target_height
                &&& resized.0 == old(self).target_width || resized.1 == old(self).target_height
            },
            old(self).current_image is Some && !old(self).keep_aspect ==> final(self).image_size()
                == Some((old(self).target_width, old(self).target_height)),
            old(self).wf() ==> final(self).wf(),
    {
        let resized: Option<DynamicImage> = match &self.current_image {
            Some(img) => {
                if self.keep_aspect {
                    Some(resize(img, self.target_width, self.target_height, FilterType::Lanczos3))
                } else {
                    Some(
                        resize_exact(
                            img,
                            self.target_width,
                            self.target_height,
                            FilterType::Lanczos3,
                        ),
                    )
                }
            },
            None => None,
        };
        match resized {
            Some(image) => {
                self.current_image = Some(image);
                self.image_offset = Offset::zero();
                self.zoom = ZOOM_ONE;
            },
            None => {},
        }
    }

    /// Tells whether the current image can be resized to the targets.
    pub fn can_resize(&self) -> (fits: bool)
        ensures
            fits == self.resize_fits(),
    {
        match &self.current_image {
            Some(img) => {
                let (width, height): (u32, u32) = dimensions(img);
                can_be_resized(width, height, self.target_width, self.target_height)
            },
            None => true,
        }
    }

    /// Resizes the current image as `resize_current_image` does where the
    /// image and the targets are within what the resampling is trusted
    /// with, and leaves the session untouched where they are not. Tells
    /// which of the two it did.
    pub fn try_resize_current_image(&mut self) -> (done: bool)
        ensures
            done == old(self).resize_fits(),
            !done ==> *final(self) == *old(self),
            done && old(self).current_image is None ==> *final(self) == *old(self),
            done && old(self).current_image is Some ==> final(self).shows_resize_of(*old(self)),
            old(self).wf() ==> final(self).wf(),
    {
        if self.can_resize() {
            self.resize_current_image();
            true
        } else {
            false
        }
    }

    /// The rectangle on screen in which the current image is shown when the
    /// canvas has its centre at `canvas_center`: the preview size of the
    /// image, centred there and moved by the pan. Nothing without an image.
    pub open spec fn preview_of(self, canvas_center: Point) -> Option<ScreenRect> {
        match self.current_image {
            Some(img) => {
                let size = image_dimensions(img);
                let scale = PreviewScale::of(size.0, size.1, self.zoom);
                Some(
                    ScreenRect::centered(
                        canvas_center,
                        self.image_offset,
                        scale.to_screen(size.0 as int) as u32,
                        scale.to_screen(size.1 as int) as u32,
                    ),
                )
            },
            None => None,
        }
    }

    /// Whether a pointer at `at` is over the preview of the image.
    pub open spec fn hovers(self, at: Point, canvas_center: Point) -> bool {
        self.preview_of(canvas_center) matches Some(preview) && preview.covers(at)
    }

    /// The session after the primary button went down at `at`: over the
    /// preview a drag is anchored there; elsewhere nothing changes.
    pub open spec fn after_press(self, at: Point, canvas_center: Point) -> SnippingApp {
        if self.hovers(at, canvas_center) {
            SnippingApp { drag: DragState::Anchored { anchor: at }, ..self }
        } else {
            self
        }
    }

    /// The session after the pointer moved to `at` with the primary button
    /// held: over the preview a drag that was anchored or under way has its
    /// cursor there; elsewhere, and without a drag, nothing changes.
    pub open spec fn after_move(self, at: Point, canvas_center: Point) -> SnippingApp {
        if self.hovers(at, canvas_center) {
            match self.drag {
                DragState::Idle => self,
                DragState::Anchored { anchor } => SnippingApp {
                    drag: DragState::Dragging { anchor, cursor: at },
                    ..self
                },
                DragState::Dragging { anchor, cursor } => SnippingApp {
                    drag: DragState::Dragging { anchor, cursor: at },
                    ..self
                },
            }
        } else {
            self
        }
    }

    /// The rectangle on screen that the drag has selected so far: the
    /// bounding box of its anchor and its cursor.
    pub open spec fn selection_of(self) -> Option<ScreenRect> {
        match self.drag {
            DragState::Idle => None,
            DragState::Anchored { anchor } => Some(ScreenRect::spanning(anchor, anchor)),
            DragState::Dragging { anchor, cursor } => Some(ScreenRect::spanning(anchor, cursor)),
        }
    }

    /// The region of the image that the drag has marked: the selection
    /// taken from the screen to the image through the preview rectangle and
    /// scale, and limited to the image. Nothing without an image or a drag,
    /// and nothing when no pixel is marked.
    pub open spec fn marked_region(self, canvas_center: Point) -> Option<ImageRect> {
        match (self.current_image, self.selection_of(), self.preview_of(canvas_center)) {
            (Some(img), Some(selection), Some(preview)) => if self.zoom > 0 {
                PreviewScale::of(
                    image_dimensions(img).0,
                    image_dimensions(img).1,
                    self.zoom,
                ).region_of(preview, selection).limited_to(
                    image_dimensions(img).0,
                    image_dimensions(img).1,
                )
            } else {
                None
            },
            _ => None,
        }
    }

    /// The session without its drag.
    pub open spec fn with_drag_ended(self) -> SnippingApp {
        SnippingApp { drag: DragState::Idle, ..self }
    }

    /// Gives the rectangle on screen in which the image is to be drawn.
    pub fn preview_rect(&self, canvas_center: Point) -> (rect: Option<ScreenRect>)
        ensures
            rect == self.preview_of(canvas_center),
    {
        match &self.current_image {
            Some(img) => {
                let (width, height): (u32, u32) = dimensions(img);
                let (across, down): (u32, u32) = preview_size(width, height, self.zoom);
                Some(ScreenRect::from_center_size(canvas_center, self.image_offset, across, down))
            },
            None => None,
        }
    }

    /// Gives the rectangle on screen that the drag has selected so far, for
    /// the overlay.
    pub fn selection(&self) -> (rect: Option<ScreenRect>)
        ensures
            rect == self.selection_of(),
    {
        match self.drag {
            DragState::Idle => None,
            DragState::Anchored { anchor } => Some(ScreenRect::from_two_pos(anchor, anchor)),
            DragState::Dragging { anchor, cursor } => Some(
                ScreenRect::from_two_pos(anchor, cursor),
            ),
        }
    }

    /// Records that the primary button went down at `at`.
    pub fn pointer_pressed(&mut self, at: Point, canvas_center: Point)
        ensures
            *final(self) == old(self).after_press(at, canvas_center),
            old(self).wf() ==> final(self).wf(),
    {
        let over: bool = match self.preview_rect(canvas_center) {
            Some(preview) => preview.contains(at),
            None => false,
        };
        if over {
            self.drag = DragState::Anchored { anchor: at };
        }
    }

    /// Records that the pointer moved to `at` with the primary button held.
    pub fn pointer_moved(&mut self, at: Point, canvas_center: Point)
        ensures
            *final(self) == old(self).after_move(at, canvas_center),
            old(self).wf() ==> final(self).wf(),
    {
        let over: bool = match self.preview_rect(canvas_center) {
            Some(preview) => preview.contains(at),
            None => false,
        };
        if over {
            match self.drag {
                DragState::Idle => {},
                DragState::Anchored { anchor } => {
                    self.drag = DragState::Dragging { anchor, cursor: at };
                },
                DragState::Dragging { anchor, cursor: _ } => {
                    self.drag = DragState::Dragging { anchor, cursor: at };
                },
            }
        }
    }

    /// Ends the drag, and crops the image to the region it marked when that
    /// region holds at least one pixel. Tells whether the image was
    /// replaced.
    pub fn pointer_released(&mut self, canvas_center: Point) -> (cropped: bool)
        ensures
            cropped == old(self).marked_region(canvas_center) is Some,
            !cropped ==> *final(self) == old(self).with_drag_ended(),
            cropped ==> final(self).shows_cut_of(
                old(self).with_drag_ended(),
                old(self).marked_region(canvas_center).unwrap(),
            ),
            final(self).drag == DragState::Idle,
            old(self).wf() ==> final(self).wf(),
    {
        let selection: Option<ScreenRect> = self.selection();
        let preview: Option<ScreenRect> = self.preview_rect(canvas_center);
        self.drag = DragState::Idle;
        let marked: Option<ImageRect> = match (&self.current_image, selection, preview) {
            (Some(img), Some(selected), Some(shown)) => {
                let (width, height): (u32, u32) = dimensions(img);
                let scale: PreviewScale = PreviewScale::for_image(width, height, self.zoom);
                if self.zoom > 0 {
                    Some(scale.map_to_image(shown, selected))
                } else {
                    None
                }
            },
            _ => None,
        };
        match marked {
            Some(region) => self.crop_current_image(region),
            None => false,
        }
    }

    /// Decides how to write the current image when the user chose `chosen`
    /// in the save dialog, and records the path as the one last saved under.
    /// Without an image there is nothing to write and nothing changes.
    ///
    /// The format follows the extension of the chosen file name and is PNG
    /// when there is no extension or none that is known; a file name
    /// without extension gets `.png` added.
    pub fn save_as(&mut self, chosen: &str) -> (target: Option<SaveTarget>)
        ensures
            target is Some <==> old(self).current_image is Some,
            target is None ==> *final(self) == *old(self),
            target matches Some(plan) ==> {
                &&& plan.path@ == planned_path(chosen@)
                &&& plan.format == planned_format(chosen@)
                &&& *final(self) == (SnippingApp { save_as_path: plan.path, ..*old(self) })
            },
            old(self).wf() ==> final(self).wf(),
    {
        if self.current_image.is_some() {
            let plan: SaveTarget = SaveTarget::for_path(chosen);
            self.save_as_path = plan.path.clone();
            Some(plan)
        } else {
            None
        }
    }

    /// Where an overwrite writes to: the path the image was read from, in
    /// the format that its extension asks for. Nothing unless there is an
    /// image that came from a file.
    pub open spec fn overwrite_target(self) -> Option<(String, OutputFormat)> {
        match (self.current_image, self.image_path) {
            (Some(_), Some(path)) => Some((path, planned_format(path@))),
            _ => None,
        }
    }

    /// Decides how to write the current image back to the file it was read
    /// from, if there is an image and it came from a file. The path is that
    /// file's, unchanged.
    pub fn save_overwrite(&self) -> (target: Option<SaveTarget>)
        ensures
            target is Some <==> self.overwrite_target() is Some,
            target matches Some(plan) ==> self.overwrite_target() == Some((plan.path, plan.format)),
    {
        if self.current_image.is_some() {
            match &self.image_path {
                Some(path) => Some(
                    SaveTarget { path: path.clone(), format: format_of_path(path.as_str()) },
                ),
                None => None,
            }
        } else {
            None
        }
    }

    /// Gives the path to read the image from again as it is on disk, if the
    /// image came from a file.
    pub fn reload_original(&self) -> (path: Option<String>)
        ensures
            path == self.image_path,
    {
        self.image_path.clone()
    }

    /// Gives what the status bar shows: nothing loaded, or the name of the
    /// file (`Unnamed` for an image without one) and the image's size.
    pub fn status(&self) -> (status: Status)
        ensures
            self.current_image is None ==> status is NoImage,
            self.current_image matches Some(img) ==> {
                &&& status matches Status::Loaded { name, width, height }
                &&& (width, height) == image_dimensions(img)
                &&& match self.image_path {
                    Some(path) => name@ == file_name(path@),
                    None => name@ == "Unnamed"@,
                }
            },
    {
        match &self.current_image {
            Some(img) => {
                let (width, height): (u32, u32) = dimensions(img);
                let name: String = match &self.image_path {
                    Some(path) => String::from_str(file_name_of(path.as_str())),
                    None => String::from_str("Unnamed"),
                };
                Status::Loaded { name, width, height }
            },
            None => Status::NoImage,
        }
    }

    /// Whether `after` and `action` are what the session `self` answers to
    /// `event` with.
    pub open spec fn answers(self, event: UiEvent, after: SnippingApp, action: UiAction) -> bool {
        match event {
            UiEvent::PointerPressed { at, canvas_center } => {
                &&& after == self.after_press(at, canvas_center)
                &&& action == UiAction::Nothing
            },
            UiEvent::PointerMoved { at, canvas_center } => {
                &&& after == self.after_move(at, canvas_center)
                &&& action == UiAction::Nothing
            },
            UiEvent::PointerReleased { canvas_center } => match self.marked_region(canvas_center) {
                Some(region) => {
                    &&& after.shows_cut_of(self.with_drag_ended(), region)
                    &&& action == UiAction::ShowImage
                },
                None => {
                    &&& after == self.with_drag_ended()
                    &&& action == UiAction::Nothing
                },
            },
            UiEvent::Panned { delta } => {
                &&& after == self.panned(delta)
                &&& action == UiAction::Nothing
            },
            UiEvent::WidthEdited { width } => {
                &&& after == self.with_width(width)
                &&& action == UiAction::Nothing
            },
            UiEvent::HeightEdited { height } => {
                &&& after == self.with_height(height)
                &&& action == UiAction::Nothing
            },
            UiEvent::AspectLockSet { keep } => {
                &&& after == (SnippingApp { keep_aspect: keep, ..self })
                &&& action == UiAction::Nothing
            },
            UiEvent::ZoomInClicked => {
                &&& after == (SnippingApp { zoom: zoomed_in(self.zoom), ..self })
                &&& action == UiAction::Nothing
            },
            UiEvent::ZoomOutClicked => {
                &&& after == (SnippingApp { zoom: zoomed_out(self.zoom), ..self })
                &&& action == UiAction::Nothing
            },
            UiEvent::ZoomResetClicked => {
                &&& after == self.with_view_reset()
                &&& action == UiAction::Nothing
            },
            UiEvent::LoadClicked => {
                &&& after == self
                &&& action == UiAction::ChooseImage
            },
            UiEvent::ReloadClicked => {
                &&& after == self
                &&& action == match self.image_path {
                    Some(path) => UiAction::ReloadFrom { path },
                    None => UiAction::Nothing,
                }
            },
            UiEvent::ResizeClicked => if self.current_image is None {
                &&& after == self
                &&& action == UiAction::Nothing
            } else if self.resize_fits() {
                &&& after.shows_resize_of(self)
                &&& action == UiAction::ShowImage
            } else {
                &&& after == self
                &&& action == UiAction::ResizeTooLarge
            },
            UiEvent::SaveAsClicked => {
                &&& after == self
                &&& action == if self.current_image is Some {
                    UiAction::ChooseSaveTarget
                } else {
                    UiAction::Nothing
                }
            },
            UiEvent::OverwriteClicked => {
                &&& after == self
                &&& action == match self.overwrite_target() {
                    Some((path, format)) => UiAction::Overwrite { path, format },
                    None => UiAction::Nothing,
                }
            },
        }
    }

    /// Takes one event from the window, changes the session accordingly and
    /// tells the window what it has to do next.
    pub fn update(&mut self, event: UiEvent) -> (action: UiAction)
        ensures
            old(self).answers(event, *final(self), action),
            old(self).wf() ==> final(self).wf(),
    {
        match event {
            UiEvent::PointerPressed { at, canvas_center } => {
                self.pointer_pressed(at, canvas_center);
                UiAction::Nothing
            },
            UiEvent::PointerMoved { at, canvas_center } => {
                self.pointer_moved(at, canvas_center);
                UiAction::Nothing
            },
            UiEvent::PointerReleased { canvas_center } => {
                if self.pointer_released(canvas_center) {
                    UiAction::ShowImage
                } else {
                    UiAction::Nothing
                }
            },
            UiEvent::Panned { delta } => {
                self.pan(delta);
                UiAction::Nothing
            },
            UiEvent::WidthEdited { width } => {
                self.set_target_width(width);
                UiAction::Nothing
            },
            UiEvent::HeightEdited { height } => {
                self.set_target_height(height);
                UiAction::Nothing
            },
            UiEvent::AspectLockSet { keep } => {
                self.set_keep_aspect(keep);
                UiAction::Nothing
            },
            UiEvent::ZoomInClicked => {
                self.zoom_in();
                UiAction::Nothing
            },
            UiEvent::ZoomOutClicked => {
                self.zoom_out();
                UiAction::Nothing
            },
            UiEvent::ZoomResetClicked => {
                self.reset_zoom();
                UiAction::Nothing
            },
            UiEvent::LoadClicked => UiAction::ChooseImage,
            UiEvent::ReloadClicked => match self.reload_original() {
                Some(path) => UiAction::ReloadFrom { path },
                None => UiAction::Nothing,
            },
            UiEvent::ResizeClicked => {
                if self.current_image.is_none() {
                    UiAction::Nothing
                } else if self.try_resize_current_image() {
                    UiAction::ShowImage
                } else {
                    UiAction::ResizeTooLarge
                }
            },
            UiEvent::SaveAsClicked => {
                if self.current_image.is_some() {
                    UiAction::ChooseSaveTarget
                } else {
                    UiAction::Nothing
                }
            },
            UiEvent::OverwriteClicked => match self.save_overwrite() {
                Some(plan) => UiAction::Overwrite { path: plan.path, format: plan.format },
                None => UiAction::Nothing,
            },
        }
    }
}

impl Default for SnippingApp {
    /// Starts a session as `SnippingApp::new` does.
    fn default() -> (app: SnippingApp)
        ensures
            app.image_path is None,
            app.current_image is None,
            app.drag == DragState::Idle,
            app.target_width == 256,
            app.target_height == 256,
            app.keep_aspect,
            app.save_as_path@ == "output.png"@,
            app.zoom == ZOOM_ONE,
            app.image_offset == Offset::origin(),
            app.wf(),
    {
        SnippingApp::new()
    }
}

/// Under the aspect lock, setting the target width to `width` for an image
/// of W by H pixels sets the target height to `width * H / W` rounded to the
/// nearest whole number, which lies within one half of the exact quotient.
/// This holds whenever the width is not zero, the image has some width, and
/// the rounded number is at least one and fits in `u32`.
pub proof fn lemma_width_edit_links_height(app: SnippingApp, img: DynamicImage, width: u32)
    requires
        app.current_image == Some(img),
        app.keep_aspect,
        width >= 1,
        image_dimensions(img).0 > 0,
        1 <= rounded_quotient(
            width * image_dimensions(img).1,
            image_dimensions(img).0 as int,
        ) <= u32::MAX,
    ensures
        app.with_width(width).target_width == width,
        app.with_width(width).target_height == rounded_quotient(
            width * image_dimensions(img).1,
            image_dimensions(img).0 as int,
        ),
        2 * (app.with_width(width).target_height * image_dimensions(img).0) - image_dimensions(
            img,
        ).0 <= 2 * (width * image_dimensions(img).1),
        2 * (width * image_dimensions(img).1) < 2 * (app.with_width(width).target_height
            * image_dimensions(img).0) + image_dimensions(img).0,
{
    lemma_linked_dimension_is_rounded(width, image_dimensions(img).0, image_dimensions(img).1);
}

/// Under the aspect lock, setting the target height to `height` for an
/// image of W by H pixels sets the target width to `height * W / H` rounded
/// to the nearest whole number, which lies within one half of the exact
/// quotient. This holds whenever the height is not zero, the image has some
/// height, and the rounded number is at least one and fits in `u32`.
pub proof fn lemma_height_edit_links_width(app: SnippingApp, img: DynamicImage, height: u32)
    requires
        app.current_image == Some(img),
        app.keep_aspect,
        height >= 1,
        image_dimensions(img).1 > 0,
        1 <= rounded_quotient(
            height * image_dimensions(img).0,
            image_dimensions(img).1 as int,
        ) <= u32::MAX,
    ensures
        app.with_height(height).target_height == height,
        app.with_height(height).target_width == rounded_quotient(
            height * image_dimensions(img).0,
            image_dimensions(img).1 as int,
        ),
        2 * (app.with_height(height).target_width * image_dimensions(img).1) - image_dimensions(
            img,
        ).1 <= 2 * (height * image_dimensions(img).0),
        2 * (height * image_dimensions(img).0) < 2 * (app.with_height(height).target_width
            * image_dimensions(img).1) + image_dimensions(img).1,
{
    lemma_linked_dimension_is_rounded(height, image_dimensions(img).1, image_dimensions(img).0);
}

/// A resize that the window asked for and that was done leaves an image
/// that, under the aspect lock, fits the targets and has the proportions of
/// the old one within a pixel, and that, without the lock, has exactly the
/// target width and height. Under the lock, for an old image with a pixel
/// and positive targets, it has at least one pixel each way and reaches one
/// of the targets, so that nothing larger of its proportions fits them.
pub proof fn lemma_resize_answer_dimensions(app: SnippingApp, after: SnippingApp, action: UiAction)
    requires
        app.current_image is Some,
        app.resize_fits(),
        app.answers(UiEvent::ResizeClicked, after, action),
    ensures
        action == UiAction::ShowImage,
        after.image_size() is Some,
        app.keep_aspect ==> {
            &&& after.image_size() matches Some(size)
            &&& keeps_proportions(size, app.image_size()->0)
            &&& fits_box(size, (app.target_width, app.target_height))
        },
        app.keep_aspect && app.has_pixels() && app.target_width >= 1 && app.target_height >= 1 ==> {
            &&& after.image_size() matches Some(size)
            &&& 1 <= size.0 <= app.target_width
            &&& 1 <= size.1 <= app.target_height
            &&& size.0 == app.target_width || size.1 == app.target_height
        },
        !app.keep_aspect ==> after.image_size() == Some((app.target_width, app.target_height)),
{
}

/// A zoom step in followed by a zoom step out leaves the session as it was,
/// as long as the step in did not hit the largest zoom that can be stored.
pub proof fn lemma_zoom_in_then_out_restores(app: SnippingApp, mid: SnippingApp, end: SnippingApp)
    requires
        zoom_in_is_exact(app.zoom),
        app.answers(UiEvent::ZoomInClicked, mid, UiAction::Nothing),
        mid.answers(UiEvent::ZoomOutClicked, end, UiAction::Nothing),
    ensures
        end == app,
{
    lemma_zoom_in_then_out(app.zoom);
}

/// A zoom step out followed by a zoom step in ends within one thousandth of
/// the zoom it started from, and changes nothing else.
pub proof fn lemma_zoom_out_then_in_is_close(app: SnippingApp, mid: SnippingApp, end: SnippingApp)
    requires
        app.answers(UiEvent::ZoomOutClicked, mid, UiAction::Nothing),
        mid.answers(UiEvent::ZoomInClicked, end, UiAction::Nothing),
    ensures
        distance(end.zoom as int, app.zoom as int) <= 1,
        end == (SnippingApp { zoom: end.zoom, ..app }),
{
    lemma_zoom_out_then_in(app.zoom);
}

/// Resetting the zoom gives zoom one and no pan from every state, and
/// leaves the image, the targets and the drag alone.
pub proof fn lemma_zoom_reset_is_identity_view(app: SnippingApp, after: SnippingApp)
    requires
        app.answers(UiEvent::ZoomResetClicked, after, UiAction::Nothing),
    ensures
        after.zoom == ZOOM_ONE,
        after.image_offset == Offset::origin(),
        after == (SnippingApp { zoom: ZOOM_ONE, image_offset: Offset::origin(), ..app }),
{
}

/// Whatever the event, the answer of a well-formed session is a well-formed
/// session: the targets and the zoom stay positive.
pub proof fn lemma_answers_keep_well_formed(
    app: SnippingApp,
    event: UiEvent,
    after: SnippingApp,
    action: UiAction,
)
    requires
        app.wf(),
        app.answers(event, after, action),
    ensures
        after.wf(),
{
    match event {
        UiEvent::PointerReleased { canvas_center } => {
            if let Some(region) = app.marked_region(canvas_center) {
                let img = app.current_image->0;
                let size = image_dimensions(img);
                let scale = PreviewScale::of(size.0, size.1, app.zoom);
                let preview = app.preview_of(canvas_center)->0;
                let selection = app.selection_of()->0;
                assert(scale.region_of(preview, selection).limited_to(size.0, size.1) == Some(
                    region,
                ));
            }
        },
        _ => {},
    }
}

} // verus!
