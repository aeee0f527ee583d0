use image::DynamicImage;
use image::GenericImageView;
use image::GrayImage;
use image::Luma;
use image::Rgba;
use image::RgbaImage;
use snipping_tool::controller::DragState;
use snipping_tool::controller::SnippingApp;
use snipping_tool::controller::Status;
use snipping_tool::geometry::ImageRect;
use snipping_tool::geometry::Offset;
use snipping_tool::geometry::Point;
use snipping_tool::geometry::ScreenRect;
use snipping_tool::save_target::OutputFormat;
use snipping_tool::save_target::SaveTarget;
use snipping_tool::viewport::ZOOM_ONE;

fn picture(width: u32, height: u32) -> DynamicImage {
    let mut buffer = RgbaImage::new(width, height);
    for y in 0..height {
        for x in 0..width {
            buffer.put_pixel(x, y, Rgba([(x % 251) as u8, (y % 241) as u8, ((x + y) % 239) as u8, 255]));
        }
    }
    DynamicImage::ImageRgba8(buffer)
}

fn loaded(width: u32, height: u32) -> SnippingApp {
    let mut app = SnippingApp::new();
    app.load_image(picture(width, height), "/pics/cat.png".to_string());
    app
}

fn size(app: &SnippingApp) -> Option<(u32, u32)> {
    app.current_image.as_ref().map(|img| img.dimensions())
}

fn at(x: i32, y: i32) -> Point {
    Point { x, y }
}

const CENTER: Point = Point { x: 500, y: 400 };

#[test]
fn new_session_starts_empty() {
    let app = SnippingApp::new();
    assert_eq!(app.image_path, None);
    assert!(app.current_image.is_none());
    assert_eq!(app.drag, DragState::Idle);
    assert_eq!(app.target_width, 256);
    assert_eq!(app.target_height, 256);
    assert!(app.keep_aspect);
    assert_eq!(app.save_as_path, "output.png");
    assert_eq!(app.zoom, ZOOM_ONE);
    assert_eq!(app.image_offset, Offset { dx: 0, dy: 0 });
}

#[test]
fn default_session_is_a_new_session() {
    let app = SnippingApp::default();
    assert!(app.current_image.is_none());
    assert_eq!(app.target_width, 256);
    assert_eq!(app.target_height, 256);
    assert!(app.keep_aspect);
    assert_eq!(app.save_as_path, "output.png");
    assert_eq!(app.zoom, 1000);
}

#[test]
fn load_image_takes_the_image_and_its_size() {
    let mut app = SnippingApp::new();
    app.zoom_in();
    app.pan(Offset { dx: 30, dy: -4 });
    app.set_keep_aspect(false);
    app.load_image(picture(320, 200), "/pics/cat.png".to_string());
    assert_eq!(size(&app), Some((320, 200)));
    assert_eq!(app.current_image, Some(picture(320, 200)));
    assert_eq!(app.image_path, Some("/pics/cat.png".to_string()));
    assert_eq!(app.target_width, 320);
    assert_eq!(app.target_height, 200);
    assert_eq!(app.zoom, ZOOM_ONE);
    assert_eq!(app.image_offset, Offset { dx: 0, dy: 0 });
    assert!(!app.keep_aspect);
    assert_eq!(app.save_as_path, "output.png");
}

#[test]
fn load_image_keeps_the_targets_positive_for_an_empty_image() {
    let mut app = SnippingApp::new();
    app.load_image(picture(0, 0), "empty.png".to_string());
    assert_eq!(size(&app), Some((0, 0)));
    assert_eq!(app.target_width, 1);
    assert_eq!(app.target_height, 1);
}

#[test]
fn crop_outside_the_image_changes_nothing() {
    let mut app = loaded(100, 80);
    app.zoom_in();
    app.pan(Offset { dx: 5, dy: 5 });
    for rect in [
        ImageRect { x: 100, y: 0, width: 10, height: 10 },
        ImageRect { x: 0, y: 80, width: 10, height: 10 },
        ImageRect { x: 1000, y: 1000, width: 10, height: 10 },
        ImageRect { x: u32::MAX, y: u32::MAX, width: u32::MAX, height: u32::MAX },
    ] {
        assert!(!app.crop_current_image(rect));
        assert_eq!(app.current_image, Some(picture(100, 80)));
        assert_eq!(app.target_width, 100);
        assert_eq!(app.target_height, 80);
        assert_eq!(app.zoom, 1100);
        assert_eq!(app.image_offset, Offset { dx: 5, dy: 5 });
    }
}

#[test]
fn crop_without_area_changes_nothing() {
    let mut app = loaded(100, 80);
    assert!(!app.crop_current_image(ImageRect { x: 10, y: 10, width: 0, height: 10 }));
    assert!(!app.crop_current_image(ImageRect { x: 10, y: 10, width: 10, height: 0 }));
    assert_eq!(app.current_image, Some(picture(100, 80)));
}

#[test]
fn crop_without_image_changes_nothing() {
    let mut app = SnippingApp::new();
    assert!(!app.crop_current_image(ImageRect { x: 0, y: 0, width: 10, height: 10 }));
    assert!(app.current_image.is_none());
    assert_eq!(app.target_width, 256);
}

#[test]
fn crop_inside_the_image_has_the_size_of_the_region() {
    for (x, y, w, h) in [(0, 0, 100, 80), (10, 20, 30, 40), (99, 79, 1, 1), (0, 79, 100, 1)] {
        let mut app = loaded(100, 80);
        assert!(app.crop_current_image(ImageRect { x, y, width: w, height: h }));
        assert_eq!(size(&app), Some((w, h)));
        assert_eq!(app.target_width, w);
        assert_eq!(app.target_height, h);
    }
}

#[test]
fn crop_copies_the_pixels_of_the_region() {
    let mut app = loaded(100, 80);
    let source = picture(100, 80);
    assert!(app.crop_current_image(ImageRect { x: 10, y: 20, width: 30, height: 40 }));
    let cut = app.current_image.as_ref().unwrap();
    assert_eq!(cut.dimensions(), (30, 40));
    for j in 0..40 {
        for i in 0..30 {
            assert_eq!(cut.get_pixel(i, j), source.get_pixel(10 + i, 20 + j));
        }
    }
    assert_ne!(cut.get_pixel(0, 0), source.get_pixel(0, 0));
}

#[test]
fn crop_keeps_the_kind_of_image() {
    let mut app = SnippingApp::new();
    let gray = GrayImage::from_fn(20, 10, |x, y| Luma([(x * 10 + y) as u8]));
    app.load_image(DynamicImage::ImageLuma8(gray.clone()), "gray.png".to_string());
    assert!(app.crop_current_image(ImageRect { x: 5, y: 2, width: 10, height: 6 }));
    let expected = GrayImage::from_fn(10, 6, |x, y| *gray.get_pixel(x + 5, y + 2));
    assert_eq!(app.current_image, Some(DynamicImage::ImageLuma8(expected)));
}

#[test]
fn crop_limits_the_region_to_the_image() {
    let mut app = loaded(100, 80);
    assert!(app.crop_current_image(ImageRect { x: 90, y: 70, width: 500, height: 500 }));
    assert_eq!(size(&app), Some((10, 10)));
    assert_eq!(app.target_width, 10);
    assert_eq!(app.target_height, 10);
    let source = picture(100, 80);
    let cut = app.current_image.as_ref().unwrap();
    assert_eq!(cut.get_pixel(0, 0), source.get_pixel(90, 70));
    assert_eq!(cut.get_pixel(9, 9), source.get_pixel(99, 79));
}

#[test]
fn crop_resets_the_view_and_keeps_the_rest() {
    let mut app = loaded(100, 80);
    app.zoom_in();
    app.pan(Offset { dx: 30, dy: -4 });
    app.set_keep_aspect(false);
    assert!(app.crop_current_image(ImageRect { x: 1, y: 1, width: 5, height: 5 }));
    assert_eq!(app.zoom, ZOOM_ONE);
    assert_eq!(app.image_offset, Offset { dx: 0, dy: 0 });
    assert_eq!(app.image_path, Some("/pics/cat.png".to_string()));
    assert!(!app.keep_aspect);
    assert_eq!(app.save_as_path, "output.png");
}

#[test]
fn preview_rect_is_centred_on_the_canvas() {
    let mut app = loaded(200, 100);
    assert_eq!(
        app.preview_rect(CENTER),
        Some(ScreenRect { left: 400, top: 350, width: 200, height: 100 })
    );
    app.pan(Offset { dx: 10, dy: -10 });
    assert_eq!(
        app.preview_rect(CENTER),
        Some(ScreenRect { left: 410, top: 340, width: 200, height: 100 })
    );
    app.zoom = 2000;
    assert_eq!(
        app.preview_rect(CENTER),
        Some(ScreenRect { left: 310, top: 290, width: 400, height: 200 })
    );
    assert_eq!(SnippingApp::new().preview_rect(CENTER), None);
}

#[test]
fn preview_rect_of_a_large_image_fits_the_limit() {
    let app = loaded(1600, 1200);
    assert_eq!(
        app.preview_rect(CENTER),
        Some(ScreenRect { left: 100, top: 100, width: 800, height: 600 })
    );
}

#[test]
fn drag_goes_from_idle_to_anchored_to_dragging_to_idle() {
    let mut app = loaded(200, 100);
    assert_eq!(app.drag, DragState::Idle);
    assert_eq!(app.selection(), None);
    app.pointer_pressed(at(420, 360), CENTER);
    assert_eq!(app.drag, DragState::Anchored { anchor: at(420, 360) });
    assert_eq!(app.selection(), Some(ScreenRect { left: 420, top: 360, width: 0, height: 0 }));
    app.pointer_moved(at(450, 380), CENTER);
    assert_eq!(app.drag, DragState::Dragging { anchor: at(420, 360), cursor: at(450, 380) });
    app.pointer_moved(at(470, 400), CENTER);
    assert_eq!(app.drag, DragState::Dragging { anchor: at(420, 360), cursor: at(470, 400) });
    assert_eq!(app.selection(), Some(ScreenRect { left: 420, top: 360, width: 50, height: 40 }));
    assert!(app.pointer_released(CENTER));
    assert_eq!(app.drag, DragState::Idle);
    assert_eq!(app.selection(), None);
}

#[test]
fn drag_outside_the_preview_is_ignored() {
    let mut app = loaded(200, 100);
    app.pointer_pressed(at(399, 360), CENTER);
    assert_eq!(app.drag, DragState::Idle);
    app.pointer_pressed(at(600, 360), CENTER);
    assert_eq!(app.drag, DragState::Idle);
    app.pointer_moved(at(450, 380), CENTER);
    assert_eq!(app.drag, DragState::Idle);
    app.pointer_pressed(at(420, 360), CENTER);
    app.pointer_moved(at(450, 380), CENTER);
    app.pointer_moved(at(700, 700), CENTER);
    assert_eq!(app.drag, DragState::Dragging { anchor: at(420, 360), cursor: at(450, 380) });
}

#[test]
fn drag_without_image_is_ignored() {
    let mut app = SnippingApp::new();
    app.pointer_pressed(at(500, 400), CENTER);
    assert_eq!(app.drag, DragState::Idle);
    assert!(!app.pointer_released(CENTER));
}

#[test]
fn release_crops_to_the_selected_region() {
    let mut app = loaded(200, 100);
    let source = picture(200, 100);
    app.pointer_pressed(at(420, 360), CENTER);
    app.pointer_moved(at(470, 400), CENTER);
    assert!(app.pointer_released(CENTER));
    let cut = app.current_image.as_ref().unwrap();
    assert_eq!(cut.dimensions(), (50, 40));
    assert_eq!(cut.get_pixel(0, 0), source.get_pixel(20, 10));
    assert_eq!(cut.get_pixel(49, 39), source.get_pixel(69, 49));
    assert_eq!(app.target_width, 50);
    assert_eq!(app.target_height, 40);
}

#[test]
fn release_after_a_backward_drag_crops_the_same_region() {
    let mut app = loaded(200, 100);
    let source = picture(200, 100);
    app.pointer_pressed(at(470, 400), CENTER);
    app.pointer_moved(at(420, 360), CENTER);
    assert!(app.pointer_released(CENTER));
    let cut = app.current_image.as_ref().unwrap();
    assert_eq!(cut.dimensions(), (50, 40));
    assert_eq!(cut.get_pixel(0, 0), source.get_pixel(20, 10));
}

#[test]
fn release_maps_the_selection_through_zoom_and_pan() {
    let mut app = loaded(1600, 1200);
    let source = picture(1600, 1200);
    app.zoom = 2000;
    app.pan(Offset { dx: 100, dy: 50 });
    // The preview is 1600 by 1200 points with its corner at (-200, -150);
    // one point is one pixel here, as the fit halves and the zoom doubles.
    assert_eq!(
        app.preview_rect(CENTER),
        Some(ScreenRect { left: -200, top: -150, width: 1600, height: 1200 })
    );
    app.pointer_pressed(at(100, 50), CENTER);
    app.pointer_moved(at(400, 250), CENTER);
    assert!(app.pointer_released(CENTER));
    let cut = app.current_image.as_ref().unwrap();
    assert_eq!(cut.dimensions(), (300, 200));
    assert_eq!(cut.get_pixel(0, 0), source.get_pixel(300, 200));
    assert_eq!(app.zoom, ZOOM_ONE);
    assert_eq!(app.image_offset, Offset { dx: 0, dy: 0 });
}

#[test]
fn release_divides_the_selection_by_the_fit_scale() {
    let mut app = loaded(1600, 1200);
    let source = picture(1600, 1200);
    // Shown at half size: the preview is 800 by 600 with its corner at
    // (100, 100), and each point covers two pixels.
    app.pointer_pressed(at(150, 120), CENTER);
    app.pointer_moved(at(350, 220), CENTER);
    assert!(app.pointer_released(CENTER));
    let cut = app.current_image.as_ref().unwrap();
    assert_eq!(cut.dimensions(), (400, 200));
    assert_eq!(cut.get_pixel(0, 0), source.get_pixel(100, 40));
}

#[test]
fn release_without_movement_crops_nothing() {
    let mut app = loaded(200, 100);
    app.zoom_in();
    app.pointer_pressed(at(420, 360), CENTER);
    assert!(!app.pointer_released(CENTER));
    assert_eq!(app.drag, DragState::Idle);
    assert_eq!(app.current_image, Some(picture(200, 100)));
    assert_eq!(app.zoom, 1100);
    app.pointer_pressed(at(420, 360), CENTER);
    app.pointer_moved(at(420, 390), CENTER);
    assert!(!app.pointer_released(CENTER));
    assert_eq!(app.current_image, Some(picture(200, 100)));
}

#[test]
fn resize_without_lock_hits_the_target_exactly() {
    for (w, h) in [(50, 70), (1, 1), (300, 2), (200, 100)] {
        let mut app = loaded(200, 100);
        app.set_keep_aspect(false);
        app.set_target_width(w);
        app.set_target_height(h);
        app.resize_current_image();
        assert_eq!(size(&app), Some((w, h)));
        assert_eq!(app.target_width, w);
        assert_eq!(app.target_height, h);
    }
}

#[test]
fn resize_with_lock_fits_the_target_and_keeps_the_proportions() {
    let mut app = loaded(200, 100);
    app.target_width = 80;
    app.target_height = 80;
    app.resize_current_image();
    assert_eq!(size(&app), Some((80, 40)));
    let mut tall = loaded(100, 200);
    tall.target_width = 80;
    tall.target_height = 80;
    tall.resize_current_image();
    assert_eq!(size(&tall), Some((40, 80)));
    let mut odd = loaded(300, 200);
    odd.target_width = 100;
    odd.target_height = 100;
    odd.resize_current_image();
    assert_eq!(size(&odd), Some((100, 67)));
}

#[test]
fn resize_with_lock_after_a_width_edit_hits_both_targets() {
    let mut app = loaded(200, 100);
    app.set_target_width(51);
    assert_eq!(app.target_height, 26);
    app.resize_current_image();
    let (width, height) = size(&app).unwrap();
    assert_eq!(width, 51);
    assert!(height.abs_diff(26) <= 1);
}

#[test]
fn resize_to_the_same_size_keeps_the_pixels() {
    let mut app = loaded(60, 40);
    app.resize_current_image();
    assert_eq!(app.current_image, Some(picture(60, 40)));
    app.set_keep_aspect(false);
    app.resize_current_image();
    assert_eq!(app.current_image, Some(picture(60, 40)));
}

#[test]
fn resize_resets_the_view() {
    let mut app = loaded(200, 100);
    app.zoom_in();
    app.pan(Offset { dx: 30, dy: -4 });
    app.set_target_width(100);
    app.resize_current_image();
    assert_eq!(app.zoom, ZOOM_ONE);
    assert_eq!(app.image_offset, Offset { dx: 0, dy: 0 });
    assert_eq!(app.image_path, Some("/pics/cat.png".to_string()));
}

#[test]
fn resize_without_image_changes_nothing() {
    let mut app = SnippingApp::new();
    app.zoom_in();
    app.resize_current_image();
    assert!(app.current_image.is_none());
    assert_eq!(app.zoom, 1100);
    assert!(app.try_resize_current_image());
    assert!(app.can_resize());
}

#[test]
fn try_resize_refuses_what_cannot_be_allocated() {
    let mut app = loaded(200, 100);
    app.set_keep_aspect(false);
    app.zoom_in();
    app.target_width = u32::MAX;
    app.target_height = u32::MAX;
    assert!(!app.can_resize());
    assert!(!app.try_resize_current_image());
    assert_eq!(app.current_image, Some(picture(200, 100)));
    assert_eq!(app.zoom, 1100);
    app.target_width = 20;
    app.target_height = 10;
    assert!(app.can_resize());
    assert!(app.try_resize_current_image());
    assert_eq!(size(&app), Some((20, 10)));
}

#[test]
fn width_edit_with_lock_recomputes_the_height() {
    let mut app = loaded(200, 100);
    app.set_target_width(100);
    assert_eq!((app.target_width, app.target_height), (100, 50));
    app.set_target_width(51);
    assert_eq!((app.target_width, app.target_height), (51, 26));
    app.set_target_width(1);
    assert_eq!((app.target_width, app.target_height), (1, 1));
    let mut wide = loaded(1920, 1080);
    wide.set_target_width(300);
    assert_eq!((wide.target_width, wide.target_height), (300, 169));
}

#[test]
fn height_edit_with_lock_recomputes_the_width() {
    let mut app = loaded(200, 100);
    app.set_target_height(50);
    assert_eq!((app.target_width, app.target_height), (100, 50));
    app.set_target_height(13);
    assert_eq!((app.target_width, app.target_height), (26, 13));
    let mut wide = loaded(1920, 1080);
    wide.set_target_height(169);
    assert_eq!((wide.target_width, wide.target_height), (300, 169));
}

#[test]
fn edits_without_lock_leave_the_other_dimension() {
    let mut app = loaded(200, 100);
    app.set_keep_aspect(false);
    app.set_target_width(37);
    assert_eq!((app.target_width, app.target_height), (37, 100));
    app.set_target_height(11);
    assert_eq!((app.target_width, app.target_height), (37, 11));
}

#[test]
fn edits_without_image_leave_the_other_dimension() {
    let mut app = SnippingApp::new();
    app.set_target_width(37);
    assert_eq!((app.target_width, app.target_height), (37, 256));
    app.set_target_height(11);
    assert_eq!((app.target_width, app.target_height), (37, 11));
}

#[test]
fn edits_keep_the_targets_positive() {
    let mut app = loaded(1000, 1);
    app.set_target_width(0);
    assert_eq!((app.target_width, app.target_height), (1, 1));
    app.set_target_width(10);
    assert_eq!((app.target_width, app.target_height), (10, 1));
    app.set_keep_aspect(false);
    app.set_target_height(0);
    assert_eq!(app.target_height, 1);
}

#[test]
fn zoom_in_then_out_is_where_it_started() {
    let mut app = SnippingApp::new();
    app.zoom_in();
    assert_eq!(app.zoom, 1100);
    app.zoom_out();
    assert_eq!(app.zoom, 1000);
    for _ in 0..40 {
        app.zoom_in();
    }
    let high = app.zoom;
    app.zoom_in();
    app.zoom_out();
    assert_eq!(app.zoom, high);
}

#[test]
fn reset_zoom_gives_zoom_one_and_no_pan() {
    let mut app = loaded(200, 100);
    for _ in 0..7 {
        app.zoom_out();
    }
    app.pan(Offset { dx: -300, dy: 12 });
    app.reset_zoom();
    assert_eq!(app.zoom, ZOOM_ONE);
    assert_eq!(app.image_offset, Offset { dx: 0, dy: 0 });
    assert_eq!(size(&app), Some((200, 100)));
}

#[test]
fn pan_accumulates() {
    let mut app = SnippingApp::new();
    app.pan(Offset { dx: 3, dy: 4 });
    app.pan(Offset { dx: -10, dy: 1 });
    assert_eq!(app.image_offset, Offset { dx: -7, dy: 5 });
}

#[test]
fn save_as_plans_by_extension_and_records_the_path() {
    let mut app = loaded(20, 10);
    assert_eq!(
        app.save_as("/out/shot.jpg"),
        Some(SaveTarget { path: "/out/shot.jpg".to_string(), format: OutputFormat::Jpeg })
    );
    assert_eq!(app.save_as_path, "/out/shot.jpg");
    assert_eq!(
        app.save_as("/out/shot"),
        Some(SaveTarget { path: "/out/shot.png".to_string(), format: OutputFormat::Png })
    );
    assert_eq!(app.save_as_path, "/out/shot.png");
    assert_eq!(
        app.save_as("/out/shot.bmp"),
        Some(SaveTarget { path: "/out/shot.bmp".to_string(), format: OutputFormat::Png })
    );
    assert_eq!(app.image_path, Some("/pics/cat.png".to_string()));
}

#[test]
fn save_as_without_image_does_nothing() {
    let mut app = SnippingApp::new();
    assert_eq!(app.save_as("/out/shot.jpg"), None);
    assert_eq!(app.save_as_path, "output.png");
}

#[test]
fn save_overwrite_goes_back_to_the_source() {
    let app = loaded(20, 10);
    assert_eq!(
        app.save_overwrite(),
        Some(SaveTarget { path: "/pics/cat.png".to_string(), format: OutputFormat::Png })
    );
    let mut jpeg = SnippingApp::new();
    jpeg.load_image(picture(4, 4), "/pics/cat.JPG".to_string());
    assert_eq!(
        jpeg.save_overwrite(),
        Some(SaveTarget { path: "/pics/cat.JPG".to_string(), format: OutputFormat::Jpeg })
    );
    let mut bare = SnippingApp::new();
    bare.load_image(picture(4, 4), "/pics/cat".to_string());
    assert_eq!(
        bare.save_overwrite(),
        Some(SaveTarget { path: "/pics/cat".to_string(), format: OutputFormat::Png })
    );
}

#[test]
fn save_overwrite_needs_an_image_and_a_source() {
    assert_eq!(SnippingApp::new().save_overwrite(), None);
    let mut pasted = SnippingApp::new();
    pasted.current_image = Some(picture(4, 4));
    assert_eq!(pasted.save_overwrite(), None);
    let mut gone = SnippingApp::new();
    gone.image_path = Some("/pics/cat.png".to_string());
    assert_eq!(gone.save_overwrite(), None);
}

#[test]
fn reload_original_gives_the_source() {
    assert_eq!(SnippingApp::new().reload_original(), None);
    assert_eq!(loaded(4, 4).reload_original(), Some("/pics/cat.png".to_string()));
}

#[test]
fn status_names_the_file_and_the_size() {
    assert_eq!(SnippingApp::new().status(), Status::NoImage);
    assert_eq!(
        loaded(320, 200).status(),
        Status::Loaded { name: "cat.png".to_string(), width: 320, height: 200 }
    );
    let mut pasted = SnippingApp::new();
    pasted.current_image = Some(picture(4, 5));
    assert_eq!(
        pasted.status(),
        Status::Loaded { name: "Unnamed".to_string(), width: 4, height: 5 }
    );
}
