//! Session logic of a small image snipping tool: loading, drag-to-crop,
//! resizing and saving decisions, with the codec work delegated to `image`.
//!
//! The library holds no window and touches no file. `controller` keeps the
//! state of a session and answers the events of a window; `viewport` and
//! `geometry` take a selection on screen to a region of the image; `aspect`
//! links the target dimensions; `save_target` reads the output format off a
//! file name; `raster` is the boundary with the `image` crate.

pub mod aspect;
pub mod controller;
pub mod division;
pub mod geometry;
pub mod image_ops;
pub mod raster;
pub mod save_target;
pub mod viewport;

pub use controller::SnippingApp;
pub use image_ops::crop_and_resize;
