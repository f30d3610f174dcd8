//! Image-layer editing logic: sampling, tinting, compositing and the
//! drag/selection decisions of an image overlay editor.

pub mod raster;
pub mod average;
pub mod drag;
pub mod dialog;
pub mod tint;
pub mod imaging;
pub mod svg;
pub mod layers;
pub mod compose;
pub mod export;
