//! Verified core of a window auto-clicker: it converts captured RGBA
//! frames to luminance rasters, matches them against a library of
//! template images by sum-of-squared-differences, decides per template
//! whether to click, and drives the session state machine with its
//! cooperative cancellation. All platform work (capture, input
//! injection, the console) lives outside this crate and exchanges plain
//! values with it.

pub mod config;
pub mod console;
pub mod decide;
pub mod dispatch;
pub mod listener;
pub mod locator;
pub mod luma;
pub mod matcher;
pub mod raster;
pub mod session;
pub mod templates;
pub mod text;
