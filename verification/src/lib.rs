//! Terminal image viewer core: pixel normalization, viewport sampling,
//! cell rendering, and pan/zoom navigation state.

pub mod pixel;
pub mod raster;
pub mod image;
pub mod zoom;
pub mod view;
pub mod render;

pub use pixel::Pixel;
pub use raster::{Raster, ImageError};
pub use image::Image;
pub use zoom::Zoom;
pub use view::{ViewState, InputEvent};
pub use render::Cell;
