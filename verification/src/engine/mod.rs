//! The wallpaper engine: what is shown, and the rules it follows to show it.

pub mod engine;
pub mod error;
pub mod media;
pub mod static_image;
pub mod video;

pub use engine::WallpaperEngine;
pub use error::Error;
