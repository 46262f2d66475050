//! Verified core of the Wallcove wallpaper daemon: the wire types shared by
//! daemon and client, the engine's bookkeeping of the active wallpaper, media
//! validation, the choice of static-wallpaper backends and the Wayland output
//! table of the video session.

pub mod client;
pub mod daemon;
pub mod engine;
pub mod error;
pub mod protocol;
pub mod text;
pub mod wallpaper;
