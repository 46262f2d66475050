//! Video wallpapers: the decisions around the native video session.
use vstd::prelude::*;
use crate::engine::error::{Error, ErrorView, result_view};
use crate::engine::static_image::Platform;

pub mod linux;

verus! {

/// The report on platforms without a native video session.
pub open spec fn no_native_video_message() -> Seq<char> {
    "native video wallpapers are not yet implemented on this platform"@
}

/// Whether a video session can be started: only on Linux, and there only
/// with a Wayland display.
pub fn video_support(platform: Platform, wayland: bool) -> (r: Result<(), Error>)
    ensures
        platform == Platform::Linux && wayland ==> r is Ok,
        platform == Platform::Linux && !wayland ==> result_view(r) == Err::<(), ErrorView>(
            ErrorView::Video(linux::no_wayland_message()),
        ),
        platform != Platform::Linux ==> result_view(r) == Err::<(), ErrorView>(
            ErrorView::Video(no_native_video_message()),
        ),
{
    match platform {
        Platform::Linux => linux::require_wayland(wayland),
        _ => Err(
            Error::Video(
                String::from_str("native video wallpapers are not yet implemented on this platform"),
            ),
        ),
    }
}

} // verus!
