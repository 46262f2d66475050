//! The native video session on Linux, which draws on Wayland layer surfaces.
use vstd::prelude::*;
use crate::engine::error::{Error, ErrorView, result_view};

pub mod session;
pub mod wayland;

verus! {

/// How the wait for the session's first frame ended.
pub enum ReadyOutcome {
    /// The session sent its signal: ready, or the reason it failed.
    Signaled(Result<(), String>),
    /// Nothing came within the allowed time.
    TimedOut,
    /// The session ended without sending anything.
    Disconnected,
}

/// The report when the session did not start in time.
pub open spec fn ready_timeout_message() -> Seq<char> {
    "timed out waiting for video wallpaper to start (check GStreamer VA-API plugins)"@
}

/// The report when the session ended before it was ready.
pub open spec fn ready_disconnected_message() -> Seq<char> {
    "video wallpaper thread exited before becoming ready"@
}

/// The result of waiting for the session to show its first frame: ready is
/// success; anything else is a video error with the session's reason or a
/// fixed report.
pub fn wait_for_ready(outcome: ReadyOutcome) -> (r: Result<(), Error>)
    ensures
        match outcome {
            ReadyOutcome::Signaled(Ok(_)) => r is Ok,
            ReadyOutcome::Signaled(Err(m)) => result_view(r) == Err::<(), ErrorView>(
                ErrorView::Video(m@),
            ),
            ReadyOutcome::TimedOut => result_view(r) == Err::<(), ErrorView>(
                ErrorView::Video(ready_timeout_message()),
            ),
            ReadyOutcome::Disconnected => result_view(r) == Err::<(), ErrorView>(
                ErrorView::Video(ready_disconnected_message()),
            ),
        },
{
    match outcome {
        ReadyOutcome::Signaled(Ok(())) => Ok(()),
        ReadyOutcome::Signaled(Err(m)) => Err(Error::Video(m)),
        ReadyOutcome::TimedOut => Err(
            Error::Video(
                String::from_str(
                    "timed out waiting for video wallpaper to start (check GStreamer VA-API plugins)",
                ),
            ),
        ),
        ReadyOutcome::Disconnected => Err(
            Error::Video(String::from_str("video wallpaper thread exited before becoming ready")),
        ),
    }
}

/// The report when no Wayland display is available.
pub open spec fn no_wayland_message() -> Seq<char> {
    "native video wallpapers require a Wayland session on Linux"@
}

/// A session can only start where a Wayland display is available.
pub fn require_wayland(wayland: bool) -> (r: Result<(), Error>)
    ensures
        wayland ==> r is Ok,
        !wayland ==> result_view(r) == Err::<(), ErrorView>(ErrorView::Video(no_wayland_message())),
{
    if wayland {
        Ok(())
    } else {
        Err(Error::Video(String::from_str("native video wallpapers require a Wayland session on Linux")))
    }
}

} // verus!
