use wallcove::engine::static_image::Platform;
use wallcove::engine::video::linux::wayland::OutputTable;
use wallcove::engine::video::linux::{wait_for_ready, ReadyOutcome};
use wallcove::engine::video::video_support;
use wallcove::engine::Error;

#[test]
fn ready_outcomes() {
    assert!(wait_for_ready(ReadyOutcome::Signaled(Ok(()))).is_ok());
    match wait_for_ready(ReadyOutcome::Signaled(Err("no outputs".into()))) {
        Err(Error::Video(m)) => assert_eq!(m, "no outputs"),
        other => panic!("unexpected {:?}", other),
    }
    match wait_for_ready(ReadyOutcome::TimedOut) {
        Err(Error::Video(m)) => assert_eq!(
            m,
            "timed out waiting for video wallpaper to start (check GStreamer VA-API plugins)"
        ),
        other => panic!("unexpected {:?}", other),
    }
    match wait_for_ready(ReadyOutcome::Disconnected) {
        Err(Error::Video(m)) => {
            assert_eq!(m, "video wallpaper thread exited before becoming ready")
        }
        other => panic!("unexpected {:?}", other),
    }
}

#[test]
fn video_needs_linux_and_wayland() {
    assert!(video_support(Platform::Linux, true).is_ok());
    match video_support(Platform::Linux, false) {
        Err(Error::Video(m)) => {
            assert_eq!(m, "native video wallpapers require a Wayland session on Linux")
        }
        other => panic!("unexpected {:?}", other),
    }
    match video_support(Platform::Windows, true) {
        Err(Error::Video(m)) => {
            assert_eq!(m, "native video wallpapers are not yet implemented on this platform")
        }
        other => panic!("unexpected {:?}", other),
    }
}

fn table() -> OutputTable {
    let mut t = OutputTable::new();
    for (id, name) in [(7u32, "HDMI-A-1"), (3, "DP-2"), (9, "DP-1")] {
        t.add_output(id);
        t.set_name(id, name.to_string());
        t.set_mode(id, true, 1920, 1080);
    }
    t
}

#[test]
fn primary_is_done_output_with_first_name() {
    let mut t = table();
    assert_eq!(t.primary_output(), None);
    t.mark_done(7);
    assert_eq!(t.primary_output(), Some(7));
    t.mark_done(3);
    assert_eq!(t.primary_output(), Some(3));
    t.mark_done(9);
    assert_eq!(t.primary_output(), Some(9));
    t.remove_output(9);
    assert_eq!(t.primary_output(), Some(3));
    assert!(!t.contains(9));
}

#[test]
fn events_for_unknown_outputs_are_ignored() {
    let mut t = OutputTable::new();
    t.set_name(1, "X".into());
    t.mark_done(1);
    t.configure(1, 10, 10);
    t.frame_done(1);
    assert!(!t.request_frame(1));
    assert!(!t.contains(1));
    assert_eq!(t.surface_size(1), None);
}

#[test]
fn sizes_follow_current_mode_and_configure() {
    let mut t = OutputTable::new();
    t.add_output(1);
    assert_eq!(t.surface_size(1), Some((1, 1)));
    t.set_mode(1, false, 800, 600);
    assert_eq!(t.surface_size(1), Some((1, 1)));
    t.set_mode(1, true, -5, 600);
    assert_eq!(t.surface_size(1), Some((1, 600)));
    t.configure(1, 0, 300);
    assert_eq!(t.surface_size(1), Some((1, 600)));
    t.configure(1, 2560, 1440);
    assert_eq!(t.surface_size(1), Some((2560, 1440)));
}

#[test]
fn configure_and_teardown() {
    let mut t = table();
    let mut names = vec![7, 3, 42];
    assert!(t.any_unconfigured(&mut names));
    assert_eq!(names, vec![7, 3]);
    t.configure(7, 0, 0);
    assert!(t.any_unconfigured(&mut names));
    t.configure(3, 0, 0);
    assert!(!t.any_unconfigured(&mut names));
    t.teardown_surfaces();
    assert!(t.any_unconfigured(&mut names));
    assert_eq!(names, vec![7, 3]);
}

#[test]
fn frame_callbacks() {
    let mut t = table();
    assert!(!t.frame_callbacks_pending());
    assert!(t.request_frame(3));
    assert!(t.frame_callbacks_pending());
    t.frame_done(3);
    assert!(!t.frame_callbacks_pending());
    assert!(t.request_frame(3));
    assert!(t.request_frame(7));
    t.cancel_pending_frame_callbacks();
    assert!(!t.frame_callbacks_pending());
    assert!(t.contains(3) && t.contains(7) && t.contains(9));
}
