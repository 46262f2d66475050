use wallcove::engine::media::{
    accept_image, accept_video, AcceptedImage, AcceptedVideo, OsPath, PathProbe,
};
use wallcove::engine::{Error, WallpaperEngine};

fn image(p: &str) -> AcceptedImage {
    accept_image(PathProbe::File(OsPath::from_text(p))).unwrap()
}

fn video(p: &str) -> AcceptedVideo {
    accept_video(PathProbe::File(OsPath::from_text(p))).unwrap()
}
use wallcove::wallpaper::{ActiveWallpaper, WallpaperKind};

#[test]
fn none_has_no_kind_and_no_path() {
    let a = ActiveWallpaper::none();
    assert_eq!(a.kind, WallpaperKind::Unset);
    assert_eq!(a.path, None);
}

#[test]
fn new_engine_shows_nothing() {
    let e = WallpaperEngine::new();
    assert_eq!(e.active(), ActiveWallpaper::none());
    assert_eq!(WallpaperEngine::default().active(), ActiveWallpaper::none());
}

#[test]
fn applied_static_image_is_reported_as_active() {
    let mut e = WallpaperEngine::new();
    let applied = e.set_static_image(image("/w/a.png"), Ok(())).unwrap();
    assert_eq!(applied.kind, WallpaperKind::StaticImage);
    assert_eq!(applied.path, "/w/a.png");
    let a = e.active();
    assert_eq!(a.kind, WallpaperKind::StaticImage);
    assert_eq!(a.path.as_deref(), Some("/w/a.png"));
}

#[test]
fn failed_video_keeps_previous_wallpaper() {
    let mut e = WallpaperEngine::new();
    e.set_static_image(image("/w/a.png"), Ok(())).unwrap();
    let r = e.set_video(video("/w/b.mp4"), Err(Error::Video("boom".to_string())));
    assert!(matches!(r, Err(Error::Video(ref m)) if m == "boom"));
    assert_eq!(e.active().kind, WallpaperKind::StaticImage);
    assert_eq!(e.active().path.as_deref(), Some("/w/a.png"));
}

#[test]
fn video_replaces_static_image() {
    let mut e = WallpaperEngine::new();
    e.set_static_image(image("/w/a.png"), Ok(())).unwrap();
    let applied = e.set_video(video("/w/b.mp4"), Ok(())).unwrap();
    assert_eq!(applied.kind, WallpaperKind::Video);
    assert_eq!(e.active().kind, WallpaperKind::Video);
    assert_eq!(e.active().path.as_deref(), Some("/w/b.mp4"));
}

#[test]
fn clear_reports_nothing_shown() {
    let mut e = WallpaperEngine::new();
    e.set_video(video("/w/b.mp4"), Ok(())).unwrap();
    let r = e.clear(Ok(())).unwrap();
    assert_eq!(r, ActiveWallpaper::none());
    assert_eq!(e.active(), ActiveWallpaper::none());
}

#[test]
fn failed_clear_keeps_record() {
    let mut e = WallpaperEngine::new();
    e.set_video(video("/w/b.mp4"), Ok(())).unwrap();
    let r = e.clear(Err(Error::Static("qdbus6 exited with exit status: 1: no".to_string())));
    assert!(matches!(r, Err(Error::Static(_))));
    assert_eq!(e.active().kind, WallpaperKind::Video);
}

#[test]
fn shutdown_forgets_wallpaper() {
    let mut e = WallpaperEngine::new();
    e.set_static_image(image("/w/a.png"), Ok(())).unwrap();
    e.shutdown();
    assert_eq!(e.active(), ActiveWallpaper::none());
}

#[test]
fn active_is_consistent_after_every_operation() {
    let mut e = WallpaperEngine::new();
    let check = |a: ActiveWallpaper| assert_eq!(a.kind == WallpaperKind::Unset, a.path.is_none());
    check(e.active());
    e.set_static_image(image("/a.png"), Ok(())).unwrap();
    check(e.active());
    let _ = e.set_video(video("/b.mp4"), Err(Error::Video("x".into())));
    check(e.active());
    e.clear(Ok(())).unwrap();
    check(e.active());
}

#[test]
fn error_messages_follow_their_labels() {
    assert_eq!(Error::NotFound("p".into()).message(), "wallpaper file not found: p");
    assert_eq!(Error::UnsupportedType("t".into()).message(), "unsupported file type: t");
    assert_eq!(Error::Static("s".into()).message(), "failed to set static wallpaper: s");
    assert_eq!(Error::Video("v".into()).message(), "failed to start video wallpaper: v");
    assert_eq!(
        Error::PlayerUnavailable("u".into()).message(),
        "video player not available: u"
    );
    let io = std::io::Error::new(std::io::ErrorKind::Other, "disk on fire");
    assert_eq!(Error::Io(io).message(), "io error: disk on fire");
}

#[test]
fn only_accepted_paths_can_be_recorded() {
    assert!(accept_image(PathProbe::File(OsPath::from_text("/w/a.mp4"))).is_err());
    assert!(accept_video(PathProbe::File(OsPath::from_text("/w/a.png"))).is_err());
    assert!(accept_image(PathProbe::Missing(OsPath::from_text("a.png"))).is_err());
    let a = image("/w/A.PNG");
    assert_eq!(a.path(), "/w/A.PNG");
    let mut e = WallpaperEngine::new();
    e.set_static_image(a, Ok(())).unwrap();
    assert_eq!(e.active().path.as_deref(), Some("/w/A.PNG"));
}
