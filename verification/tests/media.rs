use wallcove::engine::media::{
    known_extension, validate_image_path, validate_video_path, OsPath, PathProbe,
};
use wallcove::engine::Error;

fn text(p: &str) -> OsPath {
    OsPath::from_text(p)
}

fn file(p: &str) -> PathProbe {
    PathProbe::File(text(p))
}

fn ext(p: &str) -> Option<String> {
    known_extension(&text(p))
}

#[test]
fn image_with_known_extension_is_accepted_under_resolved_path() {
    let r = validate_image_path(file("/home/u/Pictures/sunset.png"));
    assert_eq!(r.unwrap(), "/home/u/Pictures/sunset.png");
}

#[test]
fn extension_case_is_ignored() {
    assert!(validate_image_path(file("/w/A.JPEG")).is_ok());
    assert!(validate_video_path(file("/w/clip.MkV")).is_ok());
}

#[test]
fn missing_path_is_not_found_with_requested_path() {
    match validate_image_path(PathProbe::Missing(text("rel/x.png"))) {
        Err(Error::NotFound(p)) => assert_eq!(p, "rel/x.png"),
        other => panic!("unexpected {:?}", other),
    }
}

#[test]
fn directory_is_not_found_with_resolved_path() {
    match validate_video_path(PathProbe::NotAFile(text("/home/u/videos.mp4"))) {
        Err(Error::NotFound(p)) => assert_eq!(p, "/home/u/videos.mp4"),
        other => panic!("unexpected {:?}", other),
    }
}

#[test]
fn unknown_extension_is_reported_lower_cased() {
    match validate_image_path(file("/w/notes.TXT")) {
        Err(Error::UnsupportedType(m)) => assert_eq!(m, ".txt is not a supported image format"),
        other => panic!("unexpected {:?}", other),
    }
}

#[test]
fn missing_extension_is_reported() {
    match validate_video_path(file("/w/movie")) {
        Err(Error::UnsupportedType(m)) => {
            assert_eq!(m, "expected a video file with a known extension")
        }
        other => panic!("unexpected {:?}", other),
    }
}

#[test]
fn hidden_file_name_has_no_extension() {
    assert_eq!(ext("/w/.png"), None);
    assert_eq!(ext("/w/.."), None);
    assert_eq!(ext("/"), None);
    assert_eq!(ext("/w.d/file"), None);
    assert_eq!(ext("/w/a.tar.gz").as_deref(), Some("gz"));
    assert_eq!(ext("/w/a.").as_deref(), Some(""));
}

#[test]
fn trailing_dot_gives_empty_extension() {
    match validate_image_path(file("/w/a.")) {
        Err(Error::UnsupportedType(m)) => assert_eq!(m, ". is not a supported image format"),
        other => panic!("unexpected {:?}", other),
    }
}

#[test]
fn image_is_not_a_video_and_video_is_not_an_image() {
    assert!(validate_video_path(file("/w/a.gif")).is_err());
    assert!(validate_image_path(file("/w/a.webm")).is_err());
    for ext in ["png", "jpg", "jpeg", "webp", "bmp", "gif"] {
        let p = format!("/w/x.{ext}");
        assert!(validate_image_path(file(&p)).is_ok());
        assert!(validate_video_path(file(&p)).is_err());
    }
    for ext in ["mp4", "webm", "mkv", "mov", "avi", "ogv", "m4v"] {
        let p = format!("/w/x.{ext}");
        assert!(validate_video_path(file(&p)).is_ok());
        assert!(validate_image_path(file(&p)).is_err());
    }
}

fn with_gap(before: &str, after: &str) -> OsPath {
    let mut units: Vec<Option<char>> = before.chars().map(Some).collect();
    units.push(None);
    units.extend(after.chars().map(Some));
    OsPath { units }
}

#[test]
fn extension_that_is_not_text_is_unknown() {
    let p = with_gap("/w/a.p", "g");
    assert_eq!(known_extension(&p), None);
    match validate_image_path(PathProbe::File(p)) {
        Err(Error::UnsupportedType(m)) => {
            assert_eq!(m, "expected a image file with a known extension")
        }
        other => panic!("unexpected {:?}", other),
    }
}

#[test]
fn non_text_directory_is_accepted_and_shown_with_replacement() {
    let p = with_gap("/w/", "dir/a.png");
    assert!(!p.is_text());
    assert_eq!(validate_image_path(PathProbe::File(p)).unwrap(), "/w/\u{FFFD}dir/a.png");
    match validate_image_path(PathProbe::Missing(with_gap("x", ".png"))) {
        Err(Error::NotFound(m)) => assert_eq!(m, "x\u{FFFD}.png"),
        other => panic!("unexpected {:?}", other),
    }
}
