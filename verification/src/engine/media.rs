//! Which files the engine accepts as wallpapers.
//!
//! The file system is asked by the caller (does the path resolve, is it a
//! regular file); the decision on what was found is made here.
use vstd::prelude::*;
use crate::engine::error::{Error, ErrorView, result_view};
use crate::text::{
    ascii_lower, concat3, is_ascii_upper, lemma_ascii_lower_undoes_upper, push_char, str_eq,
    to_ascii_lowercase, upper_cased_from,
};

verus! {

/// A path as the operating system holds it, one unit per character: `None`
/// stands for a stretch that is not valid text (a run of bytes that is not
/// UTF-8).
pub struct OsPath {
    pub units: Vec<Option<char>>,
}

impl View for OsPath {
    type V = Seq<Option<char>>;

    open spec fn view(&self) -> Seq<Option<char>> {
        self.units@
    }
}

/// How a unit is displayed: its character, or U+FFFD for a stretch that is
/// not text.
pub open spec fn shown_char(x: Option<char>) -> char {
    match x {
        Some(c) => c,
        None => '\u{FFFD}',
    }
}

/// How a path is displayed (as `Path::display` shows it).
pub open spec fn shown(u: Seq<Option<char>>) -> Seq<char> {
    u.map_values(|x: Option<char>| shown_char(x))
}

/// Every unit of the path is text (`to_str` gives the path).
pub open spec fn all_text(u: Seq<Option<char>>) -> bool {
    forall|i: int| 0 <= i < u.len() ==> (#[trigger] u[i]) is Some
}

/// The units of a path that is all text.
pub open spec fn as_units(s: Seq<char>) -> Seq<Option<char>> {
    s.map_values(|c: char| Some(c))
}

/// A path given as text is all text and is displayed as that text.
pub proof fn lemma_text_path(s: Seq<char>)
    ensures
        all_text(as_units(s)),
        shown(as_units(s)) == s,
{
    assert(shown(as_units(s)) =~= s);
}

fn shown_in(u: &Vec<Option<char>>, lo: usize, hi: usize) -> (r: String)
    requires
        lo <= hi <= u@.len(),
    ensures
        r@ == shown(u@.subrange(lo as int, hi as int)),
{
    let mut r = String::new();
    let mut i: usize = lo;
    while i < hi
        invariant
            lo <= i <= hi <= u@.len(),
            r@ == shown(u@.subrange(lo as int, i as int)),
        decreases hi - i,
    {
        let c = match u[i] {
            Some(c) => c,
            None => '\u{FFFD}',
        };
        push_char(&mut r, c);
        assert(u@.subrange(lo as int, i + 1) == u@.subrange(lo as int, i as int).push(u@[i as int]));
        assert(shown(u@.subrange(lo as int, i + 1)) =~= shown(u@.subrange(lo as int, i as int)).push(c));
        i = i + 1;
    }
    r
}

fn all_text_in(u: &Vec<Option<char>>, lo: usize, hi: usize) -> (r: bool)
    requires
        lo <= hi <= u@.len(),
    ensures
        r == all_text(u@.subrange(lo as int, hi as int)),
{
    let mut i: usize = lo;
    while i < hi
        invariant
            lo <= i <= hi <= u@.len(),
            forall|k: int| lo <= k < i ==> (#[trigger] u@[k]) is Some,
        decreases hi - i,
    {
        if u[i].is_none() {
            assert(u@.subrange(lo as int, hi as int)[i - lo] is None);
            return false;
        }
        i = i + 1;
    }
    assert forall|k: int| 0 <= k < hi - lo implies (#[trigger] u@.subrange(lo as int, hi as int)[k]) is Some by {
        assert(u@[lo + k] is Some);
    }
    true
}

impl OsPath {
    /// The path with the given text.
    pub fn from_text(s: &str) -> (r: OsPath)
        ensures
            r@ == as_units(s@),
    {
        let n = s.unicode_len();
        let mut units: Vec<Option<char>> = Vec::new();
        let mut i: usize = 0;
        while i < n
            invariant
                n == s@.len(),
                i <= n,
                units@ == as_units(s@.take(i as int)),
            decreases n - i,
        {
            let c = s.get_char(i);
            units.push(Some(c));
            assert(s@.take(i + 1) == s@.take(i as int).push(c));
            assert(as_units(s@.take(i + 1)) =~= as_units(s@.take(i as int)).push(Some(c)));
            i = i + 1;
        }
        assert(s@.take(n as int) == s@);
        OsPath { units }
    }

    /// The path as displayed.
    pub fn shown(&self) -> (r: String)
        ensures
            r@ == shown(self@),
    {
        let r = shown_in(&self.units, 0, self.units.len());
        assert(self.units@.subrange(0, self.units@.len() as int) == self.units@);
        r
    }

    /// Whether the path is all text.
    pub fn is_text(&self) -> (r: bool)
        ensures
            r == all_text(self@),
    {
        let r = all_text_in(&self.units, 0, self.units.len());
        assert(self.units@.subrange(0, self.units@.len() as int) == self.units@);
        r
    }
}

/// What the file system said about a requested path.
pub enum PathProbe {
    /// The path could not be resolved; holds the path as it was requested.
    Missing(OsPath),
    /// The path resolved to something that is not a regular file; holds the
    /// resolved path.
    NotAFile(OsPath),
    /// The path resolved to a regular file; holds the resolved path.
    File(OsPath),
}

pub enum PathProbeView {
    Missing(Seq<Option<char>>),
    NotAFile(Seq<Option<char>>),
    File(Seq<Option<char>>),
}

impl View for PathProbe {
    type V = PathProbeView;

    open spec fn view(&self) -> PathProbeView {
        match self {
            PathProbe::Missing(p) => PathProbeView::Missing(p@),
            PathProbe::NotAFile(p) => PathProbeView::NotAFile(p@),
            PathProbe::File(p) => PathProbeView::File(p@),
        }
    }
}

/// The index of the last `c` in `s`, or -1 when there is none.
pub open spec fn last_index_of<T>(s: Seq<T>, c: T) -> int
    decreases s.len(),
{
    if s.len() == 0 {
        -1
    } else if s.last() == c {
        s.len() - 1
    } else {
        last_index_of(s.drop_last(), c)
    }
}

pub proof fn lemma_last_index_of_bounds<T>(s: Seq<T>, c: T)
    ensures
        -1 <= last_index_of(s, c) < s.len(),
        last_index_of(s, c) >= 0 ==> s[last_index_of(s, c)] == c,
    decreases s.len(),
{
    if s.len() > 0 && s.last() != c {
        lemma_last_index_of_bounds(s.drop_last(), c);
    }
}

/// The last component of a resolved path: what follows its last `/`.
pub open spec fn file_name(p: Seq<Option<char>>) -> Seq<Option<char>> {
    p.subrange(last_index_of(p, Some('/')) + 1, p.len() as int)
}

/// The extension of a resolved path, as `Path::extension` finds it: what
/// follows the last `.` of the file name, where the name `..`, a name
/// without a dot and a name whose only dot is its first character have none.
pub open spec fn extension_of(p: Seq<Option<char>>) -> Option<Seq<Option<char>>> {
    let name = file_name(p);
    let dot = last_index_of(name, Some('.'));
    if (name.len() == 2 && name[0] == Some('.') && name[1] == Some('.')) || dot <= 0 {
        None
    } else {
        Some(name.subrange(dot + 1, name.len() as int))
    }
}

/// The extension of a resolved path as text (`extension()` followed by
/// `to_str()`): none when there is no extension or it is not text.
pub open spec fn known_extension_of(p: Seq<Option<char>>) -> Option<Seq<char>> {
    match extension_of(p) {
        Some(e) => if all_text(e) {
            Some(shown(e))
        } else {
            None
        },
        None => None,
    }
}

/// The extensions accepted for still images.
pub open spec fn image_extensions() -> Seq<Seq<char>> {
    seq!["png"@, "jpg"@, "jpeg"@, "webp"@, "bmp"@, "gif"@]
}

/// The extensions accepted for videos.
pub open spec fn video_extensions() -> Seq<Seq<char>> {
    seq!["mp4"@, "webm"@, "mkv"@, "mov"@, "avi"@, "ogv"@, "m4v"@]
}

/// The outcome of validating a probed path against a list of extensions:
/// a missing path or a non-file is not found; a file is accepted, under its
/// resolved path as displayed, when its extension is text and, lower-cased,
/// is in the list.
pub open spec fn media_verdict(
    probe: PathProbeView,
    extensions: Seq<Seq<char>>,
    label: Seq<char>,
) -> Result<Seq<char>, ErrorView> {
    match probe {
        PathProbeView::Missing(p) => Err(ErrorView::NotFound(shown(p))),
        PathProbeView::NotAFile(c) => Err(ErrorView::NotFound(shown(c))),
        PathProbeView::File(c) => match known_extension_of(c) {
            None => Err(
                ErrorView::UnsupportedType(
                    "expected a "@ + label + " file with a known extension"@,
                ),
            ),
            Some(e) => if extensions.contains(ascii_lower(e)) {
                Ok(shown(c))
            } else {
                Err(
                    ErrorView::UnsupportedType(
                        "."@ + ascii_lower(e) + " is not a supported "@ + label + " format"@,
                    ),
                )
            },
        },
    }
}

/// The index of the last unit `Some(c)` among `u[lo..hi]`.
fn last_index_in(u: &Vec<Option<char>>, lo: usize, hi: usize, c: char) -> (r: Option<usize>)
    requires
        lo <= hi <= u@.len(),
    ensures
        match r {
            Some(i) => lo <= i < hi && i - lo == last_index_of(
                u@.subrange(lo as int, hi as int),
                Some(c),
            ),
            None => last_index_of(u@.subrange(lo as int, hi as int), Some(c)) == -1,
        },
{
    let mut j: usize = hi;
    while j > lo
        invariant
            lo <= j <= hi <= u@.len(),
            last_index_of(u@.subrange(lo as int, hi as int), Some(c)) == last_index_of(
                u@.subrange(lo as int, j as int),
                Some(c),
            ),
        decreases j,
    {
        let hit = match u[j - 1] {
            Some(d) => d == c,
            None => false,
        };
        if hit {
            assert(u@.subrange(lo as int, j as int).last() == Some(c));
            return Some(j - 1);
        }
        assert(u@.subrange(lo as int, j as int).drop_last() == u@.subrange(lo as int, j - 1));
        j = j - 1;
    }
    None
}

/// The extension of a resolved path as text (see [`known_extension_of`]).
pub fn known_extension(path: &OsPath) -> (r: Option<String>)
    ensures
        match r {
            Some(e) => known_extension_of(path@) == Some(e@),
            None => known_extension_of(path@) is None,
        },
{
    let u = &path.units;
    let n = u.len();
    assert(u@.subrange(0, n as int) == u@);
    let start: usize = match last_index_in(u, 0, n, '/') {
        Some(i) => i + 1,
        None => 0,
    };
    let ghost name = u@.subrange(start as int, n as int);
    assert(name == file_name(path@));
    if n - start == 2 && u[start] == Some('.') && u[start + 1] == Some('.') {
        assert(name[0] == Some('.') && name[1] == Some('.'));
        return None;
    }
    match last_index_in(u, start, n, '.') {
        Some(dot) => {
            if dot == start {
                None
            } else {
                assert(u@.subrange(dot + 1, n as int) == name.subrange(
                    dot - start + 1,
                    name.len() as int,
                ));
                if all_text_in(u, dot + 1, n) {
                    Some(shown_in(u, dot + 1, n))
                } else {
                    None
                }
            }
        },
        None => None,
    }
}

/// Whether `ext` is one of `extensions`.
fn listed(extensions: &[&str], ext: &str) -> (r: bool)
    ensures
        r == extensions@.map_values(|e: &str| e@).contains(ext@),
{
    let ghost names = extensions@.map_values(|e: &str| e@);
    let mut i: usize = 0;
    while i < extensions.len()
        invariant
            names == extensions@.map_values(|e: &str| e@),
            i <= extensions@.len(),
            forall|k: int| 0 <= k < i ==> names[k] != ext@,
        decreases extensions.len() - i,
    {
        if str_eq(extensions[i], ext) {
            assert(names[i as int] == ext@);
            return true;
        }
        i = i + 1;
    }
    false
}

/// Accepts a probed path when it is a regular file whose extension,
/// compared without regard to ASCII case, is one of `extensions`; `label`
/// names the kind of media in the error reports.
pub fn validate_media_path(probe: PathProbe, extensions: &[&str], label: &str) -> (r: Result<
    String,
    Error,
>)
    ensures
        result_view(r) == media_verdict(probe@, extensions@.map_values(|e: &str| e@), label@),
{
    match probe {
        PathProbe::Missing(p) => Err(Error::NotFound(p.shown())),
        PathProbe::NotAFile(c) => Err(Error::NotFound(c.shown())),
        PathProbe::File(c) => validate_file(&c, extensions, label),
    }
}

fn validate_file(c: &OsPath, extensions: &[&str], label: &str) -> (r: Result<String, Error>)
    ensures
        result_view(r) == media_verdict(
            PathProbeView::File(c@),
            extensions@.map_values(|e: &str| e@),
            label@,
        ),
{
    match known_extension(c) {
        None => {
            let m = concat3("expected a ", label, " file with a known extension");
            Err(Error::UnsupportedType(m))
        },
        Some(e) => {
            let lower = to_ascii_lowercase(e.as_str());
            if listed(extensions, lower.as_str()) {
                Ok(c.shown())
            } else {
                let head = concat3(".", lower.as_str(), " is not a supported ");
                let m = concat3(head.as_str(), label, " format");
                Err(Error::UnsupportedType(m))
            }
        },
    }
}

fn image_list() -> (r: [&'static str; 6])
    ensures
        r@.map_values(|e: &str| e@) == image_extensions(),
{
    let extensions = ["png", "jpg", "jpeg", "webp", "bmp", "gif"];
    assert(extensions@.map_values(|e: &str| e@) == image_extensions());
    extensions
}

fn video_list() -> (r: [&'static str; 7])
    ensures
        r@.map_values(|e: &str| e@) == video_extensions(),
{
    let extensions = ["mp4", "webm", "mkv", "mov", "avi", "ogv", "m4v"];
    assert(extensions@.map_values(|e: &str| e@) == video_extensions());
    extensions
}

/// Accepts a still image: a regular file ending in png, jpg, jpeg, webp, bmp
/// or gif, in any ASCII case; the resolved path is returned.
pub fn validate_image_path(probe: PathProbe) -> (r: Result<String, Error>)
    ensures
        result_view(r) == media_verdict(probe@, image_extensions(), "image"@),
{
    let extensions = image_list();
    validate_media_path(probe, &extensions, "image")
}

/// Accepts a video: a regular file ending in mp4, webm, mkv, mov, avi, ogv
/// or m4v, in any ASCII case; the resolved path is returned.
pub fn validate_video_path(probe: PathProbe) -> (r: Result<String, Error>)
    ensures
        result_view(r) == media_verdict(probe@, video_extensions(), "video"@),
{
    let extensions = video_list();
    validate_media_path(probe, &extensions, "video")
}

/// `path` is a resolved regular file that is accepted as a still image.
pub open spec fn accepted_image(path: Seq<Option<char>>) -> bool {
    media_verdict(PathProbeView::File(path), image_extensions(), "image"@) == Ok::<
        Seq<char>,
        ErrorView,
    >(shown(path))
}

/// `path` is a resolved regular file that is accepted as a video.
pub open spec fn accepted_video(path: Seq<Option<char>>) -> bool {
    media_verdict(PathProbeView::File(path), video_extensions(), "video"@) == Ok::<
        Seq<char>,
        ErrorView,
    >(shown(path))
}

/// `shown` is how some path accepted as a still image is displayed.
pub open spec fn shows_accepted_image(shown_path: Seq<char>) -> bool {
    exists|u: Seq<Option<char>>| accepted_image(u) && shown(u) == shown_path
}

/// `shown` is how some path accepted as a video is displayed.
pub open spec fn shows_accepted_video(shown_path: Seq<char>) -> bool {
    exists|u: Seq<Option<char>>| accepted_video(u) && shown(u) == shown_path
}

/// A path that the image validation accepted. Only validation makes one.
pub struct AcceptedImage {
    path: OsPath,
    shown: String,
}

/// A path that the video validation accepted. Only validation makes one.
pub struct AcceptedVideo {
    path: OsPath,
    shown: String,
}

impl View for AcceptedImage {
    type V = Seq<Option<char>>;

    closed spec fn view(&self) -> Seq<Option<char>> {
        self.path@
    }
}

impl View for AcceptedVideo {
    type V = Seq<Option<char>>;

    closed spec fn view(&self) -> Seq<Option<char>> {
        self.path@
    }
}

impl AcceptedImage {
    #[verifier::type_invariant]
    spec fn is_accepted(self) -> bool {
        accepted_image(self.path@) && self.shown@ == shown(self.path@)
    }

    /// The accepted (resolved) path, as displayed.
    pub fn path(&self) -> (r: &str)
        ensures
            r@ == shown(self@),
            accepted_image(self@),
    {
        proof {
            use_type_invariant(self);
        }
        self.shown.as_str()
    }

    /// Whether the accepted path is all text (programs are handed it only
    /// then).
    pub fn is_text(&self) -> (r: bool)
        ensures
            r == all_text(self@),
    {
        self.path.is_text()
    }

    /// The accepted path as displayed, owned.
    pub fn into_path(self) -> (r: String)
        ensures
            r@ == shown(self@),
            accepted_image(self@),
    {
        proof {
            use_type_invariant(&self);
        }
        self.shown
    }
}

impl AcceptedVideo {
    #[verifier::type_invariant]
    spec fn is_accepted(self) -> bool {
        accepted_video(self.path@) && self.shown@ == shown(self.path@)
    }

    /// The accepted (resolved) path, as displayed.
    pub fn path(&self) -> (r: &str)
        ensures
            r@ == shown(self@),
            accepted_video(self@),
    {
        proof {
            use_type_invariant(self);
        }
        self.shown.as_str()
    }

    /// The accepted path as displayed, owned.
    pub fn into_path(self) -> (r: String)
        ensures
            r@ == shown(self@),
            accepted_video(self@),
    {
        proof {
            use_type_invariant(&self);
        }
        self.shown
    }
}

/// Validates a probed path as a still image (see [`validate_image_path`]),
/// keeping the proof that it was accepted.
pub fn accept_image(probe: PathProbe) -> (r: Result<AcceptedImage, Error>)
    ensures
        match r {
            Ok(a) => probe@ == PathProbeView::File(a@) && media_verdict(
                probe@,
                image_extensions(),
                "image"@,
            ) == Ok::<Seq<char>, ErrorView>(shown(a@)),
            Err(e) => media_verdict(probe@, image_extensions(), "image"@) == Err::<
                Seq<char>,
                ErrorView,
            >(e@),
        },
{
    match probe {
        PathProbe::Missing(p) => Err(Error::NotFound(p.shown())),
        PathProbe::NotAFile(c) => Err(Error::NotFound(c.shown())),
        PathProbe::File(path) => {
            let extensions = image_list();
            match validate_file(&path, &extensions, "image") {
                Ok(shown) => Ok(AcceptedImage { path, shown }),
                Err(e) => Err(e),
            }
        },
    }
}

/// Validates a probed path as a video (see [`validate_video_path`]),
/// keeping the proof that it was accepted.
pub fn accept_video(probe: PathProbe) -> (r: Result<AcceptedVideo, Error>)
    ensures
        match r {
            Ok(a) => probe@ == PathProbeView::File(a@) && media_verdict(
                probe@,
                video_extensions(),
                "video"@,
            ) == Ok::<Seq<char>, ErrorView>(shown(a@)),
            Err(e) => media_verdict(probe@, video_extensions(), "video"@) == Err::<
                Seq<char>,
                ErrorView,
            >(e@),
        },
{
    match probe {
        PathProbe::Missing(p) => Err(Error::NotFound(p.shown())),
        PathProbe::NotAFile(c) => Err(Error::NotFound(c.shown())),
        PathProbe::File(path) => {
            let extensions = video_list();
            match validate_file(&path, &extensions, "video") {
                Ok(shown) => Ok(AcceptedVideo { path, shown }),
                Err(e) => Err(e),
            }
        },
    }
}

/// No extension is both an image and a video extension.
pub proof fn lemma_image_and_video_extensions_disjoint(e: Seq<char>)
    ensures
        !(image_extensions().contains(e) && video_extensions().contains(e)),
{
    reveal_strlit("png");
    reveal_strlit("jpg");
    reveal_strlit("jpeg");
    reveal_strlit("webp");
    reveal_strlit("bmp");
    reveal_strlit("gif");
    reveal_strlit("mp4");
    reveal_strlit("webm");
    reveal_strlit("mkv");
    reveal_strlit("mov");
    reveal_strlit("avi");
    reveal_strlit("ogv");
    reveal_strlit("m4v");
    let img = image_extensions();
    let vid = video_extensions();
    assert forall|i: int| 0 <= i < img.len() implies img[i].len() > 0 && (img[i].last() == 'g'
        || img[i].last() == 'p' || img[i].last() == 'f') by {}
    assert forall|j: int| 0 <= j < vid.len() implies vid[j].len() > 0 && (vid[j].last() == '4'
        || vid[j].last() == 'm' || vid[j].last() == 'v' || vid[j].last() == 'i') by {}
    if img.contains(e) && vid.contains(e) {
        let i = choose|i: int| 0 <= i < img.len() && img[i] == e;
        let j = choose|j: int| 0 <= j < vid.len() && vid[j] == e;
        assert(img[i].last() == vid[j].last());
    }
}

/// A path is never accepted both as an image and as a video.
pub proof fn lemma_image_and_video_exclusive(probe: PathProbeView)
    ensures
        !(media_verdict(probe, image_extensions(), "image"@) is Ok && media_verdict(
            probe,
            video_extensions(),
            "video"@,
        ) is Ok),
{
    if let PathProbeView::File(c) = probe {
        if let Some(e) = known_extension_of(c) {
            lemma_image_and_video_extensions_disjoint(ascii_lower(e));
        }
    }
}

/// Whether a file is accepted does not depend on the ASCII case of its
/// extension.
pub proof fn lemma_verdict_ignores_extension_case(
    a: Seq<Option<char>>,
    b: Seq<Option<char>>,
    extensions: Seq<Seq<char>>,
    label: Seq<char>,
)
    requires
        known_extension_of(a) is Some,
        known_extension_of(b) is Some,
        ascii_lower(known_extension_of(a)->0) == ascii_lower(known_extension_of(b)->0),
    ensures
        media_verdict(PathProbeView::File(a), extensions, label) is Ok <==> media_verdict(
            PathProbeView::File(b),
            extensions,
            label,
        ) is Ok,
{
}

/// A file whose extension is not text is refused as having no known
/// extension, whatever the list.
pub proof fn lemma_extension_must_be_text(
    c: Seq<Option<char>>,
    extensions: Seq<Seq<char>>,
    label: Seq<char>,
)
    requires
        extension_of(c) matches Some(e) && !all_text(e),
    ensures
        media_verdict(PathProbeView::File(c), extensions, label) == Err::<Seq<char>, ErrorView>(
            ErrorView::UnsupportedType("expected a "@ + label + " file with a known extension"@),
        ),
{
}


/// The listed image and video extensions are written in lower case: none
/// of their characters is an ASCII upper-case letter.
pub proof fn lemma_listed_extensions_are_lower_case()
    ensures
        forall|k: int, i: int|
            0 <= k < image_extensions().len() && 0 <= i < image_extensions()[k].len()
                ==> !is_ascii_upper(#[trigger] image_extensions()[k][i]),
        forall|k: int, i: int|
            0 <= k < video_extensions().len() && 0 <= i < video_extensions()[k].len()
                ==> !is_ascii_upper(#[trigger] video_extensions()[k][i]),
{
    reveal_strlit("png");
    reveal_strlit("jpg");
    reveal_strlit("jpeg");
    reveal_strlit("webp");
    reveal_strlit("bmp");
    reveal_strlit("gif");
    reveal_strlit("mp4");
    reveal_strlit("webm");
    reveal_strlit("mkv");
    reveal_strlit("mov");
    reveal_strlit("avi");
    reveal_strlit("ogv");
    reveal_strlit("m4v");
}

/// A file whose extension is a listed extension written in any mix of
/// ASCII upper and lower case is accepted, under its path as displayed.
pub proof fn lemma_upper_case_extension_accepted(
    c: Seq<Option<char>>,
    x: Seq<char>,
    extensions: Seq<Seq<char>>,
    k: int,
    label: Seq<char>,
)
    requires
        extensions == image_extensions() || extensions == video_extensions(),
        0 <= k < extensions.len(),
        known_extension_of(c) == Some(x),
        upper_cased_from(x, extensions[k]),
    ensures
        media_verdict(PathProbeView::File(c), extensions, label) == Ok::<Seq<char>, ErrorView>(
            shown(c),
        ),
{
    lemma_listed_extensions_are_lower_case();
    let e = extensions[k];
    assert forall|i: int| 0 <= i < e.len() implies !is_ascii_upper(#[trigger] e[i]) by {
        assert(e[i] == extensions[k][i]);
    }
    lemma_ascii_lower_undoes_upper(x, e);
    assert(extensions.contains(ascii_lower(x)));
}

} // verus!
