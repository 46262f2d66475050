use vstd::prelude::*;

verus! {

/// What kind of wallpaper the engine is showing.
#[derive(Debug, Clone, Copy, PartialEq, Eq, Structural)]
pub enum WallpaperKind {
    Unset,
    StaticImage,
    Video,
}

/// The wallpaper currently shown, as reported to clients.
#[derive(Debug, PartialEq, Eq)]
pub struct ActiveWallpaper {
    pub kind: WallpaperKind,
    pub path: Option<String>,
}

/// The abstract value of an [`ActiveWallpaper`]: its kind and path as text.
pub struct ActiveWallpaperView {
    pub kind: WallpaperKind,
    pub path: Option<Seq<char>>,
}

impl View for ActiveWallpaper {
    type V = ActiveWallpaperView;

    open spec fn view(&self) -> ActiveWallpaperView {
        ActiveWallpaperView {
            kind: self.kind,
            path: match self.path {
                Some(p) => Some(p@),
                None => None,
            },
        }
    }
}

/// The view of "no wallpaper".
pub open spec fn no_wallpaper() -> ActiveWallpaperView {
    ActiveWallpaperView { kind: WallpaperKind::Unset, path: None }
}

impl ActiveWallpaper {
    /// No wallpaper is active: kind `None` and no path.
    pub fn none() -> (r: Self)
        ensures
            r@ == no_wallpaper(),
    {
        ActiveWallpaper { kind: WallpaperKind::Unset, path: None }
    }
}

impl Clone for ActiveWallpaper {
    fn clone(&self) -> (r: Self)
        ensures
            r@ == self@,
    {
        let path = match &self.path {
            Some(p) => Some(p.clone()),
            None => None,
        };
        ActiveWallpaper { kind: self.kind, path }
    }
}

/// A wallpaper that was just applied: its kind and the path it shows.
#[derive(Debug, PartialEq, Eq)]
pub struct WallpaperApplied {
    pub kind: WallpaperKind,
    pub path: String,
}

pub struct WallpaperAppliedView {
    pub kind: WallpaperKind,
    pub path: Seq<char>,
}

impl View for WallpaperApplied {
    type V = WallpaperAppliedView;

    open spec fn view(&self) -> WallpaperAppliedView {
        WallpaperAppliedView { kind: self.kind, path: self.path@ }
    }
}

impl Clone for WallpaperApplied {
    fn clone(&self) -> (r: Self)
        ensures
            r@ == self@,
    {
        WallpaperApplied { kind: self.kind, path: self.path.clone() }
    }
}

/// A shown wallpaper is consistent when it has a path exactly when its kind
/// is not `Unset`.
pub open spec fn consistent(a: ActiveWallpaperView) -> bool {
    (a.kind == WallpaperKind::Unset) == (a.path is None)
}

} // verus!
