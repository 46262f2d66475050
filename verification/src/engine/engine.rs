//! The engine's record of the active wallpaper.
//!
//! Showing a wallpaper is outside work (stopping and starting the video
//! session, running a static backend) that the caller performs; the engine
//! is told how it went and keeps the record of what is shown.
use vstd::prelude::*;
use crate::engine::error::{Error, ErrorView, result_view};
use crate::engine::media::{
    AcceptedImage, AcceptedVideo, shown, shows_accepted_image, shows_accepted_video,
};
use crate::wallpaper::{
    ActiveWallpaper, ActiveWallpaperView, WallpaperApplied, WallpaperAppliedView, WallpaperKind,
    consistent, no_wallpaper,
};

verus! {

/// Owns the record of the active wallpaper session (static image or video).
pub struct WallpaperEngine {
    active: ActiveWallpaper,
}

impl View for WallpaperEngine {
    type V = ActiveWallpaperView;

    closed spec fn view(&self) -> ActiveWallpaperView {
        self.active@
    }
}

/// A record the engine can hold: consistent, and whose path, when a
/// wallpaper is shown, is one that the validation of its kind accepted.
pub open spec fn recorded(a: ActiveWallpaperView) -> bool {
    &&& consistent(a)
    &&& a.kind == WallpaperKind::StaticImage ==> shows_accepted_image(a.path->0)
    &&& a.kind == WallpaperKind::Video ==> shows_accepted_video(a.path->0)
}

/// The record after `path` was applied as a wallpaper of `kind`.
pub open spec fn showing(kind: WallpaperKind, path: Seq<char>) -> ActiveWallpaperView {
    ActiveWallpaperView { kind, path: Some(path) }
}

impl WallpaperEngine {
    #[verifier::type_invariant]
    spec fn well_formed(self) -> bool {
        recorded(self.active@)
    }

    /// An engine that shows nothing.
    pub fn new() -> (r: Self)
        ensures
            r@ == no_wallpaper(),
    {
        WallpaperEngine { active: ActiveWallpaper::none() }
    }

    /// The wallpaper currently shown; it has a path exactly when its kind is
    /// not `Unset`, and that path is one the validation of its kind accepted.
    pub fn active(&self) -> (r: ActiveWallpaper)
        ensures
            r@ == self@,
            recorded(r@),
    {
        proof {
            use_type_invariant(self);
        }
        self.active.clone()
    }

    fn apply(&mut self, kind: WallpaperKind, path: String, outcome: Result<(), Error>) -> (r:
        Result<WallpaperApplied, Error>)
        requires
            kind != WallpaperKind::Unset,
            kind == WallpaperKind::StaticImage ==> shows_accepted_image(path@),
            kind == WallpaperKind::Video ==> shows_accepted_video(path@),
        ensures
            match outcome {
                Ok(_) => {
                    &&& r matches Ok(w) && w@ == (WallpaperAppliedView { kind, path: path@ })
                    &&& final(self)@ == showing(kind, path@)
                },
                Err(e) => result_view(r) == Err::<WallpaperAppliedView, ErrorView>(e@) && final(self)@ == old(self)@,
            },
    {
        match outcome {
            Ok(()) => {
                let applied = WallpaperApplied { kind, path };
                self.active = ActiveWallpaper { kind, path: Some(applied.path.clone()) };
                Ok(applied)
            },
            Err(e) => Err(e),
        }
    }

    /// Records the outcome of showing the accepted still image `image`
    /// (with the video session stopped): on success the image is what is
    /// shown and is returned as applied; on failure the record is kept and
    /// the failure returned.
    pub fn set_static_image(&mut self, image: AcceptedImage, applied: Result<(), Error>) -> (r: Result<
        WallpaperApplied,
        Error,
    >)
        ensures
            match applied {
                Ok(_) => {
                    &&& r matches Ok(w) && w@ == (WallpaperAppliedView {
                        kind: WallpaperKind::StaticImage,
                        path: shown(image@),
                    })
                    &&& final(self)@ == showing(WallpaperKind::StaticImage, shown(image@))
                },
                Err(e) => result_view(r) == Err::<WallpaperAppliedView, ErrorView>(e@) && final(self)@ == old(self)@,
            },
    {
        let ghost units = image@;
        let path = image.into_path();
        assert(shows_accepted_image(path@));
        self.apply(WallpaperKind::StaticImage, path, applied)
    }

    /// Records the outcome of starting the accepted video `video`: on success
    /// the video is what is shown and is returned as applied; on failure the
    /// record is kept and the failure returned.
    pub fn set_video(&mut self, video: AcceptedVideo, started: Result<(), Error>) -> (r: Result<
        WallpaperApplied,
        Error,
    >)
        ensures
            match started {
                Ok(_) => {
                    &&& r matches Ok(w) && w@ == (WallpaperAppliedView {
                        kind: WallpaperKind::Video,
                        path: shown(video@),
                    })
                    &&& final(self)@ == showing(WallpaperKind::Video, shown(video@))
                },
                Err(e) => result_view(r) == Err::<WallpaperAppliedView, ErrorView>(e@) && final(self)@ == old(self)@,
            },
    {
        let ghost units = video@;
        let path = video.into_path();
        assert(shows_accepted_video(path@));
        self.apply(WallpaperKind::Video, path, started)
    }

    /// Records the outcome of clearing the desktop (with the video session
    /// stopped): on success nothing is shown, and that is returned; on
    /// failure the record is kept and the failure returned.
    pub fn clear(&mut self, cleared: Result<(), Error>) -> (r: Result<ActiveWallpaper, Error>)
        ensures
            match cleared {
                Ok(_) => {
                    &&& r matches Ok(a) && a@ == no_wallpaper()
                    &&& final(self)@ == no_wallpaper()
                },
                Err(e) => result_view(r) == Err::<ActiveWallpaperView, ErrorView>(e@) && final(self)@ == old(self)@,
            },
    {
        match cleared {
            Ok(()) => {
                self.active = ActiveWallpaper::none();
                Ok(self.active.clone())
            },
            Err(e) => Err(e),
        }
    }

    /// Forgets the active wallpaper (the video session was stopped).
    pub fn shutdown(&mut self)
        ensures
            final(self)@ == no_wallpaper(),
    {
        self.active = ActiveWallpaper::none();
    }
}

impl Default for WallpaperEngine {
    fn default() -> (r: Self)
        ensures
            r@ == no_wallpaper(),
    {
        Self::new()
    }
}

/// Every record the engine can reach is one it may hold: "nothing shown"
/// has no path, and an image or video applied from a path that its
/// validation accepted is shown with that path.
pub proof fn lemma_records_are_consistent(path: Seq<char>)
    ensures
        recorded(no_wallpaper()),
        shows_accepted_image(path) ==> recorded(showing(WallpaperKind::StaticImage, path)),
        shows_accepted_video(path) ==> recorded(showing(WallpaperKind::Video, path)),
{
}

} // verus!
