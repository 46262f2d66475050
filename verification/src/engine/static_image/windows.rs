//! Static wallpapers on Windows, through the `wallpaper_ng` library.
use vstd::prelude::*;
use crate::engine::error::{Error, ErrorView, result_view};
use super::{StaticBackend, StaticStep, StaticStepView, chain_step, last_view};

verus! {

/// The report when a path that is not all text is to be set.
pub open spec fn invalid_path_message() -> Seq<char> {
    "invalid path"@
}

/// The step of setting a static wallpaper on Windows: a path that is not
/// all text is refused as invalid without calling the library; otherwise the
/// library is called once, and its outcome is the result.
pub open spec fn windows_set_step(
    path_is_text: bool,
    tried: nat,
    last: Option<Result<(), ErrorView>>,
) -> StaticStepView {
    if !path_is_text {
        StaticStepView::Done(Err(ErrorView::Static(invalid_path_message())))
    } else {
            chain_step(
            seq![StaticBackend::WallpaperNg],
            tried,
            last,
            match last {
                Some(r) => r,
                None => Ok(()),
            },
        )
    }
}

/// The next step of setting a static wallpaper on Windows.
pub fn set_static_image(path_is_text: bool, tried: usize, last: Option<Result<(), Error>>) -> (r:
    StaticStep)
    requires
        (tried == 0) == (last is None),
    ensures
        r@ == windows_set_step(path_is_text, tried as nat, last_view(last)),
{
    if !path_is_text {
        return StaticStep::Done(Err(Error::Static(String::from_str("invalid path"))));
    }
    match last {
        None => StaticStep::Try(StaticBackend::WallpaperNg),
        Some(r) => StaticStep::Done(r),
    }
}

/// Clearing needs no work on Windows.
pub fn clear_static_image() -> (r: Result<(), Error>)
    ensures
        r is Ok,
{
    Ok(())
}

/// The outcome of a call of the wallpaper library: a failure is reported as
/// a static wallpaper error with the library's own message.
pub fn wallpaper_outcome(call: Result<(), String>) -> (r: Result<(), Error>)
    ensures
        match call {
            Ok(_) => r is Ok,
            Err(m) => result_view(r) == Err::<(), ErrorView>(ErrorView::Static(m@)),
        },
{
    match call {
        Ok(()) => Ok(()),
        Err(m) => Err(Error::Static(m)),
    }
}

} // verus!
