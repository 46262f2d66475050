//! Static wallpapers: which backends are tried, in which order, and what the
//! outcome of the attempts is.
//!
//! Applying a wallpaper is outside work (running a program, calling the
//! desktop library). The caller drives the attempts: it asks for the next
//! step, performs the backend that the step names, and hands the outcome
//! back, until the step says that the attempt is over.
use vstd::prelude::*;
use crate::engine::error::{Error, ErrorView, result_view};

pub mod linux;
pub mod windows;

verus! {

/// The operating system the engine runs on.
#[derive(Debug, Clone, Copy, PartialEq, Eq, Structural)]
pub enum Platform {
    Linux,
    Windows,
    Other,
}

/// A way of changing the desktop background.
#[derive(Debug, Clone, Copy, PartialEq, Eq, Structural)]
pub enum StaticBackend {
    /// KDE Plasma's `plasma-apply-wallpaperimage` program.
    PlasmaApplyWallpaperImage,
    /// A Plasma shell script, sent with `qdbus6`, that sets the image.
    KdeQdbus6,
    /// The `wallpaper_ng` library.
    WallpaperNg,
    /// The `swaybg` program, left running in the background.
    Swaybg,
    /// The `feh` program.
    Feh,
    /// A Plasma shell script, sent with `qdbus6`, that sets a solid colour.
    KdeClearSolidColor,
}

/// What the driver of an attempt does next.
pub enum StaticStep {
    /// Perform this backend and report its outcome.
    Try(StaticBackend),
    /// The attempt is over, with this result.
    Done(Result<(), Error>),
}

pub enum StaticStepView {
    Try(StaticBackend),
    Done(Result<(), ErrorView>),
}

impl View for StaticStep {
    type V = StaticStepView;

    open spec fn view(&self) -> StaticStepView {
        match self {
            StaticStep::Try(b) => StaticStepView::Try(*b),
            StaticStep::Done(r) => StaticStepView::Done(result_view(*r)),
        }
    }
}

/// The view of the outcome of the latest backend, if one was tried.
pub open spec fn last_view(last: Option<Result<(), Error>>) -> Option<Result<(), ErrorView>> {
    match last {
        Some(r) => Some(result_view(r)),
        None => None,
    }
}

/// One step of a chain of backends tried in the order of `plan`: the attempt
/// is over as soon as a backend succeeded; otherwise the next backend of the
/// plan is tried; when every backend of the plan has failed, the attempt
/// ends with `exhausted`.
pub open spec fn chain_step(
    plan: Seq<StaticBackend>,
    tried: nat,
    last: Option<Result<(), ErrorView>>,
    exhausted: Result<(), ErrorView>,
) -> StaticStepView {
    if last matches Some(Ok(_)) {
        StaticStepView::Done(Ok(()))
    } else if tried < plan.len() {
        StaticStepView::Try(plan[tried as int])
    } else {
        StaticStepView::Done(exhausted)
    }
}

/// The report when a platform has no static wallpaper support.
pub open spec fn unsupported_platform_message() -> Seq<char> {
    "static wallpapers are not supported on this platform"@
}

/// The backends tried to set a static wallpaper, in order.
pub open spec fn static_plan(
    platform: Platform,
    desktop: Seq<char>,
    wayland: bool,
    path_is_text: bool,
) -> Seq<StaticBackend> {
    match platform {
        Platform::Linux => linux::linux_static_plan(desktop, wayland, path_is_text),
        Platform::Windows => if path_is_text {
            seq![StaticBackend::WallpaperNg]
        } else {
            seq![]
        },
        Platform::Other => seq![],
    }
}

/// The next step of setting a static wallpaper.
pub open spec fn set_static_step(
    platform: Platform,
    desktop: Seq<char>,
    wayland: bool,
    path_is_text: bool,
    tried: nat,
    last: Option<Result<(), ErrorView>>,
) -> StaticStepView {
    match platform {
        Platform::Linux => linux::linux_set_step(desktop, wayland, path_is_text, tried, last),
        Platform::Windows => windows::windows_set_step(path_is_text, tried, last),
        Platform::Other => chain_step(
            seq![],
            tried,
            last,
            Err(ErrorView::Static(unsupported_platform_message())),
        ),
    }
}

/// The next step of clearing the static wallpaper.
pub open spec fn clear_static_step(
    platform: Platform,
    desktop: Seq<char>,
    tried: nat,
    last: Option<Result<(), ErrorView>>,
) -> StaticStepView {
    match platform {
        Platform::Linux => linux::linux_clear_step(desktop, tried, last),
        _ => StaticStepView::Done(Ok(())),
    }
}

/// The next step of setting `path`'s image as the static wallpaper on
/// `platform`. `desktop` is the current desktop's name (empty when unknown),
/// `wayland` whether a Wayland display is available, `path_is_text` whether
/// the image's path is all text (programs are given it only then), `tried` how many
/// backends were tried so far and `last` the outcome of the latest one.
pub fn set_static_image(
    platform: Platform,
    desktop: &str,
    wayland: bool,
    path_is_text: bool,
    tried: usize,
    last: Option<Result<(), Error>>,
) -> (r: StaticStep)
    requires
        (tried == 0) == (last is None),
    ensures
        r@ == set_static_step(platform, desktop@, wayland, path_is_text, tried as nat, last_view(last)),
{
    match platform {
        Platform::Linux => linux::set_static_image(desktop, wayland, path_is_text, tried, last),
        Platform::Windows => windows::set_static_image(path_is_text, tried, last),
        Platform::Other => match last {
            Some(Ok(())) => StaticStep::Done(Ok(())),
            _ => {
                let m = String::from_str("static wallpapers are not supported on this platform");
                StaticStep::Done(Err(Error::Static(m)))
            },
        },
    }
}

/// The next step of clearing the static wallpaper on `platform` (see
/// [`set_static_image`] for the parameters).
pub fn clear_static_image(
    platform: Platform,
    desktop: &str,
    tried: usize,
    last: Option<Result<(), Error>>,
) -> (r: StaticStep)
    requires
        (tried == 0) == (last is None),
    ensures
        r@ == clear_static_step(platform, desktop@, tried as nat, last_view(last)),
{
    match platform {
        Platform::Linux => linux::clear_static_image(desktop, tried, last),
        _ => StaticStep::Done(windows::clear_static_image()),
    }
}

/// Where a driver ends up that performs every backend the steps ask for,
/// the `i`-th backend it tries having the outcome `results[i]`, starting
/// after `tried` backends with `last` as the latest outcome.
pub open spec fn drive(
    platform: Platform,
    desktop: Seq<char>,
    wayland: bool,
    path_is_text: bool,
    results: Seq<Result<(), ErrorView>>,
    tried: nat,
    last: Option<Result<(), ErrorView>>,
) -> StaticStepView
    decreases static_plan(platform, desktop, wayland, path_is_text).len() - tried,
{
    match set_static_step(platform, desktop, wayland, path_is_text, tried, last) {
        StaticStepView::Try(b) => if tried < results.len() && tried < static_plan(
            platform,
            desktop,
            wayland,
            path_is_text,
        ).len() {
            drive(platform, desktop, wayland, path_is_text, results, tried + 1, Some(results[tried as int]))
        } else {
            StaticStepView::Try(b)
        },
        StaticStepView::Done(r) => StaticStepView::Done(r),
    }
}

proof fn lemma_drive_from(
    platform: Platform,
    desktop: Seq<char>,
    wayland: bool,
    path_is_text: bool,
    results: Seq<Result<(), ErrorView>>,
    tried: nat,
    last: Option<Result<(), ErrorView>>,
)
    requires
        results.len() >= static_plan(platform, desktop, wayland, path_is_text).len(),
        tried <= static_plan(platform, desktop, wayland, path_is_text).len(),
        (tried == 0) == (last is None),
        tried > 0 ==> last == Some(results[tried - 1]),
        forall|i: int| 0 <= i < tried - 1 ==> results[i] is Err,
    ensures
        drive(platform, desktop, wayland, path_is_text, results, tried, last) is Done,
        (drive(platform, desktop, wayland, path_is_text, results, tried, last) matches StaticStepView::Done(r)
            && r is Ok) <==> exists|i: int|
            0 <= i < static_plan(platform, desktop, wayland, path_is_text).len() && results[i] is Ok,
    decreases static_plan(platform, desktop, wayland, path_is_text).len() - tried,
{
    let plan = static_plan(platform, desktop, wayland, path_is_text);
    if last matches Some(Ok(_)) {
        assert(results[tried - 1] is Ok);
    } else if tried < plan.len() {
        lemma_drive_from(platform, desktop, wayland, path_is_text, results, tried + 1, Some(results[tried as int]));
    } else {
        assert forall|i: int| 0 <= i < plan.len() implies results[i] is Err by {
            if i == tried - 1 {
            }
        }
    }
}

/// Setting a static wallpaper succeeds exactly when one of the backends of
/// the plan succeeds: a driver that performs what the steps ask for always
/// ends, and ends with success if and only if some backend it could try
/// works.
pub proof fn lemma_static_success_iff_some_backend_works(
    platform: Platform,
    desktop: Seq<char>,
    wayland: bool,
    path_is_text: bool,
    results: Seq<Result<(), ErrorView>>,
)
    requires
        results.len() >= static_plan(platform, desktop, wayland, path_is_text).len(),
    ensures
        drive(platform, desktop, wayland, path_is_text, results, 0, None) is Done,
        (drive(platform, desktop, wayland, path_is_text, results, 0, None) matches StaticStepView::Done(r)
            && r is Ok) <==> exists|i: int|
            0 <= i < static_plan(platform, desktop, wayland, path_is_text).len() && results[i] is Ok,
{
    lemma_drive_from(platform, desktop, wayland, path_is_text, results, 0, None);
}

/// A path that is not all text is never handed to a program: the only
/// backend ever tried for it is the library, on Linux, and none on Windows.
pub proof fn lemma_non_text_path_runs_no_program(
    platform: Platform,
    desktop: Seq<char>,
    wayland: bool,
)
    ensures
        forall|i: int|
            0 <= i < static_plan(platform, desktop, wayland, false).len() ==> #[trigger] static_plan(
                platform,
                desktop,
                wayland,
                false,
            )[i] == StaticBackend::WallpaperNg,
        platform == Platform::Linux ==> static_plan(platform, desktop, wayland, false).len() == 1,
{
}

} // verus!
