//! Static wallpapers on Linux: KDE Plasma's own tools first on Plasma, then
//! the `wallpaper_ng` library, then `swaybg` on Wayland, then `feh`.
use vstd::prelude::*;
use crate::engine::error::{Error, ErrorView, result_view};
use crate::text::{ascii_lower, concat2, concat3, contains, contains_text, to_ascii_lowercase, trim, trimmed};
use super::{StaticBackend, StaticStep, StaticStepView, chain_step, last_view};

verus! {

/// The desktop is KDE Plasma: its name, lower-cased, mentions `kde` or
/// `plasma`.
pub open spec fn is_kde_desktop(desktop: Seq<char>) -> bool {
    contains_text(ascii_lower(desktop), "kde"@) || contains_text(ascii_lower(desktop), "plasma"@)
}

/// Whether `desktop` names KDE Plasma.
pub fn is_kde(desktop: &str) -> (r: bool)
    ensures
        r == is_kde_desktop(desktop@),
{
    let lower = to_ascii_lowercase(desktop);
    contains(lower.as_str(), "kde") || contains(lower.as_str(), "plasma")
}

/// The backends tried on Linux, in order. A path that is not all text can
/// be handed to the library only: every program refuses it as an invalid
/// path without being run.
pub open spec fn linux_static_plan(desktop: Seq<char>, wayland: bool, path_is_text: bool) -> Seq<
    StaticBackend,
> {
    if !path_is_text {
        seq![StaticBackend::WallpaperNg]
    } else {
        linux_text_path_plan(desktop, wayland)
    }
}

/// The backends tried on Linux for a path that is all text, in order.
pub open spec fn linux_text_path_plan(desktop: Seq<char>, wayland: bool) -> Seq<StaticBackend> {
    (if is_kde_desktop(desktop) {
        seq![StaticBackend::PlasmaApplyWallpaperImage, StaticBackend::KdeQdbus6]
    } else {
        seq![]
    }) + seq![StaticBackend::WallpaperNg] + (if wayland {
        seq![StaticBackend::Swaybg]
    } else {
        seq![]
    }) + seq![StaticBackend::Feh]
}

/// For a path that is all text, the Linux plan is: the two Plasma tools
/// (`plasma-apply-wallpaperimage`, then the `qdbus6` script) exactly when
/// the desktop is KDE, whether or not a Wayland display is set; then the
/// library; then `swaybg` exactly when a Wayland display is set; then `feh`
/// last. Setting a wallpaper therefore first tries Plasma's own tool on KDE
/// and the library elsewhere.
pub proof fn lemma_linux_text_plan_order(desktop: Seq<char>, wayland: bool)
    ensures
        ({
            let p = linux_static_plan(desktop, wayland, true);
            let kde = is_kde_desktop(desktop);
            &&& p.len() == (if kde {
                2int
            } else {
                0int
            }) + (if wayland {
                1int
            } else {
                0int
            }) + 2
            &&& kde ==> p[0] == StaticBackend::PlasmaApplyWallpaperImage && p[1]
                == StaticBackend::KdeQdbus6 && p[2] == StaticBackend::WallpaperNg
            &&& !kde ==> p[0] == StaticBackend::WallpaperNg
            &&& wayland ==> p[p.len() - 2] == StaticBackend::Swaybg
            &&& !wayland ==> p[p.len() - 2] == StaticBackend::WallpaperNg
            &&& p.last() == StaticBackend::Feh
            &&& p.contains(StaticBackend::PlasmaApplyWallpaperImage) <==> kde
            &&& p.contains(StaticBackend::KdeQdbus6) <==> kde
            &&& p.contains(StaticBackend::Swaybg) <==> wayland
            &&& !p.contains(StaticBackend::KdeClearSolidColor)
        }),
        linux_set_step(desktop, wayland, true, 0, None) == StaticStepView::Try(
            if is_kde_desktop(desktop) {
                StaticBackend::PlasmaApplyWallpaperImage
            } else {
                StaticBackend::WallpaperNg
            },
        ),
{
    let p = linux_static_plan(desktop, wayland, true);
    let kde = is_kde_desktop(desktop);
    if kde {
        if wayland {
            assert(p =~= seq![
                StaticBackend::PlasmaApplyWallpaperImage,
                StaticBackend::KdeQdbus6,
                StaticBackend::WallpaperNg,
                StaticBackend::Swaybg,
                StaticBackend::Feh,
            ]);
            assert(p[0] == StaticBackend::PlasmaApplyWallpaperImage);
            assert(p[1] == StaticBackend::KdeQdbus6);
            assert(p[3] == StaticBackend::Swaybg);
        } else {
            assert(p =~= seq![
                StaticBackend::PlasmaApplyWallpaperImage,
                StaticBackend::KdeQdbus6,
                StaticBackend::WallpaperNg,
                StaticBackend::Feh,
            ]);
            assert(p[0] == StaticBackend::PlasmaApplyWallpaperImage);
            assert(p[1] == StaticBackend::KdeQdbus6);
        }
    } else {
        if wayland {
            assert(p =~= seq![
                StaticBackend::WallpaperNg,
                StaticBackend::Swaybg,
                StaticBackend::Feh,
            ]);
            assert(p[1] == StaticBackend::Swaybg);
        } else {
            assert(p =~= seq![StaticBackend::WallpaperNg, StaticBackend::Feh]);
        }
    }
}

/// The report when no backend worked on `desktop`.
pub open spec fn no_backend_message(desktop: Seq<char>) -> Seq<char> {
    "no working static wallpaper backend found for desktop '"@ + desktop
        + "'. On KDE Plasma 6 install plasma-workspace (plasma-apply-wallpaperimage). On wlroots Wayland compositors install swaybg. On X11 install feh."@
}

/// The next step of setting a static wallpaper on Linux.
pub open spec fn linux_set_step(
    desktop: Seq<char>,
    wayland: bool,
    path_is_text: bool,
    tried: nat,
    last: Option<Result<(), ErrorView>>,
) -> StaticStepView {
    chain_step(
        linux_static_plan(desktop, wayland, path_is_text),
        tried,
        last,
        Err(ErrorView::Static(no_backend_message(desktop))),
    )
}

/// The backends run to clear the wallpaper on Linux: only on Plasma, where
/// the desktop is set to a solid colour.
pub open spec fn linux_clear_plan(desktop: Seq<char>) -> Seq<StaticBackend> {
    if is_kde_desktop(desktop) {
        seq![StaticBackend::KdeClearSolidColor]
    } else {
        seq![]
    }
}

/// The next step of clearing the wallpaper on Linux: the outcome of the
/// Plasma script is the result; elsewhere there is nothing to do.
pub open spec fn linux_clear_step(
    desktop: Seq<char>,
    tried: nat,
    last: Option<Result<(), ErrorView>>,
) -> StaticStepView {
    chain_step(
        linux_clear_plan(desktop),
        tried,
        last,
        match last {
            Some(r) => r,
            None => Ok(()),
        },
    )
}

fn linux_plan(desktop: &str, wayland: bool, path_is_text: bool) -> (r: Vec<StaticBackend>)
    ensures
        r@ == linux_static_plan(desktop@, wayland, path_is_text),
{
    let mut plan: Vec<StaticBackend> = Vec::new();
    if !path_is_text {
        plan.push(StaticBackend::WallpaperNg);
        return plan;
    }
    if is_kde(desktop) {
        plan.push(StaticBackend::PlasmaApplyWallpaperImage);
        plan.push(StaticBackend::KdeQdbus6);
    }
    plan.push(StaticBackend::WallpaperNg);
    if wayland {
        plan.push(StaticBackend::Swaybg);
    }
    plan.push(StaticBackend::Feh);
    plan
}

/// The next step of setting a static wallpaper on Linux (see
/// [`super::set_static_image`] for the parameters).
pub fn set_static_image(
    desktop: &str,
    wayland: bool,
    path_is_text: bool,
    tried: usize,
    last: Option<Result<(), Error>>,
) -> (r: StaticStep)
    requires
        (tried == 0) == (last is None),
    ensures
        r@ == linux_set_step(desktop@, wayland, path_is_text, tried as nat, last_view(last)),
{
    if let Some(Ok(())) = last {
        return StaticStep::Done(Ok(()));
    }
    let plan = linux_plan(desktop, wayland, path_is_text);
    if tried < plan.len() {
        StaticStep::Try(plan[tried])
    } else {
        let head = concat2("no working static wallpaper backend found for desktop '", desktop);
        let m = concat2(
            head.as_str(),
            "'. On KDE Plasma 6 install plasma-workspace (plasma-apply-wallpaperimage). On wlroots Wayland compositors install swaybg. On X11 install feh.",
        );
        StaticStep::Done(Err(Error::Static(m)))
    }
}

/// The next step of clearing the wallpaper on Linux (see
/// [`super::clear_static_image`] for the parameters).
pub fn clear_static_image(desktop: &str, tried: usize, last: Option<Result<(), Error>>) -> (r:
    StaticStep)
    requires
        (tried == 0) == (last is None),
    ensures
        r@ == linux_clear_step(desktop@, tried as nat, last_view(last)),
{
    match last {
        Some(r) => StaticStep::Done(r),
        None => if is_kde(desktop) {
            StaticStep::Try(StaticBackend::KdeClearSolidColor)
        } else {
            StaticStep::Done(Ok(()))
        },
    }
}

/// `s` with every `quote` and every backslash preceded by a backslash.
pub open spec fn escaped(quote: char, s: Seq<char>) -> Seq<char>
    decreases s.len(),
{
    if s.len() == 0 {
        seq![]
    } else {
        let c = s[0];
        (if c == quote {
            seq!['\\', quote]
        } else if c == '\\' {
            seq!['\\', '\\']
        } else {
            seq![c]
        }) + escaped(quote, s.drop_first())
    }
}

/// `s` escaped and written between two `quote` characters.
pub open spec fn enquoted(quote: char, s: Seq<char>) -> Seq<char> {
    seq![quote] + escaped(quote, s) + seq![quote]
}

/// `enquote::enquote`: the crate's source maps each character equal to
/// `quote` to a backslash and `quote`, each backslash to two backslashes,
/// keeps every other character, and puts `quote` before and after the result.
#[verifier::external_body]
fn enquote(quote: char, s: &str) -> (r: String)
    ensures
        r@ == enquoted(quote, s@),
{
    enquote::enquote(quote, s)
}

/// The Plasma shell script that shows the image at `path` on every desktop.
pub open spec fn kde_image_script(path: Seq<char>) -> Seq<char> {
    "\nfor (const desktop of desktops()) {\n    desktop.currentConfigGroup = [\"Wallpaper\", \"org.kde.image\", \"General\"]\n    desktop.writeConfig(\"Image\", "@
        + enquoted('"', "file://"@ + path) + ")\n}"@
}

/// The Plasma shell script that sets every desktop to a solid dark colour.
pub open spec fn kde_clear_script() -> Seq<char> {
    "\nfor (const desktop of desktops()) {\n    desktop.currentConfigGroup = [\"Wallpaper\", \"org.kde.color\", \"General\"];\n    desktop.writeConfig(\"Color\", \"#1d232a\");\n}\n"@
}

/// Builds the Plasma script that shows the image at `path`.
pub fn kde_wallpaper_script(path: &str) -> (r: String)
    ensures
        r@ == kde_image_script(path@),
{
    let url = concat2("file://", path);
    let value = enquote('"', url.as_str());
    concat3(
        "\nfor (const desktop of desktops()) {\n    desktop.currentConfigGroup = [\"Wallpaper\", \"org.kde.image\", \"General\"]\n    desktop.writeConfig(\"Image\", ",
        value.as_str(),
        ")\n}",
    )
}

/// A program to run, with its arguments.
pub struct BackendCommand {
    pub program: String,
    pub args: Vec<String>,
    /// The program is left running in the background with its standard
    /// streams closed, instead of being waited for.
    pub detached: bool,
}

pub struct BackendCommandView {
    pub program: Seq<char>,
    pub args: Seq<Seq<char>>,
    pub detached: bool,
}

impl View for BackendCommand {
    type V = BackendCommandView;

    open spec fn view(&self) -> BackendCommandView {
        BackendCommandView {
            program: self.program@,
            args: self.args@.map_values(|a: String| a@),
            detached: self.detached,
        }
    }
}

/// The arguments of a `qdbus6` call that evaluates `script` in the Plasma shell.
pub open spec fn plasma_shell_args(script: Seq<char>) -> Seq<Seq<char>> {
    seq!["org.kde.plasmashell"@, "/PlasmaShell"@, "org.kde.PlasmaShell.evaluateScript"@, script]
}

/// The program run by each backend for the image at `path`; the library
/// backend runs none.
pub open spec fn backend_command_of(backend: StaticBackend, path: Seq<char>) -> Option<
    BackendCommandView,
> {
    match backend {
        StaticBackend::PlasmaApplyWallpaperImage => Some(
            BackendCommandView {
                program: "plasma-apply-wallpaperimage"@,
                args: seq![path],
                detached: false,
            },
        ),
        StaticBackend::KdeQdbus6 => Some(
            BackendCommandView {
                program: "qdbus6"@,
                args: plasma_shell_args(kde_image_script(path)),
                detached: false,
            },
        ),
        StaticBackend::WallpaperNg => None,
        StaticBackend::Swaybg => Some(
            BackendCommandView {
                program: "swaybg"@,
                args: seq!["-i"@, path, "-m"@, "fill"@],
                detached: true,
            },
        ),
        StaticBackend::Feh => Some(
            BackendCommandView { program: "feh"@, args: seq!["--bg-fill"@, path], detached: false },
        ),
        StaticBackend::KdeClearSolidColor => Some(
            BackendCommandView {
                program: "qdbus6"@,
                args: plasma_shell_args(kde_clear_script()),
                detached: false,
            },
        ),
    }
}

fn plasma_shell_call(script: String) -> (r: BackendCommand)
    ensures
        r@ == (BackendCommandView {
            program: "qdbus6"@,
            args: plasma_shell_args(script@),
            detached: false,
        }),
{
    let args = vec![
        String::from_str("org.kde.plasmashell"),
        String::from_str("/PlasmaShell"),
        String::from_str("org.kde.PlasmaShell.evaluateScript"),
        script,
    ];
    let r = BackendCommand { program: String::from_str("qdbus6"), args, detached: false };
    assert(r@.args == plasma_shell_args(script@));
    r
}

/// The program that `backend` runs to show the image at `path`, or `None`
/// for the library backend.
pub fn backend_command(backend: StaticBackend, path: &str) -> (r: Option<BackendCommand>)
    ensures
        match r {
            Some(c) => backend_command_of(backend, path@) == Some(c@),
            None => backend_command_of(backend, path@) is None,
        },
{
    match backend {
        StaticBackend::PlasmaApplyWallpaperImage => {
            let args = vec![String::from_str(path)];
            let c = BackendCommand {
                program: String::from_str("plasma-apply-wallpaperimage"),
                args,
                detached: false,
            };
            assert(c@.args == seq![path@]);
            Some(c)
        },
        StaticBackend::KdeQdbus6 => Some(plasma_shell_call(kde_wallpaper_script(path))),
        StaticBackend::WallpaperNg => None,
        StaticBackend::Swaybg => {
            let args = vec![
                String::from_str("-i"),
                String::from_str(path),
                String::from_str("-m"),
                String::from_str("fill"),
            ];
            let c = BackendCommand { program: String::from_str("swaybg"), args, detached: true };
            assert(c@.args == seq!["-i"@, path@, "-m"@, "fill"@]);
            Some(c)
        },
        StaticBackend::Feh => {
            let args = vec![String::from_str("--bg-fill"), String::from_str(path)];
            let c = BackendCommand { program: String::from_str("feh"), args, detached: false };
            assert(c@.args == seq!["--bg-fill"@, path@]);
            Some(c)
        },
        StaticBackend::KdeClearSolidColor => {
            let script = String::from_str(
                "\nfor (const desktop of desktops()) {\n    desktop.currentConfigGroup = [\"Wallpaper\", \"org.kde.color\", \"General\"];\n    desktop.writeConfig(\"Color\", \"#1d232a\");\n}\n",
            );
            Some(plasma_shell_call(script))
        },
    }
}

/// Of the backends, only `swaybg` is left running in the background; every
/// other program is waited for, so that its exit status decides whether the
/// next backend is tried. The library backend alone runs no program, and
/// each program that shows an image is handed the image's path.
pub proof fn lemma_only_swaybg_is_detached(backend: StaticBackend, path: Seq<char>)
    ensures
        backend_command_of(backend, path) is None <==> backend == StaticBackend::WallpaperNg,
        backend_command_of(backend, path) matches Some(c) ==> (c.detached <==> backend
            == StaticBackend::Swaybg),
        backend_command_of(backend, path) matches Some(c) ==> (c.program == "qdbus6"@ <==> (
        backend == StaticBackend::KdeQdbus6 || backend == StaticBackend::KdeClearSolidColor)),
        (backend == StaticBackend::PlasmaApplyWallpaperImage || backend == StaticBackend::Swaybg
            || backend == StaticBackend::Feh) ==> (backend_command_of(backend, path) matches Some(
            c) && c.args.contains(path)),
        backend == StaticBackend::KdeQdbus6 ==> (backend_command_of(backend, path) matches Some(c)
            && c.args.last() == kde_image_script(path)),
{
    reveal_strlit("qdbus6");
    reveal_strlit("plasma-apply-wallpaperimage");
    reveal_strlit("swaybg");
    reveal_strlit("feh");
    match backend {
        StaticBackend::PlasmaApplyWallpaperImage => {
            assert(seq![path][0] == path);
            assert("plasma-apply-wallpaperimage"@[0] != "qdbus6"@[0]);
        },
        StaticBackend::Swaybg => {
            assert(seq!["-i"@, path, "-m"@, "fill"@][1] == path);
            assert("swaybg"@[0] != "qdbus6"@[0]);
        },
        StaticBackend::Feh => {
            assert(seq!["--bg-fill"@, path][1] == path);
            assert("feh"@[0] != "qdbus6"@[0]);
        },
        _ => {},
    }
}

/// How a program that was waited for ended.
pub enum CommandOutcome {
    /// It could not be started; holds the reason.
    Failed(String),
    /// It ran; whether its exit status is success, that status as text, and
    /// what it wrote to its standard error.
    Exited { success: bool, status: String, stderr: String },
}

pub enum CommandOutcomeView {
    Failed(Seq<char>),
    Exited { success: bool, status: Seq<char>, stderr: Seq<char> },
}

impl View for CommandOutcome {
    type V = CommandOutcomeView;

    open spec fn view(&self) -> CommandOutcomeView {
        match self {
            CommandOutcome::Failed(e) => CommandOutcomeView::Failed(e@),
            CommandOutcome::Exited { success, status, stderr } => CommandOutcomeView::Exited {
                success: *success,
                status: status@,
                stderr: stderr@,
            },
        }
    }
}

/// A program that was waited for succeeded when it exited with success; a
/// failure to start it, or another exit status, is a static wallpaper error
/// that names the program.
pub open spec fn run_verdict(command: Seq<char>, outcome: CommandOutcomeView) -> Result<
    (),
    ErrorView,
> {
    match outcome {
        CommandOutcomeView::Failed(e) => Err(
            ErrorView::Static("failed to run "@ + command + ": "@ + e),
        ),
        CommandOutcomeView::Exited { success, status, stderr } => if success {
            Ok(())
        } else {
            Err(ErrorView::Static(command + " exited with "@ + status + ": "@ + trimmed(stderr)))
        },
    }
}

/// The outcome of waiting for the program `command`.
pub fn run_success(command: &str, outcome: CommandOutcome) -> (r: Result<(), Error>)
    ensures
        result_view(r) == run_verdict(command@, outcome@),
{
    match outcome {
        CommandOutcome::Failed(e) => {
            let head = concat3("failed to run ", command, ": ");
            Err(Error::Static(concat2(head.as_str(), e.as_str())))
        },
        CommandOutcome::Exited { success, status, stderr } => {
            if success {
                Ok(())
            } else {
                let head = concat3(command, " exited with ", status.as_str());
                let m = concat3(head.as_str(), ": ", trim(stderr.as_str()));
                Err(Error::Static(m))
            }
        },
    }
}

/// The outcome of starting `swaybg` in the background: starting it is
/// enough; a failure to start it is reported with its reason.
pub fn try_swaybg(spawned: Result<(), String>) -> (r: Result<(), Error>)
    ensures
        match spawned {
            Ok(_) => r is Ok,
            Err(e) => result_view(r) == Err::<(), ErrorView>(
                ErrorView::Static("failed to start swaybg: "@ + e@),
            ),
        },
{
    match spawned {
        Ok(()) => Ok(()),
        Err(e) => Err(Error::Static(concat2("failed to start swaybg: ", e.as_str()))),
    }
}

} // verus!
