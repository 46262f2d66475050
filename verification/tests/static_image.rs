use wallcove::engine::static_image::linux::{
    backend_command, is_kde, kde_wallpaper_script, run_success, try_swaybg, CommandOutcome,
};
use wallcove::engine::static_image::windows::wallpaper_outcome;
use wallcove::engine::static_image::{
    clear_static_image, set_static_image, Platform, StaticBackend, StaticStep,
};
use wallcove::engine::Error;

fn fail() -> Option<Result<(), Error>> {
    Some(Err(Error::Static("nope".to_string())))
}

/// Drives the steps with the given backend outcomes and returns the backends
/// tried and the result.
fn drive(
    platform: Platform,
    desktop: &str,
    wayland: bool,
    text: bool,
    outcomes: &[bool],
) -> (Vec<StaticBackend>, Result<(), Error>) {
    let mut tried = Vec::new();
    let mut last = None;
    loop {
        match set_static_image(platform, desktop, wayland, text, tried.len(), last) {
            StaticStep::Try(b) => {
                let ok = outcomes[tried.len()];
                tried.push(b);
                last = Some(if ok { Ok(()) } else { Err(Error::Static("x".into())) });
            }
            StaticStep::Done(r) => return (tried, r),
        }
    }
}

#[test]
fn kde_is_recognised_case_insensitively() {
    assert!(is_kde("KDE"));
    assert!(is_kde("ubuntu:KDE"));
    assert!(is_kde("Plasma"));
    assert!(!is_kde("GNOME"));
    assert!(!is_kde(""));
}

#[test]
fn plasma_tries_its_own_tools_first() {
    let (tried, r) = drive(Platform::Linux, "KDE", true, true, &[false, false, false, false, false]);
    assert_eq!(
        tried,
        vec![
            StaticBackend::PlasmaApplyWallpaperImage,
            StaticBackend::KdeQdbus6,
            StaticBackend::WallpaperNg,
            StaticBackend::Swaybg,
            StaticBackend::Feh
        ]
    );
    match r {
        Err(Error::Static(m)) => assert_eq!(
            m,
            "no working static wallpaper backend found for desktop 'KDE'. On KDE Plasma 6 install plasma-workspace (plasma-apply-wallpaperimage). On wlroots Wayland compositors install swaybg. On X11 install feh."
        ),
        other => panic!("unexpected {:?}", other),
    }
}

#[test]
fn first_success_ends_the_attempt() {
    let (tried, r) = drive(Platform::Linux, "GNOME", false, true, &[false, true, false]);
    assert_eq!(tried, vec![StaticBackend::WallpaperNg, StaticBackend::Feh]);
    assert!(r.is_ok());
    let (tried, r) = drive(Platform::Linux, "", false, true, &[true]);
    assert_eq!(tried, vec![StaticBackend::WallpaperNg]);
    assert!(r.is_ok());
}

#[test]
fn swaybg_only_with_wayland() {
    let (tried, _) = drive(Platform::Linux, "sway", true, true, &[false, false, false]);
    assert_eq!(tried, vec![StaticBackend::WallpaperNg, StaticBackend::Swaybg, StaticBackend::Feh]);
}

#[test]
fn windows_reports_library_error() {
    assert!(matches!(
        set_static_image(Platform::Windows, "", false, true, 0, None),
        StaticStep::Try(StaticBackend::WallpaperNg)
    ));
    let outcome = wallpaper_outcome(Err("access denied".to_string()));
    match set_static_image(Platform::Windows, "", false, true, 1, Some(outcome)) {
        StaticStep::Done(Err(Error::Static(m))) => assert_eq!(m, "access denied"),
        _ => panic!("unexpected step"),
    }
    assert!(wallpaper_outcome(Ok(())).is_ok());
}

#[test]
fn other_platforms_are_unsupported() {
    match set_static_image(Platform::Other, "KDE", true, true, 0, None) {
        StaticStep::Done(Err(Error::Static(m))) => {
            assert_eq!(m, "static wallpapers are not supported on this platform")
        }
        _ => panic!("unexpected step"),
    }
}

#[test]
fn clearing_runs_script_only_on_plasma() {
    assert!(matches!(
        clear_static_image(Platform::Linux, "KDE", 0, None),
        StaticStep::Try(StaticBackend::KdeClearSolidColor)
    ));
    assert!(matches!(
        clear_static_image(Platform::Linux, "KDE", 1, fail()),
        StaticStep::Done(Err(Error::Static(_)))
    ));
    assert!(matches!(
        clear_static_image(Platform::Linux, "KDE", 1, Some(Ok(()))),
        StaticStep::Done(Ok(()))
    ));
    assert!(matches!(
        clear_static_image(Platform::Linux, "GNOME", 0, None),
        StaticStep::Done(Ok(()))
    ));
    assert!(matches!(
        clear_static_image(Platform::Windows, "", 0, None),
        StaticStep::Done(Ok(()))
    ));
    assert!(matches!(
        clear_static_image(Platform::Other, "KDE", 0, None),
        StaticStep::Done(Ok(()))
    ));
}

#[test]
fn backend_commands() {
    let c = backend_command(StaticBackend::PlasmaApplyWallpaperImage, "/w/a.png").unwrap();
    assert_eq!(c.program, "plasma-apply-wallpaperimage");
    assert_eq!(c.args, vec!["/w/a.png"]);
    assert!(!c.detached);
    let c = backend_command(StaticBackend::Swaybg, "/w/a.png").unwrap();
    assert_eq!(c.program, "swaybg");
    assert_eq!(c.args, vec!["-i", "/w/a.png", "-m", "fill"]);
    assert!(c.detached);
    let c = backend_command(StaticBackend::Feh, "/w/a.png").unwrap();
    assert_eq!(c.program, "feh");
    assert_eq!(c.args, vec!["--bg-fill", "/w/a.png"]);
    assert!(backend_command(StaticBackend::WallpaperNg, "/w/a.png").is_none());
    let c = backend_command(StaticBackend::KdeClearSolidColor, "").unwrap();
    assert_eq!(c.program, "qdbus6");
    assert_eq!(c.args[..3], ["org.kde.plasmashell", "/PlasmaShell", "org.kde.PlasmaShell.evaluateScript"]);
    assert_eq!(
        c.args[3],
        "\nfor (const desktop of desktops()) {\n    desktop.currentConfigGroup = [\"Wallpaper\", \"org.kde.color\", \"General\"];\n    desktop.writeConfig(\"Color\", \"#1d232a\");\n}\n"
    );
    let c = backend_command(StaticBackend::KdeQdbus6, "/w/a.png").unwrap();
    assert_eq!(c.program, "qdbus6");
    assert_eq!(c.args.len(), 4);
    assert_eq!(c.args[3], kde_wallpaper_script("/w/a.png"));
}

#[test]
fn kde_script_quotes_the_file_url() {
    assert_eq!(
        kde_wallpaper_script("/w/a.png"),
        "\nfor (const desktop of desktops()) {\n    desktop.currentConfigGroup = [\"Wallpaper\", \"org.kde.image\", \"General\"]\n    desktop.writeConfig(\"Image\", \"file:///w/a.png\")\n}"
    );
    let s = kde_wallpaper_script("/w/my \"best\" \\ pic.png");
    assert!(s.contains("\"file:///w/my \\\"best\\\" \\\\ pic.png\""));
}

#[test]
fn run_success_outcomes() {
    assert!(run_success(
        "feh",
        CommandOutcome::Exited { success: true, status: "exit status: 0".into(), stderr: "warn".into() }
    )
    .is_ok());
    match run_success(
        "qdbus6",
        CommandOutcome::Exited {
            success: false,
            status: "exit status: 2".into(),
            stderr: "\n  Service not found \t\n".into(),
        },
    ) {
        Err(Error::Static(m)) => assert_eq!(m, "qdbus6 exited with exit status: 2: Service not found"),
        other => panic!("unexpected {:?}", other),
    }
    match run_success("feh", CommandOutcome::Failed("No such file or directory (os error 2)".into())) {
        Err(Error::Static(m)) => {
            assert_eq!(m, "failed to run feh: No such file or directory (os error 2)")
        }
        other => panic!("unexpected {:?}", other),
    }
}

#[test]
fn swaybg_spawn_outcomes() {
    assert!(try_swaybg(Ok(())).is_ok());
    match try_swaybg(Err("not found".into())) {
        Err(Error::Static(m)) => assert_eq!(m, "failed to start swaybg: not found"),
        other => panic!("unexpected {:?}", other),
    }
}

#[test]
fn non_text_path_goes_to_the_library_only() {
    let (tried, r) = drive(Platform::Linux, "KDE", true, false, &[false]);
    assert_eq!(tried, vec![StaticBackend::WallpaperNg]);
    assert!(matches!(r, Err(Error::Static(ref m)) if m.starts_with("no working static wallpaper backend")));
    let (tried, r) = drive(Platform::Linux, "KDE", true, false, &[true]);
    assert_eq!(tried, vec![StaticBackend::WallpaperNg]);
    assert!(r.is_ok());
}

#[test]
fn windows_refuses_non_text_path() {
    match set_static_image(Platform::Windows, "", false, false, 0, None) {
        StaticStep::Done(Err(Error::Static(m))) => assert_eq!(m, "invalid path"),
        _ => panic!("unexpected step"),
    }
}
