use proofsheet::error::Error;
use proofsheet::install::{
    install_step, InstallAction, InstallEvent, InstallPhase, InstallState,
    binary_name, continuity_check, download_url, platform_slug, preflight_check, unpack_commands,
    unpack_failure,
};

#[test]
fn every_slug_is_published_by_google() {
    const PUBLISHED: [&str; 6] = ["linux-arm64", "linux64", "mac-arm64", "mac-x64", "win32", "win64"];
    for (os, arch) in [
        ("linux", "x86_64"),
        ("linux", "aarch64"),
        ("macos", "x86_64"),
        ("macos", "aarch64"),
        ("windows", "x86_64"),
        ("windows", "x86"),
    ] {
        let slug = platform_slug(os, arch).unwrap();
        assert!(PUBLISHED.contains(&slug), "{os}/{arch} maps to {slug}, which Google does not publish");
    }
}

#[test]
fn platform_slug_is_known_or_a_clear_error() {
    for (os, arch) in [
        ("linux", "x86_64"),
        ("linux", "aarch64"),
        ("macos", "x86_64"),
        ("macos", "aarch64"),
        ("windows", "x86_64"),
        ("windows", "x86"),
        ("linux", "riscv64"),
        ("freebsd", "x86_64"),
        ("windows", "aarch64"),
    ] {
        match platform_slug(os, arch) {
            Ok(s) => assert!(
                ["linux64", "linux-arm64", "mac-x64", "mac-arm64", "win64", "win32"].contains(&s),
                "unexpected slug {s}"
            ),
            Err(e) => assert!(
                e.message().contains("PROOFSHEET_CHROME"),
                "an unsupported platform must say what to do instead: {}",
                e.message()
            ),
        }
    }
}

#[test]
fn unsupported_platform_names_the_alternative() {
    match platform_slug("freebsd", "riscv64") {
        Err(Error::Browser(m)) => assert_eq!(
            m,
            "Chrome for Testing publishes no build for freebsd/riscv64 (it covers linux x86_64/aarch64, macOS x86_64/aarch64 and Windows x86/x86_64). Install a Chromium yourself and set PROOFSHEET_CHROME."
        ),
        other => panic!("unexpected {other:?}"),
    }
    assert!(platform_slug("linux", "x86").is_err());
}

#[test]
fn download_location_and_binary_name() {
    assert_eq!(
        download_url("126.0.6478.126", "linux64"),
        "https://storage.googleapis.com/chrome-for-testing-public/126.0.6478.126/linux64/chrome-headless-shell-linux64.zip"
    );
    assert_eq!(binary_name(true), "chrome-headless-shell.exe");
    assert_eq!(binary_name(false), "chrome-headless-shell");
}

#[test]
fn tools_are_checked_before_downloading() {
    assert!(preflight_check(true, true).is_ok());
    assert!(preflight_check(false, true).unwrap_err().message().contains("`curl`"));
    assert!(preflight_check(false, false).unwrap_err().message().contains("`curl`"));
    assert!(preflight_check(true, false).unwrap_err().message().contains("`unzip`, `python3` or PowerShell"));
}

#[test]
fn continuity_check_refuses_a_changed_archive() {
    assert!(continuity_check("1.2.3", "/r/1.2.3.sha256", None, "abc").is_ok());
    assert!(continuity_check("1.2.3", "/r/1.2.3.sha256", Some("abc\n"), "abc").is_ok());
    match continuity_check("1.2.3", "/r/1.2.3.sha256", Some(" old \n"), "new") {
        Err(Error::Browser(m)) => assert_eq!(
            m,
            "continuity check failed: the archive for pinned version 1.2.3 is not the one recorded on first download.\n  recorded: old\n  now:      new\nRefusing to install. Remove /r/1.2.3.sha256 to accept the new archive."
        ),
        other => panic!("unexpected {other:?}"),
    }
}

#[test]
fn unpackers_are_tried_in_order() {
    let c = unpack_commands("/d/a.zip", "/d");
    let progs: Vec<&str> = c.iter().map(|(p, _)| p.as_str()).collect();
    assert_eq!(progs, vec!["unzip", "python3", "tar", "powershell"]);
    assert_eq!(c[0].1, vec!["-q", "/d/a.zip", "-d", "/d"]);
    assert_eq!(c[1].1, vec!["-c", "import zipfile;zipfile.ZipFile(r'/d/a.zip').extractall(r'/d')"]);
    assert_eq!(c[2].1, vec!["-xf", "/d/a.zip", "-C", "/d"]);
    assert_eq!(
        c[3].1,
        vec!["-NoProfile", "-Command", "Expand-Archive -Force -LiteralPath '/d/a.zip' -DestinationPath '/d'"]
    );
}

#[test]
fn unpack_failure_lists_every_attempt() {
    let e = unpack_failure(&["unzip: bad".to_string(), "tar: worse".to_string()]);
    assert_eq!(
        e.message(),
        "browser: could not unpack the archive. Tried unzip, python3, tar and PowerShell:\n  unzip: bad\n  tar: worse"
    );
    assert_eq!(
        unpack_failure(&[]).message(),
        "browser: could not unpack the archive. Tried unzip, python3, tar and PowerShell:\n  "
    );
}

#[test]
fn the_stable_version_is_read_from_the_manifest() {
    let m = b"{\"timestamp\":\"x\",\"channels\":{\"Stable\":{\"channel\":\"Stable\",\"version\":\"126.0.6478.126\"}}}";
    assert_eq!(proofsheet::install::stable_version(m).unwrap(), "126.0.6478.126");
    match proofsheet::install::stable_version(b"{\"channels\":{}}") {
        Err(Error::Browser(m)) => assert_eq!(m, "version manifest has no Stable channel"),
        other => panic!("unexpected {other:?}"),
    }
    match proofsheet::install::stable_version(b"<html>") {
        Err(Error::Browser(m)) => assert!(m.starts_with("version manifest is not JSON: "), "{m}"),
        other => panic!("unexpected {other:?}"),
    }
}

#[test]
fn the_managed_root_honours_proofsheet_home() {
    let r = proofsheet_root;
    assert_eq!(r(Some("/ci"), Some("/home/u"), None), vec!["/ci", "browser"]);
    assert_eq!(r(Some(""), Some("/home/u"), None), vec!["/home/u", ".proofsheet", "browser"]);
    assert_eq!(r(None, None, Some("C:\\Users\\u")), vec!["C:\\Users\\u", ".proofsheet", "browser"]);
    assert_eq!(r(None, None, None), vec![".", ".proofsheet", "browser"]);
}

fn proofsheet_root(a: Option<&str>, b: Option<&str>, c: Option<&str>) -> Vec<String> {
    proofsheet::install::managed_root_from(a, b, c)
}

#[test]
fn unpack_attempts_are_noted_until_one_succeeds() {
    let mut tried = Vec::new();
    assert!(!proofsheet::install::note_unpack_attempt(
        &mut tried,
        "unzip",
        proofsheet::install::UnpackResult::Failed("  bad zip \n".to_string())
    ));
    assert!(!proofsheet::install::note_unpack_attempt(
        &mut tried,
        "python3",
        proofsheet::install::UnpackResult::NotRun("No such file or directory".to_string())
    ));
    assert!(proofsheet::install::note_unpack_attempt(&mut tried, "tar", proofsheet::install::UnpackResult::Succeeded));
    assert_eq!(tried, vec!["unzip: bad zip", "python3: No such file or directory"]);
}

fn step(s: InstallState, e: InstallEvent) -> (InstallState, InstallAction) {
    assert!(s.expects(&e));
    install_step(s, e)
}

#[test]
fn an_install_runs_its_steps_in_order() {
    let s = InstallState::new(false, Some("126.0.1".to_string()));
    let (s, a) = step(s, InstallEvent::Begin);
    assert!(matches!(a, InstallAction::FindExisting));
    let (s, a) = step(s, InstallEvent::Existing(None));
    assert!(matches!(a, InstallAction::Probe));
    let (s, a) = step(
        s,
        InstallEvent::Probed { os: "linux".into(), arch: "x86_64".into(), have_curl: true, have_unpacker: true },
    );
    match &a {
        InstallAction::Prepare { version, remove_first } => {
            assert_eq!(version, "126.0.1");
            assert!(!remove_first);
        }
        other => panic!("unexpected {other:?}"),
    }
    let (s, a) = step(s, InstallEvent::Prepared(Ok(())));
    match &a {
        InstallAction::Download { url } => assert_eq!(
            url,
            "https://storage.googleapis.com/chrome-for-testing-public/126.0.1/linux64/chrome-headless-shell-linux64.zip"
        ),
        other => panic!("unexpected {other:?}"),
    }
    let (s, a) = step(s, InstallEvent::Downloaded(Ok(())));
    assert!(matches!(a, InstallAction::Hash));
    let (s, a) = step(s, InstallEvent::Hashed { digest: Ok("abc".into()), recorded: Some("abc\n".into()), record: "/r/126.0.1.sha256".into() });
    assert!(matches!(&a, InstallAction::WriteRecord { digest } if digest == "abc"));
    let (s, a) = step(s, InstallEvent::Recorded(Ok(())));
    assert!(matches!(a, InstallAction::Extract));
    let (s, a) = step(s, InstallEvent::Extracted(Ok(())));
    assert!(matches!(a, InstallAction::FindBinary));
    let (s, a) = step(s, InstallEvent::Found(Some("/r/126.0.1/chrome-headless-shell".into())));
    assert!(matches!(&a, InstallAction::Verify { binary } if binary == "/r/126.0.1/chrome-headless-shell"));
    let (s, a) = step(s, InstallEvent::Verified(Ok(())));
    assert!(matches!(&a, InstallAction::Finish(b) if b == "/r/126.0.1/chrome-headless-shell"));
    assert_eq!(s.phase, InstallPhase::Done);
}

#[test]
fn an_existing_install_is_kept_unless_forced() {
    let (_, a) = step(InstallState::new(false, None), InstallEvent::Begin);
    assert!(matches!(a, InstallAction::FindExisting));
    let s = InstallState::new(false, None);
    let (s, _) = step(s, InstallEvent::Begin);
    let (_, a) = step(s, InstallEvent::Existing(Some("/m/chrome".into())));
    assert!(matches!(&a, InstallAction::Finish(b) if b == "/m/chrome"));
    let (s, a) = step(InstallState::new(true, None), InstallEvent::Begin);
    assert!(matches!(a, InstallAction::Probe));
    let (s, a) = step(s, InstallEvent::Probed { os: "macos".into(), arch: "aarch64".into(), have_curl: true, have_unpacker: true });
    assert!(matches!(a, InstallAction::FetchVersion));
    let (_, a) = step(s, InstallEvent::Fetched(Ok("9.9".into())));
    assert!(matches!(&a, InstallAction::Prepare { version, remove_first: true } if version == "9.9"));
}

#[test]
fn failures_after_preparing_clean_up_the_version_directory() {
    let s = InstallState::new(true, Some("1".into()));
    let (s, _) = step(s, InstallEvent::Begin);
    let (s, _) = step(s, InstallEvent::Probed { os: "windows".into(), arch: "x86".into(), have_curl: true, have_unpacker: true });
    let (s, _) = step(s, InstallEvent::Prepared(Ok(())));
    let (s, _) = step(s, InstallEvent::Downloaded(Ok(())));
    let (_, a) = step(s, InstallEvent::Hashed { digest: Ok("new".into()), recorded: Some("old".into()), record: "/r/1.sha256".into() });
    match a {
        InstallAction::Abort { error, clean_up } => {
            assert!(clean_up);
            assert!(error.message().contains("continuity check failed"));
        }
        other => panic!("unexpected {other:?}"),
    }
    let s = InstallState::new(true, Some("1".into()));
    let (s, _) = step(s, InstallEvent::Begin);
    let (s, _) = step(s, InstallEvent::Probed { os: "windows".into(), arch: "x86".into(), have_curl: true, have_unpacker: true });
    let (s, _) = step(s, InstallEvent::Prepared(Ok(())));
    let (s, _) = step(s, InstallEvent::Downloaded(Ok(())));
    let (s, _) = step(s, InstallEvent::Hashed { digest: Ok("d".into()), recorded: None, record: "/r/1.sha256".into() });
    let (s, _) = step(s, InstallEvent::Recorded(Ok(())));
    let (s, _) = step(s, InstallEvent::Extracted(Ok(())));
    match step(s, InstallEvent::Found(None)).1 {
        InstallAction::Abort { error: Error::Browser(m), clean_up: true } => {
            assert_eq!(m, "the archive unpacked but contained no chrome-headless-shell.exe")
        }
        other => panic!("unexpected {other:?}"),
    }
}

#[test]
fn an_install_refuses_before_downloading() {
    let (s, _) = step(InstallState::new(true, None), InstallEvent::Begin);
    match step(s, InstallEvent::Probed { os: "linux".into(), arch: "x86_64".into(), have_curl: false, have_unpacker: true }).1 {
        InstallAction::Abort { error, clean_up: false } => assert!(error.message().contains("`curl`")),
        other => panic!("unexpected {other:?}"),
    }
    let (s, _) = step(InstallState::new(true, None), InstallEvent::Begin);
    match step(s, InstallEvent::Probed { os: "plan9".into(), arch: "mips".into(), have_curl: true, have_unpacker: true }).1 {
        InstallAction::Abort { error, clean_up: false } => assert!(error.message().contains("PROOFSHEET_CHROME")),
        other => panic!("unexpected {other:?}"),
    }
}
