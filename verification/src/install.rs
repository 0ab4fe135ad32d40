//! Downloading a known-good browser: which build to fetch, from where, what
//! to check before and after, and what to say when something is missing.
//! Running `curl` and the unpacker, and touching the file system, is the
//! caller's.
//!
//! The continuity check is trust-on-first-use: the SHA-256 of the archive
//! of a pinned version is recorded on first download and compared on every
//! later one. It detects a pinned version's archive changing after first
//! observation; it does not authenticate the first archive.

use vstd::prelude::*;
use crate::error::{Error, json_error_text};
use serde_json::Error as JsonError;
use crate::cli::strs;
use crate::text::{owned, push_str, trim, chars_of, trim_bounds, string_of_range, opt_str, starts_with, ends_with};

verus! {

/// Where Chrome for Testing publishes its last known good versions.
pub const VERSIONS_URL: &'static str =
    "https://googlechromelabs.github.io/chrome-for-testing/last-known-good-versions.json";

/// The root of Chrome for Testing downloads.
pub const DOWNLOAD_BASE: &'static str = "https://storage.googleapis.com/chrome-for-testing-public";

/// The Chrome for Testing platform slug for an operating system and
/// architecture as `std::env::consts` names them.
pub open spec fn platform_slug_spec(os: Seq<char>, arch: Seq<char>) -> Option<Seq<char>> {
    if os == "linux"@ && arch == "x86_64"@ {
        Some("linux64"@)
    } else if os == "linux"@ && arch == "aarch64"@ {
        Some("linux-arm64"@)
    } else if os == "macos"@ && arch == "x86_64"@ {
        Some("mac-x64"@)
    } else if os == "macos"@ && arch == "aarch64"@ {
        Some("mac-arm64"@)
    } else if os == "windows"@ && arch == "x86_64"@ {
        Some("win64"@)
    } else if os == "windows"@ && arch == "x86"@ {
        Some("win32"@)
    } else {
        None
    }
}

/// Chrome for Testing publishes exactly six platforms, and the slug of each
/// names both its operating system and its architecture: Linux slugs begin
/// with `linux`, macOS ones with `mac`, Windows ones with `win`; an ARM
/// machine gets an `arm64` build and no other machine does; and two
/// different machines never get the same build.
pub proof fn lemma_platform_slug_names_the_platform(
    os1: Seq<char>,
    arch1: Seq<char>,
    os2: Seq<char>,
    arch2: Seq<char>,
)
    ensures
        platform_slug_spec(os1, arch1) is Some <==> (os1 == "linux"@ && (arch1 == "x86_64"@
            || arch1 == "aarch64"@)) || (os1 == "macos"@ && (arch1 == "x86_64"@ || arch1
            == "aarch64"@)) || (os1 == "windows"@ && (arch1 == "x86_64"@ || arch1 == "x86"@)),
        platform_slug_spec(os1, arch1) matches Some(s) ==> {
            &&& os1 == "linux"@ ==> starts_with(s, "linux"@)
            &&& os1 == "macos"@ ==> starts_with(s, "mac-"@)
            &&& os1 == "windows"@ ==> starts_with(s, "win"@)
            &&& (arch1 == "aarch64"@) == ends_with(s, "arm64"@)
        },
        platform_slug_spec(os1, arch1) is Some && platform_slug_spec(os1, arch1)
            == platform_slug_spec(os2, arch2) ==> os1 == os2 && arch1 == arch2,
{
    reveal_strlit("linux");
    reveal_strlit("macos");
    reveal_strlit("windows");
    reveal_strlit("x86_64");
    reveal_strlit("aarch64");
    reveal_strlit("x86");
    reveal_strlit("linux64");
    reveal_strlit("linux-arm64");
    reveal_strlit("mac-x64");
    reveal_strlit("mac-arm64");
    reveal_strlit("win64");
    reveal_strlit("win32");
    reveal_strlit("mac-");
    reveal_strlit("win");
    reveal_strlit("arm64");
    let slugs = seq!["linux64"@, "linux-arm64"@, "mac-x64"@, "mac-arm64"@, "win64"@, "win32"@];
    assert(slugs[0].len() == 7 && slugs[1].len() == 11 && slugs[2].len() == 7);
    assert(slugs[3].len() == 9 && slugs[4].len() == 5 && slugs[5].len() == 5);
    assert(slugs[0][0] != slugs[2][0]);
    assert(slugs[4][3] != slugs[5][3]);
    assert forall|i: int, j: int| 0 <= i < j < 6 implies slugs[i] != slugs[j] by {
        if slugs[i] == slugs[j] {
            assert(slugs[i].len() == slugs[j].len());
            if i == 0 && j == 2 {
                assert(slugs[i][0] == slugs[j][0]);
            }
            if i == 4 && j == 5 {
                assert(slugs[i][3] == slugs[j][3]);
            }
        }
    }
    assert("linux"@[0] != "macos"@[0]);
    assert("x86_64"@.len() != "aarch64"@.len() && "x86_64"@.len() != "x86"@.len()
        && "aarch64"@.len() != "x86"@.len());
    assert("linux"@ != "windows"@ && "macos"@ != "windows"@);
    assert(ends_with("linux-arm64"@, "arm64"@)) by {
        assert("linux-arm64"@.skip(6) =~= "arm64"@);
    }
    assert(ends_with("mac-arm64"@, "arm64"@)) by {
        assert("mac-arm64"@.skip(4) =~= "arm64"@);
    }
    assert(!ends_with("linux64"@, "arm64"@)) by {
        assert("linux64"@.skip(2)[0] != "arm64"@[0]);
    }
    assert(!ends_with("mac-x64"@, "arm64"@)) by {
        assert("mac-x64"@.skip(2)[0] != "arm64"@[0]);
    }
    assert(!ends_with("win64"@, "arm64"@)) by {
        assert("win64"@.skip(0)[0] != "arm64"@[0]);
    }
    assert(!ends_with("win32"@, "arm64"@)) by {
        assert("win32"@.skip(0)[0] != "arm64"@[0]);
    }
    assert(starts_with("linux64"@, "linux"@)) by {
        assert("linux64"@.take(5) =~= "linux"@);
    }
    assert(starts_with("linux-arm64"@, "linux"@)) by {
        assert("linux-arm64"@.take(5) =~= "linux"@);
    }
    assert(starts_with("mac-x64"@, "mac-"@)) by {
        assert("mac-x64"@.take(4) =~= "mac-"@);
    }
    assert(starts_with("mac-arm64"@, "mac-"@)) by {
        assert("mac-arm64"@.take(4) =~= "mac-"@);
    }
    assert(starts_with("win64"@, "win"@)) by {
        assert("win64"@.take(3) =~= "win"@);
    }
    assert(starts_with("win32"@, "win"@)) by {
        assert("win32"@.take(3) =~= "win"@);
    }
}

fn same(a: &str, b: &str) -> (r: bool)
    ensures
        r == (a@ == b@),
{
    let x = chars_of(a);
    let y = chars_of(b);
    if x.len() != y.len() {
        return false;
    }
    let mut i: usize = 0;
    while i < x.len()
        invariant
            i <= x@.len() == y@.len(),
            x@ == a@,
            y@ == b@,
            forall|j: int| 0 <= j < i ==> x@[j] == y@[j],
        decreases x.len() - i,
    {
        if x[i] != y[i] {
            assert(x@[i as int] != y@[i as int]);
            return false;
        }
        i = i + 1;
    }
    assert(x@ =~= y@);
    true
}

/// The platform slug for `os`/`arch`, or an error that names what to do
/// instead on a platform Chrome for Testing does not build for.
pub fn platform_slug(os: &str, arch: &str) -> (r: Result<&'static str, Error>)
    ensures
        match platform_slug_spec(os@, arch@) {
            Some(s) => r matches Ok(t) && t@ == s,
            None => r matches Err(Error::Browser(m)) && m@
                == "Chrome for Testing publishes no build for "@ + os@ + "/"@ + arch@
                + " (it covers linux x86_64/aarch64, macOS x86_64/aarch64 and Windows x86/x86_64). Install a Chromium yourself and set PROOFSHEET_CHROME."@,
        },
{
    if same(os, "linux") && same(arch, "x86_64") {
        Ok("linux64")
    } else if same(os, "linux") && same(arch, "aarch64") {
        Ok("linux-arm64")
    } else if same(os, "macos") && same(arch, "x86_64") {
        Ok("mac-x64")
    } else if same(os, "macos") && same(arch, "aarch64") {
        Ok("mac-arm64")
    } else if same(os, "windows") && same(arch, "x86_64") {
        Ok("win64")
    } else if same(os, "windows") && same(arch, "x86") {
        Ok("win32")
    } else {
        let mut m = owned("Chrome for Testing publishes no build for ");
        push_str(&mut m, os);
        push_str(&mut m, "/");
        push_str(&mut m, arch);
        push_str(
            &mut m,
            " (it covers linux x86_64/aarch64, macOS x86_64/aarch64 and Windows x86/x86_64). Install a Chromium yourself and set PROOFSHEET_CHROME.",
        );
        Err(Error::Browser(m))
    }
}

/// The browser binary's name inside the archive.
pub fn binary_name(windows: bool) -> (r: &'static str)
    ensures
        r@ == (if windows {
            "chrome-headless-shell.exe"@
        } else {
            "chrome-headless-shell"@
        }),
{
    if windows {
        "chrome-headless-shell.exe"
    } else {
        "chrome-headless-shell"
    }
}

/// Where the headless shell of `version` for platform `slug` is published.
pub fn download_url(version: &str, slug: &str) -> (r: String)
    ensures
        r@ == DOWNLOAD_BASE@ + "/"@ + version@ + "/"@ + slug@ + "/chrome-headless-shell-"@ + slug@
            + ".zip"@,
{
    let mut u = owned(DOWNLOAD_BASE);
    push_str(&mut u, "/");
    push_str(&mut u, version);
    push_str(&mut u, "/");
    push_str(&mut u, slug);
    push_str(&mut u, "/chrome-headless-shell-");
    push_str(&mut u, slug);
    push_str(&mut u, ".zip");
    u
}

/// The tools an install needs, checked before a large download rather than
/// discovered missing halfway through: `curl`, and any one unpacker.
pub fn preflight_check(have_curl: bool, have_unpacker: bool) -> (r: Result<(), Error>)
    ensures
        !have_curl ==> (r matches Err(Error::Browser(m)) && m@
            == "install-browser needs `curl` on PATH to download the browser. Install curl, or download a Chromium yourself and set PROOFSHEET_CHROME."@),
        have_curl && !have_unpacker ==> (r matches Err(Error::Browser(m)) && m@
            == "install-browser needs one of `unzip`, `python3` or PowerShell to unpack the archive, and found none. Install one, or download a Chromium yourself and set PROOFSHEET_CHROME."@),
        have_curl && have_unpacker ==> r is Ok,
{
    if !have_curl {
        return Err(
            Error::Browser(
                owned(
                    "install-browser needs `curl` on PATH to download the browser. Install curl, or download a Chromium yourself and set PROOFSHEET_CHROME.",
                ),
            ),
        );
    }
    if !have_unpacker {
        return Err(
            Error::Browser(
                owned(
                    "install-browser needs one of `unzip`, `python3` or PowerShell to unpack the archive, and found none. Install one, or download a Chromium yourself and set PROOFSHEET_CHROME.",
                ),
            ),
        );
    }
    Ok(())
}

/// Compare the digest of a freshly downloaded archive of `version` with the
/// one recorded on its first download (`recorded`, the record file's text,
/// when there is one; `record` names the file). A record whose trimmed text
/// differs from `digest` refuses the install; otherwise the digest is to be
/// recorded.
pub fn continuity_check(version: &str, record: &str, recorded: Option<&str>, digest: &str) -> (r:
    Result<(), Error>)
    ensures
        match recorded {
            Some(prev) => if trim(prev@) != digest@ {
                r matches Err(Error::Browser(m)) && m@
                    == "continuity check failed: the archive for pinned version "@ + version@
                    + " is not the one recorded on first download.\n  recorded: "@ + trim(prev@)
                    + "\n  now:      "@ + digest@ + "\nRefusing to install. Remove "@ + record@
                    + " to accept the new archive."@
            } else {
                r is Ok
            },
            None => r is Ok,
        },
{
    match recorded {
        None => Ok(()),
        Some(prev) => {
            let cs = chars_of(prev);
            let (a, b) = trim_bounds(cs.as_slice(), 0, cs.len());
            assert(cs@.subrange(0, cs@.len() as int) == cs@);
            let t = string_of_range(cs.as_slice(), a, b);
            if same(t.as_str(), digest) {
                Ok(())
            } else {
                let mut m = owned("continuity check failed: the archive for pinned version ");
                push_str(&mut m, version);
                push_str(&mut m, " is not the one recorded on first download.\n  recorded: ");
                push_str(&mut m, t.as_str());
                push_str(&mut m, "\n  now:      ");
                push_str(&mut m, digest);
                push_str(&mut m, "\nRefusing to install. Remove ");
                push_str(&mut m, record);
                push_str(&mut m, " to accept the new archive.");
                Err(Error::Browser(m))
            }
        },
    }
}

/// The unpackers tried, in order, with their arguments, to extract `zip`
/// into `into`. GNU tar cannot read zip, so tar is a fallback for bsdtar
/// platforms rather than the first choice.
pub open spec fn unpack_commands_spec(zip: Seq<char>, into: Seq<char>) -> Seq<
    (Seq<char>, Seq<Seq<char>>),
> {
    seq![
        ("unzip"@, seq!["-q"@, zip, "-d"@, into]),
        (
            "python3"@,
            seq![
                "-c"@,
                "import zipfile;zipfile.ZipFile(r'"@ + zip + "').extractall(r'"@ + into + "')"@,
            ],
        ),
        ("tar"@, seq!["-xf"@, zip, "-C"@, into]),
        (
            "powershell"@,
            seq![
                "-NoProfile"@,
                "-Command"@,
                "Expand-Archive -Force -LiteralPath '"@ + zip + "' -DestinationPath '"@ + into
                    + "'"@,
            ],
        ),
    ]
}

/// The values of unpacker commands.
pub open spec fn command_line_views(v: Seq<(String, Vec<String>)>) -> Seq<
    (Seq<char>, Seq<Seq<char>>),
> {
    v.map_values(|c: (String, Vec<String>)| (c.0@, strs(c.1@)))
}

fn args4(a: String, b: String, c: String, d: String) -> (r: Vec<String>)
    ensures
        strs(r@) == seq![a@, b@, c@, d@],
{
    let mut v: Vec<String> = Vec::new();
    let ghost (av, bv, cv, dv) = (a@, b@, c@, d@);
    v.push(a);
    v.push(b);
    v.push(c);
    v.push(d);
    assert(strs(v@) =~= seq![av, bv, cv, dv]);
    v
}

/// The unpacker commands for extracting `zip` into `into`.
pub fn unpack_commands(zip: &str, into: &str) -> (r: Vec<(String, Vec<String>)>)
    ensures
        command_line_views(r@) == unpack_commands_spec(zip@, into@),
{
    let mut py = owned("import zipfile;zipfile.ZipFile(r'");
    push_str(&mut py, zip);
    push_str(&mut py, "').extractall(r'");
    push_str(&mut py, into);
    push_str(&mut py, "')");
    let mut ps = owned("Expand-Archive -Force -LiteralPath '");
    push_str(&mut ps, zip);
    push_str(&mut ps, "' -DestinationPath '");
    push_str(&mut ps, into);
    push_str(&mut ps, "'");
    let unzip = args4(owned("-q"), owned(zip), owned("-d"), owned(into));
    let tar = args4(owned("-xf"), owned(zip), owned("-C"), owned(into));
    let ghost pyv = py@;
    let mut python: Vec<String> = Vec::new();
    python.push(owned("-c"));
    python.push(py);
    assert(strs(python@) =~= seq!["-c"@, pyv]);
    let ghost psv = ps@;
    let mut power: Vec<String> = Vec::new();
    power.push(owned("-NoProfile"));
    power.push(owned("-Command"));
    power.push(ps);
    assert(strs(power@) =~= seq!["-NoProfile"@, "-Command"@, psv]);
    let mut v: Vec<(String, Vec<String>)> = Vec::new();
    v.push((owned("unzip"), unzip));
    v.push((owned("python3"), python));
    v.push((owned("tar"), tar));
    v.push((owned("powershell"), power));
    assert(command_line_views(v@) =~= unpack_commands_spec(zip@, into@));
    v
}

/// `parts` joined with `sep` between them.
pub open spec fn joined(parts: Seq<Seq<char>>, sep: Seq<char>) -> Seq<char>
    decreases parts.len(),
{
    if parts.len() == 0 {
        Seq::empty()
    } else if parts.len() == 1 {
        parts[0]
    } else {
        joined(parts.drop_last(), sep) + sep + parts.last()
    }
}

/// The error when no unpacker succeeded, listing what each one said.
pub fn unpack_failure(tried: &[String]) -> (r: Error)
    ensures
        r matches Error::Browser(m) && m@
            == "could not unpack the archive. Tried unzip, python3, tar and PowerShell:\n  "@
            + joined(strs(tried@), "\n  "@),
{
    let mut all = String::new();
    let mut i: usize = 0;
    while i < tried.len()
        invariant
            i <= tried@.len(),
            all@ == joined(strs(tried@).take(i as int), "\n  "@),
        decreases tried.len() - i,
    {
        let ghost prev = strs(tried@).take(i as int);
        assert(strs(tried@).take(i + 1).drop_last() == prev);
        if i > 0 {
            push_str(&mut all, "\n  ");
        } else {
            assert(prev.len() == 0);
        }
        push_str(&mut all, tried[i].as_str());
        assert(strs(tried@).take(i + 1).last() == tried@[i as int]@);
        i = i + 1;
    }
    assert(strs(tried@).take(tried@.len() as int) == strs(tried@));
    let mut m = owned("could not unpack the archive. Tried unzip, python3, tar and PowerShell:\n  ");
    push_str(&mut m, all.as_str());
    Error::Browser(m)
}

/// What serde_json reads as `channels.Stable.version` in the version
/// manifest `bytes`: `Some(Some(v))` when that member is the string `v`,
/// `Some(None)` when the manifest is JSON without it, `None` when the bytes
/// are not JSON.
pub uninterp spec fn manifest_stable(bytes: Seq<u8>) -> Option<Option<Seq<char>>>;

/// `serde_json::from_slice` into a `Value`, then
/// `["channels"]["Stable"]["version"]` as a string.
#[verifier::external_body]
fn json_stable_version(b: &[u8]) -> (r: Result<Option<String>, JsonError>)
    ensures
        match r {
            Ok(v) => manifest_stable(b@) == Some(opt_str(v)),
            Err(_) => manifest_stable(b@) is None,
        },
{
    match serde_json::from_slice::<serde_json::Value>(b) {
        Ok(v) => Ok(v["channels"]["Stable"]["version"].as_str().map(String::from)),
        Err(e) => Err(e),
    }
}

/// The current Stable version from Chrome for Testing's manifest.
pub fn stable_version(manifest: &[u8]) -> (r: Result<String, Error>)
    ensures
        match manifest_stable(manifest@) {
            None => r matches Err(Error::Browser(m)) && starts_with(
                m@,
                "version manifest is not JSON: "@,
            ),
            Some(None) => r matches Err(Error::Browser(m)) && m@
                == "version manifest has no Stable channel"@,
            Some(Some(v)) => r matches Ok(s) && s@ == v,
        },
{
    match json_stable_version(manifest) {
        Ok(Some(v)) => Ok(v),
        Ok(None) => Err(Error::Browser(owned("version manifest has no Stable channel"))),
        Err(e) => {
            let mut m = owned("version manifest is not JSON: ");
            let ghost head = m@;
            let t = json_error_text(&e);
            push_str(&mut m, t.as_str());
            assert(m@.take(head.len() as int) == head);
            Err(Error::Browser(m))
        },
    }
}

/// Where a managed browser is installed: `<PROOFSHEET_HOME>/browser` when
/// that variable is set and not empty, else `<home>/.proofsheet/browser`
/// with `home` the first of `HOME` and `USERPROFILE` that is set, or `.`.
pub fn managed_root_from(
    proofsheet_home: Option<&str>,
    home: Option<&str>,
    userprofile: Option<&str>,
) -> (r: Vec<String>)
    ensures
        strs(r@) == (match proofsheet_home {
            Some(h) if h@.len() > 0 => seq![h@, "browser"@],
            _ => seq![
                match home {
                    Some(h) => h@,
                    None => match userprofile {
                        Some(u) => u@,
                        None => "."@,
                    },
                },
                ".proofsheet"@,
                "browser"@,
            ],
        }),
{
    let mut v: Vec<String> = Vec::new();
    if let Some(h) = proofsheet_home {
        if h.unicode_len() > 0 {
            v.push(owned(h));
            v.push(owned("browser"));
            assert(strs(v@) =~= seq![h@, "browser"@]);
            return v;
        }
    }
    let base = match home {
        Some(h) => owned(h),
        None => match userprofile {
            Some(u) => owned(u),
            None => owned("."),
        },
    };
    let ghost b = base@;
    v.push(base);
    v.push(owned(".proofsheet"));
    v.push(owned("browser"));
    assert(strs(v@) =~= seq![b, ".proofsheet"@, "browser"@]);
    v
}

/// Where an install of a managed browser stands.
#[derive(Debug, Clone, Copy, PartialEq, Eq, Structural)]
pub enum InstallPhase {
    /// Nothing done yet.
    Start,
    /// Looking for a browser that is already installed.
    Looking,
    /// Waiting for the platform and the tools on this machine.
    Probing,
    /// Waiting for the current Stable version.
    Fetching,
    /// Waiting for the version directory to be (re)created.
    Preparing,
    /// Waiting for the archive to download.
    Downloading,
    /// Waiting for the archive's digest and the recorded one.
    Hashing,
    /// Waiting for the digest to be recorded.
    Recording,
    /// Waiting for the archive to be unpacked.
    Extracting,
    /// Waiting for the binary to be found in what was unpacked.
    Finding,
    /// Waiting for the binary to be made executable and to report a version.
    Verifying,
    /// Finished, one way or the other.
    Done,
}

/// An install in progress: its phase and what it has learnt so far.
#[derive(Debug)]
pub struct InstallState {
    pub phase: InstallPhase,
    /// Reinstall even when a managed browser is present.
    pub force: bool,
    /// Whether the machine runs Windows, once probed.
    pub windows: bool,
    /// The version to install, once known.
    pub version: Option<String>,
    /// The platform slug, once known.
    pub slug: Option<String>,
    /// The installed binary, once found.
    pub binary: Option<String>,
}

/// What the caller reports after doing what the last action asked.
#[derive(Debug)]
pub enum InstallEvent {
    /// Start the install.
    Begin,
    /// The managed browser already installed, if any.
    Existing(Option<String>),
    /// The machine's operating system and architecture (as
    /// `std::env::consts` names them) and whether `curl` and an unpacker run.
    Probed { os: String, arch: String, have_curl: bool, have_unpacker: bool },
    /// The current Stable version, or why it could not be had.
    Fetched(Result<String, Error>),
    /// Whether the version directory was (re)created.
    Prepared(Result<(), Error>),
    /// Whether the archive downloaded.
    Downloaded(Result<(), Error>),
    /// The archive's SHA-256 in hex, the text of the record file if it could
    /// be read, and the record file's path.
    Hashed { digest: Result<String, Error>, recorded: Option<String>, record: String },
    /// Whether the digest was recorded.
    Recorded(Result<(), Error>),
    /// Whether the archive was unpacked.
    Extracted(Result<(), Error>),
    /// The binary found in what was unpacked, if any.
    Found(Option<String>),
    /// Whether the binary was made executable and reported its version.
    Verified(Result<(), Error>),
}

/// What the caller is to do next.
#[derive(Debug)]
pub enum InstallAction {
    /// Look for an installed managed browser.
    FindExisting,
    /// Report the platform and which tools run.
    Probe,
    /// Fetch the current Stable version.
    FetchVersion,
    /// Create the directory of `version`, removing it first if asked.
    Prepare { version: String, remove_first: bool },
    /// Download the archive from `url` into the version directory.
    Download { url: String },
    /// Hash the archive and read the record of its first download.
    Hash,
    /// Record `digest` beside the version directory.
    WriteRecord { digest: String },
    /// Unpack the archive and remove it.
    Extract,
    /// Find the binary in the version directory.
    FindBinary,
    /// Make `binary` executable and ask it for its version.
    Verify { binary: String },
    /// The install is complete: the browser is `binary`.
    Finish(String),
    /// The install failed; with `clean_up`, the partly populated version
    /// directory is to be removed first, so it is not mistaken for a good
    /// install.
    Abort { error: Error, clean_up: bool },
}

/// Whether `e` is what an install in phase `p` waits for.
pub open spec fn install_expects(p: InstallPhase, e: InstallEvent) -> bool {
    match p {
        InstallPhase::Start => e is Begin,
        InstallPhase::Looking => e is Existing,
        InstallPhase::Probing => e is Probed,
        InstallPhase::Fetching => e is Fetched,
        InstallPhase::Preparing => e is Prepared,
        InstallPhase::Downloading => e is Downloaded,
        InstallPhase::Hashing => e is Hashed,
        InstallPhase::Recording => e is Recorded,
        InstallPhase::Extracting => e is Extracted,
        InstallPhase::Finding => e is Found,
        InstallPhase::Verifying => e is Verified,
        InstallPhase::Done => false,
    }
}

/// What every install state keeps: while fetching the version the slug is
/// known, from preparing on the version and slug are, and while verifying
/// the binary is.
pub open spec fn install_wf(s: InstallState) -> bool {
    &&& (s.phase == InstallPhase::Preparing || s.phase == InstallPhase::Downloading || s.phase
        == InstallPhase::Hashing || s.phase == InstallPhase::Recording || s.phase
        == InstallPhase::Extracting || s.phase == InstallPhase::Finding || s.phase
        == InstallPhase::Verifying) ==> s.version is Some && s.slug is Some
    &&& s.phase == InstallPhase::Fetching ==> s.slug is Some
    &&& s.phase == InstallPhase::Verifying ==> s.binary is Some
}

impl InstallState {
    /// An install of `version` (the current Stable one when absent), forced
    /// or not, before anything is done.
    pub fn new(force: bool, version: Option<String>) -> (s: InstallState)
        ensures
            install_wf(s),
            s.phase == InstallPhase::Start,
            s.force == force,
            s.version == version,
            s.slug is None,
            s.binary is None,
    {
        InstallState { phase: InstallPhase::Start, force, windows: false, version, slug: None, binary: None }
    }

    /// Whether `e` is what this install waits for.
    pub fn expects(&self, e: &InstallEvent) -> (r: bool)
        ensures
            r == install_expects(self.phase, *e),
    {
        match self.phase {
            InstallPhase::Start => matches!(e, InstallEvent::Begin),
            InstallPhase::Looking => matches!(e, InstallEvent::Existing(_)),
            InstallPhase::Probing => matches!(e, InstallEvent::Probed { .. }),
            InstallPhase::Fetching => matches!(e, InstallEvent::Fetched(_)),
            InstallPhase::Preparing => matches!(e, InstallEvent::Prepared(_)),
            InstallPhase::Downloading => matches!(e, InstallEvent::Downloaded(_)),
            InstallPhase::Hashing => matches!(e, InstallEvent::Hashed { .. }),
            InstallPhase::Recording => matches!(e, InstallEvent::Recorded(_)),
            InstallPhase::Extracting => matches!(e, InstallEvent::Extracted(_)),
            InstallPhase::Finding => matches!(e, InstallEvent::Found(_)),
            InstallPhase::Verifying => matches!(e, InstallEvent::Verified(_)),
            InstallPhase::Done => false,
        }
    }
}

fn aborted(s: InstallState, error: Error, clean_up: bool) -> (r: (InstallState, InstallAction))
    ensures
        r.0.phase == InstallPhase::Done,
        r.1 == (InstallAction::Abort { error, clean_up }),
        install_wf(r.0),
        r.0.force == s.force,
{
    (InstallState { phase: InstallPhase::Done, ..s }, InstallAction::Abort { error, clean_up })
}

/// One step of installing a pinned Chrome for Testing headless shell.
/// An installed managed browser is used as it is unless the install is
/// forced. The platform must be one Chrome for Testing builds for, and
/// `curl` and an unpacker must run, before anything is downloaded. Every
/// failure from the download up to finding the binary removes the version
/// directory; the digest is recorded only after the continuity check
/// passed; the binary must report its version before it is handed back.
pub fn install_step(s: InstallState, e: InstallEvent) -> (r: (InstallState, InstallAction))
    requires
        install_wf(s),
        install_expects(s.phase, e),
    ensures
        install_wf(r.0),
        r.0.force == s.force,
        s.phase == InstallPhase::Start ==> (if s.force {
            r.0.phase == InstallPhase::Probing && r.1 is Probe
        } else {
            r.0.phase == InstallPhase::Looking && r.1 is FindExisting
        }),
        e matches InstallEvent::Existing(Some(p)) ==> r.0.phase == InstallPhase::Done && (r.1
            matches InstallAction::Finish(b) && b@ == p@),
        e matches InstallEvent::Existing(None) ==> r.0.phase == InstallPhase::Probing
            && r.1 is Probe,
        e matches InstallEvent::Probed { os, arch, have_curl, have_unpacker } ==> match
            platform_slug_spec(os@, arch@) {
            None => r.0.phase == InstallPhase::Done && (r.1 matches InstallAction::Abort {
                error: Error::Browser(m),
                clean_up,
            } && !clean_up && m@ == "Chrome for Testing publishes no build for "@ + os@ + "/"@
                + arch@
                + " (it covers linux x86_64/aarch64, macOS x86_64/aarch64 and Windows x86/x86_64). Install a Chromium yourself and set PROOFSHEET_CHROME."@),
            Some(slug) => if !have_curl || !have_unpacker {
                r.0.phase == InstallPhase::Done && (r.1 matches InstallAction::Abort {
                    error: Error::Browser(_),
                    clean_up,
                } && !clean_up)
            } else {
                &&& r.0.slug matches Some(t) && t@ == slug
                &&& r.0.windows == (os@ == "windows"@)
                &&& match s.version {
                    Some(v) => r.0.phase == InstallPhase::Preparing && (r.1 matches InstallAction::Prepare {
                        version,
                        remove_first,
                    } && version@ == v@ && remove_first == s.force),
                    None => r.0.phase == InstallPhase::Fetching && r.1 is FetchVersion,
                }
            },
        },
        e matches InstallEvent::Fetched(Ok(v)) ==> r.0.phase == InstallPhase::Preparing && (
        r.0.version matches Some(t) && t@ == v@) && (r.1 matches InstallAction::Prepare {
            version,
            remove_first,
        } && version@ == v@ && remove_first == s.force),
        e matches InstallEvent::Prepared(Ok(())) ==> r.0.phase == InstallPhase::Downloading && (
        r.1 matches InstallAction::Download { url } && url@ == DOWNLOAD_BASE@ + "/"@
            + s.version->0@ + "/"@ + s.slug->0@ + "/chrome-headless-shell-"@ + s.slug->0@
            + ".zip"@),
        e matches InstallEvent::Downloaded(Ok(())) ==> r.0.phase == InstallPhase::Hashing
            && r.1 is Hash,
        e matches InstallEvent::Hashed { digest: Ok(d), recorded, record } ==> match recorded {
            Some(prev) => if trim(prev@) != d@ {
                r.0.phase == InstallPhase::Done && (r.1 matches InstallAction::Abort {
                    error: Error::Browser(m),
                    clean_up,
                } && clean_up && m@
                    == "continuity check failed: the archive for pinned version "@
                    + s.version->0@
                    + " is not the one recorded on first download.\n  recorded: "@ + trim(
                    prev@,
                ) + "\n  now:      "@ + d@ + "\nRefusing to install. Remove "@ + record@
                    + " to accept the new archive."@)
            } else {
                r.0.phase == InstallPhase::Recording && (r.1 matches InstallAction::WriteRecord {
                    digest,
                } && digest@ == d@)
            },
            None => r.0.phase == InstallPhase::Recording && (r.1 matches InstallAction::WriteRecord {
                digest,
            } && digest@ == d@),
        },
        e matches InstallEvent::Recorded(Ok(())) ==> r.0.phase == InstallPhase::Extracting
            && r.1 is Extract,
        e matches InstallEvent::Extracted(Ok(())) ==> r.0.phase == InstallPhase::Finding
            && r.1 is FindBinary,
        e matches InstallEvent::Found(Some(b)) ==> r.0.phase == InstallPhase::Verifying && (
        r.1 matches InstallAction::Verify { binary } && binary@ == b@) && (r.0.binary matches Some(
            t,
        ) && t@ == b@),
        e matches InstallEvent::Found(None) ==> r.0.phase == InstallPhase::Done && (
        r.1 matches InstallAction::Abort { error: Error::Browser(m), clean_up } && clean_up && m@
            == "the archive unpacked but contained no "@ + (if s.windows {
            "chrome-headless-shell.exe"@
        } else {
            "chrome-headless-shell"@
        })),
        e matches InstallEvent::Verified(Ok(())) ==> r.0.phase == InstallPhase::Done && (
        r.1 matches InstallAction::Finish(b) && b@ == s.binary->0@),
        (e matches InstallEvent::Fetched(Err(x)) || e matches InstallEvent::Prepared(Err(x))
            || e matches InstallEvent::Verified(Err(x))) ==> r.0.phase == InstallPhase::Done
            && r.1 is Abort && !r.1->clean_up,
        (e matches InstallEvent::Downloaded(Err(x)) || e matches InstallEvent::Hashed {
            digest: Err(x),
            ..
        } || e matches InstallEvent::Recorded(Err(x)) || e matches InstallEvent::Extracted(Err(x)))
            ==> r.0.phase == InstallPhase::Done && r.1 is Abort && r.1->clean_up,
{
    match e {
        InstallEvent::Begin => if s.force {
            (InstallState { phase: InstallPhase::Probing, ..s }, InstallAction::Probe)
        } else {
            (InstallState { phase: InstallPhase::Looking, ..s }, InstallAction::FindExisting)
        },
        InstallEvent::Existing(Some(p)) => (
            InstallState { phase: InstallPhase::Done, ..s },
            InstallAction::Finish(p),
        ),
        InstallEvent::Existing(None) => (
            InstallState { phase: InstallPhase::Probing, ..s },
            InstallAction::Probe,
        ),
        InstallEvent::Probed { os, arch, have_curl, have_unpacker } => {
            let slug = match platform_slug(os.as_str(), arch.as_str()) {
                Ok(t) => t,
                Err(err) => return aborted(s, err, false),
            };
            match preflight_check(have_curl, have_unpacker) {
                Err(err) => return aborted(s, err, false),
                Ok(()) => {},
            }
            let windows = same(os.as_str(), "windows");
            let force = s.force;
            match s.version {
                Some(v) => {
                    let version = v.clone();
                    (
                        InstallState {
                            phase: InstallPhase::Preparing,
                            windows,
                            slug: Some(owned(slug)),
                            version: Some(v),
                            ..s
                        },
                        InstallAction::Prepare { version, remove_first: force },
                    )
                },
                None => (
                    InstallState {
                        phase: InstallPhase::Fetching,
                        windows,
                        slug: Some(owned(slug)),
                        version: None,
                        ..s
                    },
                    InstallAction::FetchVersion,
                ),
            }
        },
        InstallEvent::Fetched(Ok(v)) => {
            let version = v.clone();
            let force = s.force;
            (
                InstallState { phase: InstallPhase::Preparing, version: Some(v), ..s },
                InstallAction::Prepare { version, remove_first: force },
            )
        },
        InstallEvent::Fetched(Err(err)) => aborted(s, err, false),
        InstallEvent::Prepared(Ok(())) => {
            let url = match (&s.version, &s.slug) {
                (Some(v), Some(t)) => download_url(v.as_str(), t.as_str()),
                _ => String::new(),
            };
            (InstallState { phase: InstallPhase::Downloading, ..s }, InstallAction::Download { url })
        },
        InstallEvent::Prepared(Err(err)) => aborted(s, err, false),
        InstallEvent::Downloaded(Ok(())) => (
            InstallState { phase: InstallPhase::Hashing, ..s },
            InstallAction::Hash,
        ),
        InstallEvent::Downloaded(Err(err)) => aborted(s, err, true),
        InstallEvent::Hashed { digest: Ok(d), recorded, record } => {
            let checked = match &s.version {
                Some(v) => continuity_check(v.as_str(), record.as_str(), match &recorded {
                    Some(t) => Some(t.as_str()),
                    None => None,
                }, d.as_str()),
                None => Ok(()),
            };
            match checked {
                Err(err) => aborted(s, err, true),
                Ok(()) => (
                    InstallState { phase: InstallPhase::Recording, ..s },
                    InstallAction::WriteRecord { digest: d },
                ),
            }
        },
        InstallEvent::Hashed { digest: Err(err), .. } => aborted(s, err, true),
        InstallEvent::Recorded(Ok(())) => (
            InstallState { phase: InstallPhase::Extracting, ..s },
            InstallAction::Extract,
        ),
        InstallEvent::Recorded(Err(err)) => aborted(s, err, true),
        InstallEvent::Extracted(Ok(())) => (
            InstallState { phase: InstallPhase::Finding, ..s },
            InstallAction::FindBinary,
        ),
        InstallEvent::Extracted(Err(err)) => aborted(s, err, true),
        InstallEvent::Found(Some(b)) => {
            let binary = b.clone();
            (
                InstallState { phase: InstallPhase::Verifying, binary: Some(b), ..s },
                InstallAction::Verify { binary },
            )
        },
        InstallEvent::Found(None) => {
            let mut m = owned("the archive unpacked but contained no ");
            push_str(&mut m, binary_name(s.windows));
            aborted(s, Error::Browser(m), true)
        },
        InstallEvent::Verified(Ok(())) => {
            let b = match &s.binary {
                Some(b) => b.clone(),
                None => String::new(),
            };
            (InstallState { phase: InstallPhase::Done, ..s }, InstallAction::Finish(b))
        },
        InstallEvent::Verified(Err(err)) => aborted(s, err, false),
    }
}

/// How one unpacker attempt went.
#[derive(Debug)]
pub enum UnpackResult {
    /// It ran and succeeded.
    Succeeded,
    /// It ran and failed, with this error output.
    Failed(String),
    /// It could not be started, for this reason.
    NotRun(String),
}

/// Take note of an unpacker attempt by `prog`: true when it succeeded and
/// no further unpacker is to be tried; otherwise what it said, its error
/// output trimmed, is added to `tried`.
pub fn note_unpack_attempt(tried: &mut Vec<String>, prog: &str, result: UnpackResult) -> (done: bool)
    ensures
        done == result is Succeeded,
        match result {
            UnpackResult::Succeeded => final(tried)@ == old(tried)@,
            UnpackResult::Failed(m) => strs(final(tried)@) == strs(old(tried)@).push(
                prog@ + ": "@ + trim(m@),
            ),
            UnpackResult::NotRun(m) => strs(final(tried)@) == strs(old(tried)@).push(
                prog@ + ": "@ + m@,
            ),
        },
{
    let ghost before = strs(tried@);
    match result {
        UnpackResult::Succeeded => true,
        UnpackResult::Failed(m) => {
            let cs = chars_of(m.as_str());
            let (a, b) = trim_bounds(cs.as_slice(), 0, cs.len());
            assert(cs@.subrange(0, cs@.len() as int) == cs@);
            let t = string_of_range(cs.as_slice(), a, b);
            let mut line = owned(prog);
            push_str(&mut line, ": ");
            push_str(&mut line, t.as_str());
            let ghost lv = line@;
            tried.push(line);
            assert(strs(tried@) =~= before.push(lv));
            false
        },
        UnpackResult::NotRun(m) => {
            let mut line = owned(prog);
            push_str(&mut line, ": ");
            push_str(&mut line, m.as_str());
            let ghost lv = line@;
            tried.push(line);
            assert(strs(tried@) =~= before.push(lv));
            false
        },
    }
}

} // verus!
