//! Launching a headless Chromium and speaking the DevTools Protocol to it:
//! which binary to run and with which arguments, how to read the port it
//! reports, how a command is framed and how a reply is told apart. The
//! process, the socket and the file system are the caller's.

use vstd::prelude::*;
use crate::error::{Error, json_error_text};
use serde_json::Error as JsonError;
use crate::codec::{json_quoted, quote_json};
use crate::cli::strs;
use crate::text::{
    owned, chars_of, push_str, push_u64, dec, trim, trim_bounds, string_of_range, first_index,
    last_index, find_char, rfind_char, first_occurrence, find_chars_from, parse_unsigned,
    parse_unsigned_at, slice_from, slice_range, lemma_first_occurrence, opt_str, starts_with,
};
use crate::ws::{find_header, header_in};

verus! {

/// Options for launching the browser.
#[derive(Debug, Clone)]
pub struct LaunchOptions {
    /// Path to the browser binary.
    pub binary: String,
    /// DevTools port to ask for; 0 lets the operating system pick a free
    /// one, which the browser then reports.
    pub port: u16,
    /// Profile directory; a fresh temporary one when absent.
    pub user_data_dir: Option<String>,
    /// Further command-line arguments, passed before the start page.
    pub extra_args: Vec<String>,
    /// How long to wait for the browser to start and accept a session, in
    /// milliseconds.
    pub timeout_ms: u64,
}

impl LaunchOptions {
    /// Options for `binary`: an ephemeral port, no profile directory, no
    /// extra arguments and a 30-second timeout.
    pub fn new(binary: &str) -> (o: LaunchOptions)
        ensures
            o.binary@ == binary@,
            o.port == 0,
            o.user_data_dir is None,
            o.extra_args@.len() == 0,
            o.timeout_ms == 30000,
    {
        LaunchOptions {
            binary: owned(binary),
            port: 0,
            user_data_dir: None,
            extra_args: Vec::new(),
            timeout_ms: 30000,
        }
    }
}

/// The arguments the browser is started with: the DevTools port, headless
/// operation with every source of wall-clock or scaling variation switched
/// off, the profile directory when one is given, the caller's extra
/// arguments, and a blank start page.
pub open spec fn browser_args_spec(
    port: u16,
    user_data_dir: Option<Seq<char>>,
    extra: Seq<Seq<char>>,
) -> Seq<Seq<char>> {
    seq![
        "--remote-debugging-port="@ + dec(port as nat),
        "--headless"@,
        "--no-sandbox"@,
        "--disable-gpu"@,
        "--hide-scrollbars"@,
        "--mute-audio"@,
        "--no-first-run"@,
        "--no-default-browser-check"@,
        "--disable-dev-shm-usage"@,
        "--force-device-scale-factor=1"@,
        "--disable-background-timer-throttling"@,
        "--disable-renderer-backgrounding"@,
        "--disable-backgrounding-occluded-windows"@,
    ] + match user_data_dir {
        Some(d) => seq!["--user-data-dir="@ + d],
        None => Seq::empty(),
    } + extra + seq!["about:blank"@]
}

/// What every launch passes: first the DevTools port, then each of the
/// twelve fixed headless switches exactly once (among them
/// `--hide-scrollbars`, so no screenshot carries a scrollbar, and
/// `--force-device-scale-factor=1`, so the pixel ratio is the one a capture
/// sets), then the profile directory when one is given, then the caller's
/// arguments unchanged and in order, and last a blank start page.
pub proof fn lemma_launch_switches(port: u16, user_data_dir: Option<Seq<char>>, extra: Seq<Seq<char>>)
    ensures
        ({
            let a = browser_args_spec(port, user_data_dir, extra);
            let fixed = seq![
                "--headless"@,
                "--no-sandbox"@,
                "--disable-gpu"@,
                "--hide-scrollbars"@,
                "--mute-audio"@,
                "--no-first-run"@,
                "--no-default-browser-check"@,
                "--disable-dev-shm-usage"@,
                "--force-device-scale-factor=1"@,
                "--disable-background-timer-throttling"@,
                "--disable-renderer-backgrounding"@,
                "--disable-backgrounding-occluded-windows"@,
            ];
            let d: int = if user_data_dir is Some { 1 } else { 0 };
            &&& a.len() == 14 + d + extra.len()
            &&& a[0] == "--remote-debugging-port="@ + dec(port as nat)
            &&& a.subrange(1, 13).no_duplicates()
            &&& forall|j: int| 0 <= j < 12 ==> a.subrange(1, 13).contains(#[trigger] fixed[j])
            &&& a.subrange(1, 13).contains("--hide-scrollbars"@)
            &&& (user_data_dir matches Some(p) ==> a[13] == "--user-data-dir="@ + p)
            &&& a.subrange(13 + d, 13 + d + extra.len()) == extra
            &&& a[a.len() - 1] == "about:blank"@
        }),
{
    let a = browser_args_spec(port, user_data_dir, extra);
    let fixed = seq![
        "--headless"@,
        "--no-sandbox"@,
        "--disable-gpu"@,
        "--hide-scrollbars"@,
        "--mute-audio"@,
        "--no-first-run"@,
        "--no-default-browser-check"@,
        "--disable-dev-shm-usage"@,
        "--force-device-scale-factor=1"@,
        "--disable-background-timer-throttling"@,
        "--disable-renderer-backgrounding"@,
        "--disable-backgrounding-occluded-windows"@,
    ];
    let d: int = if user_data_dir is Some { 1 } else { 0 };
    let dir_part: Seq<Seq<char>> = match user_data_dir {
        Some(p) => seq!["--user-data-dir="@ + p],
        None => Seq::empty(),
    };
    let head = seq!["--remote-debugging-port="@ + dec(port as nat)] + fixed;
    assert(a =~= head + dir_part + extra + seq!["about:blank"@]);
    assert(a.subrange(1, 13) =~= fixed);
    assert(a.subrange(13 + d, 13 + d + extra.len()) =~= extra);
    reveal_strlit("--headless");
    reveal_strlit("--no-sandbox");
    reveal_strlit("--disable-gpu");
    reveal_strlit("--hide-scrollbars");
    reveal_strlit("--mute-audio");
    reveal_strlit("--no-first-run");
    reveal_strlit("--no-default-browser-check");
    reveal_strlit("--disable-dev-shm-usage");
    reveal_strlit("--force-device-scale-factor=1");
    reveal_strlit("--disable-background-timer-throttling");
    reveal_strlit("--disable-renderer-backgrounding");
    reveal_strlit("--disable-backgrounding-occluded-windows");
    let lens = seq![10int, 12, 13, 17, 12, 14, 26, 23, 29, 37, 32, 40];
    assert(forall|j: int| 0 <= j < 12 ==> (#[trigger] fixed[j]).len() == lens[j]);
    assert(fixed[1][2] != fixed[4][2]);
    assert forall|i: int, j: int| 0 <= i < 12 && 0 <= j < 12 && i != j implies fixed[i]
        != fixed[j] by {
        if fixed[i] == fixed[j] {
            assert(fixed[i].len() == fixed[j].len());
            if (i == 1 && j == 4) || (i == 4 && j == 1) {
                assert(fixed[i][2] == fixed[j][2]);
            }
        }
    }
    assert forall|j: int| 0 <= j < 12 implies a.subrange(1, 13).contains(#[trigger] fixed[j]) by {
        assert(a.subrange(1, 13)[j] == fixed[j]);
    }
    assert(fixed[3] == "--hide-scrollbars"@);
}

/// The command-line arguments for launching the browser described by `o`.
pub fn browser_args(o: &LaunchOptions) -> (r: Vec<String>)
    ensures
        strs(r@) == browser_args_spec(
            o.port,
            match o.user_data_dir {
                Some(d) => Some(d@),
                None => None,
            },
            strs(o.extra_args@),
        ),
{
    let mut v: Vec<String> = Vec::new();
    let mut first = owned("--remote-debugging-port=");
    push_u64(&mut first, o.port as u64);
    v.push(first);
    v.push(owned("--headless"));
    v.push(owned("--no-sandbox"));
    v.push(owned("--disable-gpu"));
    v.push(owned("--hide-scrollbars"));
    v.push(owned("--mute-audio"));
    v.push(owned("--no-first-run"));
    v.push(owned("--no-default-browser-check"));
    v.push(owned("--disable-dev-shm-usage"));
    v.push(owned("--force-device-scale-factor=1"));
    v.push(owned("--disable-background-timer-throttling"));
    v.push(owned("--disable-renderer-backgrounding"));
    v.push(owned("--disable-backgrounding-occluded-windows"));
    let ghost fixed = strs(v@);
    match &o.user_data_dir {
        Some(d) => {
            let mut a = owned("--user-data-dir=");
            push_str(&mut a, d.as_str());
            v.push(a);
        },
        None => {},
    }
    let ghost with_dir = strs(v@);
    let mut i: usize = 0;
    while i < o.extra_args.len()
        invariant
            i <= o.extra_args@.len(),
            strs(v@) == with_dir + strs(o.extra_args@).take(i as int),
        decreases o.extra_args.len() - i,
    {
        let ghost before = strs(v@);
        let a = o.extra_args[i].clone();
        v.push(a);
        assert(strs(v@) =~= before.push(a@));
        assert(strs(o.extra_args@).take(i + 1) == strs(o.extra_args@).take(i as int).push(
            o.extra_args@[i as int]@,
        ));
        assert(strs(v@) =~= with_dir + strs(o.extra_args@).take(i + 1));
        i = i + 1;
    }
    assert(strs(o.extra_args@).take(o.extra_args@.len() as int) == strs(o.extra_args@));
    let ghost before_blank = strs(v@);
    v.push(owned("about:blank"));
    assert(strs(v@) =~= before_blank.push("about:blank"@));
    assert(strs(v@) =~= browser_args_spec(
        o.port,
        match o.user_data_dir {
            Some(d) => Some(d@),
            None => None,
        },
        strs(o.extra_args@),
    ));
    v
}

/// The port in Chrome's `DevTools listening on ws://<host>:<port>/...` line:
/// the text after the first `ws://` up to the next one, up to its first
/// `/`, after the last `:`, read as a port number.
pub open spec fn devtools_port_spec(line: Seq<char>) -> Option<u16> {
    let k = first_occurrence(line, "ws://"@);
    if k < 0 {
        None
    } else {
        let after = line.skip(k + 5);
        let k2 = first_occurrence(after, "ws://"@);
        let segment = if k2 >= 0 {
            after.take(k2)
        } else {
            after
        };
        let j = first_index(segment, '/');
        let hostport = if j >= 0 {
            segment.take(j)
        } else {
            segment
        };
        let c = last_index(hostport, ':');
        if c < 0 {
            None
        } else {
            match parse_unsigned(hostport.skip(c + 1), 65535) {
                Some(n) => Some(n as u16),
                None => None,
            }
        }
    }
}

/// The DevTools port a line of the browser's error output announces.
pub fn devtools_port(line: &str) -> (r: Option<u16>)
    ensures
        r == devtools_port_spec(line@),
{
    let cs = chars_of(line);
    let pat = chars_of("ws://");
    proof {
        reveal_strlit("ws://");
    }
    assert(pat@.len() == 5);
    // Positions in `cs` fit a usize.
    let _n = cs.len();
    assert(cs@.skip(0) =~= cs@);
    match find_chars_from(cs.as_slice(), pat.as_slice(), 0) {
        None => None,
        Some(k) => {
            let after = slice_from(cs.as_slice(), k + 5);
            assert(after@.skip(0) =~= after@);
            let seg_end = match find_chars_from(after.as_slice(), pat.as_slice(), 0) {
                Some(k2) => k2,
                None => after.len(),
            };
            let segment = slice_range(after.as_slice(), 0, seg_end);
            assert(after@.subrange(0, after@.len() as int) == after@);
            assert(after@.subrange(0, seg_end as int) == after@.take(seg_end as int));
            let hp_end = match find_char(segment.as_slice(), '/') {
                Some(j) => j,
                None => segment.len(),
            };
            let hostport = slice_range(segment.as_slice(), 0, hp_end);
            assert(segment@.subrange(0, segment@.len() as int) == segment@);
            assert(segment@.subrange(0, hp_end as int) == segment@.take(hp_end as int));
            match rfind_char(hostport.as_slice(), ':') {
                None => None,
                Some(c) => match parse_unsigned_at(hostport.as_slice(), c + 1, 65535) {
                    Some(n) => Some(n as u16),
                    None => None,
                },
            }
        },
    }
}

/// The `Content-Length` of an HTTP response head: the value of the first
/// header of that name (in any case), trimmed and read as a `usize`.
pub open spec fn content_length_spec(head: Seq<char>) -> Option<usize> {
    match find_header(head, "content-length"@) {
        None => None,
        Some(v) => match parse_unsigned(v, usize::MAX as nat) {
            Some(n) => Some(n as usize),
            None => None,
        },
    }
}

/// The body length an HTTP response head announces.
pub fn content_length(head: &str) -> (r: Option<usize>)
    ensures
        r == content_length_spec(head@),
{
    let cs = chars_of(head);
    let name = chars_of("content-length");
    assert(cs@.skip(0) =~= cs@);
    match header_in(cs.as_slice(), 0, name.as_slice()) {
        None => None,
        Some(v) => {
            let vc = chars_of(v.as_str());
            assert(vc@.skip(0) =~= vc@);
            match parse_unsigned_at(vc.as_slice(), 0, usize::MAX as u64) {
                Some(n) => Some(n as usize),
                None => None,
            }
        },
    }
}

/// What one read of an HTTP response brought.
#[derive(Debug, Clone, Copy, PartialEq, Eq, Structural)]
pub enum ReadEvent {
    /// Some bytes arrived (`n` of them) and were kept.
    Got(usize),
    /// The peer closed the stream.
    Eof,
    /// Nothing arrived within the read timeout.
    TimedOut,
}

/// What to do after a look at an HTTP response read so far.
#[derive(Debug)]
pub enum ReadStep {
    /// Read again.
    Read,
    /// This part of the response is complete.
    Done,
    /// Give up with this error.
    Fail(Error),
}

/// The response head is complete once its blank line has been seen.
pub open spec fn head_done(found: bool) -> bool {
    found
}

/// The stream ended before the blank line that closes the head.
pub open spec fn head_cut(found: bool, ev: Option<ReadEvent>) -> bool {
    !found && ev == Some(ReadEvent::Eof)
}

/// What to do while reading an HTTP response head: `found` says whether
/// the blank line that ends it has been seen, `ev` is what the last read
/// brought (`None` before the first). A head that is complete is done; a
/// stream that ends before it is an error; otherwise read again.
pub fn head_step(found: bool, ev: Option<ReadEvent>) -> (r: ReadStep)
    ensures
        match r {
            ReadStep::Done => head_done(found),
            ReadStep::Read => !head_done(found) && !head_cut(found, ev),
            ReadStep::Fail(e) => head_cut(found, ev) && (e matches Error::Shape(m)
                && m@ == "http response ended in headers"@),
        },
{
    if found {
        ReadStep::Done
    } else {
        match ev {
            Some(ReadEvent::Eof) => ReadStep::Fail(Error::Shape(owned("http response ended in headers"))),
            _ => ReadStep::Read,
        }
    }
}

/// The body is complete: the announced length `want` has arrived, or the
/// stream ended, or a read timed out on a response that announced no
/// length after some of its body had arrived.
pub open spec fn body_done(want: Option<usize>, have: usize, ev: Option<ReadEvent>) -> bool {
    match ev {
        Some(ReadEvent::Eof) => true,
        Some(ReadEvent::TimedOut) => want is None && have > 0,
        _ => match want {
            Some(n) => have >= n,
            None => false,
        },
    }
}

/// A read timed out before the body could be called complete.
pub open spec fn body_timed_out(want: Option<usize>, have: usize, ev: Option<ReadEvent>) -> bool {
    ev == Some(ReadEvent::TimedOut) && !(want is None && have > 0)
}

/// What to do while reading an HTTP response body: `want` is the length
/// its head announced, `have` how many body bytes have arrived (those of
/// `ev` included), `ev` what the last read brought (`None` before the
/// first). The body is read by its announced length where there is one,
/// else to the end of the stream; a timeout ends a body of unknown length
/// that has begun, and is an error otherwise.
pub fn body_step(want: Option<usize>, have: usize, ev: Option<ReadEvent>) -> (r: ReadStep)
    ensures
        match r {
            ReadStep::Done => body_done(want, have, ev),
            ReadStep::Read => !body_done(want, have, ev) && !body_timed_out(want, have, ev),
            ReadStep::Fail(e) => body_timed_out(want, have, ev) && (e matches Error::Shape(m)
                && m@ == "timed out reading http body"@),
        },
{
    match ev {
        Some(ReadEvent::Eof) => ReadStep::Done,
        Some(ReadEvent::TimedOut) => {
            if want.is_none() && have > 0 {
                ReadStep::Done
            } else {
                ReadStep::Fail(Error::Shape(owned("timed out reading http body")))
            }
        },
        _ => match want {
            Some(n) => {
                if have >= n {
                    ReadStep::Done
                } else {
                    ReadStep::Read
                }
            },
            None => ReadStep::Read,
        },
    }
}

/// The browser the `PROOFSHEET_CHROME` variable names: its value trimmed,
/// or nothing when it is unset, empty or only white space.
pub fn chrome_override(raw: Option<&str>) -> (r: Option<String>)
    ensures
        match raw {
            None => r is None,
            Some(v) => if trim(v@).len() == 0 {
                r is None
            } else {
                r matches Some(p) && p@ == trim(v@)
            },
        },
{
    match raw {
        None => None,
        Some(v) => {
            let cs = chars_of(v);
            let (a, b) = trim_bounds(cs.as_slice(), 0, cs.len());
            assert(cs@.subrange(0, cs@.len() as int) == cs@);
            if a == b {
                None
            } else {
                Some(string_of_range(cs.as_slice(), a, b))
            }
        },
    }
}

/// Which browser to run. An explicit override wins and must name a file:
/// substituting another browser than the one named would make runs
/// irreproducible. Then the managed download, then one found on `PATH`.
pub fn choose_browser(
    over: Option<&str>,
    over_is_file: bool,
    managed: Option<&str>,
    on_path: Option<&str>,
) -> (r: Result<String, Error>)
    ensures
        match over {
            Some(p) => if over_is_file {
                r matches Ok(b) && b@ == p@
            } else {
                r matches Err(Error::Browser(m)) && m@ == "PROOFSHEET_CHROME points at "@ + p@
                    + ", which is not a file"@
            },
            None => match managed {
                Some(m) => r matches Ok(b) && b@ == m@,
                None => match on_path {
                    Some(q) => r matches Ok(b) && b@ == q@,
                    None => r matches Err(Error::Browser(m)) && m@
                        == "no browser found. Set PROOFSHEET_CHROME, or run `proofsheet install-browser`."@,
                },
            },
        },
{
    match over {
        Some(p) => if over_is_file {
            Ok(owned(p))
        } else {
            let mut m = owned("PROOFSHEET_CHROME points at ");
            push_str(&mut m, p);
            push_str(&mut m, ", which is not a file");
            Err(Error::Browser(m))
        },
        None => match managed {
            Some(m) => Ok(owned(m)),
            None => match on_path {
                Some(q) => Ok(owned(q)),
                None => Err(
                    Error::Browser(
                        owned(
                            "no browser found. Set PROOFSHEET_CHROME, or run `proofsheet install-browser`.",
                        ),
                    ),
                ),
            },
        },
    }
}

/// The text of a DevTools command: `{"id":<id>,"method":<method>,"params":<params>}`
/// with the method as a JSON string and `params` already JSON.
pub open spec fn command_message_spec(id: u64, method: Seq<char>, params: Seq<char>) -> Seq<char> {
    "{\"id\":"@ + dec(id as nat) + ",\"method\":"@ + json_quoted(method) + ",\"params\":"@ + params
        + "}"@
}

/// Frame command number `id`.
pub fn command_message(id: u64, method: &str, params: &str) -> (r: String)
    ensures
        r@ == command_message_spec(id, method@, params@),
{
    let mut m = owned("{\"id\":");
    push_u64(&mut m, id);
    push_str(&mut m, ",\"method\":");
    let q = quote_json(method);
    push_str(&mut m, q.as_str());
    push_str(&mut m, ",\"params\":");
    push_str(&mut m, params);
    push_str(&mut m, "}");
    m
}

/// What to do with a message read while waiting for the reply to a command.
#[derive(Debug)]
pub enum ReplyAction {
    /// An event, or the reply to another command: keep waiting.
    Ignore,
    /// The reply, carrying the browser's error.
    Fail(Error),
    /// The reply, carrying a result.
    Accept,
}

/// Classify a message whose `id` field reads `id` and whose `error` field,
/// when present, has the string `message` (`None` when it has none), while
/// waiting for the reply to command `want`, which was `method`.
pub fn classify_reply(
    want: u64,
    id: Option<u64>,
    error: Option<Option<&str>>,
    method: &str,
) -> (r: ReplyAction)
    ensures
        id != Some(want) ==> r is Ignore,
        id == Some(want) ==> match error {
            None => r is Accept,
            Some(m) => r matches ReplyAction::Fail(Error::Cdp { method: rm, message }) && rm@
                == method@ && message@ == (match m {
                Some(t) => t@,
                None => "unknown"@,
            }),
        },
{
    match id {
        Some(got) => if got != want {
            ReplyAction::Ignore
        } else {
            match error {
                None => ReplyAction::Accept,
                Some(m) => {
                    let message = match m {
                        Some(t) => owned(t),
                        None => owned("unknown"),
                    };
                    ReplyAction::Fail(Error::Cdp { method: owned(method), message })
                },
            }
        },
        None => ReplyAction::Ignore,
    }
}

/// The DevTools WebSocket URL of the first target of type `page`, when it
/// has one. Each target is its `type` and `webSocketDebuggerUrl` fields.
pub open spec fn page_target_spec(targets: Seq<(Option<Seq<char>>, Option<Seq<char>>)>) -> Option<
    Seq<char>,
>
    decreases targets.len(),
{
    if targets.len() == 0 {
        None
    } else if targets[0].0 == Some("page"@) {
        targets[0].1
    } else {
        page_target_spec(targets.drop_first())
    }
}

/// The views of target descriptions.
pub open spec fn target_views(t: Seq<(Option<String>, Option<String>)>) -> Seq<
    (Option<Seq<char>>, Option<Seq<char>>),
> {
    t.map_values(
        |e: (Option<String>, Option<String>)|
            (
                match e.0 {
                    Some(s) => Some(s@),
                    None => None,
                },
                match e.1 {
                    Some(s) => Some(s@),
                    None => None,
                },
            ),
    )
}

/// Pick the page to attach to from the browser's target list.
pub fn page_target(targets: &[(Option<String>, Option<String>)]) -> (r: Option<String>)
    ensures
        match r {
            Some(u) => page_target_spec(target_views(targets@)) == Some(u@),
            None => page_target_spec(target_views(targets@)) is None,
        },
{
    let ghost tv = target_views(targets@);
    let page = owned("page");
    let mut i: usize = 0;
    assert(tv.skip(0) =~= tv);
    while i < targets.len()
        invariant
            i <= targets@.len(),
            tv == target_views(targets@),
            page@ == "page"@,
            page_target_spec(tv) == page_target_spec(tv.skip(i as int)),
        decreases targets.len() - i,
    {
        assert(tv.skip(i as int).drop_first() =~= tv.skip(i + 1));
        let is_page = match &targets[i].0 {
            Some(t) => *t == page,
            None => false,
        };
        if is_page {
            return match &targets[i].1 {
                Some(u) => Some(u.clone()),
                None => None,
            };
        }
        i = i + 1;
    }
    None
}

/// The fields of a DevTools message that the library reads, as serde_json
/// finds them in `raw`: the `id` as an unsigned integer; whether there is an
/// `error` member and, if so, its `message` as a string; the `data` string of
/// the `result` (a screenshot's image); and the `value` string of the
/// `result`'s `result` (what an evaluated expression returned by value).
/// `None` when `raw` is not JSON.
pub uninterp spec fn reply_of(raw: Seq<char>) -> Option<
    (Option<u64>, Option<Option<Seq<char>>>, Option<Seq<char>>, Option<Seq<char>>),
>;

/// What the library reads of a DevTools message.
#[derive(Debug)]
pub struct Reply {
    pub id: Option<u64>,
    /// Present when the message has an `error` member; inside, its message.
    pub error: Option<Option<String>>,
    /// `result.data`, when it is a string.
    pub data: Option<String>,
    /// `result.result.value`, when it is a string.
    pub value: Option<String>,
}

/// The value of a reply.
pub open spec fn reply_view(r: Reply) -> (
    Option<u64>,
    Option<Option<Seq<char>>>,
    Option<Seq<char>>,
    Option<Seq<char>>,
) {
    (
        r.id,
        match r.error {
            Some(m) => Some(opt_str(m)),
            None => None,
        },
        opt_str(r.data),
        opt_str(r.value),
    )
}

/// `serde_json::from_str` into a `Value`, then its `id` (`as_u64`), `error`
/// and its `message` (`as_str`), `result.data` and `result.result.value`
/// (`as_str`); indexing a missing member gives `Null`, which is no string.
#[verifier::external_body]
fn parse_reply(raw: &str) -> (r: Result<Reply, JsonError>)
    ensures
        match r {
            Ok(p) => reply_of(raw@) == Some(reply_view(p)),
            Err(_) => reply_of(raw@) is None,
        },
{
    match serde_json::from_str::<serde_json::Value>(raw) {
        Ok(v) => Ok(Reply {
            id: v["id"].as_u64(),
            error: v.get("error").map(|e| e["message"].as_str().map(String::from)),
            data: v["result"]["data"].as_str().map(String::from),
            value: v["result"]["result"]["value"].as_str().map(String::from),
        }),
        Err(e) => Err(e),
    }
}

/// Read a DevTools message: its fields, or a JSON error when it is not JSON.
pub fn reply_fields(raw: &str) -> (r: Result<Reply, Error>)
    ensures
        match reply_of(raw@) {
            Some(f) => r matches Ok(p) && reply_view(p) == f,
            None => r matches Err(Error::Json(_)),
        },
{
    match parse_reply(raw) {
        Ok(p) => Ok(p),
        Err(e) => Err(Error::Json(e)),
    }
}

/// The `type` and `webSocketDebuggerUrl` strings of each target in the
/// browser's `/json/list` body, as serde_json reads it; `Some(None)` when the
/// body is JSON but not an array, `None` when it is not JSON.
pub uninterp spec fn targets_of(body: Seq<char>) -> Option<
    Option<Seq<(Option<Seq<char>>, Option<Seq<char>>)>>,
>;

/// `serde_json::from_str` into a `Value`, and for an array the `type` and
/// `webSocketDebuggerUrl` members of each element (`as_str`).
#[verifier::external_body]
fn parse_targets(body: &str) -> (r: Result<Option<Vec<(Option<String>, Option<String>)>>, JsonError>)
    ensures
        match r {
            Ok(Some(v)) => targets_of(body@) == Some(Some(target_views(v@))),
            Ok(None) => targets_of(body@) == Some(None::<Seq<(Option<Seq<char>>, Option<Seq<char>>)>>),
            Err(_) => targets_of(body@) is None,
        },
{
    match serde_json::from_str::<serde_json::Value>(body) {
        Ok(serde_json::Value::Array(ts)) => Ok(Some(
            ts.iter().map(|t| (t["type"].as_str().map(String::from),
                t["webSocketDebuggerUrl"].as_str().map(String::from))).collect(),
        )),
        Ok(_) => Ok(None),
        Err(e) => Err(e),
    }
}

/// The page to attach to, read from the browser's target list, or what to
/// report when there is none yet.
pub fn attach_target(body: &str) -> (r: Result<String, String>)
    ensures
        match targets_of(body@) {
            None => r matches Err(m) && starts_with(m@, "bad target list: "@),
            Some(None) => r matches Err(m) && m@ == "target list was not an array"@,
            Some(Some(ts)) => match page_target_spec(ts) {
                Some(u) => r matches Ok(v) && v@ == u,
                None => r matches Err(m) && m@ == "no page target yet"@,
            },
        },
{
    match parse_targets(body) {
        Ok(Some(ts)) => match page_target(ts.as_slice()) {
            Some(u) => Ok(u),
            None => Err(owned("no page target yet")),
        },
        Ok(None) => Err(owned("target list was not an array")),
        Err(e) => {
            let mut m = owned("bad target list: ");
            let ghost head = m@;
            let t = json_error_text(&e);
            push_str(&mut m, t.as_str());
            assert(m@.take(head.len() as int) == head);
            Err(m)
        },
    }
}

} // verus!
