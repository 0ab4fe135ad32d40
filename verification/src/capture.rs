//! Capturing one image, at exactly the size a store demands.

use vstd::prelude::*;
use crate::text::{
    owned, push_str, push_u64, dec, chars_of, contains, has_sub, occurs_at, starts_with, first_index,
    find_char, parse_unsigned, parse_unsigned_at, slice_from, slice_range, lemma_first_index,
};
use crate::codec::{
    base64_decode, base64_bytes, decode_error_text, sha256, sha256_digest, to_hex, hex_lower,
    json_quoted, quote_json, lemma_base64_bytes_of_text, lemma_hex_lower_len,
};
use crate::device::{
    Device, DeviceView, Platform, user_agent_spec, ch_platform_spec, ch_mobile_spec,
    touch_points_spec,
};
use crate::error::Error;
use crate::png::{dimensions, dimensions_spec};
use crate::presets::mobile_emulated;

verus! {

/// How long to let the page settle before capturing.
#[derive(Debug, Clone, PartialEq, Eq, Structural)]
pub struct Stability {
    /// Wait for `document.fonts.ready`.
    pub fonts: bool,
    /// Wait for every `<img>` to finish decoding, not merely to load.
    pub images: bool,
    /// Require this many consecutive animation frames with no DOM mutation.
    pub quiet_frames: u32,
    /// Give up waiting after this many milliseconds and capture anyway.
    pub timeout_ms: u32,
}

impl Default for Stability {
    fn default() -> (s: Stability)
        ensures
            s == (Stability { fonts: true, images: true, quiet_frames: 2, timeout_ms: 10_000 }),
    {
        Stability { fonts: true, images: true, quiet_frames: 2, timeout_ms: 10_000 }
    }
}

/// `true` or `false`, as Rust and JavaScript write a boolean.
pub open spec fn bool_text(b: bool) -> Seq<char> {
    if b {
        "true"@
    } else {
        "false"@
    }
}

/// The script that resolves once the page has stopped moving. The quiet
/// frame count is at least 1: zero would resolve before observing anything.
pub open spec fn stability_script_spec(s: Stability) -> Seq<char> {
    "new Promise((resolve) => {\n  const deadline = Date.now() + "@ + dec(s.timeout_ms as nat) + ";\n  const done = (why) => resolve(why);\n  const waits = [];\n  if ("@ + bool_text(s.fonts)
        + " && document.fonts && document.fonts.ready) {\n    waits.push(document.fonts.ready.catch(() => {}));\n  }\n  if ("@ + bool_text(s.images) + ") {\n    const imgs = Array.from(document.images || []);\n    waits.push(Promise.all(imgs.map((i) =>\n      (i.decode ? i.decode().catch(() => {}) : Promise.resolve())\n    )));\n  }\n  Promise.all(waits).then(() => {\n    let quiet = 0;\n    let dirty = false;\n    const obs = new MutationObserver(() => { dirty = true; });\n    obs.observe(document.documentElement, {\n      subtree: true, childList: true, attributes: true, characterData: true\n    });\n    const tick = () => {\n      if (Date.now() > deadline) { obs.disconnect(); return done('timeout'); }\n      if (dirty) { dirty = false; quiet = 0; } else { quiet++; }\n      if (quiet >= "@ + dec(
        if s.quiet_frames >= 1 {
            s.quiet_frames as nat
        } else {
            1
        },
    ) + ") { obs.disconnect(); return done('quiet'); }\n      setTimeout(tick, 16);\n    };\n    tick();\n  });\n})"@
}

fn push_bool(s: &mut String, b: bool)
    ensures
        final(s)@ == old(s)@ + bool_text(b),
{
    if b {
        push_str(s, "true");
    } else {
        push_str(s, "false");
    }
}

/// Build the JS that resolves once the page has stopped moving.
pub fn stability_script(s: &Stability) -> (r: String)
    ensures
        r@ == stability_script_spec(*s),
{
    let mut r = owned("new Promise((resolve) => {\n  const deadline = Date.now() + ");
    push_u64(&mut r, s.timeout_ms as u64);
    push_str(&mut r, ";\n  const done = (why) => resolve(why);\n  const waits = [];\n  if (");
    push_bool(&mut r, s.fonts);
    push_str(&mut r, " && document.fonts && document.fonts.ready) {\n    waits.push(document.fonts.ready.catch(() => {}));\n  }\n  if (");
    push_bool(&mut r, s.images);
    push_str(&mut r, ") {\n    const imgs = Array.from(document.images || []);\n    waits.push(Promise.all(imgs.map((i) =>\n      (i.decode ? i.decode().catch(() => {}) : Promise.resolve())\n    )));\n  }\n  Promise.all(waits).then(() => {\n    let quiet = 0;\n    let dirty = false;\n    const obs = new MutationObserver(() => { dirty = true; });\n    obs.observe(document.documentElement, {\n      subtree: true, childList: true, attributes: true, characterData: true\n    });\n    const tick = () => {\n      if (Date.now() > deadline) { obs.disconnect(); return done('timeout'); }\n      if (dirty) { dirty = false; quiet = 0; } else { quiet++; }\n      if (quiet >= ");
    let frames: u32 = if s.quiet_frames >= 1 { s.quiet_frames } else { 1 };
    push_u64(&mut r, frames as u64);
    push_str(&mut r, ") { obs.disconnect(); return done('quiet'); }\n      setTimeout(tick, 16);\n    };\n    tick();\n  });\n})");
    r
}

/// What a page reported about itself at capture time. A capture can have
/// exactly the right pixel count and still show a desktop layout scaled
/// into a phone frame; `viewport_honoured` is false when the page laid
/// itself out at another width than the device's viewport.
#[derive(Debug, Clone, Copy, PartialEq, Eq, Structural)]
pub struct Environment {
    /// `window.innerWidth`: the width the page laid out at, in CSS pixels.
    pub inner_width: u32,
    /// `window.innerHeight`.
    pub inner_height: u32,
    /// `window.devicePixelRatio`, rounded.
    pub device_pixel_ratio: u32,
    /// `navigator.maxTouchPoints`.
    pub touch_points: u32,
    /// Whether the page laid out at the device's viewport width.
    pub viewport_honoured: bool,
}

/// The expression the probe evaluates: the page's layout width and height,
/// pixel ratio and touch points, joined by commas.
pub const PROBE_EXPRESSION: &'static str =
    "[innerWidth, innerHeight, Math.round(devicePixelRatio), navigator.maxTouchPoints].join(',')";

/// The four comma-separated numbers of a probe's answer, each an unsigned
/// 32-bit decimal as `str::parse` reads it.
pub open spec fn probe_fields(v: Seq<char>) -> Option<(u32, u32, u32, u32)> {
    let i = first_index(v, ',');
    let r1 = v.skip(i + 1);
    let j = first_index(r1, ',');
    let r2 = r1.skip(j + 1);
    let k = first_index(r2, ',');
    if i < 0 || j < 0 || k < 0 {
        None
    } else {
        match (
            parse_unsigned(v.take(i), u32::MAX as nat),
            parse_unsigned(r1.take(j), u32::MAX as nat),
            parse_unsigned(r2.take(k), u32::MAX as nat),
            parse_unsigned(r2.skip(k + 1), u32::MAX as nat),
        ) {
            (Some(a), Some(b), Some(c), Some(d)) => Some((a as u32, b as u32, c as u32, d as u32)),
            _ => None,
        }
    }
}

/// The environment a probe's answer `value` describes for device `d`.
pub open spec fn environment_spec(d: DeviceView, value: Option<Seq<char>>) -> Option<Environment> {
    match value {
        None => None,
        Some(v) => match probe_fields(v) {
            None => None,
            Some((w, h, dpr, touch)) => Some(
                Environment {
                    inner_width: w,
                    inner_height: h,
                    device_pixel_ratio: dpr,
                    touch_points: touch,
                    viewport_honoured: w == d.output_width / d.scale,
                },
            ),
        },
    }
}

/// The number before the first comma of `cs[from..]`, and where the text
/// after that comma starts.
fn field_before_comma(cs: &[char], from: usize) -> (r: Option<(Option<u32>, usize)>)
    requires
        from <= cs.len(),
    ensures
        ({
            let s = cs@.skip(from as int);
            let i = first_index(s, ',');
            match r {
                None => i < 0,
                Some((n, next)) => i >= 0 && next == from + i + 1 && next <= cs.len() && match n {
                    Some(x) => parse_unsigned(s.take(i), u32::MAX as nat) == Some(x as nat),
                    None => parse_unsigned(s.take(i), u32::MAX as nat) is None,
                },
            }
        }),
{
    let rest = slice_from(cs, from);
    proof {
        lemma_first_index(rest@, ',');
    }
    match find_char(rest.as_slice(), ',') {
        None => None,
        Some(i) => {
            let part = slice_range(rest.as_slice(), 0, i);
            assert(part@ == rest@.take(i as int));
            assert(part@.skip(0) =~= part@);
            let n = match parse_unsigned_at(part.as_slice(), 0, 4294967295u64) {
                Some(x) => Some(x as u32),
                None => None,
            };
            Some((n, from + i + 1))
        },
    }
}

/// Read the probe's answer into the page's environment for `device`.
pub fn environment_of(device: &Device, value: Option<&str>) -> (r: Option<Environment>)
    requires
        device.scale != 0,
    ensures
        r == environment_spec(device@, match value {
            Some(v) => Some(v@),
            None => None,
        }),
{
    let v = match value {
        Some(v) => v,
        None => return None,
    };
    let cs = chars_of(v);
    let n = cs.len();
    assert(cs@.skip(0) =~= cs@);
    let (a, p1) = match field_before_comma(cs.as_slice(), 0) {
        Some(x) => x,
        None => return None,
    };
    assert(cs@.skip(p1 as int) =~= cs@.skip(0).skip(first_index(cs@, ',') + 1));
    let (b, p2) = match field_before_comma(cs.as_slice(), p1) {
        Some(x) => x,
        None => return None,
    };
    assert(cs@.skip(p2 as int) =~= cs@.skip(p1 as int).skip(p2 - p1));
    let (c, p3) = match field_before_comma(cs.as_slice(), p2) {
        Some(x) => x,
        None => return None,
    };
    assert(cs@.skip(p3 as int) =~= cs@.skip(p2 as int).skip(p3 - p2));
    let d = match parse_unsigned_at(cs.as_slice(), p3, 4294967295u64) {
        Some(x) => x as u32,
        None => return None,
    };
    match (a, b, c) {
        (Some(w), Some(h), Some(dpr)) => {
            let (vw, _vh) = device.viewport();
            Some(
                Environment {
                    inner_width: w,
                    inner_height: h,
                    device_pixel_ratio: dpr,
                    touch_points: d,
                    viewport_honoured: w == vw,
                },
            )
        },
        _ => None,
    }
}

/// The result of one capture.
#[derive(Debug)]
pub struct Capture {
    pub device_id: String,
    /// What the store requires.
    pub expected: (u32, u32),
    /// What the browser actually produced.
    pub actual: (u32, u32),
    /// Content address of the image bytes.
    pub sha256: String,
    pub bytes: usize,
    /// Whether `actual == expected`. A false here is a hard failure: an
    /// off-size asset is rejected at upload.
    pub exact: bool,
    /// What the page reported about itself, when it answered the probe.
    pub environment: Option<Environment>,
}

/// Two captures that say the same thing.
pub open spec fn same_capture(a: Capture, b: Capture) -> bool {
    a.device_id@ == b.device_id@ && a.expected == b.expected && a.actual == b.actual && a.sha256@
        == b.sha256@ && a.bytes == b.bytes && a.exact == b.exact && a.environment == b.environment
}

impl Clone for Capture {
    fn clone(&self) -> (r: Self)
        ensures
            same_capture(r, *self),
    {
        Capture {
            device_id: self.device_id.clone(),
            expected: self.expected,
            actual: self.actual,
            sha256: self.sha256.clone(),
            bytes: self.bytes,
            exact: self.exact,
            environment: self.environment,
        }
    }
}


/// The record of a capture whose PNG bytes are `png`, whose SHA-256 digest
/// is `digest` and whose page reported `environment`: what the store
/// requires, what the image declares, and whether they agree. A PNG whose
/// header cannot be read is an error.
pub fn describe_capture(
    device: &Device,
    png: Vec<u8>,
    digest: &[u8],
    environment: Option<Environment>,
) -> (r: Result<
    (Capture, Vec<u8>),
    Error,
>)
    ensures
        match dimensions_spec(png@) {
            Err(m) => r matches Err(Error::Shape(e)) && e@ == m,
            Ok(actual) => r matches Ok((c, v)) && v@ == png@ && c.device_id@ == device.id@
                && c.expected == (device.output_width, device.output_height) && c.actual
                == actual && c.sha256@ == hex_lower(digest@) && c.bytes == png@.len() && c.exact
                == (actual == (device.output_width, device.output_height)) && c.environment
                == environment,
        },
{
    let actual = match dimensions(png.as_slice()) {
        Ok(a) => a,
        Err(e) => return Err(e),
    };
    let expected = device.output_size();
    let sha = to_hex(digest);
    let n = png.len();
    let c = Capture {
        device_id: device.id.clone(),
        expected,
        actual,
        sha256: sha,
        bytes: n,
        exact: actual.0 == expected.0 && actual.1 == expected.1,
        environment,
    };
    Ok((c, png))
}

/// Turn the answer of the environment probe and the `data` field of a
/// `Page.captureScreenshot` reply into the capture record and the PNG bytes.
pub fn finish_capture(device: &Device, probe: Option<&str>, data: Option<&str>) -> (r: Result<
    (Capture, Vec<u8>),
    Error,
>)
    requires
        device.scale != 0,
    ensures
        match data {
            None => r matches Err(Error::Shape(m)) && m@ == "captureScreenshot returned no data"@,
            Some(t) => match base64_bytes(t@) {
                None => r matches Err(Error::Shape(m)) && starts_with(
                    m@,
                    "screenshot was not valid base64: "@,
                ),
                Some(png) => match dimensions_spec(png) {
                    Err(m) => r matches Err(Error::Shape(e)) && e@ == m,
                    Ok(actual) => r matches Ok((c, v)) && v@ == png && c.device_id@ == device.id@
                        && c.expected == (device.output_width, device.output_height) && c.actual
                        == actual && c.sha256@ == hex_lower(sha256_digest(png)) && c.sha256@.len()
                        == 64 && c.bytes == png.len() && c.exact == (actual == (
                        device.output_width,
                        device.output_height,
                    )) && c.environment == environment_spec(
                        device@,
                        match probe {
                            Some(v) => Some(v@),
                            None => None,
                        },
                    ),
                },
            },
        },
{
    let b64 = match data {
        Some(t) => t,
        None => return Err(Error::Shape(owned("captureScreenshot returned no data"))),
    };
    let png = match base64_decode(b64) {
        Ok(v) => {
            proof {
                lemma_base64_bytes_of_text(v@);
            }
            v
        },
        Err(e) => {
            let mut m = owned("screenshot was not valid base64: ");
            let ghost head = m@;
            let t = decode_error_text(&e);
            push_str(&mut m, t.as_str());
            assert(m@.take(head.len() as int) == head);
            return Err(Error::Shape(m));
        },
    };
    let digest = sha256(png.as_slice());
    proof {
        lemma_hex_lower_len(digest@);
    }
    let environment = environment_of(device, probe);
    describe_capture(device, png, digest.as_slice(), environment)
}

/// Whether a CDP error says the method is unavailable in this build.
pub open spec fn is_unsupported(message: Seq<char>) -> bool {
    has_sub(message, "wasn't found"@) || has_sub(message, "not supported"@)
}

/// Some `Emulation.*` overrides are unavailable in older or reduced builds.
/// A CDP error saying so is absorbed; every other error propagates.
pub fn swallow_unsupported(e: Error) -> (r: Result<(), Error>)
    ensures
        (e matches Error::Cdp { message, .. } && is_unsupported(message@)) ==> r is Ok,
        !(e matches Error::Cdp { message, .. } && is_unsupported(message@)) ==> (r matches Err(
            e2,
        ) && e2 == e),
{
    let unsupported = match &e {
        Error::Cdp { message, .. } => {
            let cs = chars_of(message.as_str());
            let a = chars_of("wasn't found");
            let b = chars_of("not supported");
            contains(cs.as_slice(), a.as_slice()) || contains(cs.as_slice(), b.as_slice())
        },
        _ => false,
    };
    if unsupported {
        Ok(())
    } else {
        Err(e)
    }
}

/// One DevTools command of a capture: its method, its parameters as JSON,
/// and whether a browser build that lacks the method may skip it.
#[derive(Debug)]
pub struct Command {
    pub method: String,
    pub params: String,
    pub optional: bool,
}

/// The values of a list of commands.
pub open spec fn command_views(s: Seq<Command>) -> Seq<(Seq<char>, Seq<char>, bool)> {
    s.map_values(|c: Command| (c.method@, c.params@, c.optional))
}

/// The parameters of the environment probe: evaluate `PROBE_EXPRESSION`
/// and return its value.
pub open spec fn probe_params() -> Seq<char> {
    "{\"expression\":"@ + json_quoted(PROBE_EXPRESSION@) + ",\"returnByValue\":true}"@
}

/// `{"<key>":<value as a JSON string>}`.
pub open spec fn string_param(key: Seq<char>, value: Seq<char>) -> Seq<char> {
    "{\""@ + key + "\":"@ + json_quoted(value) + "}"@
}

/// The parameters of `Emulation.setDeviceMetricsOverride` for device `d`:
/// its scale, its viewport (output size over scale) and whether it is
/// mobile.
pub open spec fn metrics_params(d: DeviceView) -> Seq<char> {
    "{\"deviceScaleFactor\":"@ + dec(d.scale as nat) + ",\"height\":"@ + dec(
        (d.output_height / d.scale) as nat,
    ) + ",\"mobile\":"@ + bool_text(d.mobile) + ",\"width\":"@ + dec(
        (d.output_width / d.scale) as nat,
    ) + "}"@
}

/// The parameters of `Emulation.setUserAgentOverride`: the User-Agent
/// `ua`, and the Client Hints metadata with platform `platform` and the
/// mobile flag `mobile` (architecture, model and platform version empty).
pub open spec fn user_agent_params(ua: Seq<char>, platform: Seq<char>, mobile: bool) -> Seq<char> {
    "{\"userAgent\":"@ + json_quoted(ua)
        + ",\"userAgentMetadata\":{\"architecture\":\"\",\"mobile\":"@ + bool_text(mobile)
        + ",\"model\":\"\",\"platform\":"@ + json_quoted(platform)
        + ",\"platformVersion\":\"\"}}"@
}

/// The parameters of `Emulation.setTouchEmulationEnabled` for `n` touch
/// points.
pub open spec fn touch_params(n: u32) -> Seq<char> {
    "{\"enabled\":true,\"maxTouchPoints\":"@ + dec(n as nat) + "}"@
}

/// The commands that emulate platform `p`: for a platform with a
/// User-Agent, its User-Agent and Client Hints, and, when it reports touch,
/// its touch points. A platform without a credible User-Agent keeps the
/// browser's own.
pub open spec fn platform_commands(p: Platform) -> Seq<(Seq<char>, Seq<char>, bool)> {
    match user_agent_spec(p) {
        None => Seq::empty(),
        Some(ua) => seq![
            (
                "Emulation.setUserAgentOverride"@,
                user_agent_params(ua, ch_platform_spec(p), ch_mobile_spec(p)),
                false,
            ),
        ] + if touch_points_spec(p) > 0 {
            seq![
                (
                    "Emulation.setTouchEmulationEnabled"@,
                    touch_params(touch_points_spec(p)),
                    false,
                ),
            ]
        } else {
            Seq::empty()
        },
    }
}

/// The commands that capture one image of `url` on device `d`, in order.
/// Metrics are applied before navigation, so the first layout already
/// happens at the target size; the device's platform is emulated next, so
/// that content negotiation serves the layout of that platform; the
/// timezone and locale overrides may be missing from a reduced browser
/// build; the determinism `preamble` is installed for every new document;
/// the page is given time to settle and is then asked what layout it ended
/// up with; the screenshot comes last.
pub open spec fn capture_plan_spec(
    d: DeviceView,
    timezone: Seq<char>,
    locale: Seq<char>,
    preamble: Seq<char>,
    url: Seq<char>,
    st: Stability,
) -> Seq<(Seq<char>, Seq<char>, bool)> {
    seq![
        ("Page.enable"@, "{}"@, false),
        ("Runtime.enable"@, "{}"@, false),
        ("Emulation.setDeviceMetricsOverride"@, metrics_params(d), false),
    ] + platform_commands(d.platform) + seq![
        ("Emulation.setTimezoneOverride"@, string_param("timezoneId"@, timezone), true),
        ("Emulation.setLocaleOverride"@, string_param("locale"@, locale), true),
        ("Page.addScriptToEvaluateOnNewDocument"@, string_param("source"@, preamble), false),
        ("Page.navigate"@, string_param("url"@, url), false),
        (
            "Runtime.evaluate"@,
            "{\"awaitPromise\":true,\"expression\":"@ + json_quoted(stability_script_spec(st))
                + ",\"returnByValue\":true}"@,
            false,
        ),
        ("Runtime.evaluate"@, probe_params(), false),
        ("Page.captureScreenshot"@, "{\"captureBeyondViewport\":false,\"format\":\"png\"}"@, false),
    ]
}

/// The position of the environment probe in a capture plan of `len`
/// commands: the one before the screenshot.
pub fn probe_step(len: usize) -> (r: usize)
    requires
        len >= 2,
    ensures
        r == len - 2,
{
    len - 2
}

/// Append one command to a plan.
fn push_command(v: &mut Vec<Command>, method: &str, params: String, optional: bool)
    ensures
        command_views(final(v)@) == command_views(old(v)@).push((method@, params@, optional)),
{
    let ghost before = command_views(v@);
    let ghost pv = params@;
    v.push(Command { method: owned(method), params, optional });
    assert(command_views(v@) =~= before.push((method@, pv, optional)));
}

/// Append the commands that emulate platform `p`.
fn push_platform_commands(v: &mut Vec<Command>, p: Platform)
    ensures
        command_views(final(v)@) == command_views(old(v)@) + platform_commands(p),
{
    let ghost before = command_views(v@);
    match p.user_agent() {
        None => {
            assert(before + platform_commands(p) =~= before);
        },
        Some(ua) => {
            let mut params = owned("{\"userAgent\":");
            let q = quote_json(ua);
            push_str(&mut params, q.as_str());
            push_str(&mut params, ",\"userAgentMetadata\":{\"architecture\":\"\",\"mobile\":");
            push_bool(&mut params, p.ch_mobile());
            push_str(&mut params, ",\"model\":\"\",\"platform\":");
            let qp = quote_json(p.ch_platform());
            push_str(&mut params, qp.as_str());
            push_str(&mut params, ",\"platformVersion\":\"\"}}");
            push_command(v, "Emulation.setUserAgentOverride", params, false);
            let n = p.touch_points();
            if n > 0 {
                let mut t = owned("{\"enabled\":true,\"maxTouchPoints\":");
                push_u64(&mut t, n as u64);
                push_str(&mut t, "}");
                push_command(v, "Emulation.setTouchEmulationEnabled", t, false);
            }
            assert(command_views(v@) =~= before + platform_commands(p));
        },
    }
}

/// `{"<key>":<value as a JSON string>}`.
fn one_string_param(key: &str, value: &str) -> (r: String)
    ensures
        r@ == string_param(key@, value@),
{
    let mut s = owned("{\"");
    push_str(&mut s, key);
    push_str(&mut s, "\":");
    let q = quote_json(value);
    push_str(&mut s, q.as_str());
    push_str(&mut s, "}");
    s
}

/// The commands that capture one image, as `capture_plan_spec` lists them.
pub fn capture_plan(
    device: &Device,
    timezone: &str,
    locale: &str,
    preamble: &str,
    url: &str,
    stability: &Stability,
) -> (r: Vec<Command>)
    requires
        device.scale != 0,
    ensures
        command_views(r@) == capture_plan_spec(
            device@,
            timezone@,
            locale@,
            preamble@,
            url@,
            *stability,
        ),
{
    let (vw, vh) = device.viewport();
    let mut metrics = owned("{\"deviceScaleFactor\":");
    push_u64(&mut metrics, device.scale as u64);
    push_str(&mut metrics, ",\"height\":");
    push_u64(&mut metrics, vh as u64);
    push_str(&mut metrics, ",\"mobile\":");
    push_bool(&mut metrics, device.mobile);
    push_str(&mut metrics, ",\"width\":");
    push_u64(&mut metrics, vw as u64);
    push_str(&mut metrics, "}");
    let script = stability_script(stability);
    let mut evaluate = owned("{\"awaitPromise\":true,\"expression\":");
    let q = quote_json(script.as_str());
    push_str(&mut evaluate, q.as_str());
    push_str(&mut evaluate, ",\"returnByValue\":true}");
    let mut probe = owned("{\"expression\":");
    let pq = quote_json(PROBE_EXPRESSION);
    push_str(&mut probe, pq.as_str());
    push_str(&mut probe, ",\"returnByValue\":true}");
    let mut v: Vec<Command> = Vec::new();
    push_command(&mut v, "Page.enable", owned("{}"), false);
    push_command(&mut v, "Runtime.enable", owned("{}"), false);
    push_command(&mut v, "Emulation.setDeviceMetricsOverride", metrics, false);
    let ghost head = command_views(v@);
    push_platform_commands(&mut v, device.platform);
    let ghost with_platform = command_views(v@);
    push_command(&mut v, "Emulation.setTimezoneOverride", one_string_param("timezoneId", timezone), true);
    push_command(&mut v, "Emulation.setLocaleOverride", one_string_param("locale", locale), true);
    push_command(&mut v, "Page.addScriptToEvaluateOnNewDocument", one_string_param("source", preamble), false);
    push_command(&mut v, "Page.navigate", one_string_param("url", url), false);
    push_command(&mut v, "Runtime.evaluate", evaluate, false);
    push_command(&mut v, "Runtime.evaluate", probe, false);
    push_command(
        &mut v,
        "Page.captureScreenshot",
        owned("{\"captureBeyondViewport\":false,\"format\":\"png\"}"),
        false,
    );
    assert(head =~= seq![
        ("Page.enable"@, "{}"@, false),
        ("Runtime.enable"@, "{}"@, false),
        ("Emulation.setDeviceMetricsOverride"@, metrics_params(device@), false),
    ]);
    assert(command_views(v@) =~= capture_plan_spec(
        device@,
        timezone@,
        locale@,
        preamble@,
        url@,
        *stability,
    ));
    v
}

/// Whatever the device, page and settings, a capture applies the device
/// metrics and then emulates the device's platform before it navigates, so
/// the first layout already happens at the target size and for that
/// platform; it probes the page's layout right before the screenshot, and
/// takes the screenshot last. Concretely: the metrics command is third;
/// for a platform with a User-Agent the fourth command overrides the
/// User-Agent and Client Hints with that platform's, and for one that
/// reports touch the fifth enables that many touch points; navigation is
/// fourth from the end, the probe second from the end, the screenshot last;
/// the metrics, navigation and screenshot each occur exactly once.
pub proof fn lemma_metrics_before_navigation(
    d: DeviceView,
    timezone: Seq<char>,
    locale: Seq<char>,
    preamble: Seq<char>,
    url: Seq<char>,
    st: Stability,
)
    ensures
        ({
            let p = capture_plan_spec(d, timezone, locale, preamble, url, st);
            let k = platform_commands(d.platform).len();
            &&& p.len() == 10 + k
            &&& k == (if user_agent_spec(d.platform) is None {
                0int
            } else if touch_points_spec(d.platform) > 0 {
                2int
            } else {
                1int
            })
            &&& p[2] == ("Emulation.setDeviceMetricsOverride"@, metrics_params(d), false)
            &&& (user_agent_spec(d.platform) matches Some(ua) ==> p[3] == (
                "Emulation.setUserAgentOverride"@,
                user_agent_params(ua, ch_platform_spec(d.platform), ch_mobile_spec(d.platform)),
                false,
            ))
            &&& (user_agent_spec(d.platform) is Some && touch_points_spec(d.platform) > 0 ==> p[4]
                == (
                "Emulation.setTouchEmulationEnabled"@,
                touch_params(touch_points_spec(d.platform)),
                false,
            ))
            &&& p[p.len() - 4] == ("Page.navigate"@, string_param("url"@, url), false)
            &&& p[p.len() - 2] == ("Runtime.evaluate"@, probe_params(), false)
            &&& p[p.len() - 1].0 == "Page.captureScreenshot"@
            &&& forall|i: int|
                0 <= i < p.len() && (#[trigger] p[i]).0 == "Emulation.setDeviceMetricsOverride"@
                    ==> i == 2
            &&& forall|i: int| 0 <= i < p.len() && (#[trigger] p[i]).0 == "Page.navigate"@ ==> i
                == p.len() - 4
            &&& forall|i: int| 0 <= i < p.len() && (#[trigger] p[i]).0 == "Page.captureScreenshot"@
                ==> i == p.len() - 1
        }),
{
    reveal_strlit("Page.enable");
    reveal_strlit("Runtime.enable");
    reveal_strlit("Emulation.setDeviceMetricsOverride");
    reveal_strlit("Emulation.setUserAgentOverride");
    reveal_strlit("Emulation.setTouchEmulationEnabled");
    reveal_strlit("Emulation.setTimezoneOverride");
    reveal_strlit("Emulation.setLocaleOverride");
    reveal_strlit("Page.addScriptToEvaluateOnNewDocument");
    reveal_strlit("Page.navigate");
    reveal_strlit("Runtime.evaluate");
    reveal_strlit("Page.captureScreenshot");
    let p = capture_plan_spec(d, timezone, locale, preamble, url, st);
    let pc = platform_commands(d.platform);
    let k = pc.len() as int;
    let ua_m = "Emulation.setUserAgentOverride"@;
    let touch_m = "Emulation.setTouchEmulationEnabled"@;
    let metrics_m = "Emulation.setDeviceMetricsOverride"@;
    assert(touch_m[13] != metrics_m[13]);
    assert(touch_m != metrics_m);
    assert(ua_m != metrics_m);
    assert("Page.enable"@[0] != metrics_m[0]);
    assert("Runtime.enable"@ != metrics_m);
    assert("Emulation.setTimezoneOverride"@ != metrics_m);
    assert("Emulation.setLocaleOverride"@ != metrics_m);
    assert("Page.addScriptToEvaluateOnNewDocument"@ != metrics_m);
    assert("Page.navigate"@[0] != metrics_m[0]);
    assert("Runtime.evaluate"@ != metrics_m);
    assert("Page.captureScreenshot"@ != metrics_m);
    let nav_m = "Page.navigate"@;
    let shot_m = "Page.captureScreenshot"@;
    assert("Page.enable"@[5] != nav_m[5] && "Page.enable"@[5] != shot_m[5]);
    assert("Runtime.enable"@[0] != nav_m[0] && "Runtime.enable"@[0] != shot_m[0]);
    assert(metrics_m[0] != nav_m[0] && metrics_m[0] != shot_m[0]);
    assert(ua_m[0] != nav_m[0] && ua_m[0] != shot_m[0]);
    assert(touch_m[0] != nav_m[0] && touch_m[0] != shot_m[0]);
    assert("Emulation.setTimezoneOverride"@[0] != nav_m[0]);
    assert("Emulation.setTimezoneOverride"@[0] != shot_m[0]);
    assert("Emulation.setLocaleOverride"@[0] != nav_m[0]);
    assert("Emulation.setLocaleOverride"@[0] != shot_m[0]);
    assert("Page.addScriptToEvaluateOnNewDocument"@[5] != nav_m[5]);
    assert("Page.addScriptToEvaluateOnNewDocument"@[5] != shot_m[5]);
    assert("Runtime.evaluate"@[0] != nav_m[0] && "Runtime.evaluate"@[0] != shot_m[0]);
    assert(nav_m[5] != shot_m[5]);
    assert(forall|i: int| 0 <= i < k ==> (#[trigger] pc[i]).0 == ua_m || pc[i].0 == touch_m) by {
        match user_agent_spec(d.platform) {
            None => {},
            Some(ua) => {
                if touch_points_spec(d.platform) > 0 {
                    assert(pc.len() == 2);
                } else {
                    assert(pc.len() == 1);
                }
            },
        }
    }
    let head = seq![
        ("Page.enable"@, "{}"@, false),
        ("Runtime.enable"@, "{}"@, false),
        ("Emulation.setDeviceMetricsOverride"@, metrics_params(d), false),
    ];
    let tail = seq![
        ("Emulation.setTimezoneOverride"@, string_param("timezoneId"@, timezone), true),
        ("Emulation.setLocaleOverride"@, string_param("locale"@, locale), true),
        ("Page.addScriptToEvaluateOnNewDocument"@, string_param("source"@, preamble), false),
        ("Page.navigate"@, string_param("url"@, url), false),
        (
            "Runtime.evaluate"@,
            "{\"awaitPromise\":true,\"expression\":"@ + json_quoted(stability_script_spec(st))
                + ",\"returnByValue\":true}"@,
            false,
        ),
        ("Runtime.evaluate"@, probe_params(), false),
        ("Page.captureScreenshot"@, "{\"captureBeyondViewport\":false,\"format\":\"png\"}"@, false),
    ];
    assert(p == head + pc + tail);
    assert forall|i: int| 0 <= i < p.len() implies #[trigger] p[i] == (if i < 3 {
        head[i]
    } else if i < 3 + k {
        pc[i - 3]
    } else {
        tail[i - 3 - k]
    }) by {}
}

/// A preset with a mobile viewport that names a touch platform with a
/// User-Agent (as every built-in one does) is captured as that platform:
/// right after the metrics, its plan overrides the User-Agent with the
/// platform's and enables the platform's touch points, both before the page
/// is loaded.
pub proof fn lemma_mobile_capture_emulates_platform(
    d: DeviceView,
    timezone: Seq<char>,
    locale: Seq<char>,
    preamble: Seq<char>,
    url: Seq<char>,
    st: Stability,
)
    requires
        d.mobile,
        mobile_emulated(d),
    ensures
        ({
            let p = capture_plan_spec(d, timezone, locale, preamble, url, st);
            &&& p.len() == 12
            &&& p[3] == (
                "Emulation.setUserAgentOverride"@,
                user_agent_params(
                    user_agent_spec(d.platform)->0,
                    ch_platform_spec(d.platform),
                    ch_mobile_spec(d.platform),
                ),
                false,
            )
            &&& p[4] == (
                "Emulation.setTouchEmulationEnabled"@,
                touch_params(touch_points_spec(d.platform)),
                false,
            )
            &&& p[8].0 == "Page.navigate"@
        }),
{
    lemma_metrics_before_navigation(d, timezone, locale, preamble, url, st);
}

/// The viewport a capture asks for is the preset's own: its scale, its
/// output size divided by that scale, and its own mobile flag, whatever the
/// scale. A desktop preset at a high pixel ratio (a Retina Mac) is laid out
/// as a desktop page, and a mobile preset as a mobile one.
pub proof fn lemma_metrics_follow_the_preset(
    d: DeviceView,
    timezone: Seq<char>,
    locale: Seq<char>,
    preamble: Seq<char>,
    url: Seq<char>,
    st: Stability,
)
    ensures
        ({
            let p = capture_plan_spec(d, timezone, locale, preamble, url, st);
            &&& p[2].0 == "Emulation.setDeviceMetricsOverride"@
            &&& p[2].1 == "{\"deviceScaleFactor\":"@ + dec(d.scale as nat) + ",\"height\":"@ + dec(
                (d.output_height / d.scale) as nat,
            ) + ",\"mobile\":"@ + (if d.mobile {
                "true"@
            } else {
                "false"@
            }) + ",\"width\":"@ + dec((d.output_width / d.scale) as nat) + "}"@
            &&& !d.mobile ==> has_sub(p[2].1, "\"mobile\":false"@)
            &&& d.mobile ==> has_sub(p[2].1, "\"mobile\":true"@)
        }),
{
    lemma_metrics_before_navigation(d, timezone, locale, preamble, url, st);
    let p = capture_plan_spec(d, timezone, locale, preamble, url, st);
    let flag = if d.mobile { "true"@ } else { "false"@ };
    let pre = "{\"deviceScaleFactor\":"@ + dec(d.scale as nat) + ",\"height\":"@ + dec(
        (d.output_height / d.scale) as nat,
    ) + ","@;
    let post = ",\"width\":"@ + dec((d.output_width / d.scale) as nat) + "}"@;
    let key = "\"mobile\":"@ + flag;
    reveal_strlit(",\"mobile\":");
    reveal_strlit(",");
    reveal_strlit("\"mobile\":");
    reveal_strlit(",\"height\":");
    reveal_strlit("true");
    reveal_strlit("false");
    reveal_strlit("\"mobile\":true");
    reveal_strlit("\"mobile\":false");
    assert(bool_text(d.mobile) == flag);
    assert(p[2].1 =~= pre + key + post);
    assert(p[2].1.subrange(pre.len() as int, (pre.len() + key.len()) as int) =~= key);
    assert(occurs_at(p[2].1, key, pre.len() as int));
    if d.mobile {
        assert(key =~= "\"mobile\":true"@);
    } else {
        assert(key =~= "\"mobile\":false"@);
    }
}

} // verus!
