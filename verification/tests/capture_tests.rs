use proofsheet::capture::{
    capture_plan, describe_capture, environment_of, finish_capture, stability_script,
    swallow_unsupported, probe_step, Environment, Stability, PROBE_EXPRESSION,
};
use base64::Engine as _;
use proofsheet::codec::to_hex;
use sha2::Digest as _;

fn base64_encode(b: &[u8]) -> String {
    base64::engine::general_purpose::STANDARD.encode(b)
}

fn sha256(b: &[u8]) -> Vec<u8> {
    sha2::Sha256::digest(b).to_vec()
}
use proofsheet::device::{builtin, by_id};
use proofsheet::error::Error;

fn png(w: u32, h: u32) -> Vec<u8> {
    let mut v = vec![0x89, b'P', b'N', b'G', 0x0D, 0x0A, 0x1A, 0x0A];
    v.extend_from_slice(&13u32.to_be_bytes());
    v.extend_from_slice(b"IHDR");
    v.extend_from_slice(&w.to_be_bytes());
    v.extend_from_slice(&h.to_be_bytes());
    v.extend_from_slice(&[8, 6, 0, 0, 0]);
    v
}

#[test]
fn stability_script_honours_its_flags() {
    let s = Stability { fonts: false, images: true, quiet_frames: 3, timeout_ms: 500 };
    let js = stability_script(&s);
    assert!(js.contains("if (false && document.fonts"));
    assert!(js.contains("if (true)"));
    assert!(js.contains("quiet >= 3"));
    assert!(js.contains("Date.now() + 500"));
}

#[test]
fn quiet_frames_never_degenerates_to_zero() {
    let s = Stability { quiet_frames: 0, ..Default::default() };
    assert!(stability_script(&s).contains("quiet >= 1"));
}

#[test]
fn unsupported_domain_errors_are_swallowed_but_others_are_not() {
    let ok = swallow_unsupported(Error::Cdp {
        method: "Emulation.setLocaleOverride".into(),
        message: "'Emulation.setLocaleOverride' wasn't found".into(),
    });
    assert!(ok.is_ok());

    let bad = swallow_unsupported(Error::Cdp {
        method: "Page.navigate".into(),
        message: "Cannot navigate to invalid URL".into(),
    });
    assert!(bad.is_err(), "real errors must not be swallowed");
}

#[test]
fn only_cdp_errors_can_be_swallowed() {
    assert!(swallow_unsupported(Error::Shape("not supported".into())).is_err());
    assert!(swallow_unsupported(Error::Cdp { method: "m".into(), message: "method not supported here".into() }).is_ok());
}

#[test]
fn default_stability_waits_for_fonts_and_images() {
    let s = Stability::default();
    assert_eq!(s, Stability { fonts: true, images: true, quiet_frames: 2, timeout_ms: 10_000 });
    let js = stability_script(&s);
    assert!(js.starts_with("new Promise((resolve) => {\n  const deadline = Date.now() + 10000;"));
    assert!(js.contains("if (true && document.fonts"));
    assert!(js.contains("quiet >= 2"));
    assert!(js.ends_with("})"));
}

#[test]
fn capture_plan_applies_metrics_before_navigation() {
    let b = builtin();
    let d = by_id(&b, "apple-iphone-6-9-1320").unwrap();
    let plan = capture_plan(&d, "UTC", "en-US", "/*pre*/", "https://example.com/", &Stability::default());
    let methods: Vec<&str> = plan.iter().map(|c| c.method.as_str()).collect();
    assert_eq!(
        methods,
        vec![
            "Page.enable",
            "Runtime.enable",
            "Emulation.setDeviceMetricsOverride",
            "Emulation.setUserAgentOverride",
            "Emulation.setTouchEmulationEnabled",
            "Emulation.setTimezoneOverride",
            "Emulation.setLocaleOverride",
            "Page.addScriptToEvaluateOnNewDocument",
            "Page.navigate",
            "Runtime.evaluate",
            "Runtime.evaluate",
            "Page.captureScreenshot",
        ]
    );
    assert_eq!(plan[2].params, "{\"deviceScaleFactor\":3,\"height\":956,\"mobile\":true,\"width\":440}");
    assert_eq!(plan[4].params, "{\"enabled\":true,\"maxTouchPoints\":5}");
    assert_eq!(plan[5].params, "{\"timezoneId\":\"UTC\"}");
    assert_eq!(plan[6].params, "{\"locale\":\"en-US\"}");
    assert_eq!(plan[8].params, "{\"url\":\"https://example.com/\"}");
    assert_eq!(plan[11].params, "{\"captureBeyondViewport\":false,\"format\":\"png\"}");
    let optional: Vec<bool> = plan.iter().map(|c| c.optional).collect();
    assert_eq!(
        optional,
        vec![false, false, false, false, false, true, true, false, false, false, false, false]
    );
    assert_eq!(probe_step(plan.len()), 10);
    let probe: serde_json::Value = serde_json::from_str(&plan[probe_step(plan.len())].params).unwrap();
    assert_eq!(probe["expression"].as_str().unwrap(), PROBE_EXPRESSION);
    assert_eq!(probe["returnByValue"], true);
    for c in &plan {
        let _: serde_json::Value = serde_json::from_str(&c.params).expect("params are JSON");
    }
    let eval: serde_json::Value = serde_json::from_str(&plan[9].params).unwrap();
    assert_eq!(eval["expression"].as_str().unwrap(), stability_script(&Stability::default()));
}

#[test]
fn a_phone_capture_carries_its_platform() {
    let b = builtin();
    let d = by_id(&b, "apple-iphone-6-9-1320").unwrap();
    let plan = capture_plan(&d, "UTC", "en-US", "", "about:blank", &Stability::default());
    let ua: serde_json::Value = serde_json::from_str(&plan[3].params).unwrap();
    assert_eq!(ua["userAgent"].as_str().unwrap(), d.platform.user_agent().unwrap());
    assert!(ua["userAgent"].as_str().unwrap().contains("iPhone"));
    assert_eq!(ua["userAgentMetadata"]["platform"], "iOS");
    assert_eq!(ua["userAgentMetadata"]["mobile"], true);
    let mut web = d.clone();
    web.platform = proofsheet::device::Platform::Web;
    let desktop = capture_plan(&web, "UTC", "en-US", "", "about:blank", &Stability::default());
    assert_eq!(desktop.len(), 10);
    assert!(desktop.iter().all(|c| c.method != "Emulation.setUserAgentOverride"));
    assert_ne!(plan.len(), desktop.len());
}

#[test]
fn a_desktop_platform_without_touch_only_overrides_its_user_agent() {
    let b = builtin();
    let d = by_id(&b, "apple-iphone-6-9-1320").unwrap();
    let mut mac = d.clone();
    mac.platform = proofsheet::device::Platform::Macos;
    mac.mobile = false;
    let plan = capture_plan(&mac, "UTC", "en-US", "", "about:blank", &Stability::default());
    assert_eq!(plan.len(), 11);
    assert_eq!(plan[3].method, "Emulation.setUserAgentOverride");
    assert_eq!(plan[4].method, "Emulation.setTimezoneOverride");
    let ua: serde_json::Value = serde_json::from_str(&plan[3].params).unwrap();
    assert_eq!(ua["userAgentMetadata"]["platform"], "macOS");
    assert_eq!(ua["userAgentMetadata"]["mobile"], false);
    assert!(plan.iter().all(|c| c.method != "Emulation.setTouchEmulationEnabled"));
}

#[test]
fn capture_plan_quotes_its_strings() {
    let b = builtin();
    let d = by_id(&b, "play-feature-graphic").unwrap();
    let plan = capture_plan(&d, "UTC", "en-US", "a \"quoted\"\nline", "about:blank", &Stability::default());
    assert_eq!(plan[5].params, "{\"source\":\"a \\\"quoted\\\"\\nline\"}");
    assert_eq!(plan[2].params, "{\"deviceScaleFactor\":1,\"height\":500,\"mobile\":false,\"width\":1024}");
}

#[test]
fn a_capture_records_its_size_and_digest() {
    let b = builtin();
    let d = by_id(&b, "play-feature-graphic").unwrap();
    let bytes = png(1024, 500);
    let (c, v) = finish_capture(&d, Some("1024,500,1,0"), Some(&base64_encode(&bytes))).unwrap();
    assert_eq!(v, bytes);
    assert_eq!(c.device_id, "play-feature-graphic");
    assert_eq!(c.expected, (1024, 500));
    assert_eq!(c.actual, (1024, 500));
    assert!(c.exact);
    assert_eq!(c.bytes, bytes.len());
    assert_eq!(c.sha256, to_hex(&sha256(&bytes)));
    assert_eq!(c.sha256.len(), 64);
    assert_eq!(
        c.environment,
        Some(Environment {
            inner_width: 1024,
            inner_height: 500,
            device_pixel_ratio: 1,
            touch_points: 0,
            viewport_honoured: true,
        })
    );
}

#[test]
fn the_environment_records_a_desktop_layout_at_phone_size() {
    let b = builtin();
    let d = by_id(&b, "apple-iphone-6-9-1320").unwrap();
    let env = environment_of(&d, Some("1120,2434,3,5")).unwrap();
    assert_eq!(env.inner_width, 1120);
    assert_eq!(env.inner_height, 2434);
    assert_eq!(env.device_pixel_ratio, 3);
    assert_eq!(env.touch_points, 5);
    assert!(!env.viewport_honoured);
    assert!(environment_of(&d, Some("440,956,3,5")).unwrap().viewport_honoured);
    assert_eq!(environment_of(&d, None), None);
    assert_eq!(environment_of(&d, Some("440,956,3")), None);
    assert_eq!(environment_of(&d, Some("440,956,x,5")), None);
    assert_eq!(environment_of(&d, Some("440,956,3,5,6")), None);
    assert_eq!(environment_of(&d, Some("")), None);
}

#[test]
fn an_off_size_capture_is_not_exact() {
    let b = builtin();
    let d = by_id(&b, "play-feature-graphic").unwrap();
    let bytes = png(1023, 500);
    let (c, _) = describe_capture(&d, bytes.clone(), &sha256(&bytes), None).unwrap();
    assert_eq!(c.actual, (1023, 500));
    assert!(!c.exact);
}

#[test]
fn empty_png_digest_is_the_known_value() {
    let b = builtin();
    let d = by_id(&b, "play-feature-graphic").unwrap();
    let bytes = png(1, 1);
    let (c, _) = describe_capture(&d, bytes, &sha256(b""), None).unwrap();
    assert_eq!(c.sha256, "e3b0c44298fc1c149afbf4c8996fb92427ae41e4649b934ca495991b7852b855");
}

#[test]
fn screenshot_replies_without_usable_data_are_errors() {
    let b = builtin();
    let d = by_id(&b, "play-feature-graphic").unwrap();
    match finish_capture(&d, None, None) {
        Err(Error::Shape(m)) => assert_eq!(m, "captureScreenshot returned no data"),
        other => panic!("unexpected {other:?}"),
    }
    match finish_capture(&d, None, Some("***")) {
        Err(Error::Shape(m)) => assert!(m.starts_with("screenshot was not valid base64: "), "{m}"),
        other => panic!("unexpected {other:?}"),
    }
    match finish_capture(&d, None, Some(&base64_encode(b"not a png at all"))) {
        Err(Error::Shape(_)) => {}
        other => panic!("unexpected {other:?}"),
    }
}
