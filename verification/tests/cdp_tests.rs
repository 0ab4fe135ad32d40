use proofsheet::cdp::{
    body_step, head_step, ReadEvent, ReadStep,
    browser_args, chrome_override, choose_browser, classify_reply, command_message, content_length,
    devtools_port, page_target, LaunchOptions, ReplyAction,
};
use proofsheet::error::Error;

#[test]
fn empty_env_var_is_not_a_path() {
    assert!(chrome_override(Some("")).is_none(), "empty string must be discarded");
    assert!(chrome_override(Some("   ")).is_none(), "whitespace-only must be discarded");
    assert_eq!(
        chrome_override(Some(" /usr/bin/chrome ")).as_deref(),
        Some("/usr/bin/chrome"),
        "real path survives, trimmed"
    );
    assert!(chrome_override(None).is_none());
}

#[test]
fn launch_options_default_to_ephemeral_port() {
    let o = LaunchOptions::new("/bin/true");
    assert_eq!(o.port, 0);
    assert_eq!(o.binary, "/bin/true");
    assert!(o.user_data_dir.is_none());
    assert!(o.extra_args.is_empty());
    assert_eq!(o.timeout_ms, 30000);
}

#[test]
fn missing_env_binary_is_an_error_not_a_fallback() {
    let r = choose_browser(Some("/nonexistent/definitely/not/here"), false, Some("/managed/chrome"), Some("/usr/bin/chromium"));
    match r {
        Err(Error::Browser(m)) => assert_eq!(
            m,
            "PROOFSHEET_CHROME points at /nonexistent/definitely/not/here, which is not a file"
        ),
        other => panic!("unexpected {other:?}"),
    }
}

#[test]
fn browser_discovery_order() {
    assert_eq!(choose_browser(Some("/opt/c"), true, Some("/m"), Some("/p")).unwrap(), "/opt/c");
    assert_eq!(choose_browser(None, false, Some("/m"), Some("/p")).unwrap(), "/m");
    assert_eq!(choose_browser(None, false, None, Some("/p")).unwrap(), "/p");
    match choose_browser(None, false, None, None) {
        Err(e) => assert_eq!(
            e.message(),
            "browser: no browser found. Set PROOFSHEET_CHROME, or run `proofsheet install-browser`."
        ),
        Ok(b) => panic!("found {b}"),
    }
}

#[test]
fn launch_arguments() {
    let mut o = LaunchOptions::new("/bin/chrome");
    o.port = 9222;
    o.user_data_dir = Some("/tmp/profile".to_string());
    o.extra_args = vec!["--lang=de".to_string()];
    let a = browser_args(&o);
    assert_eq!(a.len(), 16);
    assert_eq!(a[0], "--remote-debugging-port=9222");
    assert_eq!(a[1], "--headless");
    assert_eq!(a[9], "--force-device-scale-factor=1");
    assert_eq!(a[12], "--disable-backgrounding-occluded-windows");
    assert_eq!(a[13], "--user-data-dir=/tmp/profile");
    assert_eq!(a[14], "--lang=de");
    assert_eq!(a[15], "about:blank");
    let plain = browser_args(&LaunchOptions::new("/bin/chrome"));
    assert_eq!(plain.len(), 14);
    assert_eq!(plain[0], "--remote-debugging-port=0");
    assert_eq!(plain[13], "about:blank");
}

#[test]
fn devtools_port_is_read_from_the_listening_line() {
    assert_eq!(
        devtools_port("DevTools listening on ws://127.0.0.1:37121/devtools/browser/abc-def"),
        Some(37121)
    );
    assert_eq!(devtools_port("DevTools listening on ws://[::1]:9222/devtools"), Some(9222));
    assert_eq!(devtools_port("ws://localhost:80"), Some(80));
    assert_eq!(devtools_port("no url here"), None);
    assert_eq!(devtools_port("ws://127.0.0.1/devtools"), None);
    assert_eq!(devtools_port("ws://127.0.0.1:99999/devtools"), None);
    assert_eq!(devtools_port("ws://127.0.0.1:12ab/x"), None);
}

#[test]
fn content_length_is_found_in_any_case() {
    let head = "HTTP/1.1 200 OK\r\nContent-Type: application/json\r\ncontent-LENGTH:  42 \r\nX: y";
    assert_eq!(content_length(head), Some(42));
    assert_eq!(content_length("HTTP/1.1 200 OK\r\nServer: x"), None);
    assert_eq!(content_length("HTTP/1.1 200 OK\r\nContent-Length: many"), None);
    assert_eq!(content_length("HTTP/1.1 200 OK\r\nContent-Length: 7\r\nContent-Length: 9"), Some(7));
}

#[test]
fn commands_are_framed_as_json() {
    let m = command_message(7, "Page.navigate", "{\"url\":\"about:blank\"}");
    assert_eq!(m, "{\"id\":7,\"method\":\"Page.navigate\",\"params\":{\"url\":\"about:blank\"}}");
    let v: serde_json::Value = serde_json::from_str(&m).unwrap();
    assert_eq!(v["id"], 7);
}

#[test]
fn replies_are_told_apart_from_events() {
    assert!(matches!(classify_reply(3, None, None, "Page.enable"), ReplyAction::Ignore));
    assert!(matches!(classify_reply(3, Some(2), Some(Some("x")), "Page.enable"), ReplyAction::Ignore));
    assert!(matches!(classify_reply(3, Some(3), None, "Page.enable"), ReplyAction::Accept));
    match classify_reply(3, Some(3), Some(Some("boom")), "Page.enable") {
        ReplyAction::Fail(e) => assert_eq!(e.message(), "cdp Page.enable: boom"),
        other => panic!("unexpected {other:?}"),
    }
    match classify_reply(3, Some(3), Some(None), "Page.enable") {
        ReplyAction::Fail(Error::Cdp { method, message }) => {
            assert_eq!(method, "Page.enable");
            assert_eq!(message, "unknown");
        }
        other => panic!("unexpected {other:?}"),
    }
}

#[test]
fn the_first_page_target_is_chosen() {
    let t = vec![
        (Some("browser".to_string()), Some("ws://b".to_string())),
        (Some("page".to_string()), Some("ws://p1".to_string())),
        (Some("page".to_string()), Some("ws://p2".to_string())),
    ];
    assert_eq!(page_target(&t).as_deref(), Some("ws://p1"));
    let without_url = vec![(Some("page".to_string()), None), (Some("page".to_string()), Some("ws://p2".to_string()))];
    assert_eq!(page_target(&without_url), None);
    assert_eq!(page_target(&[]), None);
}

#[test]
fn reply_fields_read_what_the_library_needs() {
    let r = proofsheet::cdp::reply_fields(
        "{\"id\":4,\"result\":{\"data\":\"iVBO\",\"result\":{\"type\":\"string\",\"value\":\"1,2,3,4\"}}}",
    )
    .unwrap();
    assert_eq!(r.id, Some(4));
    assert_eq!(r.error, None);
    assert_eq!(r.data.as_deref(), Some("iVBO"));
    assert_eq!(r.value.as_deref(), Some("1,2,3,4"));
    let e = proofsheet::cdp::reply_fields("{\"id\":5,\"error\":{\"code\":-32000,\"message\":\"nope\"}}").unwrap();
    assert_eq!(e.error, Some(Some("nope".to_string())));
    let bare = proofsheet::cdp::reply_fields("{\"id\":6,\"error\":{}}").unwrap();
    assert_eq!(bare.error, Some(None));
    let event = proofsheet::cdp::reply_fields("{\"method\":\"Page.loadEventFired\",\"params\":{}}").unwrap();
    assert_eq!(event.id, None);
    assert!(matches!(proofsheet::cdp::reply_fields("not json"), Err(Error::Json(_))));
}

#[test]
fn the_target_list_names_the_page_to_attach_to() {
    let body = "[{\"type\":\"browser\",\"webSocketDebuggerUrl\":\"ws://b\"},{\"type\":\"page\",\"webSocketDebuggerUrl\":\"ws://127.0.0.1:9222/devtools/page/A\"}]";
    assert_eq!(proofsheet::cdp::attach_target(body).unwrap(), "ws://127.0.0.1:9222/devtools/page/A");
    assert_eq!(proofsheet::cdp::attach_target("[]").unwrap_err(), "no page target yet");
    assert_eq!(proofsheet::cdp::attach_target("{}").unwrap_err(), "target list was not an array");
    assert!(proofsheet::cdp::attach_target("[").unwrap_err().starts_with("bad target list: "));
}

fn shape_message(step: ReadStep) -> Option<String> {
    match step {
        ReadStep::Fail(Error::Shape(m)) => Some(m),
        _ => None,
    }
}

#[test]
fn a_head_is_read_until_its_blank_line() {
    assert!(matches!(head_step(false, None), ReadStep::Read));
    assert!(matches!(head_step(false, Some(ReadEvent::Got(10))), ReadStep::Read));
    assert!(matches!(head_step(true, Some(ReadEvent::Got(10))), ReadStep::Done));
    assert!(matches!(head_step(true, Some(ReadEvent::Eof)), ReadStep::Done));
    assert_eq!(
        shape_message(head_step(false, Some(ReadEvent::Eof))).as_deref(),
        Some("http response ended in headers")
    );
}

#[test]
fn a_body_is_read_by_its_content_length() {
    assert!(matches!(body_step(Some(5), 0, None), ReadStep::Read));
    assert!(matches!(body_step(Some(5), 3, Some(ReadEvent::Got(3))), ReadStep::Read));
    assert!(matches!(body_step(Some(5), 5, Some(ReadEvent::Got(2))), ReadStep::Done));
    assert!(matches!(body_step(Some(0), 0, None), ReadStep::Done));
    assert!(matches!(body_step(Some(5), 3, Some(ReadEvent::Eof)), ReadStep::Done));
    assert!(matches!(body_step(None, 7, Some(ReadEvent::Got(7))), ReadStep::Read));
    assert!(matches!(body_step(None, 7, Some(ReadEvent::Eof)), ReadStep::Done));
}

#[test]
fn a_timeout_ends_only_a_begun_body_of_unknown_length() {
    assert!(matches!(body_step(None, 7, Some(ReadEvent::TimedOut)), ReadStep::Done));
    assert_eq!(
        shape_message(body_step(None, 0, Some(ReadEvent::TimedOut))).as_deref(),
        Some("timed out reading http body")
    );
    assert_eq!(
        shape_message(body_step(Some(9), 4, Some(ReadEvent::TimedOut))).as_deref(),
        Some("timed out reading http body")
    );
}
