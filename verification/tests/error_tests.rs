use proofsheet::error::Error;

#[test]
fn every_error_names_its_kind() {
    let io = std::io::Error::new(std::io::ErrorKind::Other, "disk on fire");
    assert_eq!(Error::from(io).message(), "io: disk on fire");
    let json = serde_json::from_str::<serde_json::Value>("{").unwrap_err();
    let m = Error::from(json).message();
    assert!(m.starts_with("json: EOF while parsing"), "{m}");
    assert_eq!(Error::Protocol("x".into()).message(), "websocket protocol: x");
    assert_eq!(
        Error::Cdp { method: "Page.navigate".into(), message: "bad".into() }.message(),
        "cdp Page.navigate: bad"
    );
    assert_eq!(Error::Browser("gone".into()).message(), "browser: gone");
    assert_eq!(Error::Shape("odd".into()).message(), "unexpected response shape: odd");
}
