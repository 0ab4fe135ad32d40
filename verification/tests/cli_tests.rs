use proofsheet::cli::{
    devices_listed, devices_of, parse_store, seed_flag, select, select_devices, Args, SelectError,
};
use proofsheet::device::{builtin, Requirement, Store};

fn args(v: &[&str]) -> Args {
    Args::parse(&v.iter().map(|s| s.to_string()).collect::<Vec<_>>())
}

#[test]
fn parses_repeated_flags() {
    let a = args(&["capture", "--device", "x", "--device", "y"]);
    assert_eq!(a.command, "capture");
    assert_eq!(a.many("device"), vec!["x", "y"]);
}

#[test]
fn parses_equals_form() {
    let a = args(&["capture", "--url=https://example.com"]);
    assert_eq!(a.one("url"), Some("https://example.com"));
}

#[test]
fn bare_flag_is_boolean() {
    let a = args(&["devices", "--json", "--store", "apple"]);
    assert!(a.has("json"));
    assert_eq!(a.one("store"), Some("apple"));
}

#[test]
fn store_aliases_resolve() {
    assert_eq!(parse_store("ios"), Some(Store::Apple));
    assert_eq!(parse_store("android"), Some(Store::Play));
    assert_eq!(parse_store("nonsense"), None);
}

#[test]
fn unknown_device_id_is_an_error_not_a_silent_skip() {
    let all = builtin();
    let a = args(&["capture", "--device", "no-such-device"]);
    let e = select_devices(&a, &all).unwrap_err();
    assert!(e.contains("unknown device id"), "{e}");
}

#[test]
fn store_selection_returns_a_nonempty_set() {
    let all = builtin();
    let a = args(&["capture", "--store", "apple"]);
    assert!(!select_devices(&a, &all).unwrap().is_empty());
}

#[test]
fn selection_requires_an_explicit_choice() {
    let all = builtin();
    assert!(select_devices(&args(&["capture"]), &all).is_err());
}

#[test]
fn last_value_of_a_repeated_flag_wins() {
    let a = args(&["capture", "--seed", "1", "--seed=2"]);
    assert_eq!(a.one("seed"), Some("2"));
    assert_eq!(a.many("seed"), vec!["1", "2"]);
    assert!(!a.has("url"));
    assert_eq!(a.one("url"), None);
    assert!(a.many("url").is_empty());
}

#[test]
fn trailing_flag_is_boolean_and_plain_words_are_skipped() {
    let a = args(&["devices", "stray", "--mandatory"]);
    assert_eq!(a.command, "devices");
    assert_eq!(a.one("mandatory"), Some("true"));
    assert!(!a.has("stray"));
}

#[test]
fn empty_argv_has_an_empty_command() {
    let a = args(&[]);
    assert_eq!(a.command, "");
    assert!(!a.has("device"));
}

#[test]
fn store_names_ignore_ascii_case() {
    assert_eq!(parse_store("APPLE"), Some(Store::Apple));
    assert_eq!(parse_store("AppStore"), Some(Store::Apple));
    assert_eq!(parse_store("Google"), Some(Store::Play));
    assert_eq!(parse_store("web"), Some(Store::Web));
    assert_eq!(parse_store("apples"), None);
}

#[test]
fn device_ids_are_resolved_in_the_order_given() {
    let all = builtin();
    let a = args(&[
        "capture",
        "--device",
        "play-feature-graphic",
        "--device",
        "apple-iphone-6-9-1320",
        "--store",
        "web",
    ]);
    let picked = select_devices(&a, &all).unwrap();
    assert_eq!(picked.len(), 2);
    assert_eq!(picked[0].id, "play-feature-graphic");
    assert_eq!(picked[1].id, "apple-iphone-6-9-1320");
}

#[test]
fn the_first_unknown_id_is_the_one_reported() {
    let all = builtin();
    let a = args(&["capture", "--device", "play-feature-graphic", "--device", "nope-1", "--device", "nope-2"]);
    assert_eq!(select_devices(&a, &all).unwrap_err(), "unknown device id: nope-1");
}

#[test]
fn each_selection_refusal_has_its_message() {
    let all = builtin();
    assert_eq!(
        select_devices(&args(&["capture", "--store", "mars"]), &all).unwrap_err(),
        "unknown store: mars"
    );
    assert_eq!(
        select_devices(&args(&["capture"]), &all).unwrap_err(),
        "specify --device <id> (repeatable) or --store <apple|play|web>"
    );
    let apple_only: Vec<_> = all.iter().filter(|d| d.store == Store::Apple).cloned().collect();
    assert_eq!(
        select_devices(&args(&["capture", "--store", "play"]), &apple_only).unwrap_err(),
        "no presets for store play"
    );
}

#[test]
fn binding_selection_reports_refusals_as_values() {
    let all = builtin();
    let ids = vec!["ghost".to_string()];
    match select(&all, Some(ids.as_slice()), None) {
        Err(SelectError::UnknownDevice(id)) => assert_eq!(id, "ghost"),
        other => panic!("unexpected {other:?}"),
    }
    let e = select(&all, None, None).unwrap_err();
    assert_eq!(e.message(), "specify either `devices` or `store`");
    let e = select(&all, None, Some("moon")).unwrap_err();
    assert_eq!(e.message(), "unknown store: moon");
    let none: Vec<String> = Vec::new();
    assert!(select(&all, Some(none.as_slice()), Some("apple")).unwrap().is_empty());
    let web = select(&all, None, Some("WEB")).unwrap();
    assert!(!web.is_empty());
    assert!(web.iter().all(|d| d.store == Store::Web));
}

#[test]
fn devices_listing_narrows_by_store_and_requirement() {
    let all = builtin();
    let every = devices_listed(&args(&["devices"]), &all);
    assert_eq!(every.len(), all.len());
    let apple = devices_listed(&args(&["devices", "--store", "ios"]), &all);
    assert!(!apple.is_empty());
    assert!(apple.iter().all(|d| d.store == Store::Apple));
    let mandatory = devices_listed(&args(&["devices", "--store", "apple", "--mandatory"]), &all);
    assert!(mandatory.iter().all(|d| d.store == Store::Apple && d.requirement.is_mandatory()));
    assert!(mandatory.len() <= apple.len());
    assert!(devices_listed(&args(&["devices", "--store", "nowhere"]), &all).is_empty());
    let opt = all.iter().filter(|d| d.requirement == Requirement::Optional).count();
    let rec = all.iter().filter(|d| d.requirement == Requirement::Recommended).count();
    assert_eq!(devices_listed(&args(&["devices", "--mandatory"]), &all).len(), all.len() - opt - rec);
}

#[test]
fn binding_listing_rejects_an_unknown_store() {
    let all = builtin();
    assert_eq!(devices_of(&all, None).unwrap().len(), all.len());
    let play = devices_of(&all, Some("android")).unwrap();
    assert!(play.iter().all(|d| d.store == Store::Play));
    match devices_of(&all, Some("mars")) {
        Err(SelectError::UnknownStore(s)) => assert_eq!(s, "mars"),
        other => panic!("unexpected {other:?}"),
    }
}

#[test]
fn seed_defaults_parses_and_rejects() {
    assert_eq!(seed_flag(&args(&["capture"])).unwrap(), 42);
    assert_eq!(seed_flag(&args(&["capture", "--seed", "7"])).unwrap(), 7);
    assert_eq!(seed_flag(&args(&["capture", "--seed=+9"])).unwrap(), 9);
    assert_eq!(
        seed_flag(&args(&["capture", "--seed", "18446744073709551615"])).unwrap(),
        u64::MAX
    );
    assert_eq!(
        seed_flag(&args(&["capture", "--seed", "18446744073709551616"])).unwrap_err(),
        "bad --seed: 18446744073709551616"
    );
    assert_eq!(seed_flag(&args(&["capture", "--seed", "-1"])).unwrap_err(), "bad --seed: -1");
    assert_eq!(seed_flag(&args(&["capture", "--seed"])).unwrap_err(), "bad --seed: true");
}
