use proofsheet::device::{builtin, by_id, for_store, validate_presets, Device, Platform, PresetFile, Requirement, Store};
use proofsheet::error::Error;

#[test]
fn requirement_display_honours_width_and_alignment() {
    let r = Requirement::Required;
    assert_eq!(format!("{}", r.as_str()), "required");
    assert_eq!(format!("{:<16}", r.as_str()), "required        ");
    assert_eq!(format!("{:>10}", r.as_str()), "  required");
    assert_eq!(format!("{:*^12}", r.as_str()), "**required**");
}

#[test]
fn padded_requirement_does_not_collide_with_next_column() {
    let line = format!("{:<16}{}", Requirement::Required.as_str(), "yes");
    assert!(!line.contains("requiredyes"), "columns collided: {line:?}");
    assert_eq!(line, "required        yes");
}

#[test]
fn builtin_presets_parse() {
    assert!(!builtin().is_empty());
}

#[test]
fn every_builtin_output_divides_evenly_by_scale() {
    for d in builtin() {
        assert_eq!(
            d.output_width % d.scale,
            0,
            "{}: width {} not divisible by {}",
            d.id,
            d.output_width,
            d.scale
        );
        assert_eq!(
            d.output_height % d.scale,
            0,
            "{}: height {} not divisible by {}",
            d.id,
            d.output_height,
            d.scale
        );
        let (vw, vh) = d.viewport();
        assert_eq!((vw * d.scale, vh * d.scale), d.output_size());
    }
}

#[test]
fn play_screenshots_respect_documented_bounds() {
    for d in builtin() {
        if d.store != Store::Play || d.id == "play-feature-graphic" {
            continue;
        }
        let lo = d.output_width.min(d.output_height);
        let hi = d.output_width.max(d.output_height);
        assert!(lo >= 320, "{}: min dimension {lo} below Play's 320", d.id);
        assert!(hi <= 3840, "{}: max dimension {hi} above Play's 3840", d.id);
        assert!(hi <= 2 * lo, "{}: {hi} exceeds twice {lo}; Play forbids this ratio", d.id);
    }
}

#[test]
fn store_presets_are_verified_and_sourced() {
    for d in builtin() {
        if d.store == Store::Web {
            continue;
        }
        assert!(d.verified, "{} targets a store but is not verified", d.id);
        assert!(d.source.starts_with("https://"), "{} has no source URL", d.id);
    }
}

#[test]
fn known_apple_sizes_are_present() {
    let b = builtin();
    for id in [
        "apple-iphone-6-9-1320",
        "apple-iphone-6-9-1290",
        "apple-ipad-13-2064",
        "apple-ipad-13-2048",
    ] {
        assert!(by_id(&b, id).is_some(), "missing required preset {id}");
    }
    let d = by_id(&b, "apple-iphone-6-9-1320").unwrap();
    assert_eq!(d.output_size(), (1320, 2868));
    assert_eq!(d.viewport(), (440, 956));
}

#[test]
fn play_feature_graphic_is_exact() {
    let d = by_id(&builtin(), "play-feature-graphic").unwrap();
    assert_eq!(d.output_size(), (1024, 500));
    assert_eq!(d.scale, 1);
}

fn preset(id: &str, w: u32, h: u32, scale: u32) -> Device {
    Device {
        id: id.to_string(),
        label: id.to_string(),
        output_width: w,
        output_height: h,
        scale,
        mobile: false,
        platform: Platform::default(),
        store: Store::default(),
        requirement: Requirement::Optional,
        verified: false,
        source: String::new(),
    }
}

fn file(version: u32, devices: Vec<Device>) -> PresetFile {
    PresetFile { version, note: String::new(), verified_on: String::new(), devices }
}

#[test]
fn indivisible_preset_is_rejected_with_a_useful_message() {
    let e = validate_presets(file(1, vec![preset("bad", 1001, 2000, 3)])).unwrap_err().message();
    assert!(e.contains("does not divide"), "unhelpful message: {e}");
}

#[test]
fn duplicate_ids_are_rejected() {
    assert!(validate_presets(file(1, vec![preset("a", 2, 2, 1), preset("a", 4, 4, 1)])).is_err());
}

#[test]
fn future_schema_version_is_rejected_clearly() {
    let e = validate_presets(file(99, vec![])).unwrap_err().message();
    assert!(e.contains("99"));
}

#[test]
fn phone_and_tablet_presets_emulate_a_touch_platform() {
    for d in builtin() {
        let p = d.platform;
        if d.id.contains("iphone") || d.id.starts_with("play-phone") {
            assert!(
                matches!(p, Platform::IosPhone | Platform::AndroidPhone),
                "{}: platform is {:?}, not a phone",
                d.id,
                p
            );
            assert!(p.user_agent().is_some(), "{}: no UA override", d.id);
            assert!(p.touch_points() > 0, "{}: reports no touch", d.id);
            assert!(p.ch_mobile(), "{}: Client Hints say not mobile", d.id);
        }
        if d.id.contains("ipad") {
            assert_eq!(p, Platform::IosTablet, "{}: not a tablet", d.id);
            assert!(p.user_agent().unwrap().contains("iPad"), "{}", d.id);
        }
    }
}

#[test]
fn desktop_platforms_report_no_touch() {
    assert_eq!(Platform::Macos.touch_points(), 0);
    assert_eq!(Platform::Web.touch_points(), 0);
    assert!(!Platform::Macos.ch_mobile());
}

#[test]
fn platforms_without_a_credible_ua_return_none() {
    assert!(Platform::Web.user_agent().is_none());
    assert!(Platform::Tv.user_agent().is_none());
}

#[test]
fn every_ua_names_its_platform() {
    for (p, needle) in [
        (Platform::IosPhone, "iPhone"),
        (Platform::IosTablet, "iPad"),
        (Platform::AndroidPhone, "Android"),
        (Platform::AndroidTablet, "Android"),
        (Platform::Macos, "Macintosh"),
    ] {
        assert!(p.user_agent().unwrap().contains(needle), "{p:?} UA does not mention {needle}");
    }
}

#[test]
fn store_filter_partitions_the_table() {
    let b = builtin();
    let n = for_store(&b, Store::Apple).len()
        + for_store(&b, Store::Play).len()
        + for_store(&b, Store::Web).len();
    assert_eq!(n, b.len());
}

#[test]
fn client_hint_platforms_and_touch_counts() {
    assert_eq!(Platform::IosPhone.ch_platform(), "iOS");
    assert_eq!(Platform::IosWatch.ch_platform(), "iOS");
    assert_eq!(Platform::AndroidTablet.ch_platform(), "Android");
    assert_eq!(Platform::Macos.ch_platform(), "macOS");
    assert_eq!(Platform::Tv.ch_platform(), "Linux");
    assert_eq!(Platform::IosWatch.touch_points(), 1);
    assert_eq!(Platform::AndroidPhone.touch_points(), 5);
    assert!(Platform::IosWatch.ch_mobile());
    assert!(!Platform::Tv.ch_mobile());
    assert!(Platform::IosWatch.user_agent().unwrap().contains("Apple Watch"));
}

#[test]
fn requirement_names_and_mandatory_flags() {
    assert_eq!(Requirement::RequiredIpad.as_str(), "required_ipad");
    assert_eq!(Requirement::RequiredVision.as_str(), "required_vision");
    assert!(Requirement::Conditional.is_mandatory());
    assert!(Requirement::RequiredWatch.is_mandatory());
    assert!(!Requirement::Optional.is_mandatory());
    assert!(!Requirement::Recommended.is_mandatory());
}

#[test]
fn each_validation_error_has_its_message() {
    let e = validate_presets(file(2, vec![])).unwrap_err().message();
    assert_eq!(e, "unexpected response shape: preset schema version 2 is not supported by this build");
    match validate_presets(file(1, vec![preset("z", 10, 10, 0)])) {
        Err(Error::Shape(m)) => assert_eq!(m, "device z: scale is zero"),
        other => panic!("unexpected {other:?}"),
    }
    match validate_presets(file(1, vec![preset("w", 0, 10, 1)])) {
        Err(Error::Shape(m)) => assert_eq!(m, "device w: zero output dimension"),
        other => panic!("unexpected {other:?}"),
    }
    match validate_presets(file(1, vec![preset("odd", 1001, 2000, 3)])) {
        Err(Error::Shape(m)) => assert_eq!(
            m,
            "device odd: output 1001x2000 does not divide by scale 3, so no integer viewport can produce it"
        ),
        other => panic!("unexpected {other:?}"),
    }
    match validate_presets(file(1, vec![preset("a", 2, 2, 1), preset("b", 2, 2, 1), preset("a", 3, 3, 1)])) {
        Err(Error::Shape(m)) => assert_eq!(m, "duplicate device id in preset file"),
        other => panic!("unexpected {other:?}"),
    }
    let ok = validate_presets(file(1, vec![preset("a", 6, 9, 3), preset("b", 2, 2, 1)])).unwrap();
    assert_eq!(ok.len(), 2);
    assert_eq!(ok[0].viewport(), (2, 3));
}

#[test]
fn first_invalid_preset_is_the_one_reported() {
    match validate_presets(file(1, vec![preset("ok", 2, 2, 1), preset("bad1", 0, 2, 1), preset("bad2", 2, 2, 0)])) {
        Err(Error::Shape(m)) => assert_eq!(m, "device bad1: zero output dimension"),
        other => panic!("unexpected {other:?}"),
    }
}

#[test]
fn lookup_by_id_and_store() {
    let b = builtin();
    assert!(by_id(&b, "no-such-device").is_none());
    let apple = for_store(&b, Store::Apple);
    assert!(!apple.is_empty());
    assert!(apple.iter().all(|d| d.store == Store::Apple));
    assert_eq!(b.len(), 46);
}

#[test]
fn requirement_labels_match_their_serde_names() {
    for (r, name) in [
        (Requirement::Required, "required"),
        (Requirement::Conditional, "conditional"),
        (Requirement::Recommended, "recommended"),
        (Requirement::Optional, "optional"),
        (Requirement::RequiredIpad, "required_ipad"),
        (Requirement::RequiredMac, "required_mac"),
        (Requirement::RequiredTv, "required_tv"),
        (Requirement::RequiredVision, "required_vision"),
        (Requirement::RequiredWatch, "required_watch"),
    ] {
        assert_eq!(format!("\"{}\"", r.as_str()), format!("\"{name}\""));
    }
}

#[test]
fn the_first_builtin_rows_are_the_flagship_sizes() {
    let b = builtin();
    assert_eq!(b[0].id, "apple-iphone-6-9-1320");
    assert_eq!((b[0].output_width, b[0].output_height, b[0].scale), (1320, 2868, 3));
    assert_eq!(b[0].platform, Platform::IosPhone);
    assert_eq!(b[0].store, Store::Apple);
    assert_eq!(b[0].requirement, Requirement::Required);
    let ipad = by_id(&b, "apple-ipad-13-2064").unwrap();
    assert_eq!(ipad.platform, Platform::IosTablet);
}
