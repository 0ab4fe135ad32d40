//! The compiled-in device table.
//!
//! Every store size was read from the store's own documentation; each entry
//! names the page it came from.

use vstd::prelude::*;
use crate::device::{
    Device, DeviceView, Platform, Store, Requirement, device_valid, touch_points_spec,
    user_agent_spec, views, has_duplicate_ids, presets_check, lemma_first_device_error,
};
use crate::text::{owned, starts_with};

verus! {

/// App Store Connect Help, "Screenshot specifications".
pub const APPLE_DOC: &'static str = "https://developer.apple.com/help/app-store-connect/reference/screenshot-specifications/";

/// Play Console Help, "Add preview assets to showcase your app".
pub const PLAY_DOC: &'static str = "https://support.google.com/googleplay/android-developer/answer/9866151";

/// A preset that claims a store requirement is verified and cites an
/// `https://` source.
pub open spec fn store_sourced(d: DeviceView) -> bool {
    d.store != Store::Web ==> d.verified && starts_with(d.source, "https://"@)
}

/// Google Play screenshots (the feature graphic aside) are between 320 and
/// 3840 pixels on each side, and the long side is at most twice the short.
pub open spec fn within_play_bounds(d: DeviceView) -> bool {
    let lo = if d.output_width <= d.output_height {
        d.output_width
    } else {
        d.output_height
    };
    let hi = if d.output_width <= d.output_height {
        d.output_height
    } else {
        d.output_width
    };
    d.store == Store::Play && d.id != "play-feature-graphic"@ ==> lo >= 320 && hi <= 3840 && hi
        <= 2 * lo
}

/// A preset with a mobile viewport names a platform that has a User-Agent
/// and touch points, so its capture plan overrides both
/// (`capture::platform_commands`).
pub open spec fn mobile_emulated(d: DeviceView) -> bool {
    d.mobile ==> touch_points_spec(d.platform) > 0 && user_agent_spec(d.platform) is Some
}

/// What every row of the built-in table satisfies.
pub open spec fn builtin_row_ok(d: DeviceView) -> bool {
    &&& device_valid(d)
    &&& store_sourced(d)
    &&& within_play_bounds(d)
    &&& mobile_emulated(d)
}

fn preset(
    id: &str,
    label: &str,
    output_width: u32,
    output_height: u32,
    scale: u32,
    mobile: bool,
    platform: Platform,
    store: Store,
    requirement: Requirement,
    verified: bool,
    source: &str,
) -> (d: Device)
    ensures
        d@ == (DeviceView {
            id: id@,
            label: label@,
            output_width,
            output_height,
            scale,
            mobile,
            platform,
            store,
            requirement,
            verified,
            source: source@,
        }),
{
    Device {
        id: owned(id),
        label: owned(label),
        output_width,
        output_height,
        scale,
        mobile,
        platform,
        store,
        requirement,
        verified,
        source: owned(source),
    }
}

/// Whether every row of a table satisfies what the built-in table promises.
pub open spec fn rows_ok(ds: Seq<DeviceView>) -> bool {
    forall|i: int| 0 <= i < ds.len() ==> builtin_row_ok(#[trigger] ds[i])
}

/// A few characters that tell the built-in ids apart: the length and the
/// characters one, two, three and eight from the end.
pub open spec fn id_key(s: Seq<char>) -> (nat, char, char, char, char) {
    (s.len(), s[s.len() - 1], s[s.len() - 2], s[s.len() - 3], s[s.len() - 8])
}

fn add_row(v: &mut Vec<Device>, d: Device)
    requires
        rows_ok(views(old(v)@)),
        builtin_row_ok(d@),
        !has_duplicate_ids(views(old(v)@)),
        forall|i: int| 0 <= i < old(v)@.len() ==> id_key((#[trigger] views(old(v)@)[i]).id) != id_key(d@.id),
    ensures
        rows_ok(views(final(v)@)),
        !has_duplicate_ids(views(final(v)@)),
        views(final(v)@) == views(old(v)@).push(d@),
        final(v)@.len() == old(v)@.len() + 1,
{
    let ghost before = views(v@);
    let ghost dv = d@;
    v.push(d);
    assert(views(v@) == before.push(dv));
    assert forall|i: int| 0 <= i < before.len() implies before[i].id != dv.id by {
        assert(id_key(before[i].id) != id_key(dv.id));
    }
    assert forall|i: int, j: int| 0 <= i < j < views(v@).len() implies #[trigger] views(v@)[i].id
        != #[trigger] views(v@)[j].id by {
        if j < before.len() {
            assert(views(v@)[i] == before[i] && views(v@)[j] == before[j]);
        } else {
            assert(views(v@)[i] == before[i]);
        }
    }
}

/// The rows of the built-in table, in order.
pub open spec fn builtin_table() -> Seq<DeviceView> {
    seq![
        DeviceView {
            id: "apple-iphone-6-9-1320"@,
            label: "iPhone 6.9-inch 1320x2868"@,
            output_width: 1320,
            output_height: 2868,
            scale: 3,
            mobile: true,
            platform: Platform::IosPhone,
            store: Store::Apple,
            requirement: Requirement::Required,
            verified: true,
            source: APPLE_DOC@,
        },
        DeviceView {
            id: "apple-iphone-6-9-1290"@,
            label: "iPhone 6.9-inch 1290x2796"@,
            output_width: 1290,
            output_height: 2796,
            scale: 3,
            mobile: true,
            platform: Platform::IosPhone,
            store: Store::Apple,
            requirement: Requirement::Required,
            verified: true,
            source: APPLE_DOC@,
        },
        DeviceView {
            id: "apple-iphone-6-9-1260"@,
            label: "iPhone 6.9-inch 1260x2736"@,
            output_width: 1260,
            output_height: 2736,
            scale: 3,
            mobile: true,
            platform: Platform::IosPhone,
            store: Store::Apple,
            requirement: Requirement::Required,
            verified: true,
            source: APPLE_DOC@,
        },
        DeviceView {
            id: "apple-iphone-6-5-1284"@,
            label: "iPhone 6.5-inch 1284x2778"@,
            output_width: 1284,
            output_height: 2778,
            scale: 3,
            mobile: true,
            platform: Platform::IosPhone,
            store: Store::Apple,
            requirement: Requirement::Conditional,
            verified: true,
            source: APPLE_DOC@,
        },
        DeviceView {
            id: "apple-iphone-6-5-1242"@,
            label: "iPhone 6.5-inch 1242x2688"@,
            output_width: 1242,
            output_height: 2688,
            scale: 3,
            mobile: true,
            platform: Platform::IosPhone,
            store: Store::Apple,
            requirement: Requirement::Conditional,
            verified: true,
            source: APPLE_DOC@,
        },
        DeviceView {
            id: "apple-iphone-6-3-1206"@,
            label: "iPhone 6.3-inch 1206x2622"@,
            output_width: 1206,
            output_height: 2622,
            scale: 3,
            mobile: true,
            platform: Platform::IosPhone,
            store: Store::Apple,
            requirement: Requirement::Optional,
            verified: true,
            source: APPLE_DOC@,
        },
        DeviceView {
            id: "apple-iphone-6-3-1179"@,
            label: "iPhone 6.3-inch 1179x2556"@,
            output_width: 1179,
            output_height: 2556,
            scale: 3,
            mobile: true,
            platform: Platform::IosPhone,
            store: Store::Apple,
            requirement: Requirement::Optional,
            verified: true,
            source: APPLE_DOC@,
        },
        DeviceView {
            id: "apple-iphone-6-1-1170"@,
            label: "iPhone 6.1-inch 1170x2532"@,
            output_width: 1170,
            output_height: 2532,
            scale: 3,
            mobile: true,
            platform: Platform::IosPhone,
            store: Store::Apple,
            requirement: Requirement::Optional,
            verified: true,
            source: APPLE_DOC@,
        },
        DeviceView {
            id: "apple-iphone-6-1-1125"@,
            label: "iPhone 6.1-inch 1125x2436"@,
            output_width: 1125,
            output_height: 2436,
            scale: 3,
            mobile: true,
            platform: Platform::IosPhone,
            store: Store::Apple,
            requirement: Requirement::Optional,
            verified: true,
            source: APPLE_DOC@,
        },
        DeviceView {
            id: "apple-iphone-6-1-1080"@,
            label: "iPhone 6.1-inch 1080x2340"@,
            output_width: 1080,
            output_height: 2340,
            scale: 3,
            mobile: true,
            platform: Platform::IosPhone,
            store: Store::Apple,
            requirement: Requirement::Optional,
            verified: true,
            source: APPLE_DOC@,
        },
        DeviceView {
            id: "apple-iphone-5-5-1242"@,
            label: "iPhone 5.5-inch 1242x2208"@,
            output_width: 1242,
            output_height: 2208,
            scale: 3,
            mobile: true,
            platform: Platform::IosPhone,
            store: Store::Apple,
            requirement: Requirement::Optional,
            verified: true,
            source: APPLE_DOC@,
        },
        DeviceView {
            id: "apple-iphone-4-7-750"@,
            label: "iPhone 4.7-inch 750x1334"@,
            output_width: 750,
            output_height: 1334,
            scale: 2,
            mobile: true,
            platform: Platform::IosPhone,
            store: Store::Apple,
            requirement: Requirement::Optional,
            verified: true,
            source: APPLE_DOC@,
        },
        DeviceView {
            id: "apple-ipad-13-2064"@,
            label: "iPad 13-inch 2064x2752"@,
            output_width: 2064,
            output_height: 2752,
            scale: 2,
            mobile: true,
            platform: Platform::IosTablet,
            store: Store::Apple,
            requirement: Requirement::RequiredIpad,
            verified: true,
            source: APPLE_DOC@,
        },
        DeviceView {
            id: "apple-ipad-13-2048"@,
            label: "iPad 13-inch 2048x2732"@,
            output_width: 2048,
            output_height: 2732,
            scale: 2,
            mobile: true,
            platform: Platform::IosTablet,
            store: Store::Apple,
            requirement: Requirement::RequiredIpad,
            verified: true,
            source: APPLE_DOC@,
        },
        DeviceView {
            id: "apple-ipad-11-1668-2420"@,
            label: "iPad 11-inch 1668x2420"@,
            output_width: 1668,
            output_height: 2420,
            scale: 2,
            mobile: true,
            platform: Platform::IosTablet,
            store: Store::Apple,
            requirement: Requirement::Optional,
            verified: true,
            source: APPLE_DOC@,
        },
        DeviceView {
            id: "apple-ipad-11-1668-2388"@,
            label: "iPad 11-inch 1668x2388"@,
            output_width: 1668,
            output_height: 2388,
            scale: 2,
            mobile: true,
            platform: Platform::IosTablet,
            store: Store::Apple,
            requirement: Requirement::Optional,
            verified: true,
            source: APPLE_DOC@,
        },
        DeviceView {
            id: "apple-ipad-11-1640"@,
            label: "iPad 11-inch 1640x2360"@,
            output_width: 1640,
            output_height: 2360,
            scale: 2,
            mobile: true,
            platform: Platform::IosTablet,
            store: Store::Apple,
            requirement: Requirement::Optional,
            verified: true,
            source: APPLE_DOC@,
        },
        DeviceView {
            id: "apple-ipad-11-1488"@,
            label: "iPad 11-inch 1488x2266"@,
            output_width: 1488,
            output_height: 2266,
            scale: 2,
            mobile: true,
            platform: Platform::IosTablet,
            store: Store::Apple,
            requirement: Requirement::Optional,
            verified: true,
            source: APPLE_DOC@,
        },
        DeviceView {
            id: "apple-ipad-10-5-1668"@,
            label: "iPad 10.5-inch 1668x2224"@,
            output_width: 1668,
            output_height: 2224,
            scale: 2,
            mobile: true,
            platform: Platform::IosTablet,
            store: Store::Apple,
            requirement: Requirement::Optional,
            verified: true,
            source: APPLE_DOC@,
        },
        DeviceView {
            id: "apple-ipad-9-7-1536"@,
            label: "iPad 9.7-inch 1536x2048"@,
            output_width: 1536,
            output_height: 2048,
            scale: 2,
            mobile: true,
            platform: Platform::IosTablet,
            store: Store::Apple,
            requirement: Requirement::Optional,
            verified: true,
            source: APPLE_DOC@,
        },
        DeviceView {
            id: "apple-mac-2880"@,
            label: "Mac 2880x1800"@,
            output_width: 2880,
            output_height: 1800,
            scale: 2,
            mobile: false,
            platform: Platform::Macos,
            store: Store::Apple,
            requirement: Requirement::RequiredMac,
            verified: true,
            source: APPLE_DOC@,
        },
        DeviceView {
            id: "apple-mac-2560"@,
            label: "Mac 2560x1600"@,
            output_width: 2560,
            output_height: 1600,
            scale: 2,
            mobile: false,
            platform: Platform::Macos,
            store: Store::Apple,
            requirement: Requirement::RequiredMac,
            verified: true,
            source: APPLE_DOC@,
        },
        DeviceView {
            id: "apple-mac-1440"@,
            label: "Mac 1440x900"@,
            output_width: 1440,
            output_height: 900,
            scale: 1,
            mobile: false,
            platform: Platform::Macos,
            store: Store::Apple,
            requirement: Requirement::RequiredMac,
            verified: true,
            source: APPLE_DOC@,
        },
        DeviceView {
            id: "apple-mac-1280"@,
            label: "Mac 1280x800"@,
            output_width: 1280,
            output_height: 800,
            scale: 1,
            mobile: false,
            platform: Platform::Macos,
            store: Store::Apple,
            requirement: Requirement::RequiredMac,
            verified: true,
            source: APPLE_DOC@,
        },
        DeviceView {
            id: "apple-tv-3840"@,
            label: "Apple TV 3840x2160"@,
            output_width: 3840,
            output_height: 2160,
            scale: 2,
            mobile: false,
            platform: Platform::Tv,
            store: Store::Apple,
            requirement: Requirement::RequiredTv,
            verified: true,
            source: APPLE_DOC@,
        },
        DeviceView {
            id: "apple-tv-1920"@,
            label: "Apple TV 1920x1080"@,
            output_width: 1920,
            output_height: 1080,
            scale: 1,
            mobile: false,
            platform: Platform::Tv,
            store: Store::Apple,
            requirement: Requirement::RequiredTv,
            verified: true,
            source: APPLE_DOC@,
        },
        DeviceView {
            id: "apple-vision-pro-3840"@,
            label: "Apple Vision Pro 3840x2160"@,
            output_width: 3840,
            output_height: 2160,
            scale: 2,
            mobile: false,
            platform: Platform::Web,
            store: Store::Apple,
            requirement: Requirement::RequiredVision,
            verified: true,
            source: APPLE_DOC@,
        },
        DeviceView {
            id: "apple-watch-ultra-3-422"@,
            label: "Apple Watch Ultra 3 422x514"@,
            output_width: 422,
            output_height: 514,
            scale: 2,
            mobile: true,
            platform: Platform::IosWatch,
            store: Store::Apple,
            requirement: Requirement::RequiredWatch,
            verified: true,
            source: APPLE_DOC@,
        },
        DeviceView {
            id: "apple-watch-ultra-410"@,
            label: "Apple Watch Ultra 410x502"@,
            output_width: 410,
            output_height: 502,
            scale: 2,
            mobile: true,
            platform: Platform::IosWatch,
            store: Store::Apple,
            requirement: Requirement::RequiredWatch,
            verified: true,
            source: APPLE_DOC@,
        },
        DeviceView {
            id: "apple-watch-series-11-416"@,
            label: "Apple Watch Series 11 416x496"@,
            output_width: 416,
            output_height: 496,
            scale: 2,
            mobile: true,
            platform: Platform::IosWatch,
            store: Store::Apple,
            requirement: Requirement::RequiredWatch,
            verified: true,
            source: APPLE_DOC@,
        },
        DeviceView {
            id: "apple-watch-series-9-396"@,
            label: "Apple Watch Series 9 396x484"@,
            output_width: 396,
            output_height: 484,
            scale: 2,
            mobile: true,
            platform: Platform::IosWatch,
            store: Store::Apple,
            requirement: Requirement::RequiredWatch,
            verified: true,
            source: APPLE_DOC@,
        },
        DeviceView {
            id: "apple-watch-series-6-368"@,
            label: "Apple Watch Series 6 368x448"@,
            output_width: 368,
            output_height: 448,
            scale: 2,
            mobile: true,
            platform: Platform::IosWatch,
            store: Store::Apple,
            requirement: Requirement::RequiredWatch,
            verified: true,
            source: APPLE_DOC@,
        },
        DeviceView {
            id: "apple-watch-series-3-312"@,
            label: "Apple Watch Series 3 312x390"@,
            output_width: 312,
            output_height: 390,
            scale: 2,
            mobile: true,
            platform: Platform::IosWatch,
            store: Store::Apple,
            requirement: Requirement::RequiredWatch,
            verified: true,
            source: APPLE_DOC@,
        },
        DeviceView {
            id: "play-feature-graphic"@,
            label: "Google Play feature graphic 1024x500"@,
            output_width: 1024,
            output_height: 500,
            scale: 1,
            mobile: false,
            platform: Platform::Web,
            store: Store::Play,
            requirement: Requirement::Required,
            verified: true,
            source: PLAY_DOC@,
        },
        DeviceView {
            id: "play-phone-1080"@,
            label: "Android phone 1080x1920"@,
            output_width: 1080,
            output_height: 1920,
            scale: 3,
            mobile: true,
            platform: Platform::AndroidPhone,
            store: Store::Play,
            requirement: Requirement::Required,
            verified: true,
            source: PLAY_DOC@,
        },
        DeviceView {
            id: "play-phone-1440"@,
            label: "Android phone 1440x2560"@,
            output_width: 1440,
            output_height: 2560,
            scale: 4,
            mobile: true,
            platform: Platform::AndroidPhone,
            store: Store::Play,
            requirement: Requirement::Optional,
            verified: true,
            source: PLAY_DOC@,
        },
        DeviceView {
            id: "play-tablet-7-1200"@,
            label: "Android 7-inch tablet 1200x1920"@,
            output_width: 1200,
            output_height: 1920,
            scale: 2,
            mobile: true,
            platform: Platform::AndroidTablet,
            store: Store::Play,
            requirement: Requirement::Recommended,
            verified: true,
            source: PLAY_DOC@,
        },
        DeviceView {
            id: "play-tablet-10-1600"@,
            label: "Android 10-inch tablet 1600x2560"@,
            output_width: 1600,
            output_height: 2560,
            scale: 2,
            mobile: true,
            platform: Platform::AndroidTablet,
            store: Store::Play,
            requirement: Requirement::Recommended,
            verified: true,
            source: PLAY_DOC@,
        },
        DeviceView {
            id: "play-wear-os-384"@,
            label: "Wear OS 384x384"@,
            output_width: 384,
            output_height: 384,
            scale: 1,
            mobile: true,
            platform: Platform::AndroidPhone,
            store: Store::Play,
            requirement: Requirement::Optional,
            verified: true,
            source: PLAY_DOC@,
        },
        DeviceView {
            id: "play-automotive-1024"@,
            label: "Android Automotive 1024x768"@,
            output_width: 1024,
            output_height: 768,
            scale: 1,
            mobile: false,
            platform: Platform::Web,
            store: Store::Play,
            requirement: Requirement::Optional,
            verified: true,
            source: PLAY_DOC@,
        },
        DeviceView {
            id: "play-tv-banner"@,
            label: "Android TV banner 1280x720"@,
            output_width: 1280,
            output_height: 720,
            scale: 1,
            mobile: false,
            platform: Platform::Tv,
            store: Store::Play,
            requirement: Requirement::Optional,
            verified: true,
            source: PLAY_DOC@,
        },
        DeviceView {
            id: "play-tv-1920"@,
            label: "Android TV 1920x1080"@,
            output_width: 1920,
            output_height: 1080,
            scale: 1,
            mobile: false,
            platform: Platform::Tv,
            store: Store::Play,
            requirement: Requirement::Optional,
            verified: true,
            source: PLAY_DOC@,
        },
        DeviceView {
            id: "web-desktop-1920"@,
            label: "Desktop 1920x1080"@,
            output_width: 1920,
            output_height: 1080,
            scale: 1,
            mobile: false,
            platform: Platform::Web,
            store: Store::Web,
            requirement: Requirement::Optional,
            verified: false,
            source: ""@,
        },
        DeviceView {
            id: "web-desktop-1440"@,
            label: "Desktop 1440x900"@,
            output_width: 1440,
            output_height: 900,
            scale: 1,
            mobile: false,
            platform: Platform::Web,
            store: Store::Web,
            requirement: Requirement::Optional,
            verified: false,
            source: ""@,
        },
        DeviceView {
            id: "web-mobile-390"@,
            label: "Mobile web 390x844"@,
            output_width: 1170,
            output_height: 2532,
            scale: 3,
            mobile: true,
            platform: Platform::IosPhone,
            store: Store::Web,
            requirement: Requirement::Optional,
            verified: false,
            source: ""@,
        },
        DeviceView {
            id: "web-mobile-360"@,
            label: "Mobile web 360x780"@,
            output_width: 1080,
            output_height: 2340,
            scale: 3,
            mobile: true,
            platform: Platform::AndroidPhone,
            store: Store::Web,
            requirement: Requirement::Optional,
            verified: false,
            source: ""@,
        },
    ]
}

/// The compiled-in fallback table.
#[verifier::rlimit(100)]
pub fn builtin() -> (r: Vec<Device>)
    ensures
        views(r@) == builtin_table(),
        r@.len() == 46,
        rows_ok(views(r@)),
        !has_duplicate_ids(views(r@)),
        presets_check(1, views(r@)) == Ok::<(), Seq<char>>(()),
{
    proof {
        reveal_strlit("https://");
        reveal_strlit("https://developer.apple.com/help/app-store-connect/reference/screenshot-specifications/");
        reveal_strlit("https://support.google.com/googleplay/android-developer/answer/9866151");
        let apple = "https://developer.apple.com/help/app-store-connect/reference/screenshot-specifications/"@;
        let play = "https://support.google.com/googleplay/android-developer/answer/9866151"@;
        assert(apple.take(8) =~= "https://"@);
        assert(play.take(8) =~= "https://"@);
        assert(starts_with(apple, "https://"@));
        assert(starts_with(play, "https://"@));
        reveal_strlit("apple-iphone-6-9-1320");
        reveal_strlit("apple-iphone-6-9-1290");
        reveal_strlit("apple-iphone-6-9-1260");
        reveal_strlit("apple-iphone-6-5-1284");
        reveal_strlit("apple-iphone-6-5-1242");
        reveal_strlit("apple-iphone-6-3-1206");
        reveal_strlit("apple-iphone-6-3-1179");
        reveal_strlit("apple-iphone-6-1-1170");
        reveal_strlit("apple-iphone-6-1-1125");
        reveal_strlit("apple-iphone-6-1-1080");
        reveal_strlit("apple-iphone-5-5-1242");
        reveal_strlit("apple-iphone-4-7-750");
        reveal_strlit("apple-ipad-13-2064");
        reveal_strlit("apple-ipad-13-2048");
        reveal_strlit("apple-ipad-11-1668-2420");
        reveal_strlit("apple-ipad-11-1668-2388");
        reveal_strlit("apple-ipad-11-1640");
        reveal_strlit("apple-ipad-11-1488");
        reveal_strlit("apple-ipad-10-5-1668");
        reveal_strlit("apple-ipad-9-7-1536");
        reveal_strlit("apple-mac-2880");
        reveal_strlit("apple-mac-2560");
        reveal_strlit("apple-mac-1440");
        reveal_strlit("apple-mac-1280");
        reveal_strlit("apple-tv-3840");
        reveal_strlit("apple-tv-1920");
        reveal_strlit("apple-vision-pro-3840");
        reveal_strlit("apple-watch-ultra-3-422");
        reveal_strlit("apple-watch-ultra-410");
        reveal_strlit("apple-watch-series-11-416");
        reveal_strlit("apple-watch-series-9-396");
        reveal_strlit("apple-watch-series-6-368");
        reveal_strlit("apple-watch-series-3-312");
        reveal_strlit("play-feature-graphic");
        reveal_strlit("play-phone-1080");
        reveal_strlit("play-phone-1440");
        reveal_strlit("play-tablet-7-1200");
        reveal_strlit("play-tablet-10-1600");
        reveal_strlit("play-wear-os-384");
        reveal_strlit("play-automotive-1024");
        reveal_strlit("play-tv-banner");
        reveal_strlit("play-tv-1920");
        reveal_strlit("web-desktop-1920");
        reveal_strlit("web-desktop-1440");
        reveal_strlit("web-mobile-390");
        reveal_strlit("web-mobile-360");
    }
    let mut v: Vec<Device> = Vec::new();
    assert(views(v@) == Seq::<DeviceView>::empty());
    assert(!has_duplicate_ids(views(v@)));
    add_row(&mut v, preset(
        "apple-iphone-6-9-1320",
        "iPhone 6.9-inch 1320x2868",
        1320,
        2868,
        3,
        true,
        Platform::IosPhone,
        Store::Apple,
        Requirement::Required,
        true,
        "https://developer.apple.com/help/app-store-connect/reference/screenshot-specifications/",
    ));
    add_row(&mut v, preset(
        "apple-iphone-6-9-1290",
        "iPhone 6.9-inch 1290x2796",
        1290,
        2796,
        3,
        true,
        Platform::IosPhone,
        Store::Apple,
        Requirement::Required,
        true,
        "https://developer.apple.com/help/app-store-connect/reference/screenshot-specifications/",
    ));
    add_row(&mut v, preset(
        "apple-iphone-6-9-1260",
        "iPhone 6.9-inch 1260x2736",
        1260,
        2736,
        3,
        true,
        Platform::IosPhone,
        Store::Apple,
        Requirement::Required,
        true,
        "https://developer.apple.com/help/app-store-connect/reference/screenshot-specifications/",
    ));
    add_row(&mut v, preset(
        "apple-iphone-6-5-1284",
        "iPhone 6.5-inch 1284x2778",
        1284,
        2778,
        3,
        true,
        Platform::IosPhone,
        Store::Apple,
        Requirement::Conditional,
        true,
        "https://developer.apple.com/help/app-store-connect/reference/screenshot-specifications/",
    ));
    add_row(&mut v, preset(
        "apple-iphone-6-5-1242",
        "iPhone 6.5-inch 1242x2688",
        1242,
        2688,
        3,
        true,
        Platform::IosPhone,
        Store::Apple,
        Requirement::Conditional,
        true,
        "https://developer.apple.com/help/app-store-connect/reference/screenshot-specifications/",
    ));
    add_row(&mut v, preset(
        "apple-iphone-6-3-1206",
        "iPhone 6.3-inch 1206x2622",
        1206,
        2622,
        3,
        true,
        Platform::IosPhone,
        Store::Apple,
        Requirement::Optional,
        true,
        "https://developer.apple.com/help/app-store-connect/reference/screenshot-specifications/",
    ));
    add_row(&mut v, preset(
        "apple-iphone-6-3-1179",
        "iPhone 6.3-inch 1179x2556",
        1179,
        2556,
        3,
        true,
        Platform::IosPhone,
        Store::Apple,
        Requirement::Optional,
        true,
        "https://developer.apple.com/help/app-store-connect/reference/screenshot-specifications/",
    ));
    add_row(&mut v, preset(
        "apple-iphone-6-1-1170",
        "iPhone 6.1-inch 1170x2532",
        1170,
        2532,
        3,
        true,
        Platform::IosPhone,
        Store::Apple,
        Requirement::Optional,
        true,
        "https://developer.apple.com/help/app-store-connect/reference/screenshot-specifications/",
    ));
    add_row(&mut v, preset(
        "apple-iphone-6-1-1125",
        "iPhone 6.1-inch 1125x2436",
        1125,
        2436,
        3,
        true,
        Platform::IosPhone,
        Store::Apple,
        Requirement::Optional,
        true,
        "https://developer.apple.com/help/app-store-connect/reference/screenshot-specifications/",
    ));
    add_row(&mut v, preset(
        "apple-iphone-6-1-1080",
        "iPhone 6.1-inch 1080x2340",
        1080,
        2340,
        3,
        true,
        Platform::IosPhone,
        Store::Apple,
        Requirement::Optional,
        true,
        "https://developer.apple.com/help/app-store-connect/reference/screenshot-specifications/",
    ));
    add_row(&mut v, preset(
        "apple-iphone-5-5-1242",
        "iPhone 5.5-inch 1242x2208",
        1242,
        2208,
        3,
        true,
        Platform::IosPhone,
        Store::Apple,
        Requirement::Optional,
        true,
        "https://developer.apple.com/help/app-store-connect/reference/screenshot-specifications/",
    ));
    add_row(&mut v, preset(
        "apple-iphone-4-7-750",
        "iPhone 4.7-inch 750x1334",
        750,
        1334,
        2,
        true,
        Platform::IosPhone,
        Store::Apple,
        Requirement::Optional,
        true,
        "https://developer.apple.com/help/app-store-connect/reference/screenshot-specifications/",
    ));
    add_row(&mut v, preset(
        "apple-ipad-13-2064",
        "iPad 13-inch 2064x2752",
        2064,
        2752,
        2,
        true,
        Platform::IosTablet,
        Store::Apple,
        Requirement::RequiredIpad,
        true,
        "https://developer.apple.com/help/app-store-connect/reference/screenshot-specifications/",
    ));
    add_row(&mut v, preset(
        "apple-ipad-13-2048",
        "iPad 13-inch 2048x2732",
        2048,
        2732,
        2,
        true,
        Platform::IosTablet,
        Store::Apple,
        Requirement::RequiredIpad,
        true,
        "https://developer.apple.com/help/app-store-connect/reference/screenshot-specifications/",
    ));
    add_row(&mut v, preset(
        "apple-ipad-11-1668-2420",
        "iPad 11-inch 1668x2420",
        1668,
        2420,
        2,
        true,
        Platform::IosTablet,
        Store::Apple,
        Requirement::Optional,
        true,
        "https://developer.apple.com/help/app-store-connect/reference/screenshot-specifications/",
    ));
    add_row(&mut v, preset(
        "apple-ipad-11-1668-2388",
        "iPad 11-inch 1668x2388",
        1668,
        2388,
        2,
        true,
        Platform::IosTablet,
        Store::Apple,
        Requirement::Optional,
        true,
        "https://developer.apple.com/help/app-store-connect/reference/screenshot-specifications/",
    ));
    add_row(&mut v, preset(
        "apple-ipad-11-1640",
        "iPad 11-inch 1640x2360",
        1640,
        2360,
        2,
        true,
        Platform::IosTablet,
        Store::Apple,
        Requirement::Optional,
        true,
        "https://developer.apple.com/help/app-store-connect/reference/screenshot-specifications/",
    ));
    add_row(&mut v, preset(
        "apple-ipad-11-1488",
        "iPad 11-inch 1488x2266",
        1488,
        2266,
        2,
        true,
        Platform::IosTablet,
        Store::Apple,
        Requirement::Optional,
        true,
        "https://developer.apple.com/help/app-store-connect/reference/screenshot-specifications/",
    ));
    add_row(&mut v, preset(
        "apple-ipad-10-5-1668",
        "iPad 10.5-inch 1668x2224",
        1668,
        2224,
        2,
        true,
        Platform::IosTablet,
        Store::Apple,
        Requirement::Optional,
        true,
        "https://developer.apple.com/help/app-store-connect/reference/screenshot-specifications/",
    ));
    add_row(&mut v, preset(
        "apple-ipad-9-7-1536",
        "iPad 9.7-inch 1536x2048",
        1536,
        2048,
        2,
        true,
        Platform::IosTablet,
        Store::Apple,
        Requirement::Optional,
        true,
        "https://developer.apple.com/help/app-store-connect/reference/screenshot-specifications/",
    ));
    add_row(&mut v, preset(
        "apple-mac-2880",
        "Mac 2880x1800",
        2880,
        1800,
        2,
        false,
        Platform::Macos,
        Store::Apple,
        Requirement::RequiredMac,
        true,
        "https://developer.apple.com/help/app-store-connect/reference/screenshot-specifications/",
    ));
    add_row(&mut v, preset(
        "apple-mac-2560",
        "Mac 2560x1600",
        2560,
        1600,
        2,
        false,
        Platform::Macos,
        Store::Apple,
        Requirement::RequiredMac,
        true,
        "https://developer.apple.com/help/app-store-connect/reference/screenshot-specifications/",
    ));
    add_row(&mut v, preset(
        "apple-mac-1440",
        "Mac 1440x900",
        1440,
        900,
        1,
        false,
        Platform::Macos,
        Store::Apple,
        Requirement::RequiredMac,
        true,
        "https://developer.apple.com/help/app-store-connect/reference/screenshot-specifications/",
    ));
    add_row(&mut v, preset(
        "apple-mac-1280",
        "Mac 1280x800",
        1280,
        800,
        1,
        false,
        Platform::Macos,
        Store::Apple,
        Requirement::RequiredMac,
        true,
        "https://developer.apple.com/help/app-store-connect/reference/screenshot-specifications/",
    ));
    add_row(&mut v, preset(
        "apple-tv-3840",
        "Apple TV 3840x2160",
        3840,
        2160,
        2,
        false,
        Platform::Tv,
        Store::Apple,
        Requirement::RequiredTv,
        true,
        "https://developer.apple.com/help/app-store-connect/reference/screenshot-specifications/",
    ));
    add_row(&mut v, preset(
        "apple-tv-1920",
        "Apple TV 1920x1080",
        1920,
        1080,
        1,
        false,
        Platform::Tv,
        Store::Apple,
        Requirement::RequiredTv,
        true,
        "https://developer.apple.com/help/app-store-connect/reference/screenshot-specifications/",
    ));
    add_row(&mut v, preset(
        "apple-vision-pro-3840",
        "Apple Vision Pro 3840x2160",
        3840,
        2160,
        2,
        false,
        Platform::Web,
        Store::Apple,
        Requirement::RequiredVision,
        true,
        "https://developer.apple.com/help/app-store-connect/reference/screenshot-specifications/",
    ));
    add_row(&mut v, preset(
        "apple-watch-ultra-3-422",
        "Apple Watch Ultra 3 422x514",
        422,
        514,
        2,
        true,
        Platform::IosWatch,
        Store::Apple,
        Requirement::RequiredWatch,
        true,
        "https://developer.apple.com/help/app-store-connect/reference/screenshot-specifications/",
    ));
    add_row(&mut v, preset(
        "apple-watch-ultra-410",
        "Apple Watch Ultra 410x502",
        410,
        502,
        2,
        true,
        Platform::IosWatch,
        Store::Apple,
        Requirement::RequiredWatch,
        true,
        "https://developer.apple.com/help/app-store-connect/reference/screenshot-specifications/",
    ));
    add_row(&mut v, preset(
        "apple-watch-series-11-416",
        "Apple Watch Series 11 416x496",
        416,
        496,
        2,
        true,
        Platform::IosWatch,
        Store::Apple,
        Requirement::RequiredWatch,
        true,
        "https://developer.apple.com/help/app-store-connect/reference/screenshot-specifications/",
    ));
    add_row(&mut v, preset(
        "apple-watch-series-9-396",
        "Apple Watch Series 9 396x484",
        396,
        484,
        2,
        true,
        Platform::IosWatch,
        Store::Apple,
        Requirement::RequiredWatch,
        true,
        "https://developer.apple.com/help/app-store-connect/reference/screenshot-specifications/",
    ));
    add_row(&mut v, preset(
        "apple-watch-series-6-368",
        "Apple Watch Series 6 368x448",
        368,
        448,
        2,
        true,
        Platform::IosWatch,
        Store::Apple,
        Requirement::RequiredWatch,
        true,
        "https://developer.apple.com/help/app-store-connect/reference/screenshot-specifications/",
    ));
    add_row(&mut v, preset(
        "apple-watch-series-3-312",
        "Apple Watch Series 3 312x390",
        312,
        390,
        2,
        true,
        Platform::IosWatch,
        Store::Apple,
        Requirement::RequiredWatch,
        true,
        "https://developer.apple.com/help/app-store-connect/reference/screenshot-specifications/",
    ));
    add_row(&mut v, preset(
        "play-feature-graphic",
        "Google Play feature graphic 1024x500",
        1024,
        500,
        1,
        false,
        Platform::Web,
        Store::Play,
        Requirement::Required,
        true,
        "https://support.google.com/googleplay/android-developer/answer/9866151",
    ));
    add_row(&mut v, preset(
        "play-phone-1080",
        "Android phone 1080x1920",
        1080,
        1920,
        3,
        true,
        Platform::AndroidPhone,
        Store::Play,
        Requirement::Required,
        true,
        "https://support.google.com/googleplay/android-developer/answer/9866151",
    ));
    add_row(&mut v, preset(
        "play-phone-1440",
        "Android phone 1440x2560",
        1440,
        2560,
        4,
        true,
        Platform::AndroidPhone,
        Store::Play,
        Requirement::Optional,
        true,
        "https://support.google.com/googleplay/android-developer/answer/9866151",
    ));
    add_row(&mut v, preset(
        "play-tablet-7-1200",
        "Android 7-inch tablet 1200x1920",
        1200,
        1920,
        2,
        true,
        Platform::AndroidTablet,
        Store::Play,
        Requirement::Recommended,
        true,
        "https://support.google.com/googleplay/android-developer/answer/9866151",
    ));
    add_row(&mut v, preset(
        "play-tablet-10-1600",
        "Android 10-inch tablet 1600x2560",
        1600,
        2560,
        2,
        true,
        Platform::AndroidTablet,
        Store::Play,
        Requirement::Recommended,
        true,
        "https://support.google.com/googleplay/android-developer/answer/9866151",
    ));
    add_row(&mut v, preset(
        "play-wear-os-384",
        "Wear OS 384x384",
        384,
        384,
        1,
        true,
        Platform::AndroidPhone,
        Store::Play,
        Requirement::Optional,
        true,
        "https://support.google.com/googleplay/android-developer/answer/9866151",
    ));
    add_row(&mut v, preset(
        "play-automotive-1024",
        "Android Automotive 1024x768",
        1024,
        768,
        1,
        false,
        Platform::Web,
        Store::Play,
        Requirement::Optional,
        true,
        "https://support.google.com/googleplay/android-developer/answer/9866151",
    ));
    add_row(&mut v, preset(
        "play-tv-banner",
        "Android TV banner 1280x720",
        1280,
        720,
        1,
        false,
        Platform::Tv,
        Store::Play,
        Requirement::Optional,
        true,
        "https://support.google.com/googleplay/android-developer/answer/9866151",
    ));
    add_row(&mut v, preset(
        "play-tv-1920",
        "Android TV 1920x1080",
        1920,
        1080,
        1,
        false,
        Platform::Tv,
        Store::Play,
        Requirement::Optional,
        true,
        "https://support.google.com/googleplay/android-developer/answer/9866151",
    ));
    add_row(&mut v, preset(
        "web-desktop-1920",
        "Desktop 1920x1080",
        1920,
        1080,
        1,
        false,
        Platform::Web,
        Store::Web,
        Requirement::Optional,
        false,
        "",
    ));
    add_row(&mut v, preset(
        "web-desktop-1440",
        "Desktop 1440x900",
        1440,
        900,
        1,
        false,
        Platform::Web,
        Store::Web,
        Requirement::Optional,
        false,
        "",
    ));
    add_row(&mut v, preset(
        "web-mobile-390",
        "Mobile web 390x844",
        1170,
        2532,
        3,
        true,
        Platform::IosPhone,
        Store::Web,
        Requirement::Optional,
        false,
        "",
    ));
    add_row(&mut v, preset(
        "web-mobile-360",
        "Mobile web 360x780",
        1080,
        2340,
        3,
        true,
        Platform::AndroidPhone,
        Store::Web,
        Requirement::Optional,
        false,
        "",
    ));
    proof {
        lemma_first_device_error(views(v@));
        assert forall|i: int| 0 <= i < views(v@).len() implies device_valid(#[trigger] views(v@)[i]) by {
            assert(builtin_row_ok(views(v@)[i]));
        }
        assert(views(v@) =~= builtin_table());
    }
    v
}

} // verus!
