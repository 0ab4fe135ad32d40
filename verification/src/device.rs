//! Device presets.
//!
//! Apple and Google state their requirements in output pixels; a browser is
//! driven in CSS pixels plus a device pixel ratio. A [`Device`] stores the
//! required output size and derives the viewport as `output / scale`, and a
//! preset whose output does not divide evenly by its scale is rejected when
//! the table is read, so the size emitted is a size the store accepts by
//! construction.

use vstd::prelude::*;
use crate::error::Error;
use crate::text::{owned, push_str, push_u64, dec};
pub use crate::presets::builtin;

verus! {

/// Which store a preset targets.
#[derive(Debug, Clone, Copy, PartialEq, Eq, Structural)]
pub enum Store {
    Apple,
    Play,
    Web,
}

impl Default for Store {
    fn default() -> (s: Store)
        ensures
            s == Store::Web,
    {
        Store::Web
    }
}

/// What kind of device is being emulated: User-Agent, Client Hints and
/// touch points. Setting the viewport alone is not device emulation: a
/// desktop User-Agent gets the desktop layout scaled into a phone frame. A
/// capture sends the platform's overrides before it navigates
/// (`capture::platform_commands`).
#[derive(Debug, Clone, Copy, PartialEq, Eq, Structural)]
pub enum Platform {
    IosPhone,
    IosTablet,
    IosWatch,
    AndroidPhone,
    AndroidTablet,
    Macos,
    Tv,
    Web,
}

impl Default for Platform {
    fn default() -> (p: Platform)
        ensures
            p == Platform::Web,
    {
        Platform::Web
    }
}

/// The representative User-Agent of each platform; none for TV and generic
/// web, where no single string is credible and a wrong one is worse than
/// none.
pub open spec fn user_agent_spec(p: Platform) -> Option<Seq<char>> {
    match p {
        Platform::IosPhone => Some(
            "Mozilla/5.0 (iPhone; CPU iPhone OS 17_0 like Mac OS X) AppleWebKit/605.1.15 (KHTML, like Gecko) Version/17.0 Mobile/15E148 Safari/604.1"@,
        ),
        Platform::IosTablet => Some(
            "Mozilla/5.0 (iPad; CPU OS 17_0 like Mac OS X) AppleWebKit/605.1.15 (KHTML, like Gecko) Version/17.0 Mobile/15E148 Safari/604.1"@,
        ),
        Platform::IosWatch => Some(
            "Mozilla/5.0 (Apple Watch; CPU WatchOS 10_0 like Mac OS X) AppleWebKit/605.1.15 (KHTML, like Gecko) Mobile/15E148"@,
        ),
        Platform::AndroidPhone => Some(
            "Mozilla/5.0 (Linux; Android 14; Pixel 8) AppleWebKit/537.36 (KHTML, like Gecko) Chrome/126.0.0.0 Mobile Safari/537.36"@,
        ),
        Platform::AndroidTablet => Some(
            "Mozilla/5.0 (Linux; Android 14; Pixel Tablet) AppleWebKit/537.36 (KHTML, like Gecko) Chrome/126.0.0.0 Safari/537.36"@,
        ),
        Platform::Macos => Some(
            "Mozilla/5.0 (Macintosh; Intel Mac OS X 10_15_7) AppleWebKit/605.1.15 (KHTML, like Gecko) Version/17.0 Safari/605.1.15"@,
        ),
        Platform::Tv | Platform::Web => None,
    }
}

/// The `Sec-CH-UA-Platform` name of each platform.
pub open spec fn ch_platform_spec(p: Platform) -> Seq<char> {
    match p {
        Platform::IosPhone | Platform::IosTablet | Platform::IosWatch => "iOS"@,
        Platform::AndroidPhone | Platform::AndroidTablet => "Android"@,
        Platform::Macos => "macOS"@,
        Platform::Tv | Platform::Web => "Linux"@,
    }
}

/// Whether Client Hints report a mobile device.
pub open spec fn ch_mobile_spec(p: Platform) -> bool {
    match p {
        Platform::IosPhone | Platform::IosWatch | Platform::AndroidPhone | Platform::IosTablet
        | Platform::AndroidTablet => true,
        _ => false,
    }
}

/// Simultaneous touch points reported, 0 for a pointer device.
pub open spec fn touch_points_spec(p: Platform) -> u32 {
    match p {
        Platform::IosPhone | Platform::IosTablet | Platform::AndroidPhone
        | Platform::AndroidTablet => 5,
        Platform::IosWatch => 1,
        Platform::Macos | Platform::Tv | Platform::Web => 0,
    }
}

impl Platform {
    /// A representative User-Agent for this platform.
    pub fn user_agent(self) -> (r: Option<&'static str>)
        ensures
            match r {
                Some(s) => user_agent_spec(self) == Some(s@),
                None => user_agent_spec(self) is None,
            },
    {
        match self {
            Platform::IosPhone => Some(
                "Mozilla/5.0 (iPhone; CPU iPhone OS 17_0 like Mac OS X) AppleWebKit/605.1.15 (KHTML, like Gecko) Version/17.0 Mobile/15E148 Safari/604.1",
            ),
            Platform::IosTablet => Some(
                "Mozilla/5.0 (iPad; CPU OS 17_0 like Mac OS X) AppleWebKit/605.1.15 (KHTML, like Gecko) Version/17.0 Mobile/15E148 Safari/604.1",
            ),
            Platform::IosWatch => Some(
                "Mozilla/5.0 (Apple Watch; CPU WatchOS 10_0 like Mac OS X) AppleWebKit/605.1.15 (KHTML, like Gecko) Mobile/15E148",
            ),
            Platform::AndroidPhone => Some(
                "Mozilla/5.0 (Linux; Android 14; Pixel 8) AppleWebKit/537.36 (KHTML, like Gecko) Chrome/126.0.0.0 Mobile Safari/537.36",
            ),
            Platform::AndroidTablet => Some(
                "Mozilla/5.0 (Linux; Android 14; Pixel Tablet) AppleWebKit/537.36 (KHTML, like Gecko) Chrome/126.0.0.0 Safari/537.36",
            ),
            Platform::Macos => Some(
                "Mozilla/5.0 (Macintosh; Intel Mac OS X 10_15_7) AppleWebKit/605.1.15 (KHTML, like Gecko) Version/17.0 Safari/605.1.15",
            ),
            Platform::Tv | Platform::Web => None,
        }
    }

    /// Platform name for User-Agent Client Hints (`Sec-CH-UA-Platform`).
    pub fn ch_platform(self) -> (r: &'static str)
        ensures
            r@ == ch_platform_spec(self),
    {
        match self {
            Platform::IosPhone | Platform::IosTablet | Platform::IosWatch => "iOS",
            Platform::AndroidPhone | Platform::AndroidTablet => "Android",
            Platform::Macos => "macOS",
            Platform::Tv | Platform::Web => "Linux",
        }
    }

    /// Whether Client Hints should report a mobile device.
    pub fn ch_mobile(self) -> (r: bool)
        ensures
            r == ch_mobile_spec(self),
    {
        match self {
            Platform::IosPhone | Platform::IosWatch | Platform::AndroidPhone | Platform::IosTablet
            | Platform::AndroidTablet => true,
            _ => false,
        }
    }

    /// Simultaneous touch points to report, or 0 for a pointer device.
    pub fn touch_points(self) -> (r: u32)
        ensures
            r == touch_points_spec(self),
    {
        match self {
            Platform::IosPhone | Platform::IosTablet | Platform::AndroidPhone
            | Platform::AndroidTablet => 5,
            Platform::IosWatch => 1,
            Platform::Macos | Platform::Tv | Platform::Web => 0,
        }
    }
}

/// A platform that reports touch also has a User-Agent and Client Hints
/// that say mobile, so a capture that enables its touch points also
/// overrides its User-Agent. A platform with no credible User-Agent reports
/// no touch, and a capture leaves the browser's own User-Agent in place.
pub proof fn lemma_touch_platforms_are_mobile(p: Platform)
    ensures
        touch_points_spec(p) > 0 ==> user_agent_spec(p) is Some && ch_mobile_spec(p),
        user_agent_spec(p) is None ==> touch_points_spec(p) == 0 && !ch_mobile_spec(p),
{
}

/// How strongly the store asks for this size. An unknown value fails the
/// parse rather than being treated as optional.
#[derive(Debug, Clone, Copy, PartialEq, Eq, Structural)]
pub enum Requirement {
    /// Must be supplied.
    Required,
    /// Required only in a stated situation (e.g. 6.5" when 6.9" is absent).
    Conditional,
    /// Explicitly recommended by the store, not mandatory.
    Recommended,
    /// Accepted, not asked for.
    Optional,
    RequiredIpad,
    RequiredMac,
    RequiredTv,
    RequiredVision,
    RequiredWatch,
}

/// The snake_case name of a requirement, as in the preset file.
pub open spec fn requirement_name(r: Requirement) -> Seq<char> {
    match r {
        Requirement::Required => "required"@,
        Requirement::Conditional => "conditional"@,
        Requirement::Recommended => "recommended"@,
        Requirement::Optional => "optional"@,
        Requirement::RequiredIpad => "required_ipad"@,
        Requirement::RequiredMac => "required_mac"@,
        Requirement::RequiredTv => "required_tv"@,
        Requirement::RequiredVision => "required_vision"@,
        Requirement::RequiredWatch => "required_watch"@,
    }
}

impl Requirement {
    /// Whether omitting this asset can block or degrade a submission.
    pub fn is_mandatory(self) -> (r: bool)
        ensures
            r == !(self == Requirement::Optional || self == Requirement::Recommended),
    {
        !matches!(self, Requirement::Optional | Requirement::Recommended)
    }

    /// Stable snake_case name, matching the JSON representation.
    pub fn as_str(self) -> (r: &'static str)
        ensures
            r@ == requirement_name(self),
    {
        match self {
            Requirement::Required => "required",
            Requirement::Conditional => "conditional",
            Requirement::Recommended => "recommended",
            Requirement::Optional => "optional",
            Requirement::RequiredIpad => "required_ipad",
            Requirement::RequiredMac => "required_mac",
            Requirement::RequiredTv => "required_tv",
            Requirement::RequiredVision => "required_vision",
            Requirement::RequiredWatch => "required_watch",
        }
    }
}

/// One capture target.
#[derive(Debug)]
pub struct Device {
    /// Stable identifier, used in filenames and receipts.
    pub id: String,
    /// Human label for reports.
    pub label: String,
    /// Required output width in real pixels.
    pub output_width: u32,
    /// Required output height in real pixels.
    pub output_height: u32,
    /// Device pixel ratio the page renders at.
    pub scale: u32,
    /// Emulate a mobile viewport.
    pub mobile: bool,
    /// What platform a capture emulates: User-Agent, Client Hints and touch
    /// points.
    pub platform: Platform,
    pub store: Store,
    pub requirement: Requirement,
    /// True only when the numbers were read from official documentation.
    pub verified: bool,
    /// The documentation URL the numbers came from.
    pub source: String,
}

/// A device as a value.
pub struct DeviceView {
    pub id: Seq<char>,
    pub label: Seq<char>,
    pub output_width: u32,
    pub output_height: u32,
    pub scale: u32,
    pub mobile: bool,
    pub platform: Platform,
    pub store: Store,
    pub requirement: Requirement,
    pub verified: bool,
    pub source: Seq<char>,
}

impl View for Device {
    type V = DeviceView;

    open spec fn view(&self) -> DeviceView {
        DeviceView {
            id: self.id@,
            label: self.label@,
            output_width: self.output_width,
            output_height: self.output_height,
            scale: self.scale,
            mobile: self.mobile,
            platform: self.platform,
            store: self.store,
            requirement: self.requirement,
            verified: self.verified,
            source: self.source@,
        }
    }
}

impl Clone for Device {
    fn clone(&self) -> (r: Self)
        ensures
            r@ == self@,
    {
        Device {
            id: self.id.clone(),
            label: self.label.clone(),
            output_width: self.output_width,
            output_height: self.output_height,
            scale: self.scale,
            mobile: self.mobile,
            platform: self.platform,
            store: self.store,
            requirement: self.requirement,
            verified: self.verified,
            source: self.source.clone(),
        }
    }
}

/// Why a preset cannot produce its output size, if it cannot.
pub open spec fn device_error(d: DeviceView) -> Option<Seq<char>> {
    if d.scale == 0 {
        Some("device "@ + d.id + ": scale is zero"@)
    } else if d.output_width == 0 || d.output_height == 0 {
        Some("device "@ + d.id + ": zero output dimension"@)
    } else if d.output_width % d.scale != 0 || d.output_height % d.scale != 0 {
        Some(
            "device "@ + d.id + ": output "@ + dec(d.output_width as nat) + "x"@ + dec(
                d.output_height as nat,
            ) + " does not divide by scale "@ + dec(d.scale as nat)
                + ", so no integer viewport can produce it"@,
        )
    } else {
        None
    }
}

/// A preset that can produce exactly its output size.
pub open spec fn device_valid(d: DeviceView) -> bool {
    d.scale != 0 && d.output_width != 0 && d.output_height != 0 && d.output_width % d.scale == 0
        && d.output_height % d.scale == 0
}

impl Device {
    /// The CSS-pixel viewport to drive the browser with.
    pub fn viewport(&self) -> (r: (u32, u32))
        requires
            self.scale != 0,
        ensures
            r == (self.output_width / self.scale, self.output_height / self.scale),
    {
        (self.output_width / self.scale, self.output_height / self.scale)
    }

    /// The pixel dimensions the captured image must have.
    pub fn output_size(&self) -> (r: (u32, u32))
        ensures
            r == (self.output_width, self.output_height),
    {
        (self.output_width, self.output_height)
    }

    /// Reject a preset that cannot produce its output size.
    pub fn validate(&self) -> (r: Result<(), Error>)
        ensures
            match device_error(self@) {
                None => r is Ok,
                Some(m) => r matches Err(Error::Shape(e)) && e@ == m,
            },
            r is Ok <==> device_valid(self@),
    {
        if self.scale == 0 {
            let mut m = owned("device ");
            push_str(&mut m, self.id.as_str());
            push_str(&mut m, ": scale is zero");
            return Err(Error::Shape(m));
        }
        if self.output_width == 0 || self.output_height == 0 {
            let mut m = owned("device ");
            push_str(&mut m, self.id.as_str());
            push_str(&mut m, ": zero output dimension");
            return Err(Error::Shape(m));
        }
        if self.output_width % self.scale != 0 || self.output_height % self.scale != 0 {
            let mut m = owned("device ");
            push_str(&mut m, self.id.as_str());
            push_str(&mut m, ": output ");
            push_u64(&mut m, self.output_width as u64);
            push_str(&mut m, "x");
            push_u64(&mut m, self.output_height as u64);
            push_str(&mut m, " does not divide by scale ");
            push_u64(&mut m, self.scale as u64);
            push_str(&mut m, ", so no integer viewport can produce it");
            return Err(Error::Shape(m));
        }
        Ok(())
    }
}

/// The viewport of a valid preset reproduces its output size exactly:
/// `viewport * scale == output`.
pub proof fn lemma_viewport_is_exact(d: DeviceView)
    requires
        device_valid(d),
    ensures
        (d.output_width / d.scale) * d.scale == d.output_width,
        (d.output_height / d.scale) * d.scale == d.output_height,
{
    vstd::arithmetic::div_mod::lemma_fundamental_div_mod(d.output_width as int, d.scale as int);
    vstd::arithmetic::div_mod::lemma_fundamental_div_mod(d.output_height as int, d.scale as int);
    vstd::arithmetic::mul::lemma_mul_is_commutative(d.scale as int, (d.output_width / d.scale) as int);
    vstd::arithmetic::mul::lemma_mul_is_commutative(d.scale as int, (d.output_height / d.scale) as int);
}


/// The values of a sequence of devices.
pub open spec fn views(s: Seq<Device>) -> Seq<DeviceView> {
    s.map_values(|d: Device| d@)
}

/// The on-disk preset file.
#[derive(Debug)]
pub struct PresetFile {
    pub version: u32,
    pub note: String,
    pub verified_on: String,
    pub devices: Vec<Device>,
}

/// The error of the first preset that cannot produce its output size.
pub open spec fn first_device_error(ds: Seq<DeviceView>) -> Option<Seq<char>>
    decreases ds.len(),
{
    if ds.len() == 0 {
        None
    } else {
        match device_error(ds[0]) {
            Some(m) => Some(m),
            None => first_device_error(ds.drop_first()),
        }
    }
}

/// Whether two presets share an id.
pub open spec fn has_duplicate_ids(ds: Seq<DeviceView>) -> bool {
    exists|i: int, j: int| 0 <= i < j < ds.len() && #[trigger] ds[i].id == #[trigger] ds[j].id
}

/// Whether a preset file is accepted, and if not, the message it is
/// rejected with.
pub open spec fn presets_check(version: u32, ds: Seq<DeviceView>) -> Result<(), Seq<char>> {
    if version != 1 {
        Err(
            "preset schema version "@ + dec(version as nat)
                + " is not supported by this build"@,
        )
    } else {
        match first_device_error(ds) {
            Some(m) => Err(m),
            None => if has_duplicate_ids(ds) {
                Err("duplicate device id in preset file"@)
            } else {
                Ok(())
            },
        }
    }
}

/// A table has no first invalid preset exactly when every preset is valid.
pub proof fn lemma_first_device_error(ds: Seq<DeviceView>)
    ensures
        first_device_error(ds) is None <==> forall|i: int| 0 <= i < ds.len() ==> device_valid(
            #[trigger] ds[i],
        ),
    decreases ds.len(),
{
    if ds.len() > 0 {
        lemma_first_device_error(ds.drop_first());
        if device_error(ds[0]) is None {
            assert forall|i: int| 0 <= i < ds.len() && first_device_error(ds) is None implies device_valid(
                #[trigger] ds[i],
            ) by {
                if i > 0 {
                    assert(ds[i] == ds.drop_first()[i - 1]);
                }
            }
            assert forall|i: int| 0 <= i < ds.drop_first().len() && (forall|k: int| 0 <= k < ds.len() ==> device_valid(
                #[trigger] ds[k],
            )) implies device_valid(#[trigger] ds.drop_first()[i]) by {
                assert(ds.drop_first()[i] == ds[i + 1]);
            }
        } else {
            assert(!device_valid(ds[0]));
        }
    }
}

/// The validated devices of a preset file: the schema version must be 1,
/// every preset must produce its output size, and ids must be unique.
pub fn validate_presets(f: PresetFile) -> (r: Result<Vec<Device>, Error>)
    ensures
        match presets_check(f.version, views(f.devices@)) {
            Ok(()) => r matches Ok(ds) && views(ds@) == views(f.devices@),
            Err(m) => r matches Err(Error::Shape(e)) && e@ == m,
        },
        r is Ok ==> presets_valid(views(f.devices@)),
{
    let ghost all = views(f.devices@);
    proof {
        lemma_first_device_error(all);
    }
    if f.version != 1 {
        let mut m = owned("preset schema version ");
        push_u64(&mut m, f.version as u64);
        push_str(&mut m, " is not supported by this build");
        return Err(Error::Shape(m));
    }
    let ds = f.devices;
    let n = ds.len();
    let mut i: usize = 0;
    assert(all.skip(0) == all);
    while i < n
        invariant
            n == ds@.len(),
            all == views(ds@),
            f.version == 1,
            all == views(f.devices@),
            i <= n,
            first_device_error(all) == first_device_error(all.skip(i as int)),
        decreases n - i,
    {
        match ds[i].validate() {
            Ok(()) => {},
            Err(e) => {
                assert(all.skip(i as int)[0] == ds[i as int]@);
                assert(first_device_error(all.skip(i as int)) == device_error(ds[i as int]@));
                return Err(e);
            },
        }
        assert(all.skip(i as int).drop_first() == all.skip(i + 1));
        i = i + 1;
    }
    assert(all.skip(n as int).len() == 0);
    assert(first_device_error(all) is None);
    let mut a: usize = 0;
    while a < n
        invariant
            n == ds@.len(),
            all == views(ds@),
            f.version == 1,
            all == views(f.devices@),
            first_device_error(all) is None,
            a <= n,
            forall|x: int, y: int| 0 <= x < a && x < y < n ==> all[x].id != all[y].id,
        decreases n - a,
    {
        let mut b: usize = a + 1;
        while b < n
            invariant
                n == ds@.len(),
                all == views(ds@),
                f.version == 1,
                all == views(f.devices@),
            all == views(f.devices@),
                first_device_error(all) is None,
                a < n,
                a + 1 <= b <= n,
                forall|x: int, y: int| 0 <= x < a && x < y < n ==> all[x].id != all[y].id,
                forall|y: int| a < y < b ==> all[a as int].id != all[y].id,
            decreases n - b,
        {
            if ds[a].id == ds[b].id {
                assert(all[a as int].id == all[b as int].id);
                return Err(Error::Shape(owned("duplicate device id in preset file")));
            }
            b = b + 1;
        }
        a = a + 1;
    }
    assert(!has_duplicate_ids(all));
    Ok(ds)
}

/// A table every preset of which is valid and whose ids are unique.
pub open spec fn presets_valid(ds: Seq<DeviceView>) -> bool {
    &&& forall|i: int| 0 <= i < ds.len() ==> device_valid(#[trigger] ds[i])
    &&& !has_duplicate_ids(ds)
}

/// The first preset of `ds` whose id is `id`.
pub open spec fn with_id(ds: Seq<DeviceView>, id: Seq<char>) -> Option<DeviceView>
    decreases ds.len(),
{
    if ds.len() == 0 {
        None
    } else if ds[0].id == id {
        Some(ds[0])
    } else {
        with_id(ds.drop_first(), id)
    }
}

proof fn lemma_with_id_skip(ds: Seq<DeviceView>, id: Seq<char>, i: int)
    requires
        0 <= i < ds.len(),
    ensures
        with_id(ds.skip(i), id) == (if ds[i].id == id {
            Some(ds[i])
        } else {
            with_id(ds.skip(i + 1), id)
        }),
{
    assert(ds.skip(i).drop_first() =~= ds.skip(i + 1));
}

/// Look a device up by id: the first preset with that id.
pub fn by_id(devices: &[Device], id: &str) -> (r: Option<Device>)
    ensures
        match r {
            Some(d) => with_id(views(devices@), id@) == Some(d@),
            None => with_id(views(devices@), id@) is None,
        },
{
    let ghost all = views(devices@);
    let key = owned(id);
    let mut i: usize = 0;
    assert(all.skip(0) =~= all);
    while i < devices.len()
        invariant
            i <= devices@.len(),
            key@ == id@,
            all == views(devices@),
            with_id(all, id@) == with_id(all.skip(i as int), id@),
        decreases devices.len() - i,
    {
        proof {
            lemma_with_id_skip(all, id@, i as int);
        }
        if devices[i].id == key {
            return Some(devices[i].clone());
        }
        i = i + 1;
    }
    None
}

/// The presets of `ds` that target `store`, in order.
pub open spec fn of_store(ds: Seq<DeviceView>, store: Store) -> Seq<DeviceView> {
    ds.filter(|d: DeviceView| d.store == store)
}

/// Every device targeting a given store, in table order.
pub fn for_store(devices: &[Device], store: Store) -> (r: Vec<Device>)
    ensures
        views(r@) == of_store(views(devices@), store),
{
    let ghost all = views(devices@);
    let mut out: Vec<Device> = Vec::new();
    let mut i: usize = 0;
    while i < devices.len()
        invariant
            i <= devices@.len(),
            all == views(devices@),
            views(out@) == of_store(all.take(i as int), store),
        decreases devices.len() - i,
    {
        reveal_with_fuel(Seq::<_>::filter, 1);
        assert(all.take(i + 1).drop_last() == all.take(i as int));
        if devices[i].store == store {
            out.push(devices[i].clone());
        }
        assert(views(out@) == of_store(all.take(i + 1), store));
        i = i + 1;
    }
    assert(all.take(devices@.len() as int) == all);
    out
}

proof fn lemma_store_counts(ds: Seq<DeviceView>)
    ensures
        of_store(ds, Store::Apple).len() + of_store(ds, Store::Play).len() + of_store(
            ds,
            Store::Web,
        ).len() == ds.len(),
    decreases ds.len(),
{
    reveal_with_fuel(Seq::<_>::filter, 1);
    if ds.len() > 0 {
        lemma_store_counts(ds.drop_last());
    }
}

/// Filtering by store partitions a table: every preset lands in exactly one
/// of the three stores' lists.
pub proof fn lemma_store_filter_partitions(ds: Seq<DeviceView>)
    ensures
        of_store(ds, Store::Apple).len() + of_store(ds, Store::Play).len() + of_store(
            ds,
            Store::Web,
        ).len() == ds.len(),
{
    lemma_store_counts(ds);
}

} // verus!
