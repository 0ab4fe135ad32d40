//! Command-line arguments and device selection, shared by the command-line
//! tool and the language bindings.

use vstd::prelude::*;
use crate::device::{Device, DeviceView, Store, Requirement, by_id, for_store, of_store, views, with_id};
use crate::text::{push_str, parse_unsigned, parse_unsigned_at};
use crate::text::{owned, chars_of, eq_ignore_ascii_case, lower, ascii_lower, starts_with, begins_with, first_index, find_char, string_of_range};

verus! {

/// Whether two strings are equal up to ASCII case.
pub open spec fn ieq(a: Seq<char>, b: Seq<char>) -> bool {
    lower(a) == lower(b)
}

/// The store a command-line or binding argument names, accepting the
/// aliases `ios`, `appstore`, `android` and `google`, in any ASCII case.
pub open spec fn store_named(s: Seq<char>) -> Option<Store> {
    if ieq(s, "apple"@) || ieq(s, "ios"@) || ieq(s, "appstore"@) {
        Some(Store::Apple)
    } else if ieq(s, "play"@) || ieq(s, "android"@) || ieq(s, "google"@) {
        Some(Store::Play)
    } else if ieq(s, "web"@) {
        Some(Store::Web)
    } else {
        None
    }
}

/// Folding ASCII case twice is folding it once.
pub proof fn lemma_lower_idempotent(s: Seq<char>)
    ensures
        lower(lower(s)) == lower(s),
{
    assert forall|i: int| 0 <= i < s.len() implies lower(lower(s))[i] == lower(s)[i] by {
        let c = s[i];
        if 'A' <= c <= 'Z' {
            assert(ascii_lower(c) as u32 == (c as u32) + 32);
        }
    }
    assert(lower(lower(s)) =~= lower(s));
}

/// A word in lower case folds to itself.
proof fn lemma_lower_of_lowercase(s: Seq<char>)
    requires
        forall|i: int| 0 <= i < s.len() ==> 'a' <= #[trigger] s[i] <= 'z',
    ensures
        lower(s) == s,
{
    assert(lower(s) =~= s);
}

/// Store names are read in any ASCII case: a name resolves exactly as its
/// lower-case spelling does, and that spelling decides the store: `apple`,
/// `ios` and `appstore` name the App Store, `play`, `android` and `google`
/// the Play Store, `web` the web, and nothing else names a store.
pub proof fn lemma_store_names_ignore_case(s: Seq<char>)
    ensures
        store_named(s) == store_named(lower(s)),
        store_named(s) == (if lower(s) == "apple"@ || lower(s) == "ios"@ || lower(s)
            == "appstore"@ {
            Some(Store::Apple)
        } else if lower(s) == "play"@ || lower(s) == "android"@ || lower(s) == "google"@ {
            Some(Store::Play)
        } else if lower(s) == "web"@ {
            Some(Store::Web)
        } else {
            None
        }),
{
    lemma_lower_idempotent(s);
    reveal_strlit("apple");
    reveal_strlit("ios");
    reveal_strlit("appstore");
    reveal_strlit("play");
    reveal_strlit("android");
    reveal_strlit("google");
    reveal_strlit("web");
    lemma_lower_of_lowercase("apple"@);
    lemma_lower_of_lowercase("ios"@);
    lemma_lower_of_lowercase("appstore"@);
    lemma_lower_of_lowercase("play"@);
    lemma_lower_of_lowercase("android"@);
    lemma_lower_of_lowercase("google"@);
    lemma_lower_of_lowercase("web"@);
}

fn ieq_lit(cs: &[char], lit: &str) -> (r: bool)
    ensures
        r == ieq(cs@, lit@),
{
    let l = chars_of(lit);
    eq_ignore_ascii_case(cs, l.as_slice())
}

/// Resolve a store name.
pub fn parse_store(s: &str) -> (r: Option<Store>)
    ensures
        r == store_named(s@),
{
    let cs = chars_of(s);
    let c = cs.as_slice();
    if ieq_lit(c, "apple") || ieq_lit(c, "ios") || ieq_lit(c, "appstore") {
        Some(Store::Apple)
    } else if ieq_lit(c, "play") || ieq_lit(c, "android") || ieq_lit(c, "google") {
        Some(Store::Play)
    } else if ieq_lit(c, "web") {
        Some(Store::Web)
    } else {
        None
    }
}


/// A flag name with the values given for it, in order.
pub type FlagView = (Seq<char>, Seq<Seq<char>>);

/// The values recorded for `name`: those of its first entry.
pub open spec fn lookup(flags: Seq<FlagView>, name: Seq<char>) -> Option<Seq<Seq<char>>>
    decreases flags.len(),
{
    if flags.len() == 0 {
        None
    } else if flags[0].0 == name {
        Some(flags[0].1)
    } else {
        lookup(flags.drop_first(), name)
    }
}

/// `flags` with `value` appended to the values of `name`, which gets an
/// entry of its own at the end if it has none yet.
pub open spec fn add_flag(flags: Seq<FlagView>, name: Seq<char>, value: Seq<char>) -> Seq<FlagView>
    decreases flags.len(),
{
    if flags.len() == 0 {
        seq![(name, seq![value])]
    } else if flags[0].0 == name {
        flags.update(0, (name, flags[0].1.push(value)))
    } else {
        seq![flags[0]] + add_flag(flags.drop_first(), name, value)
    }
}

/// The flags of `argv[i..]` added to `acc`. An argument `--name=value`
/// gives `name` that value; `--name` takes the next argument as its value
/// unless that one starts with `--` or there is none, in which case the
/// value is `true`. Arguments that are not flags are skipped.
pub open spec fn flags_from(argv: Seq<Seq<char>>, i: nat, acc: Seq<FlagView>) -> Seq<FlagView>
    decreases argv.len() - i,
{
    if i >= argv.len() {
        acc
    } else if starts_with(argv[i as int], "--"@) {
        let body = argv[i as int].skip(2);
        let e = first_index(body, '=');
        let name = if e >= 0 {
            body.take(e)
        } else {
            body
        };
        if e >= 0 {
            flags_from(argv, i + 1, add_flag(acc, name, body.skip(e + 1)))
        } else if i + 1 < argv.len() && !starts_with(argv[i + 1 as int], "--"@) {
            flags_from(argv, i + 2, add_flag(acc, name, argv[i + 1 as int]))
        } else {
            flags_from(argv, i + 1, add_flag(acc, name, "true"@))
        }
    } else {
        flags_from(argv, i + 1, acc)
    }
}

/// Every value recorded for `name`, in order.
pub open spec fn flag_values(flags: Seq<FlagView>, name: Seq<char>) -> Seq<Seq<char>> {
    match lookup(flags, name) {
        Some(vs) => vs,
        None => Seq::empty(),
    }
}

/// The last value recorded for `name`.
pub open spec fn flag_last(flags: Seq<FlagView>, name: Seq<char>) -> Option<Seq<char>> {
    match lookup(flags, name) {
        Some(vs) => if vs.len() > 0 {
            Some(vs.last())
        } else {
            None
        },
        None => None,
    }
}

/// The views of a list of strings.
pub open spec fn strs(v: Seq<String>) -> Seq<Seq<char>> {
    v.map_values(|s: String| s@)
}

/// The view of the flag table.
pub open spec fn flags_view(v: Seq<(String, Vec<String>)>) -> Seq<FlagView> {
    v.map_values(|e: (String, Vec<String>)| (e.0@, strs(e.1@)))
}

/// Parsed command-line arguments: the command and its flags.
#[derive(Debug)]
pub struct Args {
    pub command: String,
    flags: Vec<(String, Vec<String>)>,
}

proof fn lemma_add_flag_found(flags: Seq<FlagView>, name: Seq<char>, value: Seq<char>, k: int)
    requires
        0 <= k < flags.len(),
        flags[k].0 == name,
        forall|j: int| 0 <= j < k ==> flags[j].0 != name,
    ensures
        add_flag(flags, name, value) == flags.update(k, (name, flags[k].1.push(value))),
        lookup(flags, name) == Some(flags[k].1),
    decreases k,
{
    if k > 0 {
        lemma_add_flag_found(flags.drop_first(), name, value, k - 1);
        assert(add_flag(flags, name, value) =~= flags.update(k, (name, flags[k].1.push(value))));
    }
}

proof fn lemma_add_flag_new(flags: Seq<FlagView>, name: Seq<char>, value: Seq<char>)
    requires
        forall|j: int| 0 <= j < flags.len() ==> flags[j].0 != name,
    ensures
        add_flag(flags, name, value) == flags.push((name, seq![value])),
        lookup(flags, name) is None,
    decreases flags.len(),
{
    if flags.len() > 0 {
        lemma_add_flag_new(flags.drop_first(), name, value);
        assert(add_flag(flags, name, value) =~= flags.push((name, seq![value])));
    }
}

/// Position of the first entry for `name`.
fn find_flag(flags: &Vec<(String, Vec<String>)>, name: &String) -> (r: Option<usize>)
    ensures
        match r {
            Some(k) => k < flags@.len() && flags_view(flags@)[k as int].0 == name@ && forall|j: int|
                0 <= j < k ==> flags_view(flags@)[j].0 != name@,
            None => forall|j: int| 0 <= j < flags@.len() ==> flags_view(flags@)[j].0 != name@,
        },
{
    let mut k: usize = 0;
    while k < flags.len()
        invariant
            k <= flags@.len(),
            forall|j: int| 0 <= j < k ==> flags_view(flags@)[j].0 != name@,
        decreases flags.len() - k,
    {
        if flags[k].0 == *name {
            return Some(k);
        }
        k = k + 1;
    }
    None
}

fn insert_flag(flags: &mut Vec<(String, Vec<String>)>, name: String, value: String)
    ensures
        flags_view(final(flags)@) == add_flag(flags_view(old(flags)@), name@, value@),
{
    let ghost before = flags_view(flags@);
    match find_flag(flags, &name) {
        Some(k) => {
            proof {
                lemma_add_flag_found(before, name@, value@, k as int);
            }
            let (n, mut vs) = flags.remove(k);
            let ghost old_vs = strs(vs@);
            vs.push(value);
            assert(strs(vs@) == old_vs.push(value@));
            flags.insert(k, (n, vs));
            assert(flags_view(flags@) =~= before.update(k as int, (name@, before[k as int].1.push(value@))));
        },
        None => {
            proof {
                lemma_add_flag_new(before, name@, value@);
            }
            let ghost vv = value@;
            let vs = vec![value];
            assert(strs(vs@) =~= seq![vv]);
            flags.push((name, vs));
            assert(flags_view(flags@) =~= before.push((name@, seq![vv])));
        },
    }
}

impl Args {
    /// The flags, in the order their names first appeared.
    pub closed spec fn flags(&self) -> Seq<FlagView> {
        flags_view(self.flags@)
    }

    /// The command.
    pub closed spec fn command_text(&self) -> Seq<char> {
        self.command@
    }

    /// Parse `argv` (without the program name): the first argument is the
    /// command, the rest are flags.
    pub fn parse(argv: &[String]) -> (a: Args)
        ensures
            a.command_text() == (if argv@.len() > 0 {
                argv@[0]@
            } else {
                Seq::<char>::empty()
            }),
            a.flags() == flags_from(strs(argv@), 1, Seq::empty()),
    {
        let ghost av = strs(argv@);
        let command = if argv.len() > 0 {
            argv[0].clone()
        } else {
            String::new()
        };
        let mut flags: Vec<(String, Vec<String>)> = Vec::new();
        let dash = chars_of("--");
        let n = argv.len();
        let mut i: usize = 1;
        assert(flags_view(flags@) =~= Seq::<FlagView>::empty());
        while i < n
            invariant
                n == argv@.len(),
                av == strs(argv@),
                dash@ == "--"@,
                1 <= i,
                flags_from(av, 1, Seq::empty()) == flags_from(av, i as nat, flags_view(flags@)),
            decreases n - i,
        {
            let a = chars_of(argv[i].as_str());
            assert(a@ == av[i as int]);
            if begins_with(a.as_slice(), dash.as_slice()) {
                proof {
                    reveal_strlit("--");
                }
                let body_start: usize = 2;
                let alen = a.len();
                let body = crate::text::slice_range(a.as_slice(), body_start, alen);
                assert(body@ == av[i as int].skip(2));
                proof {
                    crate::text::lemma_first_index(body@, '=');
                }
                match find_char(body.as_slice(), '=') {
                    Some(e) => {
                        let name = string_of_range(body.as_slice(), 0, e);
                        let bl = body.len();
                        let value = string_of_range(body.as_slice(), e + 1, bl);
                        assert(body@.subrange(0, e as int) == body@.take(e as int));
                        assert(body@.subrange(e + 1, bl as int) == body@.skip(e + 1));
                        insert_flag(&mut flags, name, value);
                        i = i + 1;
                    },
                    None => {
                        let name = string_of_range(body.as_slice(), 0, body.len());
                        assert(body@.subrange(0, body@.len() as int) == body@);
                        if i + 1 < n {
                            let next = chars_of(argv[i + 1].as_str());
                            assert(next@ == av[i + 1]);
                            if !begins_with(next.as_slice(), dash.as_slice()) {
                                insert_flag(&mut flags, name, argv[i + 1].clone());
                                i = i + 2;
                            } else {
                                insert_flag(&mut flags, name, owned("true"));
                                i = i + 1;
                            }
                        } else {
                            insert_flag(&mut flags, name, owned("true"));
                            i = i + 1;
                        }
                    },
                }
            } else {
                i = i + 1;
            }
        }
        Args { command, flags }
    }

    /// Every value given for flag `k`, in order.
    pub fn many(&self, k: &str) -> (r: Vec<String>)
        ensures
            strs(r@) == flag_values(self.flags(), k@),
    {
        let key = owned(k);
        match find_flag(&self.flags, &key) {
            Some(i) => {
                proof {
                    lemma_add_flag_found(self.flags(), k@, Seq::empty(), i as int);
                }
                let vs = &self.flags[i].1;
                let mut out: Vec<String> = Vec::new();
                let mut j: usize = 0;
                while j < vs.len()
                    invariant
                        j <= vs@.len(),
                        strs(out@) == strs(vs@).take(j as int),
                    decreases vs.len() - j,
                {
                    out.push(vs[j].clone());
                    assert(strs(vs@).take(j + 1) == strs(vs@).take(j as int).push(vs@[j as int]@));
                    assert(strs(out@) =~= strs(vs@).take(j + 1));
                    j = j + 1;
                }
                assert(strs(vs@).take(vs@.len() as int) == strs(vs@));
                out
            },
            None => {
                proof {
                    lemma_add_flag_new(self.flags(), k@, Seq::empty());
                }
                assert(strs(Seq::<String>::empty()) =~= Seq::<Seq<char>>::empty());
                Vec::new()
            },
        }
    }

    /// The last value given for flag `k`.
    pub fn one(&self, k: &str) -> (r: Option<&str>)
        ensures
            match r {
                Some(v) => flag_last(self.flags(), k@) == Some(v@),
                None => flag_last(self.flags(), k@) is None,
            },
    {
        let key = owned(k);
        match find_flag(&self.flags, &key) {
            Some(i) => {
                proof {
                    lemma_add_flag_found(self.flags(), k@, Seq::empty(), i as int);
                }
                let vs = &self.flags[i].1;
                if vs.len() > 0 {
                    Some(vs[vs.len() - 1].as_str())
                } else {
                    None
                }
            },
            None => {
                proof {
                    lemma_add_flag_new(self.flags(), k@, Seq::empty());
                }
                None
            },
        }
    }

    /// Whether flag `k` was given at all.
    pub fn has(&self, k: &str) -> (r: bool)
        ensures
            r == lookup(self.flags(), k@) is Some,
    {
        let key = owned(k);
        match find_flag(&self.flags, &key) {
            Some(i) => {
                proof {
                    lemma_add_flag_found(self.flags(), k@, Seq::empty(), i as int);
                }
                true
            },
            None => {
                proof {
                    lemma_add_flag_new(self.flags(), k@, Seq::empty());
                }
                false
            },
        }
    }
}


/// Why a device selection was refused, as a value.
pub enum Refusal {
    UnknownDevice(Seq<char>),
    UnknownStore(Seq<char>),
    NoPresets(Seq<char>),
    Unspecified,
}

/// Why a device selection was refused.
#[derive(Debug)]
pub enum SelectError {
    /// A requested id is not in the table.
    UnknownDevice(String),
    /// The store name is not one the library knows.
    UnknownStore(String),
    /// The store is known but the table has no presets for it.
    NoPresets(String),
    /// Neither ids nor a store were given.
    Unspecified,
}

impl View for SelectError {
    type V = Refusal;

    open spec fn view(&self) -> Refusal {
        match self {
            SelectError::UnknownDevice(id) => Refusal::UnknownDevice(id@),
            SelectError::UnknownStore(s) => Refusal::UnknownStore(s@),
            SelectError::NoPresets(s) => Refusal::NoPresets(s@),
            SelectError::Unspecified => Refusal::Unspecified,
        }
    }
}

/// What a refusal says.
pub open spec fn refusal_message(f: Refusal) -> Seq<char> {
    match f {
        Refusal::UnknownDevice(id) => "unknown device id: "@ + id,
        Refusal::UnknownStore(s) => "unknown store: "@ + s,
        Refusal::NoPresets(s) => "no presets for store "@ + s,
        Refusal::Unspecified => "specify either `devices` or `store`"@,
    }
}

impl SelectError {
    /// The message for this refusal.
    pub fn message(&self) -> (r: String)
        ensures
            r@ == refusal_message(self@),
    {
        match self {
            SelectError::UnknownDevice(id) => {
                let mut m = owned("unknown device id: ");
                push_str(&mut m, id.as_str());
                m
            },
            SelectError::UnknownStore(st) => {
                let mut m = owned("unknown store: ");
                push_str(&mut m, st.as_str());
                m
            },
            SelectError::NoPresets(st) => {
                let mut m = owned("no presets for store ");
                push_str(&mut m, st.as_str());
                m
            },
            SelectError::Unspecified => owned("specify either `devices` or `store`"),
        }
    }
}

/// How many of `ids`, from the front, name a preset of `ds`: the index of
/// the first unknown id, or the length when all are known.
pub open spec fn first_unknown(ds: Seq<DeviceView>, ids: Seq<Seq<char>>) -> int
    decreases ids.len(),
{
    if ids.len() == 0 {
        0
    } else if with_id(ds, ids[0]) is None {
        0
    } else {
        1 + first_unknown(ds, ids.drop_first())
    }
}

/// The presets `ids` name, in the order given, when all of them exist.
pub open spec fn named(ds: Seq<DeviceView>, ids: Seq<Seq<char>>) -> Seq<DeviceView> {
    ids.map_values(|id: Seq<char>| with_id(ds, id).unwrap())
}

/// The devices a run targets. Explicit ids take precedence and each must
/// exist: the first unknown one is the error, never a silent skip. Failing
/// that, every preset of the named store, of which there must be at least
/// one. With neither, the selection is refused.
pub open spec fn selection(
    ds: Seq<DeviceView>,
    ids: Option<Seq<Seq<char>>>,
    store: Option<Seq<char>>,
) -> Result<Seq<DeviceView>, Refusal> {
    match ids {
        Some(ids) => {
            let k = first_unknown(ds, ids);
            if k < ids.len() {
                Err(Refusal::UnknownDevice(ids[k]))
            } else {
                Ok(named(ds, ids))
            }
        },
        None => match store {
            Some(s) => match store_named(s) {
                None => Err(Refusal::UnknownStore(s)),
                Some(st) => if of_store(ds, st).len() == 0 {
                    Err(Refusal::NoPresets(s))
                } else {
                    Ok(of_store(ds, st))
                },
            },
            None => Err(Refusal::Unspecified),
        },
    }
}

proof fn lemma_first_unknown(ds: Seq<DeviceView>, ids: Seq<Seq<char>>, i: int)
    requires
        0 <= i <= ids.len(),
        forall|j: int| 0 <= j < i ==> (#[trigger] with_id(ds, ids[j])) is Some,
    ensures
        first_unknown(ds, ids) == i + first_unknown(ds, ids.skip(i)),
    decreases i,
{
    if i > 0 {
        assert forall|j: int| 0 <= j < i - 1 implies (#[trigger] with_id(ds, ids.drop_first()[j])) is Some by {
            assert(ids.drop_first()[j] == ids[j + 1]);
        }
        lemma_first_unknown(ds, ids.drop_first(), i - 1);
        assert(ids.drop_first().skip(i - 1) =~= ids.skip(i));
    } else {
        assert(ids.skip(0) =~= ids);
    }
}

proof fn lemma_with_id_matches(ds: Seq<DeviceView>, id: Seq<char>)
    ensures
        with_id(ds, id) matches Some(d) ==> d.id == id,
    decreases ds.len(),
{
    if ds.len() > 0 && ds[0].id != id {
        lemma_with_id_matches(ds.drop_first(), id);
    }
}

proof fn lemma_first_unknown_bounds(ds: Seq<DeviceView>, ids: Seq<Seq<char>>)
    ensures
        0 <= first_unknown(ds, ids) <= ids.len(),
        forall|j: int| 0 <= j < first_unknown(ds, ids) ==> (#[trigger] with_id(ds, ids[j])) is Some,
        first_unknown(ds, ids) < ids.len() ==> with_id(ds, ids[first_unknown(ds, ids)]) is None,
    decreases ids.len(),
{
    if ids.len() > 0 && with_id(ds, ids[0]) is Some {
        lemma_first_unknown_bounds(ds, ids.drop_first());
        assert forall|j: int| 0 <= j < first_unknown(ds, ids) implies (#[trigger] with_id(
            ds,
            ids[j],
        )) is Some by {
            if j > 0 {
                assert(ids[j] == ids.drop_first()[j - 1]);
            }
        }
    }
}

/// A selection by ids never silently drops a device: when it succeeds it
/// holds exactly one preset per requested id, in the order requested, each
/// carrying that id; when it fails, some requested id is not in the table.
pub proof fn lemma_selection_never_skips(
    ds: Seq<DeviceView>,
    ids: Seq<Seq<char>>,
    store: Option<Seq<char>>,
)
    ensures
        selection(ds, Some(ids), store) matches Ok(v) ==> v.len() == ids.len() && forall|i: int|
            0 <= i < ids.len() ==> (#[trigger] v[i]).id == ids[i],
        selection(ds, Some(ids), store) matches Err(f) ==> (f matches Refusal::UnknownDevice(id)
            && exists|k: int| 0 <= k < ids.len() && ids[k] == id && (#[trigger] with_id(ds, ids[k]))
            is None),
{
    lemma_first_unknown_bounds(ds, ids);
    let k = first_unknown(ds, ids);
    if k >= ids.len() {
        assert forall|i: int| 0 <= i < ids.len() implies (#[trigger] named(ds, ids)[i]).id
            == ids[i] by {
            lemma_with_id_matches(ds, ids[i]);
            assert(with_id(ds, ids[i]) is Some);
        }
    } else {
        assert(with_id(ds, ids[k]) is None);
    }
}

fn resolve_ids(all: &[Device], ids: &[String]) -> (r: Result<Vec<Device>, SelectError>)
    ensures
        match r {
            Ok(v) => selection(views(all@), Some(strs(ids@)), None) == Ok::<Seq<DeviceView>, Refusal>(views(v@)),
            Err(e) => selection(views(all@), Some(strs(ids@)), None) == Err::<Seq<DeviceView>, Refusal>(e@),
        },
{
    let ghost ds = views(all@);
    let ghost is = strs(ids@);
    let mut out: Vec<Device> = Vec::new();
    let mut i: usize = 0;
    while i < ids.len()
        invariant
            i <= ids@.len(),
            ds == views(all@),
            is == strs(ids@),
            forall|j: int| 0 <= j < i ==> (#[trigger] with_id(ds, is[j])) is Some,
            views(out@) == named(ds, is.take(i as int)),
        decreases ids.len() - i,
    {
        match by_id(all, ids[i].as_str()) {
            Some(d) => {
                let ghost before = views(out@);
                out.push(d);
                assert(is.take(i + 1) == is.take(i as int).push(is[i as int]));
                assert(views(out@) =~= before.push(d@));
                assert(named(ds, is.take(i + 1)) =~= named(ds, is.take(i as int)).push(d@));
                i = i + 1;
            },
            None => {
                proof {
                    lemma_first_unknown(ds, is, i as int);
                }
                return Err(SelectError::UnknownDevice(ids[i].clone()));
            },
        }
    }
    proof {
        lemma_first_unknown(ds, is, i as int);
        assert(is.take(i as int) == is);
    }
    Ok(out)
}

/// Choose the devices a run targets, as `selection` says: `ids` when given,
/// else every preset of `store`.
pub fn select(all: &[Device], ids: Option<&[String]>, store: Option<&str>) -> (r: Result<
    Vec<Device>,
    SelectError,
>)
    ensures
        match r {
            Ok(v) => selection(
                views(all@),
                match ids {
                    Some(v) => Some(strs(v@)),
                    None => None,
                },
                match store {
                    Some(s) => Some(s@),
                    None => None,
                },
            ) == Ok::<Seq<DeviceView>, Refusal>(views(v@)),
            Err(e) => selection(
                views(all@),
                match ids {
                    Some(v) => Some(strs(v@)),
                    None => None,
                },
                match store {
                    Some(s) => Some(s@),
                    None => None,
                },
            ) == Err::<Seq<DeviceView>, Refusal>(e@),
        },
{
    match ids {
        Some(ids) => resolve_ids(all, ids),
        None => match store {
            Some(s) => match parse_store(s) {
                None => Err(SelectError::UnknownStore(owned(s))),
                Some(st) => {
                    let out = for_store(all, st);
                    if out.len() == 0 {
                        Err(SelectError::NoPresets(owned(s)))
                    } else {
                        Ok(out)
                    }
                },
            },
            None => Err(SelectError::Unspecified),
        },
    }
}

/// What the command line says for a refused selection: the library's
/// message, except that a missing choice names the flags to give.
pub open spec fn cli_message(f: Refusal) -> Seq<char> {
    match f {
        Refusal::Unspecified => "specify --device <id> (repeatable) or --store <apple|play|web>"@,
        _ => refusal_message(f),
    }
}

/// Resolve which devices a capture run targets from `--device` (repeatable)
/// or `--store`. An unknown `--device` id is an error, never a skip.
pub fn select_devices(args: &Args, all: &[Device]) -> (r: Result<Vec<Device>, String>)
    ensures
        ({
            let ids = flag_values(args.flags(), "device"@);
            let sel = selection(
                views(all@),
                if ids.len() > 0 {
                    Some(ids)
                } else {
                    None
                },
                flag_last(args.flags(), "store"@),
            );
            match r {
                Ok(v) => sel == Ok::<Seq<DeviceView>, Refusal>(views(v@)),
                Err(m) => sel matches Err(f) && m@ == cli_message(f),
            }
        }),
{
    let ids = args.many("device");
    let store = args.one("store");
    let r = if ids.len() > 0 {
        select(all, Some(ids.as_slice()), store)
    } else {
        select(all, None, store)
    };
    match r {
        Ok(v) => Ok(v),
        Err(e) => match e {
            SelectError::Unspecified => Err(
                owned("specify --device <id> (repeatable) or --store <apple|play|web>"),
            ),
            _ => Err(e.message()),
        },
    }
}

/// Whether the `devices` command lists `d`: when a store is named, only
/// presets of that store (an unknown name matches none); when
/// `mandatory_only`, only presets whose omission can block a submission.
pub open spec fn listed(store: Option<Seq<char>>, mandatory_only: bool, d: DeviceView) -> bool {
    &&& match store {
        Some(s) => store_named(s) == Some(d.store),
        None => true,
    }
    &&& (!mandatory_only || !(d.requirement == Requirement::Optional || d.requirement
        == Requirement::Recommended))
}

/// The presets the `devices` command lists, in table order, as `--store`
/// and `--mandatory` narrow them.
pub fn devices_listed(args: &Args, all: &[Device]) -> (r: Vec<Device>)
    ensures
        views(r@) == views(all@).filter(
            |d: DeviceView|
                listed(
                    flag_last(args.flags(), "store"@),
                    lookup(args.flags(), "mandatory"@) is Some,
                    d,
                ),
        ),
{
    let ghost ds = views(all@);
    let store_flag = args.one("store");
    let ghost sf = flag_last(args.flags(), "store"@);
    let store: Option<Store> = match store_flag {
        Some(s) => parse_store(s),
        None => None,
    };
    let mandatory_only = args.has("mandatory");
    let ghost keep = |d: DeviceView| listed(sf, mandatory_only, d);
    let mut out: Vec<Device> = Vec::new();
    let mut i: usize = 0;
    while i < all.len()
        invariant
            i <= all@.len(),
            ds == views(all@),
            keep == (|d: DeviceView| listed(sf, mandatory_only, d)),
            match store_flag {
                Some(s) => sf == Some(s@) && store == store_named(s@),
                None => sf is None,
            },
            views(out@) == ds.take(i as int).filter(keep),
        decreases all.len() - i,
    {
        reveal_with_fuel(Seq::<_>::filter, 1);
        assert(ds.take(i + 1).drop_last() == ds.take(i as int));
        let d = &all[i];
        let store_ok = match store_flag {
            Some(_) => match store {
                Some(st) => d.store == st,
                None => false,
            },
            None => true,
        };
        let need_ok = !mandatory_only || d.requirement.is_mandatory();
        assert((store_ok && need_ok) == keep(ds[i as int]));
        if store_ok && need_ok {
            out.push(d.clone());
        }
        assert(views(out@) =~= ds.take(i + 1).filter(keep));
        i = i + 1;
    }
    assert(ds.take(all@.len() as int) == ds);
    out
}

/// The presets of one store for the language bindings' listing, or the
/// whole table when no store is named. An unknown store name is an error.
pub fn devices_of(all: &[Device], store: Option<&str>) -> (r: Result<Vec<Device>, SelectError>)
    ensures
        match store {
            None => r matches Ok(v) && views(v@) == views(all@),
            Some(s) => match store_named(s@) {
                None => r matches Err(e) && e@ == Refusal::UnknownStore(s@),
                Some(st) => r matches Ok(v) && views(v@) == of_store(views(all@), st),
            },
        },
{
    match store {
        None => {
            let mut out: Vec<Device> = Vec::new();
            let mut i: usize = 0;
            while i < all.len()
                invariant
                    i <= all@.len(),
                    views(out@) == views(all@).take(i as int),
                decreases all.len() - i,
            {
                let ghost before = views(out@);
                let d = all[i].clone();
                out.push(d);
                assert(views(out@) =~= before.push(d@));
                assert(views(all@).take(i + 1) =~= views(all@).take(i as int).push(all@[i as int]@));
                i = i + 1;
            }
            assert(views(all@).take(all@.len() as int) =~= views(all@));
            Ok(out)
        },
        Some(s) => match parse_store(s) {
            None => Err(SelectError::UnknownStore(owned(s))),
            Some(st) => Ok(for_store(all, st)),
        },
    }
}

/// The determinism seed of a capture run: `--seed`, parsed as a `u64`, or
/// 42 when the flag is absent.
pub fn seed_flag(args: &Args) -> (r: Result<u64, String>)
    ensures
        match flag_last(args.flags(), "seed"@) {
            None => r == Ok::<u64, String>(42),
            Some(s) => match parse_unsigned(s, u64::MAX as nat) {
                Some(n) => r matches Ok(v) && v == n,
                None => r matches Err(m) && m@ == "bad --seed: "@ + s,
            },
        },
{
    match args.one("seed") {
        None => Ok(42),
        Some(s) => {
            let cs = chars_of(s);
            assert(cs@.skip(0) =~= s@);
            match parse_unsigned_at(cs.as_slice(), 0, u64::MAX) {
                Some(n) => Ok(n),
                None => {
                    let mut m = owned("bad --seed: ");
                    push_str(&mut m, s);
                    Err(m)
                },
            }
        },
    }
}

} // verus!
