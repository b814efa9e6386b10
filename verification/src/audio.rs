//! Commentary microphones: the audio inputs each OS lists, and the routing
//! guidance for the virtual camera, which carries no audio.
use vstd::prelude::*;
use crate::text::{
    chars_of, ends_with, eq_str, find_char, first_char, has_suffix, lemma_less_irreflexive,
    lemma_less_total, lemma_less_transitive, opt_view, seq_less, split_lines, str_less, str_lines,
    string_from_range, trim, trim_end, trim_end_str, trim_str,
};

verus! {

#[derive(Debug, Clone)]
pub struct AudioInputDevice {
    pub name: String,
    pub manufacturer: Option<String>,
    pub transport: Option<String>,
}

/// The device name on a line of FFmpeg's DirectShow listing, which reads
/// `... "<name>" (audio)`: the text after the first quote, up to the quote
/// that ends it before `(audio)`; nothing for other lines or an empty name.
pub open spec fn dshow_name(line: Seq<char>) -> Option<Seq<char>> {
    let t = trim_end(line);
    if ends_with(t, "(audio)"@) {
        let q = trim_end(t.subrange(0, t.len() - 7));
        match first_char(q, '"', 0) {
            Some(f) => {
                let rest = q.subrange(f + 1, q.len() as int);
                if rest.len() > 1 && rest.last() == '"' {
                    Some(rest.drop_last())
                } else {
                    None
                }
            },
            None => None,
        }
    } else {
        None
    }
}

/// The audio device names on the first `n` lines, in order.
pub open spec fn dshow_names(lines: Seq<Seq<char>>, n: int) -> Seq<Seq<char>>
    decreases n,
{
    if n <= 0 {
        seq![]
    } else {
        match dshow_name(lines[n - 1]) {
            Some(name) => dshow_names(lines, n - 1).push(name),
            None => dshow_names(lines, n - 1),
        }
    }
}

fn dshow_name_of(line: &str) -> (r: Option<String>)
    ensures
        opt_view(r) == dshow_name(line@),
{
    proof {
        reveal_strlit("(audio)");
    }
    let t = trim_end_str(line);
    if !has_suffix(t.as_str(), "(audio)") {
        return None;
    }
    let tv = chars_of(t.as_str());
    let head = string_from_range(&tv, 0, tv.len() - 7);
    let q = trim_end_str(head.as_str());
    let qv = chars_of(q.as_str());
    let f = match find_char(&qv, '"') {
        Some(f) => f,
        None => {
            return None;
        },
    };
    let rest = string_from_range(&qv, f + 1, qv.len());
    let rv = chars_of(rest.as_str());
    if rv.len() > 1 && rv[rv.len() - 1] == '"' {
        let name = string_from_range(&rv, 0, rv.len() - 1);
        assert(name@ =~= rest@.drop_last());
        Some(name)
    } else {
        None
    }
}

/// The audio devices in FFmpeg's DirectShow listing (`-list_devices`), in
/// the order listed. The names are exactly what `audio=<name>` takes.
pub fn parse_dshow_inputs(text: &str) -> (devices: Vec<AudioInputDevice>)
    ensures
        devices@.len() == dshow_names(str_lines(text@), str_lines(text@).len() as int).len(),
        forall|i: int|
            0 <= i < devices@.len() ==> {
                let d = #[trigger] devices@[i];
                &&& d.name@ == dshow_names(str_lines(text@), str_lines(text@).len() as int)[i]
                &&& d.manufacturer is None
                &&& d.transport matches Some(t) && t@ == "DirectShow"@
            },
{
    let lines = split_lines(text);
    let ghost ls = str_lines(text@);
    let mut devices: Vec<AudioInputDevice> = Vec::new();
    let mut i: usize = 0;
    while i < lines.len()
        invariant
            lines.deep_view() == ls,
            i <= ls.len(),
            devices@.len() == dshow_names(ls, i as int).len(),
            forall|k: int|
                0 <= k < devices@.len() ==> {
                    let d = #[trigger] devices@[k];
                    &&& d.name@ == dshow_names(ls, i as int)[k]
                    &&& d.manufacturer is None
                    &&& d.transport matches Some(t) && t@ == "DirectShow"@
                },
        decreases ls.len() - i,
    {
        assert(lines[i as int]@ == ls[i as int]);
        match dshow_name_of(lines[i].as_str()) {
            Some(name) => {
                devices.push(
                    AudioInputDevice {
                        name,
                        manufacturer: None,
                        transport: Some(String::from_str("DirectShow")),
                    },
                );
            },
            None => {},
        }
        i = i + 1;
    }
    devices
}

/// Devices ordered strictly by name.
pub open spec fn sorted_devices(ds: Seq<AudioInputDevice>) -> bool {
    forall|i: int, j: int| 0 <= i < j < ds.len() ==> seq_less(#[trigger] ds[i].name@, #[trigger] ds[j].name@)
}

/// The first device in `ds[0..n]` with each name.
pub open spec fn first_by_name(ds: Seq<AudioInputDevice>, n: int) -> Map<Seq<char>, AudioInputDevice>
    decreases n,
{
    if n <= 0 {
        Map::empty()
    } else {
        let m = first_by_name(ds, n - 1);
        if m.contains_key(ds[n - 1].name@) {
            m
        } else {
            m.insert(ds[n - 1].name@, ds[n - 1])
        }
    }
}

/// The devices list exactly the map, in name order.
pub open spec fn lists_devices(ds: Seq<AudioInputDevice>, m: Map<Seq<char>, AudioInputDevice>) -> bool {
    &&& sorted_devices(ds)
    &&& forall|i: int| 0 <= i < ds.len() ==> m.contains_key(#[trigger] ds[i].name@) && m[ds[i].name@] == ds[i]
    &&& forall|k: Seq<char>| m.contains_key(k) ==> exists|i: int| 0 <= i < ds.len() && #[trigger] ds[i].name@ == k
}


fn clone_text(o: &Option<String>) -> (r: Option<String>)
    ensures
        r == *o,
{
    match o {
        Some(s) => Some(s.clone()),
        None => None,
    }
}

impl AudioInputDevice {
    pub fn duplicate(&self) -> (d: Self)
        ensures
            d == *self,
    {
        AudioInputDevice {
            name: self.name.clone(),
            manufacturer: clone_text(&self.manufacturer),
            transport: clone_text(&self.transport),
        }
    }
}

fn insert_device(
    devices: &mut Vec<AudioInputDevice>,
    d: AudioInputDevice,
    Ghost(m): Ghost<Map<Seq<char>, AudioInputDevice>>,
)
    requires
        lists_devices(old(devices)@, m),
    ensures
        lists_devices(
            final(devices)@,
            if m.contains_key(d.name@) {
                m
            } else {
                m.insert(d.name@, d)
            },
        ),
{
    let ghost old_ds = devices@;
    let ghost n = d.name@;
    let mut p: usize = 0;
    while p < devices.len() && str_less(devices[p].name.as_str(), d.name.as_str())
        invariant
            devices@ == old_ds,
            n == d.name@,
            p <= devices@.len(),
            forall|i: int| 0 <= i < p ==> seq_less(#[trigger] devices@[i].name@, n),
        decreases devices@.len() - p,
    {
        p = p + 1;
    }
    if p < devices.len() && eq_str(devices[p].name.as_str(), d.name.as_str()) {
        assert(m.contains_key(n));
        return;
    }
    proof {
        if p < devices@.len() {
            lemma_less_total(devices@[p as int].name@, n);
        }
        if m.contains_key(n) {
            let i = choose|i: int| 0 <= i < old_ds.len() && #[trigger] old_ds[i].name@ == n;
            if i < p {
                lemma_less_irreflexive(n);
            } else if i > p {
                assert(seq_less(old_ds[p as int].name@, old_ds[i].name@));
                lemma_less_transitive(n, old_ds[p as int].name@, old_ds[i].name@);
                lemma_less_irreflexive(n);
            }
        }
    }
    let ghost m2 = m.insert(n, d);
    let ghost before = devices@;
    devices.insert(p, d);
    assert(forall|j: int| p <= j < before.len() ==> seq_less(n, #[trigger] before[j].name@)) by {
        assert forall|j: int| p <= j < before.len() implies seq_less(n, #[trigger] before[j].name@) by {
            if j > p {
                assert(seq_less(before[p as int].name@, before[j].name@));
                lemma_less_transitive(n, before[p as int].name@, before[j].name@);
            }
        }
    }
    assert(sorted_devices(devices@)) by {
        assert forall|i: int, j: int| 0 <= i < j < devices@.len() implies seq_less(
            #[trigger] devices@[i].name@,
            #[trigger] devices@[j].name@,
        ) by {
            if j < p {
                assert(devices@[i] == before[i] && devices@[j] == before[j]);
            } else if j == p {
                assert(devices@[i] == before[i]);
            } else if i == p {
                assert(devices@[j] == before[j - 1]);
            } else if i < p {
                assert(devices@[i] == before[i] && devices@[j] == before[j - 1]);
                lemma_less_transitive(before[i].name@, n, before[j - 1].name@);
            } else {
                assert(devices@[i] == before[i - 1] && devices@[j] == before[j - 1]);
            }
        }
    }
    assert forall|i: int| 0 <= i < devices@.len() implies m2.contains_key(
        #[trigger] devices@[i].name@,
    ) && m2[devices@[i].name@] == devices@[i] by {
        if i < p {
            assert(devices@[i] == before[i]);
            lemma_less_irreflexive(n);
        } else if i > p {
            assert(devices@[i] == before[i - 1]);
            lemma_less_irreflexive(n);
        }
    }
    assert forall|k: Seq<char>| m2.contains_key(k) implies exists|i: int|
        0 <= i < devices@.len() && #[trigger] devices@[i].name@ == k by {
        if k == n {
            assert(devices@[p as int].name@ == k);
        } else {
            let i = choose|i: int| 0 <= i < before.len() && #[trigger] before[i].name@ == k;
            if i < p {
                assert(devices@[i].name@ == k);
            } else {
                assert(devices@[i + 1].name@ == k);
            }
        }
    }
}

/// The devices ordered by name with each name once, the first listed kept
/// (`sort_by` name, then `dedup_by` name).
pub fn sort_dedup_by_name(devices: &Vec<AudioInputDevice>) -> (r: Vec<AudioInputDevice>)
    ensures
        lists_devices(r@, first_by_name(devices@, devices@.len() as int)),
{
    let mut r: Vec<AudioInputDevice> = Vec::new();
    let mut i: usize = 0;
    while i < devices.len()
        invariant
            i <= devices@.len(),
            lists_devices(r@, first_by_name(devices@, i as int)),
        decreases devices@.len() - i,
    {
        insert_device(&mut r, devices[i].duplicate(), Ghost(first_by_name(devices@, i as int)));
        i = i + 1;
    }
    r
}

/// The guidance the user interface shows for audio with the virtual camera.
#[derive(Debug, Clone)]
pub struct AudioRoutingNotice {
    pub virtual_camera_carries_audio: bool,
    pub physical_microphone_guidance: &'static str,
    pub virtual_audio_automation: &'static str,
}

/// The camera carries video only: one physical microphone is chosen in
/// TikTok LIVE Studio, and no virtual audio driver is set up.
pub fn routing_notice() -> (n: AudioRoutingNotice)
    ensures
        !n.virtual_camera_carries_audio,
        n.physical_microphone_guidance@
            == "DJI Live Bridge Camera carries video only. Set the camera source audio capture to None, then select exactly one physical microphone in TikTok LIVE Studio."@,
        n.virtual_audio_automation@
            == "UnsupportedAutomation: no third-party virtual-audio driver is installed or configured automatically."@,
{
    AudioRoutingNotice {
        virtual_camera_carries_audio: false,
        physical_microphone_guidance: "DJI Live Bridge Camera carries video only. Set the camera source audio capture to None, then select exactly one physical microphone in TikTok LIVE Studio.",
        virtual_audio_automation: "UnsupportedAutomation: no third-party virtual-audio driver is installed or configured automatically.",
    }
}


/// A JSON value of `system_profiler SPAudioDataType -json`, as far as the
/// device search reads it; an object keeps its members in the order they
/// are walked.
#[derive(Debug)]
pub enum ProfileValue {
    Array(Vec<ProfileValue>),
    Object(Vec<(String, ProfileValue)>),
    Bool(bool),
    /// A number, with its value where it is an integer that fits in 64 bits.
    Number(Option<u64>),
    Text(String),
    Null,
}

/// A device flag counts when it is true, a positive integer, or text other
/// than "", "0", "No" or "no" (once trimmed).
pub open spec fn nonzero(v: ProfileValue) -> bool {
    match v {
        ProfileValue::Bool(b) => b,
        ProfileValue::Number(n) => match n {
            Some(x) => x > 0,
            None => false,
        },
        ProfileValue::Text(s) => {
            let t = trim(s@);
            !(t == Seq::<char>::empty() || t == "0"@ || t == "No"@ || t == "no"@)
        },
        _ => false,
    }
}

pub fn nonzero_value(v: &ProfileValue) -> (b: bool)
    ensures
        b == nonzero(*v),
{
    match v {
        ProfileValue::Bool(b) => *b,
        ProfileValue::Number(n) => match n {
            Some(x) => *x > 0,
            None => false,
        },
        ProfileValue::Text(s) => {
            proof {
                reveal_strlit("");
            }
            let t = trim_str(s.as_str());
            assert(t@.len() == 0 ==> t@ =~= Seq::<char>::empty());
            !(t.unicode_len() == 0 || eq_str(t.as_str(), "0") || eq_str(t.as_str(), "No") || eq_str(
                t.as_str(),
                "no",
            ))
        },
        _ => false,
    }
}

/// The member named `key` of an object (the first, should it repeat).
pub open spec fn member(entries: Seq<(String, ProfileValue)>, key: Seq<char>) -> Option<ProfileValue>
    decreases entries.len(),
{
    if entries.len() == 0 {
        None
    } else {
        match member(entries.drop_last(), key) {
            Some(v) => Some(v),
            None => if entries.last().0@ == key {
                Some(entries.last().1)
            } else {
                None
            },
        }
    }
}

pub open spec fn member_text(entries: Seq<(String, ProfileValue)>, key: Seq<char>) -> Option<Seq<char>> {
    match member(entries, key) {
        Some(ProfileValue::Text(s)) => Some(s@),
        _ => None,
    }
}

/// The input device an object describes, if it is one: its
/// `coreaudio_device_input` counts and it has a `_name`.
pub open spec fn device_of(entries: Seq<(String, ProfileValue)>) -> Option<(Seq<char>, Option<Seq<char>>, Option<Seq<char>>)> {
    let is_input = match member(entries, "coreaudio_device_input"@) {
        Some(v) => nonzero(v),
        None => false,
    };
    match member_text(entries, "_name"@) {
        Some(name) => if is_input {
            Some(
                (
                    name,
                    member_text(entries, "coreaudio_device_manufacturer"@),
                    member_text(entries, "coreaudio_device_transport"@),
                ),
            )
        } else {
            None
        },
        None => None,
    }
}

/// A device as plain values: name, manufacturer, transport.
pub type DeviceView = (Seq<char>, Option<Seq<char>>, Option<Seq<char>>);

pub open spec fn device_view(d: AudioInputDevice) -> DeviceView {
    (d.name@, opt_view(d.manufacturer), opt_view(d.transport))
}

pub open spec fn device_views(ds: Seq<AudioInputDevice>) -> Seq<DeviceView> {
    ds.map_values(|d: AudioInputDevice| device_view(d))
}

/// The input devices found in a value, depth first: an object's own device
/// before those of its members, members and array items in order.
pub open spec fn inputs_in(v: ProfileValue) -> Seq<DeviceView>
    decreases v, 0int,
{
    match v {
        ProfileValue::Array(items) => inputs_in_items(items@, items@.len() as int),
        ProfileValue::Object(entries) => (match device_of(entries@) {
            Some(d) => seq![d],
            None => seq![],
        }) + inputs_in_members(entries@, entries@.len() as int),
        _ => seq![],
    }
}

pub open spec fn inputs_in_items(items: Seq<ProfileValue>, n: int) -> Seq<DeviceView>
    decreases items, n,
{
    if n <= 0 || n > items.len() {
        seq![]
    } else {
        inputs_in_items(items, n - 1) + inputs_in(items[n - 1])
    }
}

pub open spec fn inputs_in_members(entries: Seq<(String, ProfileValue)>, n: int) -> Seq<DeviceView>
    decreases entries, n,
{
    if n <= 0 || n > entries.len() {
        seq![]
    } else {
        inputs_in_members(entries, n - 1) + inputs_in(entries[n - 1].1)
    }
}

fn member_of<'a>(entries: &'a Vec<(String, ProfileValue)>, key: &str) -> (r: Option<&'a ProfileValue>)
    ensures
        match member(entries@, key@) {
            Some(v) => r matches Some(x) && *x == v,
            None => r is None,
        },
{
    let mut i: usize = 0;
    while i < entries.len()
        invariant
            i <= entries@.len(),
            member(entries@.subrange(0, i as int), key@) is None,
        decreases entries@.len() - i,
    {
        assert(entries@.subrange(0, i + 1).drop_last() =~= entries@.subrange(0, i as int));
        if eq_str(entries[i].0.as_str(), key) {
            proof {
                lemma_member_prefix(entries@, key@, i as int + 1);
            }
            return Some(&entries[i].1);
        }
        i = i + 1;
    }
    assert(entries@.subrange(0, i as int) =~= entries@);
    None
}

proof fn lemma_member_prefix(entries: Seq<(String, ProfileValue)>, key: Seq<char>, n: int)
    requires
        0 < n <= entries.len(),
        member(entries.subrange(0, n), key) is Some,
    ensures
        member(entries, key) == member(entries.subrange(0, n), key),
    decreases entries.len() - n,
{
    if n < entries.len() {
        assert(entries.subrange(0, n + 1).drop_last() =~= entries.subrange(0, n));
        lemma_member_prefix(entries, key, n + 1);
    } else {
        assert(entries.subrange(0, n) =~= entries);
    }
}

fn member_text_of(entries: &Vec<(String, ProfileValue)>, key: &str) -> (r: Option<String>)
    ensures
        opt_view(r) == member_text(entries@, key@),
{
    match member_of(entries, key) {
        Some(ProfileValue::Text(s)) => Some(s.clone()),
        _ => None,
    }
}

fn device_in(entries: &Vec<(String, ProfileValue)>) -> (r: Option<AudioInputDevice>)
    ensures
        match device_of(entries@) {
            Some(d) => r matches Some(x) && device_view(x) == d,
            None => r is None,
        },
{
    let is_input = match member_of(entries, "coreaudio_device_input") {
        Some(v) => nonzero_value(v),
        None => false,
    };
    match member_text_of(entries, "_name") {
        Some(name) => if is_input {
            Some(
                AudioInputDevice {
                    name,
                    manufacturer: member_text_of(entries, "coreaudio_device_manufacturer"),
                    transport: member_text_of(entries, "coreaudio_device_transport"),
                },
            )
        } else {
            None
        },
        None => None,
    }
}

/// Appends the input devices found in `value`, depth first.
pub fn collect_inputs(value: &ProfileValue, devices: &mut Vec<AudioInputDevice>)
    ensures
        device_views(final(devices)@) == device_views(old(devices)@) + inputs_in(*value),
    decreases value, 0int,
{
    match value {
        ProfileValue::Array(items) => {
            let ghost start = device_views(devices@);
            let mut i: usize = 0;
            while i < items.len()
                invariant
                    i <= items@.len(),
                    *value == ProfileValue::Array(*items),
                    device_views(devices@) == start + inputs_in_items(items@, i as int),
                decreases items@.len() - i,
            {
                proof {
                    assert(decreases_to!(*value => value->Array_0));
                    assert(decreases_to!(*items => items@));
                    assert(decreases_to!(items@ => items@[i as int]));
                }
                collect_inputs(&items[i], devices);
                assert(start + inputs_in_items(items@, i + 1) =~= start + inputs_in_items(
                    items@,
                    i as int,
                ) + inputs_in(items@[i as int]));
                i = i + 1;
            }
        },
        ProfileValue::Object(entries) => {
            let ghost start = device_views(devices@);
            match device_in(entries) {
                Some(d) => {
                    let ghost before = devices@;
                    devices.push(d);
                    assert(device_views(devices@) =~= device_views(before).push(device_view(d)));
                },
                None => {},
            }
            let ghost own = device_views(devices@);
            let mut i: usize = 0;
            while i < entries.len()
                invariant
                    i <= entries@.len(),
                    *value == ProfileValue::Object(*entries),
                    device_views(devices@) == own + inputs_in_members(entries@, i as int),
                decreases entries@.len() - i,
            {
                proof {
                    assert(decreases_to!(*value => value->Object_0));
                    assert(decreases_to!(*entries => entries@));
                    assert(decreases_to!(entries@ => entries@[i as int]));
                    assert(decreases_to!(entries@[i as int] => entries@[i as int].1));
                }
                collect_inputs(&entries[i].1, devices);
                assert(own + inputs_in_members(entries@, i + 1) =~= own + inputs_in_members(
                    entries@,
                    i as int,
                ) + inputs_in(entries@[i as int].1));
                i = i + 1;
            }
        },
        _ => {
            assert(device_views(devices@) =~= device_views(devices@) + Seq::<DeviceView>::empty());
        },
    }
}


/// The commentary microphones `system_profiler` lists on macOS: the input
/// devices found, by name, each once.
pub fn input_devices_from_profile(root: &ProfileValue) -> (r: Vec<AudioInputDevice>)
    ensures
        exists|found: Seq<AudioInputDevice>|
            device_views(found) == inputs_in(*root) && lists_devices(
                r@,
                first_by_name(found, found.len() as int),
            ),
{
    let mut found: Vec<AudioInputDevice> = Vec::new();
    collect_inputs(root, &mut found);
    assert(device_views(Seq::<AudioInputDevice>::empty()) =~= Seq::<DeviceView>::empty());
    assert(Seq::<DeviceView>::empty() + inputs_in(*root) =~= inputs_in(*root));
    sort_dedup_by_name(&found)
}

/// The commentary microphones FFmpeg's DirectShow listing names on
/// Windows, by name, each once.
pub fn input_devices_from_dshow(listing: &str) -> (r: Vec<AudioInputDevice>)
    ensures
        exists|found: Seq<AudioInputDevice>|
            found.len() == dshow_names(str_lines(listing@), str_lines(listing@).len() as int).len()
                && (forall|i: int|
                0 <= i < found.len() ==> #[trigger] found[i].name@ == dshow_names(
                    str_lines(listing@),
                    str_lines(listing@).len() as int,
                )[i]) && lists_devices(r@, first_by_name(found, found.len() as int)),
{
    let found = parse_dshow_inputs(listing);
    sort_dedup_by_name(&found)
}

} // verus!
