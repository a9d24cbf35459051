//! macOS route selection: the sources offered from a Core Audio probe, the
//! capture path chosen for a source id, Rekordbox application matching and
//! the rendering of Core Audio status codes.
use vstd::prelude::*;

use crate::scan::{find_exec, find_from, lemma_find_from, parse_u32, parse_u32_exec, slice, trim, trim_exec};
use crate::sources::{source_views, AudioSourceInfo, AudioSourceKind, SourceSpec};
use crate::text::{
    ascii_lowercase_chars, chars_of, contains_chars, decimal_digits, eq_ignore_ascii_case, equals,
    has_prefix, owned, push_char, push_decimal, push_str, spec_ascii_lowercase, spec_contains,
    spec_eq_ignore_ascii_case, starts_with, string_from_chars,
};

verus! {

/// The macOS capture backend.
pub struct Backend;

/// An input device reported by the host audio API.
#[derive(Clone, Debug)]
pub struct InputDevice {
    pub id: String,
    pub name: String,
}

/// What one probe of the Mac's audio system found.
#[derive(Clone, Debug)]
pub struct MacAudioProbe {
    /// The OS supports private process taps (macOS 14.2 or later).
    pub supported: bool,
    /// A Rekordbox application is running.
    pub rekordbox_detected: bool,
    /// The name of the default output device, when there is one.
    pub default_output_name: Option<String>,
    /// The input devices, or `None` when they could not be listed.
    pub inputs: Option<Vec<InputDevice>>,
    /// The id of the default input device, when there is one.
    pub default_input_id: Option<String>,
}

pub open spec fn mac_process_source(probe: MacAudioProbe) -> SourceSpec {
    SourceSpec {
        id: "process:auto"@,
        name: if !probe.supported {
            "Rekordbox process (requires macOS 14.2+)"@
        } else if probe.rekordbox_detected {
            "Rekordbox process (Detected)"@
        } else {
            "Rekordbox process (Not running)"@
        },
        kind: AudioSourceKind::RekordboxProcess,
        detected: probe.rekordbox_detected,
        is_default: true,
        available: probe.supported,
    }
}

pub open spec fn output_name(probe: MacAudioProbe) -> Seq<char> {
    match probe.default_output_name {
        Some(name) => name@,
        None => "Default speakers"@,
    }
}

pub open spec fn mac_system_source(probe: MacAudioProbe) -> SourceSpec {
    SourceSpec {
        id: "output:default"@,
        name: if probe.supported {
            "System audio · "@ + output_name(probe)
        } else {
            "System audio (requires macOS 14.2+)"@
        },
        kind: AudioSourceKind::OutputDevice,
        detected: true,
        is_default: false,
        available: probe.supported,
    }
}

pub open spec fn input_source(device: InputDevice, default_id: Option<String>) -> SourceSpec {
    SourceSpec {
        id: "input:"@ + device.id@,
        name: "Input · "@ + device.name@,
        kind: AudioSourceKind::InputDevice,
        detected: true,
        is_default: default_id is Some && default_id->0@ == device.id@,
        available: true,
    }
}

/// The input sources of a probe, in the order the host listed them.
pub open spec fn listed_inputs(probe: MacAudioProbe) -> Seq<SourceSpec> {
    match probe.inputs {
        Some(devices) => devices@.map_values(
            |d: InputDevice| input_source(d, probe.default_input_id),
        ),
        None => Seq::empty(),
    }
}

/// Lexicographic order of texts by character code.
pub open spec fn text_le(a: Seq<char>, b: Seq<char>) -> bool
    decreases a.len(),
{
    if a.len() == 0 {
        true
    } else if b.len() == 0 {
        false
    } else if (a[0] as u32) < (b[0] as u32) {
        true
    } else if (a[0] as u32) > (b[0] as u32) {
        false
    } else {
        text_le(a.drop_first(), b.drop_first())
    }
}

/// Input `a` may be listed before input `b`: default inputs first, then by
/// name.
pub open spec fn input_precedes(a: SourceSpec, b: SourceSpec) -> bool {
    (a.is_default && !b.is_default) || (a.is_default == b.is_default && text_le(a.name, b.name))
}

/// Every input is listed no later than the inputs it may precede.
pub open spec fn inputs_sorted(s: Seq<SourceSpec>) -> bool {
    forall|i: int, j: int| 0 <= i < j < s.len() ==> #[trigger] input_precedes(s[i], s[j])
}

/// `x` inserted into `s` after every input that may precede it: after the
/// leading inputs it does not strictly precede, so that equal inputs keep
/// their order.
pub open spec fn insert_input(s: Seq<SourceSpec>, x: SourceSpec) -> Seq<SourceSpec>
    decreases s.len(),
{
    if s.len() == 0 {
        seq![x]
    } else if input_precedes(s[0], x) {
        seq![s[0]] + insert_input(s.drop_first(), x)
    } else {
        seq![x] + s
    }
}

/// The inputs in listing order, by stable insertion: default inputs first,
/// then by name, and inputs that compare equal in the order given.
pub open spec fn stable_input_order(s: Seq<SourceSpec>) -> Seq<SourceSpec>
    decreases s.len(),
{
    if s.len() == 0 {
        s
    } else {
        insert_input(stable_input_order(s.drop_last()), s.last())
    }
}

proof fn lemma_insert_at(s: Seq<SourceSpec>, x: SourceSpec, p: int)
    requires
        0 <= p <= s.len(),
        forall|k: int| 0 <= k < p ==> input_precedes(s[k], x),
        p < s.len() ==> !input_precedes(s[p], x),
    ensures
        insert_input(s, x) == s.take(p).push(x) + s.skip(p),
    decreases s.len(),
{
    if s.len() == 0 {
        assert(s.take(p).push(x) + s.skip(p) =~= seq![x]);
    } else if p == 0 {
        assert(s.take(0).push(x) + s.skip(0) =~= seq![x] + s);
    } else {
        let t = s.drop_first();
        assert forall|k: int| 0 <= k < p - 1 implies input_precedes(t[k], x) by {
            assert(t[k] == s[k + 1]);
        }
        if p < s.len() {
            assert(t[p - 1] == s[p]);
        }
        lemma_insert_at(t, x, p - 1);
        assert(seq![s[0]] + (t.take(p - 1).push(x) + t.skip(p - 1)) =~= s.take(p).push(x) + s.skip(
            p,
        ));
    }
}

proof fn lemma_text_le_total(a: Seq<char>, b: Seq<char>)
    ensures
        text_le(a, b) || text_le(b, a),
    decreases a.len(),
{
    if a.len() > 0 && b.len() > 0 && (a[0] as u32) == (b[0] as u32) {
        lemma_text_le_total(a.drop_first(), b.drop_first());
    }
}

proof fn lemma_text_le_transitive(a: Seq<char>, b: Seq<char>, c: Seq<char>)
    requires
        text_le(a, b),
        text_le(b, c),
    ensures
        text_le(a, c),
    decreases a.len(),
{
    if a.len() > 0 && b.len() > 0 && c.len() > 0 && (a[0] as u32) == (b[0] as u32) && (b[0] as u32)
        == (c[0] as u32) {
        lemma_text_le_transitive(a.drop_first(), b.drop_first(), c.drop_first());
    }
}

proof fn lemma_precedes_total(a: SourceSpec, b: SourceSpec)
    ensures
        input_precedes(a, b) || input_precedes(b, a),
{
    lemma_text_le_total(a.name, b.name);
}

proof fn lemma_precedes_transitive(a: SourceSpec, b: SourceSpec, c: SourceSpec)
    requires
        input_precedes(a, b),
        input_precedes(b, c),
    ensures
        input_precedes(a, c),
{
    if a.is_default == b.is_default && b.is_default == c.is_default {
        lemma_text_le_transitive(a.name, b.name, c.name);
    }
}

fn text_le_exec(a: &Vec<char>, b: &Vec<char>) -> (r: bool)
    ensures
        r == text_le(a@, b@),
{
    let mut i: usize = 0;
    assert(a@.skip(0) =~= a@);
    assert(b@.skip(0) =~= b@);
    while i < a.len() && i < b.len()
        invariant
            i <= a.len(),
            i <= b.len(),
            text_le(a@, b@) == text_le(a@.skip(i as int), b@.skip(i as int)),
        decreases a.len() - i,
    {
        assert(a@.skip(i as int).drop_first() =~= a@.skip(i + 1));
        assert(b@.skip(i as int).drop_first() =~= b@.skip(i + 1));
        if (a[i] as u32) < (b[i] as u32) {
            return true;
        }
        if (a[i] as u32) > (b[i] as u32) {
            return false;
        }
        i = i + 1;
    }
    i == a.len()
}

fn precedes(a: &AudioSourceInfo, b: &AudioSourceInfo) -> (r: bool)
    ensures
        r == input_precedes(a@, b@),
{
    if a.is_default != b.is_default {
        return a.is_default;
    }
    let an = chars_of(a.name.as_str());
    let bn = chars_of(b.name.as_str());
    text_le_exec(&an, &bn)
}

/// Orders input sources with default inputs first and then by name; the
/// result holds exactly the given sources.
pub fn sort_inputs(inputs: Vec<AudioSourceInfo>) -> (r: Vec<AudioSourceInfo>)
    ensures
        source_views(r@) == stable_input_order(source_views(inputs@)),
        source_views(r@).to_multiset() == source_views(inputs@).to_multiset(),
        inputs_sorted(source_views(r@)),
{
    broadcast use vstd::seq_lib::group_to_multiset_ensures;

    let mut sorted: Vec<AudioSourceInfo> = Vec::new();
    let mut rest = inputs;
    let ghost initial = source_views(rest@);
    let mut taken: usize = 0;
    let count = rest.len();
    assert(initial.len() == count);
    assert(initial.take(0) =~= Seq::<SourceSpec>::empty());
    assert(source_views(sorted@) =~= Seq::<SourceSpec>::empty());
    while rest.len() > 0
        invariant
            taken + rest.len() == initial.len(),
            initial.len() <= usize::MAX,
            source_views(rest@) == initial.skip(taken as int),
            source_views(sorted@).to_multiset() == initial.take(taken as int).to_multiset(),
            inputs_sorted(source_views(sorted@)),
            source_views(sorted@) == stable_input_order(initial.take(taken as int)),
        decreases rest.len(),
    {
        let ghost rest_before = rest@;
        let item = rest.remove(0);
        proof {
            assert(source_views(rest_before)[0] == item@);
            assert(initial.skip(taken as int)[0] == initial[taken as int]);
            assert(source_views(rest@) =~= source_views(rest_before).drop_first());
            assert(initial.skip(taken as int).drop_first() =~= initial.skip(taken + 1));
            assert(initial.take(taken + 1) =~= initial.take(taken as int).push(item@));
        }
        let mut position: usize = 0;
        while position < sorted.len() && precedes(&sorted[position as usize], &item)
            invariant
                position <= sorted.len(),
                forall|k: int| 0 <= k < position ==> input_precedes(source_views(sorted@)[k], item@),
            decreases sorted.len() - position,
        {
            position = position + 1;
        }
        let ghost before = source_views(sorted@);
        proof {
            assert forall|k: int| position <= k < before.len() implies input_precedes(
                item@,
                before[k],
            ) by {
                if !input_precedes(before[position as int], item@) {
                    lemma_precedes_total(before[position as int], item@);
                    if k > position {
                        assert(input_precedes(before[position as int], before[k]));
                        lemma_precedes_transitive(item@, before[position as int], before[k]);
                    }
                }
            }
        }
        sorted.insert(position, item);
        proof {
            let after = source_views(sorted@);
            lemma_insert_at(before, item@, position as int);
            assert(initial.take(taken + 1).drop_last() =~= initial.take(taken as int));
            assert(initial.take(taken + 1).last() == item@);
            assert(after =~= before.take(position as int).push(item@) + before.skip(
                position as int,
            ));
            assert(before =~= before.take(position as int) + before.skip(position as int));
            vstd::seq_lib::lemma_multiset_commutative(
                before.take(position as int).push(item@),
                before.skip(position as int),
            );
            vstd::seq_lib::lemma_multiset_commutative(
                before.take(position as int),
                before.skip(position as int),
            );
            broadcast use vstd::multiset::group_multiset_axioms;

            vstd::seq_lib::to_multiset_build(before.take(position as int), item@);
            vstd::seq_lib::to_multiset_build(initial.take(taken as int), item@);
            assert(before.take(position as int).push(item@).to_multiset() =~= before.take(
                position as int,
            ).to_multiset().insert(item@));
            assert(after.to_multiset() =~= before.to_multiset().insert(item@));
            assert(initial.take(taken + 1).to_multiset() =~= initial.take(
                taken as int,
            ).to_multiset().insert(item@));
            assert forall|i: int, j: int| 0 <= i < j < after.len() implies #[trigger] input_precedes(
                after[i],
                after[j],
            ) by {
                if j < position {
                    assert(after[i] == before[i] && after[j] == before[j]);
                } else if j == position {
                    assert(after[i] == before[i] && after[j] == item@);
                } else if i < position {
                    assert(after[i] == before[i] && after[j] == before[j - 1]);
                    assert(input_precedes(before[i], item@));
                    assert(input_precedes(item@, before[j - 1]));
                    lemma_precedes_transitive(after[i], item@, after[j]);
                } else if i == position {
                    assert(after[i] == item@ && after[j] == before[j - 1]);
                } else {
                    assert(after[i] == before[i - 1] && after[j] == before[j - 1]);
                }
            }
        }
        taken = taken + 1;
    }
    assert(initial.take(initial.len() as int) =~= initial);
    sorted
}

fn concat(a: &str, b: &str) -> (r: String)
    ensures
        r@ == a@ + b@,
{
    let mut r = owned(a);
    push_str(&mut r, b);
    r
}

fn matches_default(default_id: &Option<String>, id: &String) -> (r: bool)
    ensures
        r == (default_id is Some && default_id->0@ == id@),
{
    match default_id {
        Some(d) => {
            let dc = chars_of(d.as_str());
            equals(&dc, id.as_str())
        },
        None => false,
    }
}

impl Backend {
    /// The sources offered from one probe: the Rekordbox process tap, the
    /// all-system-audio tap, then the input devices with default inputs
    /// first and the rest by name.
    pub fn enumerate_sources(probe: &MacAudioProbe) -> (r: Result<Vec<AudioSourceInfo>, String>)
        ensures
            r is Ok,
            r matches Ok(v) ==> v@.len() >= 2 && source_views(v@)[0] == mac_process_source(*probe)
                && source_views(v@)[1] == mac_system_source(*probe),
            r matches Ok(v) ==> source_views(v@).skip(2) == stable_input_order(listed_inputs(*probe)),
            r matches Ok(v) ==> source_views(v@).skip(2).to_multiset() == listed_inputs(
                *probe,
            ).to_multiset(),
            r matches Ok(v) ==> inputs_sorted(source_views(v@).skip(2)),
    {
        let process_name = if !probe.supported {
            owned("Rekordbox process (requires macOS 14.2+)")
        } else if probe.rekordbox_detected {
            owned("Rekordbox process (Detected)")
        } else {
            owned("Rekordbox process (Not running)")
        };
        let system_name = if probe.supported {
            match &probe.default_output_name {
                Some(name) => concat("System audio · ", name.as_str()),
                None => concat("System audio · ", "Default speakers"),
            }
        } else {
            owned("System audio (requires macOS 14.2+)")
        };
        let mut sources: Vec<AudioSourceInfo> = Vec::new();
        sources.push(
            AudioSourceInfo {
                id: owned("process:auto"),
                name: process_name,
                kind: AudioSourceKind::RekordboxProcess,
                detected: probe.rekordbox_detected,
                is_default: true,
                available: probe.supported,
            },
        );
        sources.push(
            AudioSourceInfo {
                id: owned("output:default"),
                name: system_name,
                kind: AudioSourceKind::OutputDevice,
                detected: true,
                is_default: false,
                available: probe.supported,
            },
        );
        let mut inputs: Vec<AudioSourceInfo> = Vec::new();
        match &probe.inputs {
            Some(devices) => {
                let mut i: usize = 0;
                while i < devices.len()
                    invariant
                        i <= devices.len(),
                        probe.inputs == Some(*devices),
                        source_views(inputs@) =~= devices@.take(i as int).map_values(
                            |d: InputDevice| input_source(d, probe.default_input_id),
                        ),
                    decreases devices.len() - i,
                {
                    let device = &devices[i];
                    let info = AudioSourceInfo {
                        id: concat("input:", device.id.as_str()),
                        name: concat("Input · ", device.name.as_str()),
                        kind: AudioSourceKind::InputDevice,
                        detected: true,
                        is_default: matches_default(&probe.default_input_id, &device.id),
                        available: true,
                    };
                    let ghost prior = inputs@;
                    inputs.push(info);
                    proof {
                        assert(inputs@ =~= prior.push(info));
                        assert(source_views(inputs@) =~= source_views(prior).push(info@));
                        assert(devices@.take(i + 1) =~= devices@.take(i as int).push(
                            devices@[i as int],
                        ));
                    }
                    i = i + 1;
                }
                assert(devices@.take(devices.len() as int) =~= devices@);
                assert(source_views(inputs@) =~= listed_inputs(*probe));
            },
            None => {
                assert(source_views(inputs@) =~= listed_inputs(*probe));
            },
        }
        let ghost head = source_views(sources@);
        let ordered = sort_inputs(inputs);
        let mut k: usize = 0;
        while k < ordered.len()
            invariant
                k <= ordered.len(),
                head.len() == 2,
                source_views(sources@) =~= head + source_views(ordered@).take(k as int),
            decreases ordered.len() - k,
        {
            let ghost prior = sources@;
            let item = AudioSourceInfo {
                id: owned(ordered[k].id.as_str()),
                name: owned(ordered[k].name.as_str()),
                kind: ordered[k].kind,
                detected: ordered[k].detected,
                is_default: ordered[k].is_default,
                available: ordered[k].available,
            };
            sources.push(item);
            proof {
                assert(sources@ =~= prior.push(item));
                assert(source_views(sources@) =~= source_views(prior).push(item@));
                assert(source_views(ordered@).take(k + 1) =~= source_views(ordered@).take(
                    k as int,
                ).push(source_views(ordered@)[k as int]));
            }
            k = k + 1;
        }
        proof {
            assert(source_views(ordered@).take(ordered.len() as int) =~= source_views(ordered@));
            assert(source_views(sources@).skip(2) =~= source_views(ordered@));
        }
        Ok(sources)
    }
}

/// Every input source offered by a probe is a named input route: its id
/// begins with "input:".
pub proof fn law_inputs_are_prefixed(probe: MacAudioProbe, sources: Seq<SourceSpec>)
    requires
        sources.len() >= 2,
        sources.skip(2).to_multiset() == listed_inputs(probe).to_multiset(),
    ensures
        forall|i: int|
            2 <= i < sources.len() ==> #[trigger] sources[i].kind == AudioSourceKind::InputDevice
                && has_prefix(sources[i].id, "input:"@),
{
    broadcast use vstd::seq_lib::group_to_multiset_ensures;

    reveal_strlit("input:");
    assert forall|i: int| 2 <= i < sources.len() implies #[trigger] sources[i].kind
        == AudioSourceKind::InputDevice && has_prefix(sources[i].id, "input:"@) by {
        let x = sources[i];
        assert(sources.skip(2)[i - 2] == x);
        assert(sources.skip(2).contains(x));
        assert(listed_inputs(probe).to_multiset().count(x) > 0);
        assert(listed_inputs(probe).contains(x));
        let j = choose|j: int| 0 <= j < listed_inputs(probe).len() && listed_inputs(probe)[j] == x;
        assert(probe.inputs is Some);
        let devices = probe.inputs->0;
        assert(listed_inputs(probe)[j] == input_source(devices@[j], probe.default_input_id));
        assert(x.id =~= "input:"@ + devices@[j].id@);
        assert(x.id.subrange(0, 6) =~= "input:"@);
    }
}

/// The capture path a macOS source id selects.
#[derive(Clone, Copy, Debug, PartialEq, Eq, Structural)]
pub enum MacCapture {
    /// The Rekordbox process tap.
    RekordboxProcess,
    /// The tap on all outgoing system audio.
    SystemOutput,
    /// A selected input device.
    Input,
}

/// The capture path for `source_id`, or `None` for an id macOS does not
/// offer.
pub open spec fn mac_capture_for(source_id: Seq<char>) -> Option<MacCapture> {
    if source_id == "output:default"@ {
        Some(MacCapture::SystemOutput)
    } else if has_prefix(source_id, "input:"@) {
        Some(MacCapture::Input)
    } else if source_id == "process:auto"@ {
        Some(MacCapture::RekordboxProcess)
    } else {
        None
    }
}

/// Every route offered on macOS can be captured, by the path it names: the
/// process route taps Rekordbox, the system route taps all outgoing audio,
/// and each input route opens its input device.
pub proof fn law_offered_mac_routes_capture_what_they_name(
    probe: MacAudioProbe,
    device: InputDevice,
    default_id: Option<String>,
)
    ensures
        mac_capture_for(mac_process_source(probe).id) == Some(MacCapture::RekordboxProcess),
        mac_capture_for(mac_system_source(probe).id) == Some(MacCapture::SystemOutput),
        mac_capture_for(input_source(device, default_id).id) == Some(MacCapture::Input),
{
    reveal_strlit("process:auto");
    reveal_strlit("output:default");
    reveal_strlit("input:");
    let id = "input:"@ + device.id@;
    assert(id.subrange(0, 6) =~= "input:"@);
    assert(id != "output:default"@) by {
        if id == "output:default"@ {
            assert(id[0] == 'i');
        }
    }
    assert("process:auto"@ != "output:default"@) by {
        assert("process:auto"@[0] != "output:default"@[0]);
    }
    assert(!has_prefix("process:auto"@, "input:"@)) by {
        assert("process:auto"@.subrange(0, 6)[0] == 'p');
    }
}

/// The capture path for a source id; an id other than the process tap, the
/// system output or an input device is rejected.
pub fn capture_for_source(source_id: &str) -> (r: Result<MacCapture, String>)
    ensures
        match r {
            Ok(c) => mac_capture_for(source_id@) == Some(c),
            Err(e) => mac_capture_for(source_id@) is None && e@ == "Unknown macOS audio source"@,
        },
{
    let id = chars_of(source_id);
    if equals(&id, "output:default") {
        Ok(MacCapture::SystemOutput)
    } else if starts_with(&id, "input:") {
        Ok(MacCapture::Input)
    } else if equals(&id, "process:auto") {
        Ok(MacCapture::RekordboxProcess)
    } else {
        Err(owned("Unknown macOS audio source"))
    }
}

/// The big-endian bytes of a status code.
pub open spec fn status_bytes(status: i32) -> Seq<u8> {
    let u: int = if status < 0 {
        status + 0x1_0000_0000
    } else {
        status as int
    };
    seq![
        (u / 0x100_0000) as u8,
        ((u / 0x1_0000) % 0x100) as u8,
        ((u / 0x100) % 0x100) as u8,
        (u % 0x100) as u8,
    ]
}

/// A byte renders as itself in a four-character code: a visible ASCII
/// character or a space.
pub open spec fn is_fourcc_byte(b: u8) -> bool {
    0x20 <= b <= 0x7e
}

/// The four-character rendering of a status code, or "non-printable".
pub open spec fn spec_fourcc(status: i32) -> Seq<char> {
    let bytes = status_bytes(status);
    if forall|i: int| 0 <= i < 4 ==> is_fourcc_byte(#[trigger] bytes[i]) {
        bytes.map_values(|b: u8| (b as u32) as char)
    } else {
        "non-printable"@
    }
}

/// Renders a Core Audio status as its four-character code when all four
/// big-endian bytes are printable ASCII, and as "non-printable" otherwise.
pub fn fourcc(status: i32) -> (r: String)
    ensures
        r@ == spec_fourcc(status),
{
    let u: u32 = if status < 0 {
        (status as i64 + 0x1_0000_0000i64) as u32
    } else {
        status as u32
    };
    let b0: u8 = (u / 0x100_0000) as u8;
    let b1: u8 = ((u / 0x1_0000) % 0x100) as u8;
    let b2: u8 = ((u / 0x100) % 0x100) as u8;
    let b3: u8 = (u % 0x100) as u8;
    let ghost bytes = status_bytes(status);
    assert(bytes =~= seq![b0, b1, b2, b3]);
    let printable = 0x20 <= b0 && b0 <= 0x7e && 0x20 <= b1 && b1 <= 0x7e && 0x20 <= b2 && b2
        <= 0x7e && 0x20 <= b3 && b3 <= 0x7e;
    if printable {
        let mut r = String::new();
        push_char(&mut r, b0 as char);
        push_char(&mut r, b1 as char);
        push_char(&mut r, b2 as char);
        push_char(&mut r, b3 as char);
        assert(r@ =~= bytes.map_values(|b: u8| (b as u32) as char));
        r
    } else {
        proof {
            if forall|i: int| 0 <= i < 4 ==> is_fourcc_byte(#[trigger] bytes[i]) {
                assert(is_fourcc_byte(bytes[0]) && is_fourcc_byte(bytes[1]) && is_fourcc_byte(
                    bytes[2],
                ) && is_fourcc_byte(bytes[3]));
            }
        }
        owned("non-printable")
    }
}

/// Decimal rendering of a signed integer, with a leading '-' when negative.
pub open spec fn signed_decimal(n: int) -> Seq<char> {
    if n < 0 {
        seq!['-'] + decimal_digits((-n) as nat)
    } else {
        decimal_digits(n as nat)
    }
}

/// The message of a failed Core Audio call.
pub open spec fn status_message(status: i32, code: Seq<char>, message: Seq<char>) -> Seq<char> {
    code + ": "@ + message + " (OSStatus "@ + signed_decimal(status as int) + ", '"@ + spec_fourcc(
        status,
    ) + "')"@
}

/// Succeeds for a zero status and otherwise reports the stable code, the
/// message, and the status both numerically and as a four-character code.
pub fn check_status(status: i32, code: &str, message: &str) -> (r: Result<(), String>)
    ensures
        r is Ok <==> status == 0,
        r matches Err(e) ==> e@ == status_message(status, code@, message@),
{
    if status == 0 {
        Ok(())
    } else {
        let mut text = owned(code);
        push_str(&mut text, ": ");
        push_str(&mut text, message);
        push_str(&mut text, " (OSStatus ");
        if status < 0 {
            push_char(&mut text, '-');
            push_decimal(&mut text, (-(status as i64)) as u64);
        } else {
            push_decimal(&mut text, status as u64);
        }
        push_str(&mut text, ", '");
        let code4 = fourcc(status);
        push_str(&mut text, code4.as_str());
        push_str(&mut text, "')");
        proof {
            if status < 0 {
                assert(signed_decimal(status as int) =~= seq!['-'] + decimal_digits(
                    (-(status as int)) as nat,
                ));
            }
        }
        Err(text)
    }
}

/// A running application as the workspace reports it.
#[derive(Clone, Debug)]
pub struct RunningApplication {
    pub pid: i32,
    pub name: Option<String>,
    pub bundle_id: Option<String>,
}

/// An application is Rekordbox when its name is "rekordbox" (ignoring ASCII
/// case) or its bundle id mentions "rekordbox" or "pioneer.dj" (ignoring
/// ASCII case).
pub open spec fn spec_is_rekordbox_application(app: RunningApplication) -> bool {
    (app.name is Some && spec_eq_ignore_ascii_case(app.name->0@, "rekordbox"@)) || (app.bundle_id
        is Some && (spec_contains(spec_ascii_lowercase(app.bundle_id->0@), "rekordbox"@)
        || spec_contains(spec_ascii_lowercase(app.bundle_id->0@), "pioneer.dj"@)))
}

/// Whether `app` is a Rekordbox application.
pub fn is_rekordbox_application(app: &RunningApplication) -> (r: bool)
    ensures
        r == spec_is_rekordbox_application(*app),
{
    let by_name = match &app.name {
        Some(name) => {
            let n = chars_of(name.as_str());
            let target = chars_of("rekordbox");
            eq_ignore_ascii_case(&n, &target)
        },
        None => false,
    };
    if by_name {
        return true;
    }
    match &app.bundle_id {
        Some(bundle) => {
            let lowered = ascii_lowercase_chars(bundle.as_str());
            let first = chars_of("rekordbox");
            let second = chars_of("pioneer.dj");
            contains_chars(&lowered, &first) || contains_chars(&lowered, &second)
        },
        None => false,
    }
}

/// The index of the Rekordbox application to tap: among Rekordbox
/// applications with a positive pid, the one with the smallest pid (the
/// earliest listed on a tie).
pub open spec fn is_chosen_application(apps: Seq<RunningApplication>, i: int) -> bool {
    &&& 0 <= i < apps.len()
    &&& spec_is_rekordbox_application(apps[i]) && apps[i].pid > 0
    &&& forall|j: int|
        0 <= j < apps.len() && spec_is_rekordbox_application(#[trigger] apps[j]) && apps[j].pid > 0
            ==> apps[i].pid < apps[j].pid || (apps[i].pid == apps[j].pid && i <= j)
}

/// Picks the Rekordbox process to tap, with its display name ("Rekordbox"
/// when the application has none).
pub fn select_rekordbox_application(apps: &Vec<RunningApplication>) -> (r: Option<(i32, String)>)
    ensures
        match r {
            Some((pid, name)) => exists|i: int|
                is_chosen_application(apps@, i) && apps@[i].pid == pid && name@ == (
                match apps@[i].name {
                    Some(n) => n@,
                    None => "Rekordbox"@,
                }),
            None => forall|j: int|
                0 <= j < apps@.len() ==> !(spec_is_rekordbox_application(#[trigger] apps@[j])
                    && apps@[j].pid > 0),
        },
{
    let mut best: Option<usize> = None;
    let mut i: usize = 0;
    while i < apps.len()
        invariant
            i <= apps.len(),
            match best {
                Some(b) => b < i && spec_is_rekordbox_application(apps@[b as int]) && apps@[b as int].pid
                    > 0 && forall|j: int|
                    0 <= j < i && spec_is_rekordbox_application(#[trigger] apps@[j]) && apps@[j].pid
                        > 0 ==> apps@[b as int].pid < apps@[j].pid || (apps@[b as int].pid
                        == apps@[j].pid && b <= j),
                None => forall|j: int|
                    0 <= j < i ==> !(spec_is_rekordbox_application(#[trigger] apps@[j])
                        && apps@[j].pid > 0),
            },
        decreases apps.len() - i,
    {
        if is_rekordbox_application(&apps[i]) && apps[i].pid > 0 {
            match best {
                Some(b) => {
                    if apps[i].pid < apps[b].pid {
                        best = Some(i);
                    }
                },
                None => {
                    best = Some(i);
                },
            }
        }
        i = i + 1;
    }
    match best {
        Some(b) => {
            let name = match &apps[b].name {
                Some(n) => owned(n.as_str()),
                None => owned("Rekordbox"),
            };
            assert(is_chosen_application(apps@, b as int));
            Some((apps[b].pid, name))
        },
        None => None,
    }
}

/// The oldest macOS with process taps: 14.2.
pub const MIN_MACOS_MAJOR: u32 = 14;

pub const MIN_MACOS_MINOR: u32 = 2;

/// The first and second dot-separated parts of a version, when present.
pub open spec fn version_parts(v: Seq<char>) -> (Seq<char>, Option<Seq<char>>) {
    let dot = find_from(v, "."@, 0);
    if dot < 0 {
        (v, None)
    } else {
        let next = find_from(v, "."@, dot + 1);
        (
            v.subrange(0, dot),
            Some(
                if next < 0 {
                    v.subrange(dot + 1, v.len() as int)
                } else {
                    v.subrange(dot + 1, next)
                },
            ),
        )
    }
}

pub open spec fn part_value(part: Option<Seq<char>>) -> u32 {
    match part {
        Some(p) => match parse_u32(p) {
            Some(n) => n,
            None => 0,
        },
        None => 0,
    }
}

/// Whether a reported macOS version (surrounding white space ignored) is
/// 14.2 or later; unreadable parts count as 0.
pub open spec fn macos_version_ok(version: Seq<char>) -> bool {
    let v = trim(version);
    let major = part_value(Some(version_parts(v).0));
    let minor = part_value(version_parts(v).1);
    major > MIN_MACOS_MAJOR || (major == MIN_MACOS_MAJOR && minor >= MIN_MACOS_MINOR)
}

/// Accepts the version that `sw_vers -productVersion` reported when it
/// supports process taps, and otherwise says which version was found.
pub fn macos_support(version: &str) -> (r: Result<(), String>)
    ensures
        r is Ok <==> macos_version_ok(version@),
        r matches Err(e) ==> e@
            == "Live process audio requires macOS 14.2 or later; this Mac reports "@ + trim(version@),
{
    let text = chars_of(version);
    let v = trim_exec(&text);
    let dot_text = chars_of(".");
    proof {
        reveal_strlit(".");
        lemma_find_from(v@, dot_text@, 0);
    }
    let (major_part, minor_part) = match find_exec(&v, &dot_text, 0) {
        None => (slice(&v, 0, v.len()), None),
        Some(dot) => {
            let total = v.len();
            assert(dot + 1 <= total);
            proof {
                lemma_find_from(v@, dot_text@, dot + 1);
            }
            let first = slice(&v, 0, dot);
            let second = match find_exec(&v, &dot_text, dot + 1) {
                None => slice(&v, dot + 1, v.len()),
                Some(next) => slice(&v, dot + 1, next),
            };
            (first, Some(second))
        },
    };
    proof {
        assert(major_part@ =~= version_parts(v@).0);
    }
    let major = match parse_u32_exec(&major_part) {
        Some(n) => n,
        None => 0,
    };
    let minor = match &minor_part {
        Some(p) => match parse_u32_exec(p) {
            Some(n) => n,
            None => 0,
        },
        None => 0,
    };
    if major > MIN_MACOS_MAJOR || (major == MIN_MACOS_MAJOR && minor >= MIN_MACOS_MINOR) {
        Ok(())
    } else {
        let mut message = owned("Live process audio requires macOS 14.2 or later; this Mac reports ");
        let reported = string_from_chars(&v, 0);
        push_str(&mut message, reported.as_str());
        proof {
            assert(v@.subrange(0, v@.len() as int) =~= v@);
        }
        Err(message)
    }
}

} // verus!
