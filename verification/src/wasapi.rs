//! Windows route selection: the sources offered from a WASAPI endpoint scan
//! and the capture path chosen for a stored source id.
use vstd::prelude::*;

use crate::sources::{source_views, AudioSourceInfo, AudioSourceKind, SourceSpec};
use crate::format::{
    format_is_valid, pcm_format, validation_message, AudioFormat, SampleFormat,
};
use crate::text::{
    chars_of, decimal_digits, equals, has_prefix, owned, push_char, push_decimal, push_str,
    starts_with, string_from_chars,
};

verus! {

/// The Windows capture backend.
pub struct Backend;

/// An active render endpoint found by the WASAPI scan.
#[derive(Clone, Debug)]
pub struct OutputEndpoint {
    pub id: String,
    pub name: String,
    pub is_default: bool,
    pub has_rekordbox_session: bool,
}

/// The first endpoint carrying a Rekordbox audio session, if any.
pub open spec fn rekordbox_endpoint(endpoints: Seq<OutputEndpoint>) -> Option<OutputEndpoint>
    decreases endpoints.len(),
{
    if endpoints.len() == 0 {
        None
    } else if endpoints[0].has_rekordbox_session {
        Some(endpoints[0])
    } else {
        rekordbox_endpoint(endpoints.drop_first())
    }
}

pub open spec fn process_source(detected: bool) -> SourceSpec {
    SourceSpec {
        id: "process:auto"@,
        name: if detected {
            "Rekordbox detected (process capture disabled for stability)"@
        } else {
            "Rekordbox not running (process capture disabled)"@
        },
        kind: AudioSourceKind::RekordboxProcess,
        detected: detected,
        is_default: false,
        available: false,
    }
}

pub open spec fn session_source(detected: bool, endpoint: Option<OutputEndpoint>) -> SourceSpec {
    SourceSpec {
        id: "rekordbox:auto"@,
        name: if detected && endpoint is Some {
            "Rekordbox audio on "@ + endpoint->0.name@ + " (recommended)"@
        } else if detected {
            "Rekordbox detected · waiting for PC MASTER OUT"@
        } else {
            "Rekordbox audio · start Rekordbox first"@
        },
        kind: AudioSourceKind::RekordboxSession,
        detected: endpoint is Some,
        is_default: detected,
        available: detected,
    }
}

pub open spec fn automatic_source(detected: bool, endpoint: Option<OutputEndpoint>) -> SourceSpec {
    SourceSpec {
        id: "output:auto"@,
        name: if endpoint is Some {
            "Automatic output · Rekordbox found on "@ + endpoint->0.name@
        } else {
            "Automatic Windows output (all apps)"@
        },
        kind: AudioSourceKind::OutputDevice,
        detected: true,
        is_default: !detected,
        available: true,
    }
}

pub open spec fn device_source(endpoint: OutputEndpoint) -> SourceSpec {
    SourceSpec {
        id: "device:"@ + endpoint.id@,
        name: if endpoint.has_rekordbox_session {
            endpoint.name@ + " · Rekordbox audio session"@
        } else {
            endpoint.name@
        },
        kind: AudioSourceKind::OutputDevice,
        detected: true,
        is_default: endpoint.is_default,
        available: true,
    }
}

/// The sources offered on Windows: the disabled process route, the
/// Rekordbox-session route, the all-apps automatic route, then one route per
/// endpoint in scan order.
pub open spec fn windows_sources(detected: bool, endpoints: Seq<OutputEndpoint>) -> Seq<SourceSpec> {
    let endpoint = rekordbox_endpoint(endpoints);
    seq![
        process_source(detected),
        session_source(detected, endpoint),
        automatic_source(detected, endpoint),
    ] + endpoints.map_values(|e: OutputEndpoint| device_source(e))
}

fn find_rekordbox_endpoint(endpoints: &Vec<OutputEndpoint>) -> (r: Option<usize>)
    ensures
        match r {
            Some(i) => i < endpoints.len() && rekordbox_endpoint(endpoints@) == Some(
                endpoints@[i as int],
            ),
            None => rekordbox_endpoint(endpoints@) is None,
        },
{
    let mut i: usize = 0;
    assert(endpoints@.skip(0) =~= endpoints@);
    while i < endpoints.len()
        invariant
            i <= endpoints.len(),
            rekordbox_endpoint(endpoints@) == rekordbox_endpoint(endpoints@.skip(i as int)),
        decreases endpoints.len() - i,
    {
        assert(endpoints@.skip(i as int).drop_first() =~= endpoints@.skip(i + 1));
        if endpoints[i].has_rekordbox_session {
            return Some(i);
        }
        i = i + 1;
    }
    None
}

fn source(
    id: String,
    name: String,
    kind: AudioSourceKind,
    detected: bool,
    is_default: bool,
    available: bool,
) -> (r: AudioSourceInfo)
    ensures
        r@ == (SourceSpec { id: id@, name: name@, kind, detected, is_default, available }),
{
    AudioSourceInfo { id, name, kind, detected, is_default, available }
}

fn concat(a: &str, b: &str) -> (r: String)
    ensures
        r@ == a@ + b@,
{
    let mut r = owned(a);
    push_str(&mut r, b);
    r
}

impl Backend {
    /// The sources offered from one WASAPI scan: whether a Rekordbox process
    /// is running and the active render endpoints in scan order.
    pub fn enumerate_sources(detected: bool, endpoints: &Vec<OutputEndpoint>) -> (r: Result<
        Vec<AudioSourceInfo>,
        String,
    >)
        ensures
            r matches Ok(v) && source_views(v@) == windows_sources(detected, endpoints@),
    {
        let found = find_rekordbox_endpoint(endpoints);
        let ghost endpoint = rekordbox_endpoint(endpoints@);
        let mut sources: Vec<AudioSourceInfo> = Vec::new();
        let process_name = if detected {
            owned("Rekordbox detected (process capture disabled for stability)")
        } else {
            owned("Rekordbox not running (process capture disabled)")
        };
        sources.push(
            source(
                owned("process:auto"),
                process_name,
                AudioSourceKind::RekordboxProcess,
                detected,
                false,
                false,
            ),
        );
        let session_name = match found {
            Some(i) => {
                if detected {
                    let mut n = concat("Rekordbox audio on ", endpoints[i].name.as_str());
                    push_str(&mut n, " (recommended)");
                    n
                } else {
                    owned("Rekordbox audio · start Rekordbox first")
                }
            },
            None => {
                if detected {
                    owned("Rekordbox detected · waiting for PC MASTER OUT")
                } else {
                    owned("Rekordbox audio · start Rekordbox first")
                }
            },
        };
        sources.push(
            source(
                owned("rekordbox:auto"),
                session_name,
                AudioSourceKind::RekordboxSession,
                found.is_some(),
                detected,
                detected,
            ),
        );
        let automatic_name = match found {
            Some(i) => concat("Automatic output · Rekordbox found on ", endpoints[i].name.as_str()),
            None => owned("Automatic Windows output (all apps)"),
        };
        sources.push(
            source(
                owned("output:auto"),
                automatic_name,
                AudioSourceKind::OutputDevice,
                true,
                !detected,
                true,
            ),
        );
        let ghost head = seq![
            process_source(detected),
            session_source(detected, endpoint),
            automatic_source(detected, endpoint),
        ];
        assert(source_views(sources@) =~= head);
        let mut i: usize = 0;
        while i < endpoints.len()
            invariant
                i <= endpoints.len(),
                source_views(sources@) =~= head + endpoints@.take(i as int).map_values(
                    |e: OutputEndpoint| device_source(e),
                ),
            decreases endpoints.len() - i,
        {
            let endpoint = &endpoints[i];
            let name = if endpoint.has_rekordbox_session {
                concat(endpoint.name.as_str(), " · Rekordbox audio session")
            } else {
                owned(endpoint.name.as_str())
            };
            let info = source(
                concat("device:", endpoint.id.as_str()),
                name,
                AudioSourceKind::OutputDevice,
                true,
                endpoint.is_default,
                true,
            );
            let ghost before = sources@;
            sources.push(info);
            assert(sources@ =~= before.push(info));
            assert(source_views(sources@) =~= source_views(before).push(info@));
            assert(endpoints@.take(i + 1) =~= endpoints@.take(i as int).push(endpoints@[i as int]));
            assert(endpoints@.take(i + 1).map_values(|e: OutputEndpoint| device_source(e))
                =~= endpoints@.take(i as int).map_values(|e: OutputEndpoint| device_source(e)).push(
                device_source(endpoints@[i as int]),
            ));
            i = i + 1;
        }
        assert(endpoints@.take(endpoints.len() as int) =~= endpoints@);
        Ok(sources)
    }
}

/// The capture path a stored source id selects on Windows.
#[derive(Clone, Debug, PartialEq, Eq)]
pub enum CaptureTarget {
    /// The endpoint carrying Rekordbox's audio session; `legacy_process_id`
    /// marks a retired process-loopback selection that is redirected here.
    RekordboxSession { legacy_process_id: bool },
    /// Every active output, probed in turn for live audio.
    AutomaticOutput,
    /// One named render endpoint.
    Device(String),
}

/// The capture path for `source_id`, or `None` for an unknown id.
pub open spec fn capture_target_for(source_id: Seq<char>) -> Option<(int, Seq<char>)> {
    if has_prefix(source_id, "process:"@) {
        Some((0, Seq::empty()))
    } else if source_id == "rekordbox:auto"@ {
        Some((1, Seq::empty()))
    } else if source_id == "output:auto"@ {
        Some((2, Seq::empty()))
    } else if has_prefix(source_id, "device:"@) {
        Some((3, source_id.subrange(7, source_id.len() as int)))
    } else {
        None
    }
}

/// Every route offered on Windows can be captured, and by the path it
/// names: a device route captures the very endpoint it was offered for, the
/// automatic route probes every output, the Rekordbox route follows the
/// Rekordbox session, and the legacy process route is redirected to it.
pub proof fn law_offered_routes_capture_what_they_name(detected: bool, endpoint: OutputEndpoint, found: Option<OutputEndpoint>)
    ensures
        capture_target_for(device_source(endpoint).id) == Some((3int, endpoint.id@)),
        capture_target_for(automatic_source(detected, found).id) == Some((2int, Seq::<char>::empty())),
        capture_target_for(session_source(detected, found).id) == Some((1int, Seq::<char>::empty())),
        capture_target_for(process_source(detected).id) == Some((0int, Seq::<char>::empty())),
{
    reveal_strlit("device:");
    reveal_strlit("process:");
    reveal_strlit("rekordbox:auto");
    reveal_strlit("output:auto");
    reveal_strlit("process:auto");
    let id = "device:"@ + endpoint.id@;
    assert(id.subrange(0, 7) =~= "device:"@);
    assert(id[0] == 'd');
    assert(!has_prefix(id, "process:"@)) by {
        if has_prefix(id, "process:"@) {
            assert(id.subrange(0, 8)[0] == 'p');
        }
    }
    assert(id != "rekordbox:auto"@) by {
        if id == "rekordbox:auto"@ {
            assert(id[0] == 'r');
        }
    }
    assert(id != "output:auto"@) by {
        if id == "output:auto"@ {
            assert(id[0] == 'o');
        }
    }
    assert(id.subrange(7, id.len() as int) =~= endpoint.id@);
    assert("process:auto"@.subrange(0, 8) =~= "process:"@);
    assert(!has_prefix("rekordbox:auto"@, "process:"@)) by {
        assert("rekordbox:auto"@.subrange(0, 8)[0] == 'r');
    }
    assert(!has_prefix("output:auto"@, "process:"@)) by {
        assert("output:auto"@.subrange(0, 8)[0] == 'o');
    }
    assert("output:auto"@ != "rekordbox:auto"@) by {
        assert("output:auto"@[0] != "rekordbox:auto"@[0]);
    }
}

/// The view of a target: a tag and the device id it names.
pub open spec fn target_view(target: CaptureTarget) -> (int, Seq<char>) {
    match target {
        CaptureTarget::RekordboxSession { legacy_process_id } => if legacy_process_id {
            (0, Seq::empty())
        } else {
            (1, Seq::empty())
        },
        CaptureTarget::AutomaticOutput => (2, Seq::empty()),
        CaptureTarget::Device(id) => (3, id@),
    }
}

/// The capture path selected by a stored source id: legacy process ids are
/// redirected to the Rekordbox-session route, and an unrecognised id is
/// reported as "Unknown audio source".
pub fn capture_target(source_id: &str) -> (r: Result<CaptureTarget, String>)
    ensures
        match r {
            Ok(t) => capture_target_for(source_id@) == Some(target_view(t)),
            Err(e) => capture_target_for(source_id@) is None && e@ == "Unknown audio source"@,
        },
{
    let id = chars_of(source_id);
    if starts_with(&id, "process:") {
        Ok(CaptureTarget::RekordboxSession { legacy_process_id: true })
    } else if equals(&id, "rekordbox:auto") {
        Ok(CaptureTarget::RekordboxSession { legacy_process_id: false })
    } else if equals(&id, "output:auto") {
        Ok(CaptureTarget::AutomaticOutput)
    } else if starts_with(&id, "device:") {
        proof {
            reveal_strlit("device:");
        }
        Ok(CaptureTarget::Device(string_from_chars(&id, 7)))
    } else {
        Err(owned("Unknown audio source"))
    }
}

/// The sub-format of an extensible wave format, as capture reads it.
#[derive(Clone, Copy, Debug, PartialEq, Eq, Structural)]
pub enum SubFormatKind {
    IeeeFloat,
    Pcm,
    Other,
}

/// The fields of a `WAVEFORMATEX` the capture path reads. `sub_format`
/// carries the extensible sub-format and its rendering for messages; it is
/// read only when the extension is complete.
pub struct WaveFormatFields {
    pub format_tag: u16,
    pub bits_per_sample: u16,
    pub channels: u16,
    pub samples_per_sec: u32,
    pub block_align: u16,
    pub extension_size: u16,
    pub sub_format: Option<(SubFormatKind, String)>,
}

pub const WAVE_FORMAT_PCM: u16 = 1;

pub const WAVE_FORMAT_IEEE_FLOAT: u16 = 3;

pub const WAVE_FORMAT_EXTENSIBLE: u16 = 0xfffe;

/// The bytes `WAVEFORMATEXTENSIBLE` adds to `WAVEFORMATEX`.
pub const EXTENSION_BYTES: u16 = 22;

pub open spec fn hex_digit(d: nat) -> char {
    if d < 10 {
        ((48 + d) as u32) as char
    } else {
        ((87 + d) as u32) as char
    }
}

/// Four lower-case hexadecimal digits of `value`.
pub open spec fn hex4(value: u16) -> Seq<char> {
    seq![
        hex_digit((value as nat / 4096) % 16),
        hex_digit((value as nat / 256) % 16),
        hex_digit((value as nat / 16) % 16),
        hex_digit(value as nat % 16),
    ]
}

pub open spec fn with_format(fields: WaveFormatFields, sample_format: SampleFormat) -> AudioFormat {
    AudioFormat {
        sample_format,
        channels: fields.channels,
        sample_rate: fields.samples_per_sec,
        block_align: fields.block_align,
    }
}

pub open spec fn validated(format: AudioFormat) -> Result<AudioFormat, Seq<char>> {
    if format_is_valid(format) {
        Ok(format)
    } else {
        Err(validation_message(format))
    }
}

pub open spec fn pcm_outcome(fields: WaveFormatFields) -> Result<AudioFormat, Seq<char>> {
    let bits = fields.bits_per_sample;
    if bits == 16 {
        validated(with_format(fields, SampleFormat::Pcm16))
    } else if bits == 24 {
        validated(with_format(fields, SampleFormat::Pcm24))
    } else if bits == 32 {
        validated(with_format(fields, SampleFormat::Pcm32))
    } else {
        Err("Unsupported PCM bit depth: "@ + decimal_digits(bits as nat))
    }
}

/// The capture format a WASAPI mix format describes, or why it cannot be
/// captured: 32-bit float, or 16/24/32-bit PCM, plain or extensible, then
/// validated.
pub open spec fn spec_wave_format(fields: WaveFormatFields) -> Result<AudioFormat, Seq<char>> {
    let tag = fields.format_tag;
    let bits = fields.bits_per_sample;
    if tag == WAVE_FORMAT_IEEE_FLOAT && bits == 32 {
        validated(with_format(fields, SampleFormat::Float32))
    } else if tag == WAVE_FORMAT_PCM {
        pcm_outcome(fields)
    } else if tag == WAVE_FORMAT_EXTENSIBLE {
        if fields.extension_size < EXTENSION_BYTES {
            Err("WASAPI returned a truncated extensible audio format"@)
        } else {
            match fields.sub_format {
                Some(sub) => if sub.0 == SubFormatKind::IeeeFloat && bits == 32 {
                    validated(with_format(fields, SampleFormat::Float32))
                } else if sub.0 == SubFormatKind::Pcm {
                    pcm_outcome(fields)
                } else {
                    Err("Unsupported WASAPI extensible subtype: "@ + sub.1@)
                },
                None => Err("WASAPI returned a truncated extensible audio format"@),
            }
        }
    } else {
        Err("Unsupported WASAPI format tag 0x"@ + hex4(tag) + " ("@ + decimal_digits(bits as nat)
            + " bits)"@)
    }
}

fn hex_char(d: u16) -> (c: char)
    requires
        d < 16,
    ensures
        c == hex_digit(d as nat),
{
    if d < 10 {
        ((48 + d) as u8) as char
    } else {
        ((87 + d) as u8) as char
    }
}

fn outcome_of(r: Result<AudioFormat, String>) -> (o: Result<AudioFormat, String>)
    ensures
        o == r,
{
    r
}

fn checked(format: AudioFormat) -> (r: Result<AudioFormat, String>)
    ensures
        match r {
            Ok(f) => validated(format) == Ok::<AudioFormat, Seq<char>>(f),
            Err(e) => validated(format) == Err::<AudioFormat, Seq<char>>(e@),
        },
{
    outcome_of(format.validate())
}

fn pcm_checked(fields: &WaveFormatFields) -> (r: Result<AudioFormat, String>)
    ensures
        match r {
            Ok(f) => pcm_outcome(*fields) == Ok::<AudioFormat, Seq<char>>(f),
            Err(e) => pcm_outcome(*fields) == Err::<AudioFormat, Seq<char>>(e@),
        },
{
    match pcm_format(fields.bits_per_sample) {
        Ok(sample_format) => checked(
            AudioFormat {
                sample_format,
                channels: fields.channels,
                sample_rate: fields.samples_per_sec,
                block_align: fields.block_align,
            },
        ),
        Err(e) => Err(e),
    }
}

/// Reads the capture format from the fields of a WASAPI mix format.
pub fn wave_format(fields: &WaveFormatFields) -> (r: Result<AudioFormat, String>)
    ensures
        match r {
            Ok(f) => spec_wave_format(*fields) == Ok::<AudioFormat, Seq<char>>(f),
            Err(e) => spec_wave_format(*fields) == Err::<AudioFormat, Seq<char>>(e@),
        },
{
    let tag = fields.format_tag;
    let bits = fields.bits_per_sample;
    let float = AudioFormat {
        sample_format: SampleFormat::Float32,
        channels: fields.channels,
        sample_rate: fields.samples_per_sec,
        block_align: fields.block_align,
    };
    if tag == WAVE_FORMAT_IEEE_FLOAT && bits == 32 {
        checked(float)
    } else if tag == WAVE_FORMAT_PCM {
        pcm_checked(fields)
    } else if tag == WAVE_FORMAT_EXTENSIBLE {
        if fields.extension_size < EXTENSION_BYTES {
            return Err(owned("WASAPI returned a truncated extensible audio format"));
        }
        match &fields.sub_format {
            Some((kind, text)) => {
                if *kind == SubFormatKind::IeeeFloat && bits == 32 {
                    checked(float)
                } else if *kind == SubFormatKind::Pcm {
                    pcm_checked(fields)
                } else {
                    let mut message = owned("Unsupported WASAPI extensible subtype: ");
                    push_str(&mut message, text.as_str());
                    Err(message)
                }
            },
            None => Err(owned("WASAPI returned a truncated extensible audio format")),
        }
    } else {
        let mut message = owned("Unsupported WASAPI format tag 0x");
        push_char(&mut message, hex_char(tag / 4096 % 16));
        push_char(&mut message, hex_char(tag / 256 % 16));
        push_char(&mut message, hex_char(tag / 16 % 16));
        push_char(&mut message, hex_char(tag % 16));
        push_str(&mut message, " (");
        push_decimal(&mut message, bits as u64);
        push_str(&mut message, " bits)");
        proof {
            assert(message@ =~= "Unsupported WASAPI format tag 0x"@ + hex4(tag) + " ("@
                + decimal_digits(bits as nat) + " bits)"@);
        }
        Err(message)
    }
}

} // verus!
