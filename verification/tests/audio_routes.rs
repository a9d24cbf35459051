use std::collections::HashSet;

use pulsebridge::coreaudio::{check_status, fourcc, Backend as MacBackend, InputDevice, MacAudioProbe};
use pulsebridge::format::{packet_byte_count, pcm_format, AudioFormat, ReleaseOnce, SampleFormat};
use pulsebridge::process_tree::{expand_process_tree, rekordbox_process_ids, ProcessEntry};
use pulsebridge::reconnect::{ReconnectPolicy, RoutePolicy};
use pulsebridge::ring_buffer::{PcmRingBuffer, CAPTURE_SAMPLE_RATE};
use pulsebridge::sources::{AudioSourceKind, CaptureRoute};
use pulsebridge::output_sweep::{
    any_rekordbox_session, enumeration_failed, no_active_outputs, probe_message, OutputOutcome,
    OutputStep, OutputSweep,
};
use pulsebridge::wasapi::OutputEndpoint;

fn probe() -> MacAudioProbe {
    MacAudioProbe {
        supported: true,
        rekordbox_detected: false,
        default_output_name: Some("Speakers".to_string()),
        inputs: Some(vec![
            InputDevice {
                id: "mic-2".to_string(),
                name: "Zoom".to_string(),
            },
            InputDevice {
                id: "mic-1".to_string(),
                name: "Aux".to_string(),
            },
        ]),
        default_input_id: Some("mic-2".to_string()),
    }
}

#[test]
fn macos_sources_always_expose_rekordbox_and_system_audio() {
    let sources = MacBackend::enumerate_sources(&probe()).expect("macOS source enumeration should work");
    assert!(sources.iter().any(|source| source.id == "process:auto"));
    assert!(sources.iter().any(|source| source.id == "output:default"));
    assert!(sources
        .iter()
        .filter(|source| source.kind == AudioSourceKind::InputDevice)
        .all(|source| source.id.starts_with("input:")));
}

#[test]
fn macos_inputs_list_the_default_first_then_by_name() {
    let sources = MacBackend::enumerate_sources(&probe()).unwrap();
    assert_eq!(sources.len(), 4);
    assert_eq!(sources[2].id, "input:mic-2");
    assert!(sources[2].is_default);
    assert_eq!(sources[3].id, "input:mic-1");
}

#[test]
fn inputs_with_the_same_name_keep_their_order() {
    let devices = ["usb-b", "usb-a", "line"]
        .iter()
        .zip(["USB Mic", "USB Mic", "Line In"])
        .map(|(id, name)| InputDevice { id: id.to_string(), name: name.to_string() })
        .collect();
    let probe = MacAudioProbe { inputs: Some(devices), default_input_id: None, ..probe() };
    let sources = MacBackend::enumerate_sources(&probe).unwrap();
    let ids: Vec<&str> = sources[2..].iter().map(|source| source.id.as_str()).collect();
    assert_eq!(ids, ["input:line", "input:usb-b", "input:usb-a"]);
}

#[test]
fn unsupported_macos_still_lists_both_taps() {
    let sources = MacBackend::enumerate_sources(&MacAudioProbe {
        supported: false,
        rekordbox_detected: false,
        default_output_name: None,
        inputs: None,
        default_input_id: None,
    })
    .unwrap();
    assert_eq!(sources.len(), 2);
    assert_eq!(sources[0].name, "Rekordbox process (requires macOS 14.2+)");
    assert!(!sources[0].available);
}

#[test]
fn core_audio_errors_keep_numeric_and_fourcc_status() {
    let error = check_status(i32::from_be_bytes(*b"perm"), "PERMISSION_DENIED", "Denied")
        .expect_err("non-zero status should fail");
    assert!(error.contains("PERMISSION_DENIED"));
    assert!(error.contains("perm"));
}

#[test]
fn zero_core_audio_status_is_success() {
    assert!(check_status(0, "ANY", "ignored").is_ok());
}

#[test]
fn fourcc_handles_non_printable_statuses() {
    assert_eq!(fourcc(-50), "non-printable");
}

#[test]
fn fourcc_renders_printable_codes() {
    assert_eq!(fourcc(i32::from_be_bytes(*b"perm")), "perm");
}

fn entry(pid: u32, parent_pid: u32, executable: &str) -> ProcessEntry {
    ProcessEntry {
        pid,
        parent_pid,
        executable: executable.to_string(),
    }
}

#[test]
fn rekordbox_process_tree_includes_nested_audio_helpers() {
    let processes = vec![
        entry(10, 1, "rekordbox.exe"),
        entry(11, 10, "rekordboxAgent.exe"),
        entry(12, 11, "audio-helper.exe"),
        entry(20, 1, "unrelated.exe"),
    ];
    let included = expand_process_tree(&processes, HashSet::from([10]));
    assert_eq!(included, HashSet::from([10, 11, 12]));
}

#[test]
fn rekordbox_ids_are_found_by_executable_name() {
    let processes = vec![
        entry(10, 1, "REKORDBOX.EXE"),
        entry(11, 10, "helper.exe"),
        entry(20, 1, "unrelated.exe"),
    ];
    assert_eq!(rekordbox_process_ids(&processes), HashSet::from([10, 11]));
}

#[test]
fn packet_release_gate_can_be_claimed_exactly_once() {
    let mut release = ReleaseOnce::default();
    assert!(release.claim());
    assert!(!release.claim());
    assert!(!release.claim());
}

#[test]
fn reconnect_policy_distinguishes_automatic_and_selected_outputs() {
    let policy = ReconnectPolicy::default();
    assert!(!policy.should_retry(RoutePolicy::AutomaticOutput, false, 1_000));
    assert!(policy.should_retry(RoutePolicy::AutomaticOutput, false, 2_000));
    assert!(!policy.should_retry(RoutePolicy::AutomaticOutput, true, 29_000));
    assert!(policy.should_retry(RoutePolicy::AutomaticOutput, true, 30_000));
    assert!(!policy.should_retry(RoutePolicy::SelectedOutput, false, 300_000));
}

#[test]
fn ring_buffer_is_bounded_and_keeps_newest_audio() {
    let mut ring = PcmRingBuffer::with_capacity(3);
    ring.push(0.1_f32.to_bits());
    ring.push(0.2_f32.to_bits());
    ring.push(0.3_f32.to_bits());
    ring.push(0.4_f32.to_bits());
    assert_eq!(ring.len(), 3);
    assert_eq!(ring.dropped_samples(), 1);
    assert!((f32::from_bits(ring.pop().expect("sample")) - 0.2).abs() < f32::EPSILON);
    assert!((f32::from_bits(ring.pop().expect("sample")) - 0.3).abs() < f32::EPSILON);
    assert!((f32::from_bits(ring.pop().expect("sample")) - 0.4).abs() < f32::EPSILON);
}

#[test]
fn configured_capacity_is_clamped() {
    assert_eq!(PcmRingBuffer::new(1).capacity(), CAPTURE_SAMPLE_RATE as usize * 5);
    assert_eq!(PcmRingBuffer::new(60).capacity(), CAPTURE_SAMPLE_RATE as usize * 30);
}

#[test]
fn empty_ring_buffer_pops_nothing() {
    let mut ring = PcmRingBuffer::with_capacity(2);
    assert_eq!(ring.pop(), None);
    assert_eq!(ring.len(), 0);
}

#[test]
fn automatic_output_has_an_explicit_public_route() {
    assert_eq!(
        serde_json::to_string(&CaptureRoute::AutomaticOutput.wire_name()).unwrap(),
        "\"automaticOutput\""
    );
}

#[test]
fn rejects_invalid_layout() {
    let invalid = AudioFormat {
        sample_format: SampleFormat::Pcm32,
        channels: 2,
        sample_rate: 48_000,
        block_align: 4,
    };
    assert!(invalid.validate().is_err());
    let valid = AudioFormat {
        sample_format: SampleFormat::Pcm16,
        channels: 2,
        sample_rate: 44_100,
        block_align: 4,
    };
    assert!(valid.validate().is_ok());
}

#[test]
fn pcm_widths_map_to_formats() {
    assert_eq!(pcm_format(16), Ok(SampleFormat::Pcm16));
    assert_eq!(pcm_format(24), Ok(SampleFormat::Pcm24));
    assert!(pcm_format(12).is_err());
}

#[test]
fn packet_sizes_must_match_the_frame_count() {
    let format = AudioFormat {
        sample_format: SampleFormat::Pcm16,
        channels: 2,
        sample_rate: 48_000,
        block_align: 4,
    };
    assert_eq!(packet_byte_count(8, 2, format), Ok(8));
    assert!(packet_byte_count(6, 2, format).is_err());
}

use pulsebridge::coreaudio::macos_support;
use pulsebridge::wasapi::{wave_format, SubFormatKind, WaveFormatFields};

fn wave(format_tag: u16, bits: u16, sub_format: Option<(SubFormatKind, String)>) -> WaveFormatFields {
    WaveFormatFields {
        format_tag,
        bits_per_sample: bits,
        channels: 2,
        samples_per_sec: 48_000,
        block_align: 8,
        extension_size: 22,
        sub_format,
    }
}

#[test]
fn wasapi_float_and_pcm_formats_are_read() {
    let float = wave_format(&wave(3, 32, None)).unwrap();
    assert_eq!(float.sample_format, SampleFormat::Float32);
    let pcm = wave_format(&wave(1, 16, None)).unwrap();
    assert_eq!(pcm.sample_format, SampleFormat::Pcm16);
    let extensible = wave_format(&wave(0xfffe, 24, Some((SubFormatKind::Pcm, "PCM".to_string())))).unwrap();
    assert_eq!(extensible.sample_format, SampleFormat::Pcm24);
}

#[test]
fn wasapi_rejects_unknown_tags_with_their_hex_code() {
    assert_eq!(
        wave_format(&wave(0x0092, 16, None)).unwrap_err(),
        "Unsupported WASAPI format tag 0x0092 (16 bits)"
    );
    assert_eq!(
        wave_format(&wave(0xfffe, 8, Some((SubFormatKind::Other, "{guid}".to_string())))).unwrap_err(),
        "Unsupported WASAPI extensible subtype: {guid}"
    );
    let mut truncated = wave(0xfffe, 32, None);
    truncated.extension_size = 10;
    assert_eq!(
        wave_format(&truncated).unwrap_err(),
        "WASAPI returned a truncated extensible audio format"
    );
    assert_eq!(
        wave_format(&wave(1, 12, None)).unwrap_err(),
        "Unsupported PCM bit depth: 12"
    );
}

#[test]
fn macos_versions_before_fourteen_two_are_refused() {
    assert!(macos_support("14.2").is_ok());
    assert!(macos_support("15.0.1\n").is_ok());
    assert!(macos_support("14.10").is_ok());
    assert_eq!(
        macos_support(" 14.1.2 ").unwrap_err(),
        "Live process audio requires macOS 14.2 or later; this Mac reports 14.1.2"
    );
    assert!(macos_support("unknown").is_err());
}

fn endpoint(name: &str, rekordbox: bool) -> OutputEndpoint {
    OutputEndpoint {
        id: format!("{name}-id"),
        name: name.to_string(),
        is_default: false,
        has_rekordbox_session: rekordbox,
    }
}

#[test]
fn automatic_output_tries_each_output_and_lists_every_failure() {
    let outputs = vec![endpoint("Speakers", false), endpoint("Headphones", true)];
    assert!(any_rekordbox_session(&outputs));
    assert_eq!(probe_message(&outputs[0], 0, 2), "Checking Windows output 1/2: Speakers");
    assert_eq!(
        probe_message(&outputs[1], 1, 2),
        "Rekordbox audio session found; checking 2/2: Headphones"
    );
    let mut sweep = OutputSweep::new(outputs.len());
    assert_eq!(sweep.next_output_step(false), OutputStep::Probe(0));
    assert_eq!(
        sweep.record_attempt("Speakers", OutputOutcome::ActivationFailed("E_FAIL".to_string()), false),
        None
    );
    assert_eq!(sweep.next_output_step(false), OutputStep::Probe(1));
    assert_eq!(
        sweep.record_attempt(
            "Headphones",
            OutputOutcome::Captured(Err("NO_AUDIO_PACKETS".to_string())),
            false
        ),
        None
    );
    assert_eq!(
        sweep.next_output_step(false),
        OutputStep::Fail(
            "NO_ACTIVE_OUTPUT_SIGNAL: checked 2 Windows output(s) without finding live audio (Speakers: E_FAIL; Headphones: NO_AUDIO_PACKETS)"
                .to_string()
        )
    );
}

#[test]
fn automatic_output_stops_at_the_first_live_output_or_a_stop_request() {
    let mut sweep = OutputSweep::new(3);
    assert_eq!(sweep.record_attempt("A", OutputOutcome::Captured(Ok(())), false), Some(Ok(())));
    assert_eq!(
        sweep.record_attempt("A", OutputOutcome::Captured(Err("stopped".to_string())), true),
        Some(Err("stopped".to_string()))
    );
    assert_eq!(sweep.next_output_step(true), OutputStep::Done);
    assert!(!any_rekordbox_session(&vec![endpoint("A", false)]));
    assert_eq!(
        no_active_outputs(),
        "OUTPUT_ENDPOINT_ENUMERATION_FAILED: Windows reported no active audio outputs"
    );
    assert_eq!(
        enumeration_failed("0x80004005"),
        "OUTPUT_ENDPOINT_ENUMERATION_FAILED: could not list Windows outputs: 0x80004005"
    );
}
