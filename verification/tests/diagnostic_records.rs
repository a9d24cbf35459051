use std::collections::VecDeque;

use pulsebridge::capture::CaptureStatus;
use pulsebridge::diagnostic_runner::{
    first_packet_failure, initialization_settled, packets_settled, signal_settled, mark_cancelled, mark_failure, mark_not_reactive, process_discovery, requires_rekordbox,
    runs_audio_probe, runs_renderer_probe, runs_surface_probe, summary_for, DiagnosticCoordinator,
    ReportOutcome,
};
use pulsebridge::diagnostics::{
    apply_clean_exit, apply_stage_record, duration_ms, interrupted_run, ended_unexpectedly, mark_in_progress, new_marker,
    push_bounded, rotated_file_name, rotation_plan, set_active_report, DiagnosticMode,
    DiagnosticStageStatus, DiagnosticVerdict, SessionExitState, StageGuard,
};
use pulsebridge::diagnostics::{log_path, report_directory, session_id, LogLocation};
use pulsebridge::diagnostics::{recent_records, RECENT_LOG_LINES};
use pulsebridge::diagnostics::{
    event_record, should_rotate, stage_record, terminal_stage_record, LogClock, StageEnd,
};
use pulsebridge::sources::{AudioSourceKind, CaptureState};

#[test]
fn log_rotation_shifts_oldest_first() {
    assert_eq!(rotation_plan(3), vec![(2, 3), (1, 2), (0, 1)]);
    assert!(rotation_plan(0).is_empty());
    assert_eq!(rotated_file_name(4), "pulsebridge.log.4");
}

#[test]
fn recent_events_keep_the_newest() {
    let mut events = VecDeque::new();
    for index in 0..5 {
        push_bounded(&mut events, index, 3);
    }
    assert_eq!(events, VecDeque::from(vec![2, 3, 4]));
}

#[test]
fn a_marker_in_progress_means_an_unexpected_exit() {
    let mut marker = new_marker("session".to_string(), "t0".to_string(), "log".to_string());
    assert!(ended_unexpectedly(&marker));
    assert_eq!(marker.last_code, "APP_RUNTIME_START");
    mark_in_progress(&mut marker, "renderer.device", "GPU_DEVICE_CREATE_BEGIN", "Creating device", "2026-01-01T00:00:02.000Z".to_string());
    assert_eq!(marker.last_stage, "renderer.device");
    assert_eq!(marker.last_status, "begin");
    set_active_report(&mut marker, Some("report"), "2026-01-01T00:00:03.000Z".to_string());
    assert_eq!(marker.active_report_id.as_deref(), Some("report"));
    apply_clean_exit(&mut marker, "bye", "t1".to_string());
    assert_eq!(marker.state, SessionExitState::CleanExit);
    assert!(!ended_unexpectedly(&marker));
}

#[test]
fn stage_records_finish_exactly_once() {
    let mut stage = StageGuard::begin("test.stage", "TEST_BEGIN");
    assert_eq!(stage.stage(), "test.stage");
    assert_eq!(stage.code(), "TEST_BEGIN");
    assert!(stage.needs_interrupted_record());
    assert!(stage.claim_finish());
    assert!(!stage.claim_finish());
    assert!(!stage.needs_interrupted_record());
}

#[test]
fn durations_saturate_at_the_largest_u64() {
    assert_eq!(duration_ms(1_234), 1_234);
    assert_eq!(duration_ms(u128::MAX), u64::MAX);
}

#[test]
fn markers_are_stamped_with_the_given_time() {
    let mut marker = new_marker("session".to_string(), "start".to_string(), "log".to_string());
    mark_in_progress(&mut marker, "renderer.device", "GPU_DEVICE_CREATE_BEGIN", "Creating device", "2026-01-01T00:00:02.000Z".to_string());
    assert_eq!(marker.updated_at, "2026-01-01T00:00:02.000Z");
    set_active_report(&mut marker, None, "2026-01-01T00:00:04.000Z".to_string());
    assert_eq!(marker.updated_at, "2026-01-01T00:00:04.000Z");
    assert_eq!(marker.active_report_id, None);
}

#[test]
fn vocabularies_keep_their_wire_names() {
    assert_eq!(DiagnosticMode::SafeRenderer.wire_name(), "safeRenderer");
    assert_eq!(DiagnosticVerdict::Degraded.wire_name(), "degraded");
    assert_eq!(DiagnosticStageStatus::Cancelled.wire_name(), "cancelled");
}

#[test]
fn probes_run_in_their_modes() {
    assert!(runs_audio_probe(DiagnosticMode::FullStartup));
    assert!(!runs_audio_probe(DiagnosticMode::RendererOnly));
    assert!(runs_renderer_probe(DiagnosticMode::SafeRenderer));
    assert!(!runs_renderer_probe(DiagnosticMode::AudioOnly));
    assert!(runs_surface_probe(DiagnosticMode::FullStartup));
    assert!(!runs_surface_probe(DiagnosticMode::SafeRenderer));
}

#[test]
fn the_first_failure_is_kept_and_cancellation_wins() {
    let mut outcome = ReportOutcome::passing();
    mark_failure(&mut outcome, "audio.capture", "AUDIO_CLIENT_START_FAILED");
    mark_failure(&mut outcome, "renderer.device", "GPU_DEVICE_LOST");
    assert_eq!(outcome.verdict, DiagnosticVerdict::Fail);
    assert_eq!(outcome.failure_code.as_deref(), Some("AUDIO_CLIENT_START_FAILED"));
    assert_eq!(
        summary_for(DiagnosticMode::AudioOnly, &outcome),
        "The diagnostic stopped at audio.capture (AUDIO_CLIENT_START_FAILED)."
    );
    mark_cancelled(&mut outcome);
    assert_eq!(outcome.verdict, DiagnosticVerdict::Cancelled);
    assert_eq!(outcome.failure_code.as_deref(), Some("AUDIO_CLIENT_START_FAILED"));
}

#[test]
fn silent_audio_degrades_a_passing_report() {
    let mut outcome = ReportOutcome::passing();
    mark_not_reactive(&mut outcome);
    assert_eq!(outcome.verdict, DiagnosticVerdict::Degraded);
    assert_eq!(outcome.failure_code.as_deref(), Some("NO_NON_SILENT_SAMPLES"));
}

#[test]
fn process_discovery_depends_on_the_route() {
    assert!(requires_rekordbox(AudioSourceKind::RekordboxProcess));
    assert!(!requires_rekordbox(AudioSourceKind::InputDevice));
    let missing = process_discovery(false, true);
    assert_eq!(missing.status, DiagnosticStageStatus::Degraded);
    assert_eq!(missing.code, "REKORDBOX_PROCESS_NOT_FOUND");
    let optional = process_discovery(false, false);
    assert_eq!(optional.status, DiagnosticStageStatus::Pass);
}

#[test]
fn a_coordinator_tracks_one_running_diagnostic() {
    let mut coordinator = DiagnosticCoordinator::new();
    assert!(!coordinator.is_active());
    assert!(coordinator.cancel().is_none());
    let flag = std::sync::Arc::new(std::sync::atomic::AtomicBool::new(false));
    assert!(coordinator.begin(std::sync::Arc::clone(&flag)));
    assert!(coordinator.is_active());
    // A second run waits for the first: its flag is not taken.
    let second = std::sync::Arc::new(std::sync::atomic::AtomicBool::new(false));
    assert!(!coordinator.begin(std::sync::Arc::clone(&second)));
    coordinator.cancel().unwrap().store(true, std::sync::atomic::Ordering::Release);
    assert!(flag.load(std::sync::atomic::Ordering::Acquire));
    assert!(!second.load(std::sync::atomic::Ordering::Acquire));
    coordinator.finish();
    assert!(!coordinator.is_active());
}

#[test]
fn process_detection_and_sample_flow_remain_separate_facts() {
    let status = CaptureStatus {
        rekordbox_detected: true,
        rekordbox_session_detected: true,
        capture_initialized: true,
        packets_received: false,
        non_silent_samples_received: false,
        reactive_ready: false,
        ..CaptureStatus::default()
    };
    assert!(status.rekordbox_detected && status.rekordbox_session_detected);
    assert!(initialization_settled(&status));
    assert!(!packets_settled(&status));
    assert!(!signal_settled(&status));
    let (code, message) = first_packet_failure(&status);
    assert_eq!(code, "ASIO_BYPASS_SUSPECTED");
    assert_eq!(message, "Capture initialized, but no packets arrived before the timeout.");
}

#[test]
fn waits_end_on_a_failed_worker() {
    let failed = CaptureStatus { state: CaptureState::Failed, ..CaptureStatus::default() };
    assert!(initialization_settled(&failed) && packets_settled(&failed) && signal_settled(&failed));
    let unsupported = CaptureStatus {
        state: CaptureState::Unsupported,
        message: Some("MACOS_VERSION_UNSUPPORTED".to_string()),
        ..CaptureStatus::default()
    };
    assert!(initialization_settled(&unsupported));
    assert!(!packets_settled(&unsupported));
    assert_eq!(first_packet_failure(&unsupported), ("NO_AUDIO_PACKETS", "MACOS_VERSION_UNSUPPORTED".to_string()));
}

#[test]
fn log_location_helpers_follow_the_session() {
    assert_eq!(log_path(None), None);
    assert_eq!(session_id(None), None);
    assert_eq!(report_directory(None), None);
    let location = LogLocation::new("/var/log/pulsebridge", "s1".to_string());
    assert_eq!(log_path(Some(&location)).as_deref(), Some("/var/log/pulsebridge/pulsebridge.log"));
    assert_eq!(session_id(Some(&location)).as_deref(), Some("s1"));
    assert_eq!(report_directory(Some(&location)).as_deref(), Some("/var/log/pulsebridge"));
    let bare = LogLocation::new("", "s2".to_string());
    assert_eq!(log_path(Some(&bare)).as_deref(), Some("pulsebridge.log"));
    assert_eq!(report_directory(Some(&bare)).as_deref(), Some(""));
}

#[test]
fn an_unclean_exit_is_reconstructed_at_the_last_durable_stage() {
    let mut marker = new_marker("session".to_string(), "start".to_string(), String::new());
    mark_in_progress(&mut marker, "audio.firstPacket", "FIRST_AUDIO_PACKET_WAIT_BEGIN", "Waiting", "t1".to_string());
    apply_stage_record(&mut marker, "audio.nonSilentSamples", "running", "NON_SILENT_SAMPLE_WAIT_BEGIN", "Waiting for signal", "t2".to_string());
    assert!(ended_unexpectedly(&marker));
    let run = interrupted_run(&marker, "current.log");
    assert_eq!(run.failure_stage, "audio.nonSilentSamples");
    assert_eq!(run.failure_code, "UNEXPECTED_PROCESS_EXIT");
    assert_eq!(run.stage_message, "The previous run ended while 'audio.nonSilentSamples' was running.");
    assert_eq!(run.log_path, "current.log");

    apply_clean_exit(&mut marker, "bye", "t3".to_string());
    assert!(!ended_unexpectedly(&marker));
    apply_stage_record(&mut marker, "renderer.device", "pass", "GPU_DEVICE_CREATED", "ok", "t4".to_string());
    assert!(!ended_unexpectedly(&marker));
    set_active_report(&mut marker, Some("report"), "t5".to_string());
    assert!(ended_unexpectedly(&marker));
}

fn clock_at(monotonic_ms: u64) -> LogClock {
    LogClock {
        timestamp: "2026-01-01T00:00:00.000Z".to_string(),
        timestamp_ms: 1_767_225_600_000,
        monotonic_ms,
    }
}

#[test]
fn stage_records_begin_without_and_end_with_a_duration() {
    let begin = stage_record("s", "info", "test.stage", "begin", "TEST_BEGIN", "Starting test stage", None, clock_at(100));
    let end = terminal_stage_record("s", "test.stage", StageEnd::Pass, "TEST_PASS", "Finished test stage", 100, clock_at(160));
    assert_eq!(begin.status, "begin");
    assert_eq!(begin.code, "TEST_BEGIN");
    assert_eq!(begin.event, "stage.test.stage.begin");
    assert!(begin.duration_ms.is_none());
    assert_eq!(end.status, "pass");
    assert_eq!(end.level, "info");
    assert_eq!(end.code, "TEST_PASS");
    assert_eq!(end.event, "stage.test.stage.pass");
    assert_eq!(end.duration_ms, Some(60));
    assert!(end.monotonic_ms >= begin.monotonic_ms);
    assert_eq!(end.stage.as_deref(), Some("test.stage"));
}

#[test]
fn cancelled_and_interrupted_stages_use_their_own_codes() {
    let cancelled = terminal_stage_record("s", "audio.firstPacket", StageEnd::Cancelled, "IGNORED", "Waiting was cancelled", 10, clock_at(5));
    assert_eq!(cancelled.code, "DIAGNOSTIC_CANCELLED");
    assert_eq!(cancelled.status, "cancelled");
    assert_eq!(cancelled.level, "warn");
    assert_eq!(cancelled.message, "Waiting was cancelled");
    assert_eq!(cancelled.duration_ms, Some(0));
    let interrupted = terminal_stage_record("s", "renderer.device", StageEnd::Interrupted, "BEGIN", "", 1, clock_at(4));
    assert_eq!(interrupted.code, "STAGE_INTERRUPTED");
    assert_eq!(interrupted.status, "error");
    assert_eq!(interrupted.message, "Stage ended without a terminal result");
    let event = event_record("s", "info", "application.startup", "APP_RUNTIME_START", "starting", clock_at(0));
    assert_eq!(event.status, "event");
    assert!(event.stage.is_none());
    assert!(event.duration_ms.is_none());
}

#[test]
fn the_log_rotates_once_it_is_full() {
    assert!(!should_rotate(None, 80));
    assert!(!should_rotate(Some(79), 80));
    assert!(should_rotate(Some(80), 80));
    assert!(should_rotate(Some(120), 80));
}

#[test]
fn a_log_directory_written_with_a_trailing_slash_is_its_parent() {
    let location = LogLocation::new("/var/log/pulsebridge/", "s3".to_string());
    assert_eq!(log_path(Some(&location)).as_deref(), Some("/var/log/pulsebridge/pulsebridge.log"));
    assert_eq!(report_directory(Some(&location)).as_deref(), Some("/var/log/pulsebridge"));
}

#[test]
fn only_the_last_lines_of_a_previous_log_are_read_back() {
    let record = |n: u64| {
        Some(event_record("s", "info", "event", "CODE", &format!("line {n}"), clock_at(n)))
    };
    let mut lines = Vec::new();
    for n in 0..70u64 {
        lines.push(if n % 10 == 9 { None } else { record(n) });
    }
    let kept = recent_records(lines);
    assert_eq!(RECENT_LOG_LINES, 64);
    let numbers: Vec<u64> = kept.iter().map(|r| r.monotonic_ms).collect();
    let expected: Vec<u64> = (6..70u64).filter(|n| n % 10 != 9).collect();
    assert_eq!(numbers, expected);
    assert!(recent_records(Vec::new()).is_empty());
}
