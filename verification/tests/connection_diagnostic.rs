use pulsebridge::audio_probe::{
    audio_probe_step, requested_action, AudioProbeStage, ProbeAction, ProbeEvent, SelectedRoute,
};
use pulsebridge::capture::CaptureStatus;
use pulsebridge::diagnostic_runner::{next_probe, DiagnosticProbe};
use pulsebridge::diagnostics::{DiagnosticMode, DiagnosticStageStatus, DiagnosticVerdict};
use pulsebridge::probe_report::{
    conclude, record_renderer_validation, record_surface_probe, DiagnosticReport,
    SurfaceProbeOutcome,
};

fn fresh(mode: DiagnosticMode) -> DiagnosticReport {
    DiagnosticReport::new(
        "report-1".to_string(),
        Some("session-1".to_string()),
        mode,
        "2026-01-01T00:00:00.000Z".to_string(),
        "pulsebridge.log".to_string(),
    )
}

fn status_with(initialized: bool, packets: bool, signal: bool) -> CaptureStatus {
    let mut status = CaptureStatus::default();
    status.capture_initialized = initialized;
    status.packets_received = packets;
    status.non_silent_samples_received = signal;
    status
}

fn discovered(process: bool, selected: Option<SelectedRoute>) -> ProbeEvent {
    ProbeEvent::Discovered {
        process_detected: process,
        session_detected: false,
        session_stage: false,
        selected,
        duration_ms: 4,
        session_duration_ms: 0,
    }
}

fn route(requires_rekordbox: bool, available: bool) -> Option<SelectedRoute> {
    Some(SelectedRoute { requires_rekordbox, available })
}

fn codes(report: &DiagnosticReport) -> Vec<String> {
    report.stages.iter().map(|stage| stage.code.clone()).collect()
}

#[test]
fn healthy_route_passes_every_audio_stage() {
    let mut report = fresh(DiagnosticMode::AudioOnly);
    let mut stage = AudioProbeStage::Discovery;
    assert_eq!(requested_action(stage), ProbeAction::EnumerateSources);

    let (next, action) = audio_probe_step(stage, &mut report, discovered(true, route(true, true)));
    assert_eq!((next, action), (AudioProbeStage::Initializing, ProbeAction::StartWorker));
    stage = next;
    let (next, action) = audio_probe_step(
        stage,
        &mut report,
        ProbeEvent::Initialization {
            settled: true,
            cancelled: false,
            status: status_with(true, false, false),
            duration_ms: 10,
        },
    );
    assert_eq!((next, action), (AudioProbeStage::FirstPacket, ProbeAction::WaitForPackets));
    stage = next;
    let (next, action) = audio_probe_step(
        stage,
        &mut report,
        ProbeEvent::Packets {
            settled: true,
            cancelled: false,
            status: status_with(true, true, false),
            duration_ms: 20,
        },
    );
    assert_eq!((next, action), (AudioProbeStage::NonSilent, ProbeAction::WaitForSignal));
    stage = next;
    let (next, action) = audio_probe_step(
        stage,
        &mut report,
        ProbeEvent::Signal {
            settled: true,
            cancelled: false,
            status: status_with(true, true, true),
            duration_ms: 30,
        },
    );
    assert_eq!((next, action), (AudioProbeStage::Stopping, ProbeAction::StopWorker));
    stage = next;
    let (next, action) = audio_probe_step(stage, &mut report, ProbeEvent::Joined { joined: true });
    assert_eq!((next, action), (AudioProbeStage::Finished, ProbeAction::Finish));

    assert_eq!(report.outcome.verdict, DiagnosticVerdict::Pass);
    assert_eq!(report.outcome.failure_code, None);
    assert!(report.process_detected);
    assert_eq!(
        codes(&report),
        vec![
            "REKORDBOX_PROCESS_FOUND",
            "AUDIO_CAPTURE_INITIALIZED",
            "AUDIO_PACKETS_RECEIVED",
            "REACTIVE_READY",
        ]
    );
    assert_eq!(report.stages[0].stage, "rekordbox.processDiscovery");
    assert_eq!(report.stages[0].duration_ms, 4);
    assert_eq!(report.stages[3].stage, "audio.nonSilentSamples");
    assert_eq!(report.stages[3].message, "Recent non-silent audio is feeding analysis.");
}

#[test]
fn enumeration_failure_ends_the_probe() {
    let mut report = fresh(DiagnosticMode::AudioOnly);
    let (next, action) = audio_probe_step(
        AudioProbeStage::Discovery,
        &mut report,
        ProbeEvent::EnumerationFailed { error: "no endpoints".to_string(), duration_ms: 2 },
    );
    assert_eq!((next, action), (AudioProbeStage::Finished, ProbeAction::Finish));
    assert_eq!(report.outcome.verdict, DiagnosticVerdict::Fail);
    assert_eq!(report.outcome.failure_stage.as_deref(), Some("rekordbox.processDiscovery"));
    assert_eq!(report.outcome.failure_code.as_deref(), Some("AUDIO_SOURCE_ENUMERATION_FAILED"));
    assert_eq!(report.stages.len(), 1);
    assert_eq!(report.stages[0].status, DiagnosticStageStatus::Fail);
    assert_eq!(report.stages[0].message, "no endpoints");
}

#[test]
fn missing_rekordbox_degrades_discovery_and_unavailable_route_fails() {
    let mut report = fresh(DiagnosticMode::AudioOnly);
    let event = ProbeEvent::Discovered {
        process_detected: false,
        session_detected: false,
        session_stage: true,
        selected: route(true, false),
        duration_ms: 3,
        session_duration_ms: 5,
    };
    let (next, _) = audio_probe_step(AudioProbeStage::Discovery, &mut report, event);
    assert_eq!(next, AudioProbeStage::Finished);
    assert_eq!(
        codes(&report),
        vec![
            "REKORDBOX_PROCESS_NOT_FOUND",
            "REKORDBOX_AUDIO_SESSION_NOT_FOUND",
            "REKORDBOX_PROCESS_NOT_FOUND",
        ]
    );
    assert_eq!(report.stages[0].status, DiagnosticStageStatus::Degraded);
    assert_eq!(report.stages[1].status, DiagnosticStageStatus::Degraded);
    assert_eq!(report.stages[1].duration_ms, 5);
    assert_eq!(report.stages[2].status, DiagnosticStageStatus::Fail);
    assert_eq!(report.stages[2].message, "Start Rekordbox before selecting its audio-session route.");
    assert_eq!(report.outcome.verdict, DiagnosticVerdict::Fail);
    assert_eq!(report.outcome.failure_stage.as_deref(), Some("audio.captureInitialization"));
    assert_eq!(report.outcome.failure_code.as_deref(), Some("REKORDBOX_PROCESS_NOT_FOUND"));
}

#[test]
fn no_route_fails_without_a_capture_stage() {
    let mut report = fresh(DiagnosticMode::AudioOnly);
    let (next, _) = audio_probe_step(AudioProbeStage::Discovery, &mut report, discovered(false, None));
    assert_eq!(next, AudioProbeStage::Finished);
    assert_eq!(codes(&report), vec!["REKORDBOX_PROCESS_NOT_REQUIRED"]);
    assert_eq!(report.outcome.failure_code.as_deref(), Some("NO_AUDIO_SOURCE"));
    assert_eq!(report.outcome.verdict, DiagnosticVerdict::Fail);
}

#[test]
fn initialization_failure_uses_the_stable_code_and_stops_the_worker() {
    let mut report = fresh(DiagnosticMode::AudioOnly);
    let mut status = status_with(false, false, false);
    status.message = Some("UNSUPPORTED_AUDIO_FORMAT: 7 channels".to_string());
    let (next, action) = audio_probe_step(
        AudioProbeStage::Initializing,
        &mut report,
        ProbeEvent::Initialization { settled: true, cancelled: false, status, duration_ms: 9 },
    );
    assert_eq!((next, action), (AudioProbeStage::Stopping, ProbeAction::StopWorker));
    assert_eq!(codes(&report), vec!["UNSUPPORTED_AUDIO_FORMAT"]);
    assert_eq!(report.stages[0].message, "UNSUPPORTED_AUDIO_FORMAT: 7 channels");
    assert_eq!(report.outcome.failure_code.as_deref(), Some("UNSUPPORTED_AUDIO_FORMAT"));

    let (next, _) = audio_probe_step(next, &mut report, ProbeEvent::Joined { joined: false });
    assert_eq!(next, AudioProbeStage::Finished);
    assert_eq!(report.outcome.failure_code.as_deref(), Some("UNSUPPORTED_AUDIO_FORMAT"));
}

#[test]
fn cancelled_initialization_records_a_cancelled_stage() {
    let mut report = fresh(DiagnosticMode::AudioOnly);
    let (next, _) = audio_probe_step(
        AudioProbeStage::Initializing,
        &mut report,
        ProbeEvent::Initialization {
            settled: false,
            cancelled: true,
            status: status_with(false, false, false),
            duration_ms: 1,
        },
    );
    assert_eq!(next, AudioProbeStage::Stopping);
    assert_eq!(report.stages[0].status, DiagnosticStageStatus::Cancelled);
    assert_eq!(report.stages[0].code, "DIAGNOSTIC_CANCELLED");
    assert_eq!(report.outcome.failure_code, None);
}

#[test]
fn silent_route_is_degraded_and_stuck_worker_is_not_reattributed() {
    let mut report = fresh(DiagnosticMode::AudioOnly);
    let (next, _) = audio_probe_step(
        AudioProbeStage::NonSilent,
        &mut report,
        ProbeEvent::Signal {
            settled: false,
            cancelled: false,
            status: status_with(true, true, false),
            duration_ms: 5000,
        },
    );
    assert_eq!(next, AudioProbeStage::Stopping);
    assert_eq!(report.stages[0].status, DiagnosticStageStatus::Degraded);
    assert_eq!(report.outcome.verdict, DiagnosticVerdict::Degraded);
    assert_eq!(report.outcome.failure_code.as_deref(), Some("NO_NON_SILENT_SAMPLES"));
    let (_, _) = audio_probe_step(next, &mut report, ProbeEvent::Joined { joined: false });
    assert_eq!(report.outcome.failure_code.as_deref(), Some("NO_NON_SILENT_SAMPLES"));
    assert_eq!(report.outcome.verdict, DiagnosticVerdict::Degraded);
}

#[test]
fn stuck_worker_fails_a_clean_probe() {
    let mut report = fresh(DiagnosticMode::AudioOnly);
    let (next, _) = audio_probe_step(
        AudioProbeStage::Stopping,
        &mut report,
        ProbeEvent::Joined { joined: false },
    );
    assert_eq!(next, AudioProbeStage::Finished);
    assert_eq!(report.outcome.verdict, DiagnosticVerdict::Fail);
    assert_eq!(report.outcome.failure_stage.as_deref(), Some("audio.cleanup"));
    assert_eq!(report.outcome.failure_code.as_deref(), Some("AUDIO_WORKER_STOP_TIMEOUT"));
}

#[test]
fn missing_packets_with_rekordbox_suspect_asio() {
    let mut report = fresh(DiagnosticMode::AudioOnly);
    let mut status = status_with(true, false, false);
    status.rekordbox_detected = true;
    let (next, _) = audio_probe_step(
        AudioProbeStage::FirstPacket,
        &mut report,
        ProbeEvent::Packets { settled: false, cancelled: false, status, duration_ms: 8000 },
    );
    assert_eq!(next, AudioProbeStage::Stopping);
    assert_eq!(codes(&report), vec!["ASIO_BYPASS_SUSPECTED"]);
    assert_eq!(
        report.stages[0].message,
        "Capture initialized, but no packets arrived before the timeout."
    );
    assert_eq!(report.outcome.failure_stage.as_deref(), Some("audio.firstPacket"));
}

#[test]
fn out_of_turn_events_change_nothing() {
    let mut report = fresh(DiagnosticMode::AudioOnly);
    let (next, action) = audio_probe_step(
        AudioProbeStage::FirstPacket,
        &mut report,
        ProbeEvent::Joined { joined: false },
    );
    assert_eq!((next, action), (AudioProbeStage::FirstPacket, ProbeAction::WaitForPackets));
    assert!(report.stages.is_empty());
    assert_eq!(report.outcome.verdict, DiagnosticVerdict::Pass);
    let (next, action) = audio_probe_step(
        AudioProbeStage::Finished,
        &mut report,
        discovered(true, route(false, true)),
    );
    assert_eq!((next, action), (AudioProbeStage::Finished, ProbeAction::Finish));
    assert!(report.stages.is_empty());
}

#[test]
fn renderer_validation_outcomes_are_staged() {
    let mut report = fresh(DiagnosticMode::AudioOnly);
    record_renderer_validation(&mut report, Ok(()), false, 40);
    assert_eq!(report.stages[0].code, "GPU_PIPELINE_VALIDATED");
    assert_eq!(report.stages[0].status, DiagnosticStageStatus::Pass);
    record_renderer_validation(
        &mut report,
        Err("DIAGNOSTIC_CANCELLED: renderer validation cancelled".to_string()),
        true,
        3,
    );
    assert_eq!(report.stages[1].status, DiagnosticStageStatus::Cancelled);
    assert_eq!(report.stages[1].code, "DIAGNOSTIC_CANCELLED");
    assert_eq!(report.outcome.failure_code, None);
    record_renderer_validation(
        &mut report,
        Err("GPU_DEVICE_LOST: the adapter reset".to_string()),
        false,
        7,
    );
    assert_eq!(report.stages[2].status, DiagnosticStageStatus::Fail);
    assert_eq!(report.stages[2].code, "GPU_DEVICE_LOST");
    assert_eq!(report.stages[2].message, "GPU_DEVICE_LOST: the adapter reset");
    assert_eq!(report.outcome.verdict, DiagnosticVerdict::Fail);
    assert_eq!(report.outcome.failure_stage.as_deref(), Some("renderer.headlessValidation"));
    assert_eq!(report.outcome.failure_code.as_deref(), Some("GPU_DEVICE_LOST"));
    record_renderer_validation(&mut report, Err("driver crashed".to_string()), false, 1);
    assert_eq!(report.stages[3].code, "GPU_DIAGNOSTIC_FAILED");
    assert_eq!(report.outcome.failure_code.as_deref(), Some("GPU_DEVICE_LOST"));
}

#[test]
fn concluding_a_report_fills_the_summary() {
    let mut passing = fresh(DiagnosticMode::AudioOnly);
    assert_eq!(passing.schema_version, 1);
    assert_eq!(passing.report_id, "report-1");
    assert_eq!(passing.session_id.as_deref(), Some("session-1"));
    assert_eq!(passing.duration_ms, 0);
    conclude(&mut passing, false, 1500);
    assert_eq!(passing.duration_ms, 1500);
    assert_eq!(
        passing.outcome.summary,
        "Audio capture initialized and non-silent samples reached analysis."
    );

    let mut failing = fresh(DiagnosticMode::FullStartup);
    let (_, _) = audio_probe_step(
        AudioProbeStage::Stopping,
        &mut failing,
        ProbeEvent::Joined { joined: false },
    );
    conclude(&mut failing, false, 20);
    assert_eq!(
        failing.outcome.summary,
        "The diagnostic stopped at audio.cleanup (AUDIO_WORKER_STOP_TIMEOUT)."
    );

    let mut cancelled = fresh(DiagnosticMode::RendererOnly);
    conclude(&mut cancelled, true, 30);
    assert_eq!(cancelled.outcome.verdict, DiagnosticVerdict::Cancelled);
    assert_eq!(cancelled.outcome.failure_code.as_deref(), Some("DIAGNOSTIC_CANCELLED"));
    assert_eq!(
        cancelled.outcome.summary,
        "The connection diagnostic was cancelled and its workers were stopped."
    );
}

#[test]
fn hidden_surface_outcomes_are_staged() {
    let mut report = fresh(DiagnosticMode::FullStartup);
    record_surface_probe(&mut report, SurfaceProbeOutcome::Presented { joined: true }, false, 900);
    assert_eq!(report.stages[0].stage, "renderer.hiddenSurface");
    assert_eq!(report.stages[0].code, "GPU_FIRST_FRAME_PRESENTED");
    assert_eq!(report.outcome.verdict, DiagnosticVerdict::Pass);

    record_surface_probe(
        &mut report,
        SurfaceProbeOutcome::WindowFailed("no display".to_string()),
        false,
        1,
    );
    assert_eq!(report.stages[1].code, "DISPLAY_WINDOW_CREATE_FAILED");
    assert_eq!(report.stages[1].message, "DISPLAY_WINDOW_CREATE_FAILED: no display");
    assert_eq!(report.outcome.failure_code.as_deref(), Some("DISPLAY_WINDOW_CREATE_FAILED"));

    let mut timed_out = fresh(DiagnosticMode::FullStartup);
    record_surface_probe(
        &mut timed_out,
        SurfaceProbeOutcome::NotPresented(
            "GPU_FIRST_FRAME_TIMEOUT: no frame was presented within eight seconds".to_string(),
        ),
        false,
        8000,
    );
    assert_eq!(timed_out.stages[0].code, "GPU_FIRST_FRAME_TIMEOUT");
    assert_eq!(timed_out.outcome.failure_stage.as_deref(), Some("renderer.hiddenSurface"));

    let mut stuck = fresh(DiagnosticMode::FullStartup);
    record_surface_probe(&mut stuck, SurfaceProbeOutcome::Presented { joined: false }, false, 5);
    assert_eq!(stuck.outcome.failure_code.as_deref(), Some("WORKER_STOP_TIMEOUT"));

    let mut worker = fresh(DiagnosticMode::FullStartup);
    record_surface_probe(
        &mut worker,
        SurfaceProbeOutcome::WorkerFailed("spawn refused".to_string()),
        false,
        2,
    );
    assert_eq!(worker.stages[0].code, "GPU_SURFACE_CREATE_FAILED");
    assert_eq!(worker.stages[0].message, "GPU_SURFACE_WORKER_START_FAILED: spawn refused");

    let mut cancelled = fresh(DiagnosticMode::FullStartup);
    record_surface_probe(
        &mut cancelled,
        SurfaceProbeOutcome::NotPresented("DIAGNOSTIC_CANCELLED: hidden-surface probe cancelled".to_string()),
        true,
        3,
    );
    assert_eq!(cancelled.stages[0].status, DiagnosticStageStatus::Cancelled);
    assert_eq!(cancelled.outcome.failure_code, None);
}

#[test]
fn probes_follow_the_mode_in_order() {
    let full = DiagnosticMode::FullStartup;
    assert_eq!(next_probe(full, None, false), Some(DiagnosticProbe::Audio));
    assert_eq!(next_probe(full, Some(DiagnosticProbe::Audio), false), Some(DiagnosticProbe::Renderer));
    assert_eq!(
        next_probe(full, Some(DiagnosticProbe::Renderer), false),
        Some(DiagnosticProbe::HiddenSurface)
    );
    assert_eq!(next_probe(full, Some(DiagnosticProbe::HiddenSurface), false), None);
    assert_eq!(next_probe(full, Some(DiagnosticProbe::Audio), true), None);
    assert_eq!(next_probe(DiagnosticMode::AudioOnly, Some(DiagnosticProbe::Audio), false), None);
    assert_eq!(next_probe(DiagnosticMode::SafeRenderer, None, false), Some(DiagnosticProbe::Renderer));
    assert_eq!(next_probe(DiagnosticMode::RendererOnly, Some(DiagnosticProbe::Renderer), false), None);
}
