use std::sync::atomic::{AtomicBool, Ordering};

use pulsebridge::diagnostic_runner::{map_audio_failure, map_renderer_failure};
use pulsebridge::capture::CaptureStatus;
use pulsebridge::diagnostics::{
    interrupted_run, DiagnosticMode, DiagnosticStageStatus, DiagnosticVerdict, LastSessionMarker,
    SessionExitState,
};
use pulsebridge::display::{stop_performance, PerformanceState};
use pulsebridge::probe_report::{previous_run_report, report_file_name};
use pulsebridge::display::{should_reap_session, transition_lifecycle, LifecycleEvent, OutputMode, RuntimeLifecycle};
use pulsebridge::visual_settings::{sanitized_buffer_seconds, sanitized_source_id};
use pulsebridge::renderer::{
    first_frame_code, first_frame_step, first_frame_timeout_code, first_frame_timeout_message,
    FirstFrame, FirstFrameReport, FrameEvent,
};
use pulsebridge::renderer::{
    pace_frame, plan_resize, FRAME_INTERVAL_NS, ResizePlan,
    performance_render_size, surface_action, transition_renderer_failure, RendererLease,
    RendererLifecycle, RendererStatus, SurfaceAction, SurfaceOutcome,
};

#[test]
fn lifecycle_transitions_are_explicit_and_recoverable() {
    let mut state = transition_lifecycle(RuntimeLifecycle::Stopped, LifecycleEvent::Start);
    assert_eq!(state, RuntimeLifecycle::Starting);
    state = transition_lifecycle(state, LifecycleEvent::Ready);
    assert_eq!(state, RuntimeLifecycle::Running);
    state = transition_lifecycle(state, LifecycleEvent::Recover);
    assert_eq!(state, RuntimeLifecycle::Recovering);
    state = transition_lifecycle(state, LifecycleEvent::Recovered);
    assert_eq!(state, RuntimeLifecycle::Running);
    state = transition_lifecycle(state, LifecycleEvent::Fail);
    assert_eq!(state, RuntimeLifecycle::Failed);
    state = transition_lifecycle(state, LifecycleEvent::Stop);
    assert_eq!(state, RuntimeLifecycle::Stopped);
}

#[test]
fn unrelated_events_do_not_claim_readiness() {
    assert_eq!(
        transition_lifecycle(RuntimeLifecycle::Stopped, LifecycleEvent::Ready),
        RuntimeLifecycle::Stopped
    );
    assert_eq!(
        transition_lifecycle(RuntimeLifecycle::Failed, LifecycleEvent::Recovered),
        RuntimeLifecycle::Failed
    );
}

#[test]
fn stale_session_cleanup_triggers_for_stop_or_worker_exit() {
    assert!(!should_reap_session(false, false));
    assert!(should_reap_session(true, false));
    assert!(should_reap_session(false, true));
}

#[test]
fn output_modes_round_trip_through_their_stored_value() {
    for mode in [OutputMode::Reactive, OutputMode::Ambient, OutputMode::Black] {
        assert_eq!(OutputMode::from_value(mode.value()), mode);
    }
}

#[test]
fn performance_surface_keeps_hd_and_caps_four_k_at_hd() {
    assert_eq!(performance_render_size(1_920, 1_080), (1_920, 1_080));
    let (width, height) = performance_render_size(3_840, 2_160);
    assert_eq!((width, height), (1_920, 1_080));
}

#[test]
fn zero_sided_surfaces_count_as_one_pixel() {
    assert_eq!(performance_render_size(0, 0), (1, 1));
}

#[test]
fn ultrawide_surfaces_keep_their_aspect_within_the_budget() {
    let (width, height) = performance_render_size(5_120, 1_440);
    assert_eq!((width, height), (2_715, 764));
    assert!(u64::from(width) * u64::from(height) <= 2_073_600 + 2_715 + 764);
}

#[test]
fn renderer_failure_requests_an_orderly_stop_and_preserves_the_reason() {
    let stop = AtomicBool::new(false);
    let mut status = RendererStatus {
        state: RendererLifecycle::Running,
        ..Default::default()
    };
    if transition_renderer_failure(&mut status, "GPU_DEVICE_LOST: test".to_string()) {
        stop.store(true, Ordering::Release);
    }
    assert!(stop.load(Ordering::Acquire));
    assert_eq!(status.state, RendererLifecycle::Failed);
    assert_eq!(status.message.as_deref(), Some("GPU_DEVICE_LOST: test"));
}

#[test]
fn timed_out_caller_cannot_start_another_gpu_worker() {
    let active = AtomicBool::new(false);
    let lease = RendererLease::try_acquire(&active).unwrap();
    for _ in 0..5 {
        assert!(RendererLease::try_acquire(&active)
            .err()
            .unwrap()
            .starts_with("GPU_RENDERER_BUSY:"));
    }
    lease.release().store(false, Ordering::Release);
    let again = RendererLease::try_acquire(&active);
    assert!(again.is_ok());
}

#[test]
fn representative_failures_keep_stable_codes() {
    assert_eq!(
        map_renderer_failure("GPU_SHADER_VALIDATION_FAILED: invalid binding"),
        "GPU_SHADER_VALIDATION_FAILED"
    );
    assert_eq!(
        map_audio_failure(Some("WINDOWS_BUILD_UNSUPPORTED: build 19041"), "AUDIO_CLIENT_START_FAILED").0,
        "WINDOWS_BUILD_UNSUPPORTED"
    );
}

#[test]
fn audio_failures_without_a_code_use_the_fallback() {
    assert_eq!(
        map_audio_failure(None, "AUDIO_CLIENT_START_FAILED").0,
        "AUDIO_CLIENT_START_FAILED"
    );
}

#[test]
fn unfinished_marker_reconstructs_an_unexpected_exit_report() {
    let marker = LastSessionMarker {
        schema_version: 1,
        session_id: "session".to_string(),
        started_at: "2026-01-01T00:00:00Z".to_string(),
        updated_at: "2026-01-01T00:00:01Z".to_string(),
        state: SessionExitState::InProgress,
        active_report_id: Some("report".to_string()),
        last_stage: "renderer.device".to_string(),
        last_status: "begin".to_string(),
        last_code: "GPU_DEVICE_CREATE_BEGIN".to_string(),
        last_message: "Creating device".to_string(),
        log_path: "missing.log".to_string(),
    };
    let report = previous_run_report(&marker, "fresh".to_string(), "pulsebridge.log", Vec::new());
    assert_eq!(report.outcome.failure_code.as_deref(), Some("UNEXPECTED_PROCESS_EXIT"));
    assert_eq!(report.outcome.failure_stage.as_deref(), Some("renderer.device"));
    assert_eq!(report.report_id, "report");
    assert_eq!(report.outcome.verdict, DiagnosticVerdict::Fail);
    assert_eq!(report.session_id.as_deref(), Some("session"));
    assert_eq!(report.mode, DiagnosticMode::FullStartup);
    assert_eq!(report.stages.len(), 1);
    assert_eq!(report.stages[0].status, DiagnosticStageStatus::Fail);
    assert_eq!(report.stages[0].code, "UNEXPECTED_PROCESS_EXIT");
    assert_eq!(
        report.stages[0].message,
        "The previous run ended while 'renderer.device' was begin."
    );
    assert_eq!(report.log_path, "missing.log");
    assert!(report.recent_events.is_empty());
    let run = interrupted_run(&marker, "pulsebridge.log");
    assert_eq!(run.stage_message, report.stages[0].message);
}

#[test]
fn a_rebuilt_report_without_an_id_or_log_uses_the_fresh_ones() {
    let marker = LastSessionMarker {
        schema_version: 1,
        session_id: "session".to_string(),
        started_at: "2026-01-01T00:00:00Z".to_string(),
        updated_at: "2026-01-01T00:00:01Z".to_string(),
        state: SessionExitState::InProgress,
        active_report_id: None,
        last_stage: "audio.firstPacket".to_string(),
        last_status: "begin".to_string(),
        last_code: "FIRST_AUDIO_PACKET_WAIT_BEGIN".to_string(),
        last_message: "Waiting".to_string(),
        log_path: String::new(),
    };
    let report = previous_run_report(&marker, "fresh-id".to_string(), "current.log", Vec::new());
    assert_eq!(report.report_id, "fresh-id");
    assert_eq!(report.log_path, "current.log");
    assert_eq!(report_file_name("fresh-id"), "diagnostic-fresh-id.json");
}

#[test]
fn stopping_performance_resets_what_the_controller_shows() {
    let mut capture = CaptureStatus::default();
    capture.packets_received = true;
    let mut state = PerformanceState {
        capture,
        renderer: RendererStatus::default(),
        output_mode: OutputMode::Black,
        lifecycle: RuntimeLifecycle::Running,
    };
    assert!(stop_performance(&mut state, true));
    assert!(!state.capture.packets_received);
    assert_eq!(state.output_mode, OutputMode::Reactive);
    assert_eq!(state.lifecycle, transition_lifecycle(RuntimeLifecycle::Running, LifecycleEvent::Stop));
    assert_eq!(state.renderer.state, RendererLifecycle::Stopped);
    assert!(!stop_performance(&mut state, false));
}

#[test]
fn failure_is_sticky_until_an_explicit_start_or_stop() {
    for event in [LifecycleEvent::Ready, LifecycleEvent::Recover, LifecycleEvent::Recovered] {
        assert_eq!(transition_lifecycle(RuntimeLifecycle::Failed, event), RuntimeLifecycle::Failed);
    }
    assert_eq!(
        transition_lifecycle(RuntimeLifecycle::Failed, LifecycleEvent::Start),
        RuntimeLifecycle::Starting
    );
}

#[test]
fn surface_outcomes_reconfigure_recreate_skip_or_fail() {
    assert_eq!(surface_action(SurfaceOutcome::Success), SurfaceAction::Draw);
    assert_eq!(surface_action(SurfaceOutcome::Suboptimal), SurfaceAction::ReconfigureAndDraw);
    assert_eq!(surface_action(SurfaceOutcome::Lost), SurfaceAction::Recreate);
    assert_eq!(surface_action(SurfaceOutcome::Outdated), SurfaceAction::ReconfigureAndSkip);
    assert_eq!(surface_action(SurfaceOutcome::Timeout), SurfaceAction::Skip);
    assert_eq!(surface_action(SurfaceOutcome::Occluded), SurfaceAction::Skip);
    assert_eq!(surface_action(SurfaceOutcome::Validation), SurfaceAction::Fail);
}

// The float controls (brightness 4.0 clamped to 1.25) are clamped by the
// application; the buffer length and the source are the library's.
#[test]
fn settings_are_sanitized_before_runtime_use() {
    assert_eq!(sanitized_buffer_seconds(60), 30);
    assert_eq!(sanitized_buffer_seconds(10), 10);
    assert_eq!(sanitized_buffer_seconds(0), 5);
    assert_eq!(sanitized_source_id(String::new()), "process:auto");
    assert_eq!(sanitized_source_id("rekordbox:auto".to_string()), "rekordbox:auto");
}

#[test]
fn frames_are_paced_at_sixty_per_second() {
    assert_eq!(pace_frame(0, 10_000_000), (FRAME_INTERVAL_NS - 10_000_000, FRAME_INTERVAL_NS));
    assert_eq!(pace_frame(0, 20_000_000), (0, 20_000_000));
    assert_eq!(pace_frame(0, FRAME_INTERVAL_NS), (0, FRAME_INTERVAL_NS));
}

#[test]
fn resizes_follow_the_window_and_skip_minimised_windows() {
    assert_eq!(plan_resize(0, 1080, (1920, 1080), (1920, 1080)), None);
    assert_eq!(
        plan_resize(1920, 1080, (1920, 1080), (1920, 1080)),
        Some(ResizePlan {
            surface_changed: false,
            target_changed: false,
            surface_width: 1920,
            surface_height: 1080,
            target_width: 1920,
            target_height: 1080,
        })
    );
    let plan = plan_resize(3840, 2160, (1920, 1080), (1920, 1080)).unwrap();
    assert!(plan.surface_changed && !plan.target_changed);
    assert_eq!((plan.surface_width, plan.surface_height), (3840, 2160));
    let plan = plan_resize(1280, 720, (1920, 1080), (1920, 1080)).unwrap();
    assert!(plan.surface_changed && plan.target_changed);
    assert_eq!((plan.target_width, plan.target_height), (1280, 720));
}

#[test]
fn the_first_presented_frame_is_reported_once() {
    let (state, report) = first_frame_step(FirstFrame::Waiting, FrameEvent::Rendered(false));
    assert_eq!((state, report), (FirstFrame::Waiting, FirstFrameReport::Nothing));
    let (state, report) = first_frame_step(state, FrameEvent::Rendered(true));
    assert_eq!((state, report), (FirstFrame::Reported, FirstFrameReport::Ready));
    let (state, report) = first_frame_step(state, FrameEvent::Rendered(true));
    assert_eq!((state, report), (FirstFrame::Reported, FirstFrameReport::Nothing));
    let (_, report) = first_frame_step(state, FrameEvent::Stopped);
    assert_eq!(report, FirstFrameReport::Nothing);
    assert_eq!(first_frame_code(), "GPU_FIRST_FRAME_PRESENTED");
}

#[test]
fn a_renderer_stopped_before_its_first_frame_reports_the_timeout() {
    let (state, report) = first_frame_step(FirstFrame::Waiting, FrameEvent::Stopped);
    assert_eq!((state, report), (FirstFrame::Reported, FirstFrameReport::StoppedBeforeFirstFrame));
    assert_eq!(first_frame_timeout_code(), "GPU_FIRST_FRAME_TIMEOUT");
    assert_eq!(
        first_frame_timeout_message(),
        "Renderer stopped before the first valid performance frame"
    );
}
