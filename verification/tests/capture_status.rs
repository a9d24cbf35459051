use pulsebridge::capture::{
    initialize_capture_status, mark_capture_stopped, mark_client_started, mark_retrying,
    mark_rekordbox_found, mark_waiting_for_rekordbox, publish_callback_status, session_check,
    update_failure, CallbackCounters, CaptureStatus, PacketMonitor, PacketNotes, SignalWatch,
};
use pulsebridge::reconnect::RoutePolicy;
use pulsebridge::sources::{CaptureRoute, CaptureState, SampleFlowState};

#[test]
fn a_fresh_status_is_stopped_with_nothing_captured() {
    let status = CaptureStatus::default();
    assert_eq!(status.state, CaptureState::Stopped);
    assert_eq!(status.route, CaptureRoute::NoRoute);
    assert_eq!(status.sample_flow, SampleFlowState::Unavailable);
    assert!(!status.capture_initialized && !status.reactive_ready);
    assert_eq!(status.message, None);
    assert_eq!(status.captured_frames, 0);
}

#[test]
fn packets_mark_first_events_once_and_signal_makes_the_route_flow() {
    let mut status = CaptureStatus::default();
    mark_client_started(&mut status, CaptureRoute::AutomaticOutput, "Speakers", 48_000, 2, "f32");
    assert_eq!(status.state, CaptureState::Connecting);
    assert_eq!(status.message.as_deref(), Some("Audio client initialized; waiting for samples"));
    let mut monitor = PacketMonitor::new(0);
    let notes = monitor.on_packet(&mut status, 10, 480, false, 0, 0, 0, CaptureRoute::AutomaticOutput, "Speakers");
    assert_eq!(notes, PacketNotes { first_packet: true, first_signal: false });
    assert!(status.packets_received && !status.non_silent_samples_received);
    assert_eq!(status.sample_flow, SampleFlowState::Waiting);
    let notes = monitor.on_packet(&mut status, 20, 480, true, 3, 7, 9, CaptureRoute::AutomaticOutput, "Speakers");
    assert_eq!(notes, PacketNotes { first_packet: false, first_signal: true });
    assert_eq!(status.state, CaptureState::Listening);
    assert_eq!(status.sample_flow, SampleFlowState::Flowing);
    assert!(status.reactive_ready && status.non_silent_samples_received);
    assert_eq!(status.message, None);
    assert_eq!((status.captured_frames, status.dropped_samples, status.rms_bits, status.peak_bits), (960, 3, 7, 9));
    let notes = monitor.on_packet(&mut status, 30, 480, true, 3, 7, 9, CaptureRoute::AutomaticOutput, "Speakers");
    assert_eq!(notes, PacketNotes { first_packet: false, first_signal: false });
}

#[test]
fn two_seconds_of_silence_report_recovering_and_automatic_outputs_give_up() {
    let mut status = CaptureStatus::default();
    let monitor = PacketMonitor::new(0);
    assert_eq!(monitor.after_packets(&mut status, 1_999, RoutePolicy::AutomaticOutput, CaptureRoute::AutomaticOutput, "Speakers"), None);
    assert_eq!(status.state, CaptureState::Stopped);
    let give_up = monitor.after_packets(&mut status, 2_000, RoutePolicy::AutomaticOutput, CaptureRoute::AutomaticOutput, "Speakers");
    assert_eq!(give_up.as_deref(), Some("Windows output remained silent; checking another output"));
    assert_eq!(status.state, CaptureState::Recovering);
    assert_eq!(status.sample_flow, SampleFlowState::Silent);
    assert_eq!(
        status.message.as_deref(),
        Some("No music detected on Speakers; checking the other Windows outputs. If Rekordbox uses ASIO, enable PC MASTER OUT.")
    );
    let mut selected = CaptureStatus::default();
    assert_eq!(monitor.after_packets(&mut selected, 300_000, RoutePolicy::SelectedOutput, CaptureRoute::SelectedOutput, "Desk"), None);
    assert_eq!(selected.message.as_deref(), Some("Audio client is connected but the selected output is silent"));
}

#[test]
fn a_route_that_carried_signal_waits_the_longer_retry() {
    let mut status = CaptureStatus::default();
    let mut monitor = PacketMonitor::new(0);
    monitor.on_packet(&mut status, 1_000, 480, true, 0, 0, 0, CaptureRoute::RekordboxSessionOutput, "Mixer");
    assert_eq!(monitor.after_packets(&mut status, 2_999, RoutePolicy::AutomaticOutput, CaptureRoute::RekordboxSessionOutput, "Mixer"), None);
    assert!(status.reactive_ready);
    assert_eq!(monitor.after_packets(&mut status, 30_999, RoutePolicy::AutomaticOutput, CaptureRoute::RekordboxSessionOutput, "Mixer"), None);
    assert!(!status.reactive_ready);
    assert_eq!(
        status.message.as_deref(),
        Some("Connected to Rekordbox on Mixer, but its Windows stream is silent. Play a track and verify PC MASTER OUT.")
    );
    assert!(monitor.after_packets(&mut status, 31_000, RoutePolicy::AutomaticOutput, CaptureRoute::RekordboxSessionOutput, "Mixer").is_some());
}

#[test]
fn sessions_are_validated_every_two_seconds() {
    let mut monitor = PacketMonitor::new(0);
    assert!(!monitor.session_validation_due(true, 1_999));
    assert!(monitor.session_validation_due(true, 2_000));
    assert!(!monitor.session_validation_due(true, 3_000));
    assert!(monitor.session_validation_due(true, 4_000));
    assert!(!monitor.session_validation_due(false, 10_000));
}

#[test]
fn a_vanished_process_or_session_stops_the_capture() {
    let mut status = CaptureStatus::default();
    status.rekordbox_detected = true;
    status.rekordbox_session_detected = true;
    assert_eq!(session_check(&mut status, true, false), None);
    assert!(status.rekordbox_session_detected);
    let stop = session_check(&mut status, true, true).unwrap();
    assert!(stop.starts_with("REKORDBOX_AUDIO_SESSION_CHANGED"));
    assert!(status.rekordbox_detected && !status.rekordbox_session_detected);
    let stop = session_check(&mut status, false, true).unwrap();
    assert_eq!(stop, "REKORDBOX_PROCESS_NOT_FOUND: Rekordbox exited; waiting for it to restart");
    assert!(!status.rekordbox_detected);
}

#[test]
fn callbacks_publish_reactive_silent_or_waiting() {
    let mut watch = SignalWatch::new();
    let mut status = CaptureStatus::default();
    let counters = CallbackCounters { packets: 0, frames: 0, non_silent: false, dropped_samples: 0, rms_bits: 0, peak_bits: 0 };
    let reactive = watch.observe(0, false, 0);
    publish_callback_status(&mut status, counters, reactive, "Rekordbox", CaptureRoute::RekordboxProcess, true);
    assert_eq!(status.sample_flow, SampleFlowState::Waiting);
    assert_eq!(status.message.as_deref(), Some("Core Audio tap initialized; waiting for the first packet"));
    let heard = CallbackCounters { packets: 4, frames: 1_920, non_silent: true, ..counters };
    let reactive = watch.observe(4, true, 100);
    assert!(reactive);
    publish_callback_status(&mut status, heard, reactive, "Rekordbox", CaptureRoute::RekordboxProcess, true);
    assert_eq!(status.state, CaptureState::Listening);
    assert_eq!(status.sample_flow, SampleFlowState::Flowing);
    assert_eq!(status.message, None);
    // No new packets for two seconds: silent.
    let reactive = watch.observe(4, true, 2_100);
    assert!(!reactive);
    publish_callback_status(&mut status, heard, reactive, "Rekordbox", CaptureRoute::RekordboxProcess, true);
    assert_eq!(status.sample_flow, SampleFlowState::Silent);
    assert_eq!(status.message.as_deref(), Some("Rekordbox is initialized but currently silent"));
}

#[test]
fn capture_loops_report_waiting_retrying_failure_and_stop() {
    let mut status = CaptureStatus::default();
    mark_waiting_for_rekordbox(&mut status);
    assert_eq!((status.state, status.sample_flow), (CaptureState::Recovering, SampleFlowState::Waiting));
    mark_rekordbox_found(&mut status, "rekordbox");
    assert_eq!(status.source_name.as_deref(), Some("rekordbox"));
    assert_eq!(status.message.as_deref(), Some("Requesting macOS system-audio permission"));
    initialize_capture_status(&mut status, CaptureRoute::RekordboxProcess, true, "rekordbox", 48_000, 2, "f32");
    assert!(status.capture_initialized);
    assert_eq!(status.sample_rate, Some(48_000));
    mark_retrying(&mut status, "The tap ended");
    assert_eq!(status.message.as_deref(), Some("The tap ended. Retrying…"));
    update_failure(&mut status, CaptureState::Unsupported, "MACOS_VERSION_UNSUPPORTED: 13.0");
    assert!(!status.capture_initialized && !status.reactive_ready);
    assert_eq!(status.state, CaptureState::Unsupported);
    mark_capture_stopped(&mut status);
    assert_eq!((status.state, status.route, status.message.clone()), (CaptureState::Stopped, CaptureRoute::NoRoute, None));
}
