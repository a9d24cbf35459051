//! The audio part of the connection diagnostic as a state machine. The
//! caller performs each requested action (enumerate the routes, start the
//! capture worker and wait for it to initialize, wait for packets, wait for
//! non-silent samples, stop the worker) and reports what it saw; the machine
//! records one result per stage and keeps the verdict and the first failure.
use vstd::prelude::*;

use crate::capture::CaptureStatus;
use crate::diagnostic_runner::{
    audio_codes, audio_failure_message, first_mentioned, first_packet_failure, map_audio_failure,
    mark_not_reactive, process_discovery, session_discovery, unavailable_source_failure,
};
use crate::diagnostics::{DiagnosticStageStatus, DiagnosticVerdict};
use crate::probe_report::{
    record, record_failure, with_failure, with_stage, DiagnosticReport, ReportView, StageResultView,
};

verus! {

/// Where the audio probe stands.
#[derive(Clone, Copy, Debug, PartialEq, Eq, Structural)]
pub enum AudioProbeStage {
    Discovery,
    Initializing,
    FirstPacket,
    NonSilent,
    Stopping,
    Finished,
}

/// What the caller is asked to do next.
#[derive(Clone, Copy, Debug, PartialEq, Eq, Structural)]
pub enum ProbeAction {
    /// Enumerate the audio routes and report `Discovered` or
    /// `EnumerationFailed`.
    EnumerateSources,
    /// Start the capture worker on the selected route, wait until it
    /// initialized, failed or the wait ran out, and report `Initialization`
    /// (or `WorkerFailed` when it could not be started).
    StartWorker,
    /// Wait for the first packet and report `Packets`.
    WaitForPackets,
    /// Wait for non-silent samples and report `Signal`.
    WaitForSignal,
    /// Ask the worker to stop, wait a bounded time for it, and report `Joined`.
    StopWorker,
    /// Nothing is left to do.
    Finish,
}

/// The route chosen for the probe.
#[derive(Clone, Copy, Debug, PartialEq, Eq, Structural)]
pub struct SelectedRoute {
    pub requires_rekordbox: bool,
    pub available: bool,
}

/// What the caller saw while performing an action.
pub enum ProbeEvent {
    EnumerationFailed { error: String, duration_ms: u64 },
    Discovered {
        process_detected: bool,
        session_detected: bool,
        /// Whether the platform has an audio-session discovery stage.
        session_stage: bool,
        selected: Option<SelectedRoute>,
        duration_ms: u64,
        session_duration_ms: u64,
    },
    WorkerFailed { error: String, duration_ms: u64 },
    /// `settled` is whether the wait ended because the worker settled,
    /// `cancelled` whether the diagnostic was cancelled, `status` the
    /// worker's status when the wait ended.
    Initialization { settled: bool, cancelled: bool, status: CaptureStatus, duration_ms: u64 },
    Packets { settled: bool, cancelled: bool, status: CaptureStatus, duration_ms: u64 },
    Signal { settled: bool, cancelled: bool, status: CaptureStatus, duration_ms: u64 },
    Joined { joined: bool },
}

/// The action each stage asks for.
pub open spec fn requested(stage: AudioProbeStage) -> ProbeAction {
    match stage {
        AudioProbeStage::Discovery => ProbeAction::EnumerateSources,
        AudioProbeStage::Initializing => ProbeAction::StartWorker,
        AudioProbeStage::FirstPacket => ProbeAction::WaitForPackets,
        AudioProbeStage::NonSilent => ProbeAction::WaitForSignal,
        AudioProbeStage::Stopping => ProbeAction::StopWorker,
        AudioProbeStage::Finished => ProbeAction::Finish,
    }
}


/// The report after non-silent samples never arrived.
pub open spec fn without_signal(v: ReportView) -> ReportView {
    if v.failure_code is None {
        ReportView {
            verdict: DiagnosticVerdict::Degraded,
            failure_stage: Some("audio.nonSilentSamples"@),
            failure_code: Some("NO_NON_SILENT_SAMPLES"@),
            ..v
        }
    } else {
        v
    }
}

/// The result of the process discovery stage.
pub open spec fn process_finding(process_detected: bool, requires_rekordbox: bool) -> (
    DiagnosticStageStatus,
    Seq<char>,
    Seq<char>,
) {
    if process_detected {
        (
            DiagnosticStageStatus::Pass,
            "REKORDBOX_PROCESS_FOUND"@,
            "Found a supported Rekordbox process."@,
        )
    } else if !requires_rekordbox {
        (
            DiagnosticStageStatus::Pass,
            "REKORDBOX_PROCESS_NOT_REQUIRED"@,
            "The selected all-app or input route does not require Rekordbox process discovery."@,
        )
    } else {
        (
            DiagnosticStageStatus::Degraded,
            "REKORDBOX_PROCESS_NOT_FOUND"@,
            "Rekordbox is not running. Start it before testing the live connection."@,
        )
    }
}

/// The result of the audio-session discovery stage.
pub open spec fn session_finding(
    session_detected: bool,
    requires_rekordbox: bool,
    process_detected: bool,
) -> (DiagnosticStageStatus, Seq<char>, Seq<char>) {
    if session_detected {
        (
            DiagnosticStageStatus::Pass,
            "REKORDBOX_AUDIO_SESSION_FOUND"@,
            "Found the Windows output endpoint carrying Rekordbox audio."@,
        )
    } else if !requires_rekordbox {
        (
            DiagnosticStageStatus::Pass,
            "REKORDBOX_AUDIO_SESSION_NOT_REQUIRED"@,
            "The selected Windows route can be tested without a Rekordbox audio session."@,
        )
    } else if process_detected {
        (
            DiagnosticStageStatus::Degraded,
            "REKORDBOX_AUDIO_SESSION_NOT_FOUND"@,
            "Rekordbox is running but has no capturable Windows audio session. Enable PC MASTER OUT in Performance mode and play a track."@,
        )
    } else {
        (
            DiagnosticStageStatus::Degraded,
            "REKORDBOX_AUDIO_SESSION_NOT_FOUND"@,
            "No Rekordbox audio session can be discovered until Rekordbox is running."@,
        )
    }
}

/// A discovery stage's result recorded; a degraded one degrades the verdict.
pub open spec fn with_finding(
    v: ReportView,
    stage: Seq<char>,
    finding: (DiagnosticStageStatus, Seq<char>, Seq<char>),
    duration_ms: u64,
) -> ReportView {
    let w = with_stage(v, stage, finding.0, duration_ms, finding.1, finding.2);
    if finding.0 == DiagnosticStageStatus::Degraded {
        ReportView { verdict: DiagnosticVerdict::Degraded, ..w }
    } else {
        w
    }
}

/// Whether the selected route needs Rekordbox; no route needs nothing.
pub open spec fn selected_requires(selected: Option<SelectedRoute>) -> bool {
    match selected {
        Some(route) => route.requires_rekordbox,
        None => false,
    }
}

/// What follows the discovery of the routes.
pub open spec fn after_discovery(
    v: ReportView,
    process_detected: bool,
    session_detected: bool,
    session_stage: bool,
    selected: Option<SelectedRoute>,
    duration_ms: u64,
    session_duration_ms: u64,
) -> (AudioProbeStage, ProbeAction, ReportView) {
    let needs_rekordbox = selected_requires(selected);
    let found = ReportView { process_detected, session_detected, ..v };
    let after_process = with_finding(
        found,
        "rekordbox.processDiscovery"@,
        process_finding(process_detected, needs_rekordbox),
        duration_ms,
    );
    let after_session = if session_stage {
        with_finding(
            after_process,
            "rekordbox.audioSessionDiscovery"@,
            session_finding(session_detected, needs_rekordbox, process_detected),
            session_duration_ms,
        )
    } else {
        after_process
    };
    match selected {
        None => (
            AudioProbeStage::Finished,
            ProbeAction::Finish,
            with_failure(after_session, "audio.captureInitialization"@, "NO_AUDIO_SOURCE"@),
        ),
        Some(route) => if route.available {
            (AudioProbeStage::Initializing, ProbeAction::StartWorker, after_session)
        } else {
            let code = if needs_rekordbox && !process_detected {
                "REKORDBOX_PROCESS_NOT_FOUND"@
            } else {
                "AUDIO_PLATFORM_UNSUPPORTED"@
            };
            let message = if needs_rekordbox && !process_detected {
                "Start Rekordbox before selecting its audio-session route."@
            } else {
                "The selected live-audio route is unavailable on this OS version."@
            };
            (
                AudioProbeStage::Finished,
                ProbeAction::Finish,
                with_failure(
                    with_stage(
                        after_session,
                        "audio.captureInitialization"@,
                        DiagnosticStageStatus::Fail,
                        0,
                        code,
                        message,
                    ),
                    "audio.captureInitialization"@,
                    code,
                ),
            )
        },
    }
}

/// The worker's message, or a note that nothing was reported in time.
pub open spec fn status_message(status: CaptureStatus, otherwise: Seq<char>) -> Seq<char> {
    match status.message {
        Some(m) => m@,
        None => otherwise,
    }
}

/// What follows the wait for the worker to initialize.
pub open spec fn after_initialization(
    v: ReportView,
    settled: bool,
    cancelled: bool,
    status: CaptureStatus,
    duration_ms: u64,
) -> (AudioProbeStage, ProbeAction, ReportView) {
    let stage = "audio.captureInitialization"@;
    let w = if settled && status.capture_initialized {
        with_stage(
            v,
            stage,
            DiagnosticStageStatus::Pass,
            duration_ms,
            "AUDIO_CAPTURE_INITIALIZED"@,
            "The selected capture client initialized."@,
        )
    } else if cancelled {
        with_stage(
            v,
            stage,
            DiagnosticStageStatus::Cancelled,
            duration_ms,
            "DIAGNOSTIC_CANCELLED"@,
            "Audio initialization was cancelled."@,
        )
    } else {
        let message = status_message(
            status,
            "Audio capture did not initialize before the timeout."@,
        );
        let code = first_mentioned(audio_codes(), message, "AUDIO_CLIENT_START_FAILED"@);
        with_failure(
            with_stage(v, stage, DiagnosticStageStatus::Fail, duration_ms, code, message),
            stage,
            code,
        )
    };
    if status.capture_initialized && !cancelled {
        (AudioProbeStage::FirstPacket, ProbeAction::WaitForPackets, w)
    } else {
        (AudioProbeStage::Stopping, ProbeAction::StopWorker, w)
    }
}

/// What follows the wait for the first packet.
pub open spec fn after_packets(
    v: ReportView,
    settled: bool,
    cancelled: bool,
    status: CaptureStatus,
    duration_ms: u64,
) -> (AudioProbeStage, ProbeAction, ReportView) {
    let stage = "audio.firstPacket"@;
    if settled && status.packets_received {
        (
            AudioProbeStage::NonSilent,
            ProbeAction::WaitForSignal,
            with_stage(
                v,
                stage,
                DiagnosticStageStatus::Pass,
                duration_ms,
                "AUDIO_PACKETS_RECEIVED"@,
                "Audio packets are flowing."@,
            ),
        )
    } else if cancelled {
        (AudioProbeStage::Stopping, ProbeAction::StopWorker, v)
    } else {
        let code = if status.rekordbox_detected {
            "ASIO_BYPASS_SUSPECTED"@
        } else {
            "NO_AUDIO_PACKETS"@
        };
        let message = status_message(
            status,
            "Capture initialized, but no packets arrived before the timeout."@,
        );
        (
            AudioProbeStage::Stopping,
            ProbeAction::StopWorker,
            with_failure(
                with_stage(v, stage, DiagnosticStageStatus::Fail, duration_ms, code, message),
                stage,
                code,
            ),
        )
    }
}

/// The note recorded when packets arrive but stay silent.
pub open spec fn silent_route_message() -> Seq<char> {
    "Packets arrived, but the route remained silent. Start playback and verify the selected output; with ASIO, enable PC MASTER OUT or select a capturable output."@
}

/// What follows the wait for non-silent samples.
pub open spec fn after_signal(
    v: ReportView,
    settled: bool,
    cancelled: bool,
    status: CaptureStatus,
    duration_ms: u64,
) -> ReportView {
    let stage = "audio.nonSilentSamples"@;
    if settled && status.non_silent_samples_received {
        with_stage(
            v,
            stage,
            DiagnosticStageStatus::Pass,
            duration_ms,
            "REACTIVE_READY"@,
            "Recent non-silent audio is feeding analysis."@,
        )
    } else if cancelled {
        v
    } else {
        without_signal(
            with_stage(
                v,
                stage,
                DiagnosticStageStatus::Degraded,
                duration_ms,
                "NO_NON_SILENT_SAMPLES"@,
                silent_route_message(),
            ),
        )
    }
}

/// One step of the audio probe: the next stage, the action it asks for, and
/// the report. An event that does not answer the stage's action changes
/// nothing and repeats the action.
pub open spec fn spec_probe_step(stage: AudioProbeStage, v: ReportView, event: ProbeEvent) -> (
    AudioProbeStage,
    ProbeAction,
    ReportView,
) {
    let unchanged = (stage, requested(stage), v);
    match event {
        ProbeEvent::EnumerationFailed { error, duration_ms } => if stage
            == AudioProbeStage::Discovery {
            let code = "AUDIO_SOURCE_ENUMERATION_FAILED"@;
            let name = "rekordbox.processDiscovery"@;
            (
                AudioProbeStage::Finished,
                ProbeAction::Finish,
                with_failure(
                    with_stage(v, name, DiagnosticStageStatus::Fail, duration_ms, code, error@),
                    name,
                    code,
                ),
            )
        } else {
            unchanged
        },
        ProbeEvent::Discovered {
            process_detected,
            session_detected,
            session_stage,
            selected,
            duration_ms,
            session_duration_ms,
        } => if stage == AudioProbeStage::Discovery {
            after_discovery(
                v,
                process_detected,
                session_detected,
                session_stage,
                selected,
                duration_ms,
                session_duration_ms,
            )
        } else {
            unchanged
        },
        ProbeEvent::WorkerFailed { error, duration_ms } => if stage
            == AudioProbeStage::Initializing {
            let code = "AUDIO_WORKER_START_FAILED"@;
            let name = "audio.captureInitialization"@;
            (
                AudioProbeStage::Finished,
                ProbeAction::Finish,
                with_failure(
                    with_stage(v, name, DiagnosticStageStatus::Fail, duration_ms, code, error@),
                    name,
                    code,
                ),
            )
        } else {
            unchanged
        },
        ProbeEvent::Initialization { settled, cancelled, status, duration_ms } => if stage
            == AudioProbeStage::Initializing {
            after_initialization(v, settled, cancelled, status, duration_ms)
        } else {
            unchanged
        },
        ProbeEvent::Packets { settled, cancelled, status, duration_ms } => if stage
            == AudioProbeStage::FirstPacket {
            after_packets(v, settled, cancelled, status, duration_ms)
        } else {
            unchanged
        },
        ProbeEvent::Signal { settled, cancelled, status, duration_ms } => if stage
            == AudioProbeStage::NonSilent {
            (
                AudioProbeStage::Stopping,
                ProbeAction::StopWorker,
                after_signal(v, settled, cancelled, status, duration_ms),
            )
        } else {
            unchanged
        },
        ProbeEvent::Joined { joined } => if stage == AudioProbeStage::Stopping {
            (
                AudioProbeStage::Finished,
                ProbeAction::Finish,
                if !joined && v.failure_code is None {
                    with_failure(v, "audio.cleanup"@, "AUDIO_WORKER_STOP_TIMEOUT"@)
                } else {
                    v
                },
            )
        } else {
            unchanged
        },
    }
}


fn record_silence(report: &mut DiagnosticReport)
    ensures
        final(report)@ == without_signal(old(report)@),
{
    mark_not_reactive(&mut report.outcome);
    assert(report@ =~= without_signal(old(report)@));
}

fn record_finding(
    report: &mut DiagnosticReport,
    stage: &str,
    status: DiagnosticStageStatus,
    code: &str,
    message: &str,
    duration_ms: u64,
)
    ensures
        final(report)@ == with_finding(old(report)@, stage@, (status, code@, message@), duration_ms),
{
    record(report, stage, status, duration_ms, code, message);
    if status == DiagnosticStageStatus::Degraded {
        report.outcome.verdict = DiagnosticVerdict::Degraded;
    }
    assert(report@ =~= with_finding(old(report)@, stage@, (status, code@, message@), duration_ms));
}

/// The action each stage asks for.
pub fn requested_action(stage: AudioProbeStage) -> (r: ProbeAction)
    ensures
        r == requested(stage),
{
    match stage {
        AudioProbeStage::Discovery => ProbeAction::EnumerateSources,
        AudioProbeStage::Initializing => ProbeAction::StartWorker,
        AudioProbeStage::FirstPacket => ProbeAction::WaitForPackets,
        AudioProbeStage::NonSilent => ProbeAction::WaitForSignal,
        AudioProbeStage::Stopping => ProbeAction::StopWorker,
        AudioProbeStage::Finished => ProbeAction::Finish,
    }
}

fn discover(
    report: &mut DiagnosticReport,
    process_detected: bool,
    session_detected: bool,
    session_stage: bool,
    selected: Option<SelectedRoute>,
    duration_ms: u64,
    session_duration_ms: u64,
) -> (r: (AudioProbeStage, ProbeAction))
    ensures
        ({
            let expected = after_discovery(
                old(report)@,
                process_detected,
                session_detected,
                session_stage,
                selected,
                duration_ms,
                session_duration_ms,
            );
            r.0 == expected.0 && r.1 == expected.1 && final(report)@ == expected.2
        }),
{
    let ghost start = report@;
    report.process_detected = process_detected;
    report.session_detected = session_detected;
    assert(report@ =~= ReportView { process_detected, session_detected, ..start });
    let needs_rekordbox = match selected {
        Some(route) => route.requires_rekordbox,
        None => false,
    };
    let process = process_discovery(process_detected, needs_rekordbox);
    assert((process.status, process.code@, process.message@) == process_finding(
        process_detected,
        needs_rekordbox,
    ));
    record_finding(
        report,
        "rekordbox.processDiscovery",
        process.status,
        process.code,
        process.message,
        duration_ms,
    );
    if session_stage {
        let session = session_discovery(session_detected, needs_rekordbox, process_detected);
        assert((session.status, session.code@, session.message@) == session_finding(
            session_detected,
            needs_rekordbox,
            process_detected,
        ));
        record_finding(
            report,
            "rekordbox.audioSessionDiscovery",
            session.status,
            session.code,
            session.message,
            session_duration_ms,
        );
    }
    match selected {
        None => {
            record_failure(report, "audio.captureInitialization", "NO_AUDIO_SOURCE");
            (AudioProbeStage::Finished, ProbeAction::Finish)
        },
        Some(route) => {
            if route.available {
                (AudioProbeStage::Initializing, ProbeAction::StartWorker)
            } else {
                let (code, message) = unavailable_source_failure(needs_rekordbox, process_detected);
                record(
                    report,
                    "audio.captureInitialization",
                    DiagnosticStageStatus::Fail,
                    0,
                    code,
                    message,
                );
                record_failure(report, "audio.captureInitialization", code);
                (AudioProbeStage::Finished, ProbeAction::Finish)
            }
        },
    }
}

fn initialize(
    report: &mut DiagnosticReport,
    settled: bool,
    cancelled: bool,
    status: &CaptureStatus,
    duration_ms: u64,
) -> (r: (AudioProbeStage, ProbeAction))
    ensures
        ({
            let expected = after_initialization(old(report)@, settled, cancelled, *status, duration_ms);
            r.0 == expected.0 && r.1 == expected.1 && final(report)@ == expected.2
        }),
{
    if settled && status.capture_initialized {
        record(
            report,
            "audio.captureInitialization",
            DiagnosticStageStatus::Pass,
            duration_ms,
            "AUDIO_CAPTURE_INITIALIZED",
            "The selected capture client initialized.",
        );
    } else if cancelled {
        record(
            report,
            "audio.captureInitialization",
            DiagnosticStageStatus::Cancelled,
            duration_ms,
            "DIAGNOSTIC_CANCELLED",
            "Audio initialization was cancelled.",
        );
    } else {
        let reported: Option<&str> = match &status.message {
            Some(m) => Some(m.as_str()),
            None => None,
        };
        assert(audio_failure_message(reported) == status_message(
            *status,
            "Audio capture did not initialize before the timeout."@,
        ));
        let (code, message) = map_audio_failure(reported, "AUDIO_CLIENT_START_FAILED");
        record(
            report,
            "audio.captureInitialization",
            DiagnosticStageStatus::Fail,
            duration_ms,
            code.as_str(),
            message.as_str(),
        );
        record_failure(report, "audio.captureInitialization", code.as_str());
    }
    if status.capture_initialized && !cancelled {
        (AudioProbeStage::FirstPacket, ProbeAction::WaitForPackets)
    } else {
        (AudioProbeStage::Stopping, ProbeAction::StopWorker)
    }
}

fn await_packets(
    report: &mut DiagnosticReport,
    settled: bool,
    cancelled: bool,
    status: &CaptureStatus,
    duration_ms: u64,
) -> (r: (AudioProbeStage, ProbeAction))
    ensures
        ({
            let expected = after_packets(old(report)@, settled, cancelled, *status, duration_ms);
            r.0 == expected.0 && r.1 == expected.1 && final(report)@ == expected.2
        }),
{
    if settled && status.packets_received {
        record(
            report,
            "audio.firstPacket",
            DiagnosticStageStatus::Pass,
            duration_ms,
            "AUDIO_PACKETS_RECEIVED",
            "Audio packets are flowing.",
        );
        (AudioProbeStage::NonSilent, ProbeAction::WaitForSignal)
    } else if cancelled {
        (AudioProbeStage::Stopping, ProbeAction::StopWorker)
    } else {
        let (code, message) = first_packet_failure(status);
        record(
            report,
            "audio.firstPacket",
            DiagnosticStageStatus::Fail,
            duration_ms,
            code,
            message.as_str(),
        );
        record_failure(report, "audio.firstPacket", code);
        (AudioProbeStage::Stopping, ProbeAction::StopWorker)
    }
}

fn await_signal(
    report: &mut DiagnosticReport,
    settled: bool,
    cancelled: bool,
    status: &CaptureStatus,
    duration_ms: u64,
)
    ensures
        final(report)@ == after_signal(old(report)@, settled, cancelled, *status, duration_ms),
{
    if settled && status.non_silent_samples_received {
        record(
            report,
            "audio.nonSilentSamples",
            DiagnosticStageStatus::Pass,
            duration_ms,
            "REACTIVE_READY",
            "Recent non-silent audio is feeding analysis.",
        );
    } else if !cancelled {
        record(
            report,
            "audio.nonSilentSamples",
            DiagnosticStageStatus::Degraded,
            duration_ms,
            "NO_NON_SILENT_SAMPLES",
            "Packets arrived, but the route remained silent. Start playback and verify the selected output; with ASIO, enable PC MASTER OUT or select a capturable output.",
        );
        record_silence(report);
    }
}

/// One step of the audio probe: records what the caller saw while performing
/// the stage's action and says what to do next.
pub fn audio_probe_step(stage: AudioProbeStage, report: &mut DiagnosticReport, event: ProbeEvent) -> (r: (
    AudioProbeStage,
    ProbeAction,
))
    ensures
        r.0 == spec_probe_step(stage, old(report)@, event).0,
        r.1 == spec_probe_step(stage, old(report)@, event).1,
        final(report)@ == spec_probe_step(stage, old(report)@, event).2,
{
    let unchanged = (stage, requested_action(stage));
    match event {
        ProbeEvent::EnumerationFailed { error, duration_ms } => {
            if stage != AudioProbeStage::Discovery {
                return unchanged;
            }
            record(
                report,
                "rekordbox.processDiscovery",
                DiagnosticStageStatus::Fail,
                duration_ms,
                "AUDIO_SOURCE_ENUMERATION_FAILED",
                error.as_str(),
            );
            record_failure(report, "rekordbox.processDiscovery", "AUDIO_SOURCE_ENUMERATION_FAILED");
            (AudioProbeStage::Finished, ProbeAction::Finish)
        },
        ProbeEvent::Discovered {
            process_detected,
            session_detected,
            session_stage,
            selected,
            duration_ms,
            session_duration_ms,
        } => {
            if stage != AudioProbeStage::Discovery {
                return unchanged;
            }
            discover(
                report,
                process_detected,
                session_detected,
                session_stage,
                selected,
                duration_ms,
                session_duration_ms,
            )
        },
        ProbeEvent::WorkerFailed { error, duration_ms } => {
            if stage != AudioProbeStage::Initializing {
                return unchanged;
            }
            record(
                report,
                "audio.captureInitialization",
                DiagnosticStageStatus::Fail,
                duration_ms,
                "AUDIO_WORKER_START_FAILED",
                error.as_str(),
            );
            record_failure(report, "audio.captureInitialization", "AUDIO_WORKER_START_FAILED");
            (AudioProbeStage::Finished, ProbeAction::Finish)
        },
        ProbeEvent::Initialization { settled, cancelled, status, duration_ms } => {
            if stage != AudioProbeStage::Initializing {
                return unchanged;
            }
            initialize(report, settled, cancelled, &status, duration_ms)
        },
        ProbeEvent::Packets { settled, cancelled, status, duration_ms } => {
            if stage != AudioProbeStage::FirstPacket {
                return unchanged;
            }
            await_packets(report, settled, cancelled, &status, duration_ms)
        },
        ProbeEvent::Signal { settled, cancelled, status, duration_ms } => {
            if stage != AudioProbeStage::NonSilent {
                return unchanged;
            }
            await_signal(report, settled, cancelled, &status, duration_ms);
            (AudioProbeStage::Stopping, ProbeAction::StopWorker)
        },
        ProbeEvent::Joined { joined } => {
            if stage != AudioProbeStage::Stopping {
                return unchanged;
            }
            if !joined && report.outcome.failure_code.is_none() {
                record_failure(report, "audio.cleanup", "AUDIO_WORKER_STOP_TIMEOUT");
            }
            (AudioProbeStage::Finished, ProbeAction::Finish)
        },
    }
}

/// How far along the probe a stage is.
pub open spec fn stage_rank(stage: AudioProbeStage) -> int {
    match stage {
        AudioProbeStage::Discovery => 0,
        AudioProbeStage::Initializing => 1,
        AudioProbeStage::FirstPacket => 2,
        AudioProbeStage::NonSilent => 3,
        AudioProbeStage::Stopping => 4,
        AudioProbeStage::Finished => 5,
    }
}

/// `earlier` is a prefix of `later` and at most `extra` entries were added.
pub open spec fn extends(earlier: Seq<StageResultView>, later: Seq<StageResultView>, extra: int) -> bool {
    &&& earlier.len() <= later.len() <= earlier.len() + extra
    &&& later.subrange(0, earlier.len() as int) == earlier
}

proof fn lemma_with_stage_extends(
    v: ReportView,
    stage: Seq<char>,
    status: DiagnosticStageStatus,
    duration_ms: u64,
    code: Seq<char>,
    message: Seq<char>,
)
    ensures
        extends(v.stages, with_stage(v, stage, status, duration_ms, code, message).stages, 1),
{
    let w = with_stage(v, stage, status, duration_ms, code, message);
    assert(w.stages.subrange(0, v.stages.len() as int) =~= v.stages);
}

proof fn lemma_extends_trans(a: Seq<StageResultView>, b: Seq<StageResultView>, c: Seq<StageResultView>, x: int, y: int)
    requires
        extends(a, b, x),
        extends(b, c, y),
    ensures
        extends(a, c, x + y),
{
    assert(c.subrange(0, a.len() as int) =~= c.subrange(0, b.len() as int).subrange(0, a.len() as int));
}

/// Every step of the audio probe only appends stage results (at most three,
/// when the routes are discovered), keeps the summary, never re-attributes a
/// failure once one is recorded, and either moves forward or, for an event
/// that does not answer the stage's action, changes nothing. A finished
/// probe stays finished.
pub proof fn law_probe_step_appends_and_moves_forward(
    stage: AudioProbeStage,
    v: ReportView,
    event: ProbeEvent,
)
    ensures
        ({
            let (next, action, w) = spec_probe_step(stage, v, event);
            &&& extends(v.stages, w.stages, 3)
            &&& w.summary == v.summary
            &&& v.failure_code is Some ==> w.failure_code == v.failure_code && w.failure_stage
                == v.failure_stage
            &&& action == requested(next)
            &&& next == stage ==> w == v
            &&& next != stage ==> stage_rank(stage) < stage_rank(next)
            &&& stage == AudioProbeStage::Finished ==> next == stage
        }),
{
    let (next, action, w) = spec_probe_step(stage, v, event);
    assert(v.stages.subrange(0, v.stages.len() as int) =~= v.stages);
    match event {
        ProbeEvent::EnumerationFailed { error, duration_ms } => {
            if stage == AudioProbeStage::Discovery {
                lemma_with_stage_extends(
                    v,
                    "rekordbox.processDiscovery"@,
                    DiagnosticStageStatus::Fail,
                    duration_ms,
                    "AUDIO_SOURCE_ENUMERATION_FAILED"@,
                    error@,
                );
            }
        },
        ProbeEvent::WorkerFailed { error, duration_ms } => {
            if stage == AudioProbeStage::Initializing {
                lemma_with_stage_extends(
                    v,
                    "audio.captureInitialization"@,
                    DiagnosticStageStatus::Fail,
                    duration_ms,
                    "AUDIO_WORKER_START_FAILED"@,
                    error@,
                );
            }
        },
        ProbeEvent::Discovered {
            process_detected,
            session_detected,
            session_stage,
            selected,
            duration_ms,
            session_duration_ms,
        } => {
            if stage == AudioProbeStage::Discovery {
                let needs_rekordbox = selected_requires(selected);
                let found = ReportView { process_detected, session_detected, ..v };
                let pf = process_finding(process_detected, needs_rekordbox);
                lemma_with_stage_extends(
                    found,
                    "rekordbox.processDiscovery"@,
                    pf.0,
                    duration_ms,
                    pf.1,
                    pf.2,
                );
                let after_process = with_finding(
                    found,
                    "rekordbox.processDiscovery"@,
                    pf,
                    duration_ms,
                );
                let sf = session_finding(session_detected, needs_rekordbox, process_detected);
                lemma_with_stage_extends(
                    after_process,
                    "rekordbox.audioSessionDiscovery"@,
                    sf.0,
                    session_duration_ms,
                    sf.1,
                    sf.2,
                );
                let after_session = if session_stage {
                    with_finding(
                        after_process,
                        "rekordbox.audioSessionDiscovery"@,
                        sf,
                        session_duration_ms,
                    )
                } else {
                    after_process
                };
                assert(after_process.stages.subrange(0, after_process.stages.len() as int)
                    =~= after_process.stages);
                lemma_extends_trans(v.stages, after_process.stages, after_session.stages, 1, 1);
                let code = if needs_rekordbox && !process_detected {
                    "REKORDBOX_PROCESS_NOT_FOUND"@
                } else {
                    "AUDIO_PLATFORM_UNSUPPORTED"@
                };
                let message = if needs_rekordbox && !process_detected {
                    "Start Rekordbox before selecting its audio-session route."@
                } else {
                    "The selected live-audio route is unavailable on this OS version."@
                };
                lemma_with_stage_extends(
                    after_session,
                    "audio.captureInitialization"@,
                    DiagnosticStageStatus::Fail,
                    0,
                    code,
                    message,
                );
                lemma_extends_trans(
                    v.stages,
                    after_session.stages,
                    with_stage(
                        after_session,
                        "audio.captureInitialization"@,
                        DiagnosticStageStatus::Fail,
                        0,
                        code,
                        message,
                    ).stages,
                    2,
                    1,
                );
            }
        },
        ProbeEvent::Initialization { settled, cancelled, status, duration_ms } => {
            if stage == AudioProbeStage::Initializing {
                let m = status_message(
                    status,
                    "Audio capture did not initialize before the timeout."@,
                );
                let c = first_mentioned(audio_codes(), m, "AUDIO_CLIENT_START_FAILED"@);
                lemma_with_stage_extends(
                    v,
                    "audio.captureInitialization"@,
                    DiagnosticStageStatus::Pass,
                    duration_ms,
                    "AUDIO_CAPTURE_INITIALIZED"@,
                    "The selected capture client initialized."@,
                );
                lemma_with_stage_extends(
                    v,
                    "audio.captureInitialization"@,
                    DiagnosticStageStatus::Cancelled,
                    duration_ms,
                    "DIAGNOSTIC_CANCELLED"@,
                    "Audio initialization was cancelled."@,
                );
                lemma_with_stage_extends(
                    v,
                    "audio.captureInitialization"@,
                    DiagnosticStageStatus::Fail,
                    duration_ms,
                    c,
                    m,
                );
            }
        },
        ProbeEvent::Packets { settled, cancelled, status, duration_ms } => {
            if stage == AudioProbeStage::FirstPacket {
                let m = status_message(
                    status,
                    "Capture initialized, but no packets arrived before the timeout."@,
                );
                let c = if status.rekordbox_detected {
                    "ASIO_BYPASS_SUSPECTED"@
                } else {
                    "NO_AUDIO_PACKETS"@
                };
                lemma_with_stage_extends(
                    v,
                    "audio.firstPacket"@,
                    DiagnosticStageStatus::Pass,
                    duration_ms,
                    "AUDIO_PACKETS_RECEIVED"@,
                    "Audio packets are flowing."@,
                );
                lemma_with_stage_extends(
                    v,
                    "audio.firstPacket"@,
                    DiagnosticStageStatus::Fail,
                    duration_ms,
                    c,
                    m,
                );
            }
        },
        ProbeEvent::Signal { settled, cancelled, status, duration_ms } => {
            if stage == AudioProbeStage::NonSilent {
                lemma_with_stage_extends(
                    v,
                    "audio.nonSilentSamples"@,
                    DiagnosticStageStatus::Pass,
                    duration_ms,
                    "REACTIVE_READY"@,
                    "Recent non-silent audio is feeding analysis."@,
                );
                lemma_with_stage_extends(
                    v,
                    "audio.nonSilentSamples"@,
                    DiagnosticStageStatus::Degraded,
                    duration_ms,
                    "NO_NON_SILENT_SAMPLES"@,
                    silent_route_message(),
                );
            }
        },
        ProbeEvent::Joined { joined } => {},
    }
}

/// What each wait of the audio probe leads to. A worker that initialized
/// and was not cancelled goes on to wait for packets, and one that did not,
/// or was cancelled, is stopped; a settled, initialized worker's stage
/// passes. Arriving packets lead to the wait for signal, anything else to
/// the worker's stop, and a failure is recorded only when the diagnostic
/// was not cancelled. Non-silent samples pass the last stage and leave the
/// verdict as it was; a silent route degrades a report that has no
/// failure yet. No passing stage changes the verdict or the failure.
pub proof fn law_audio_waits_lead_on(
    v: ReportView,
    settled: bool,
    cancelled: bool,
    status: CaptureStatus,
    duration_ms: u64,
)
    ensures
        ({
            let (next, action, w) = after_initialization(v, settled, cancelled, status, duration_ms);
            &&& status.capture_initialized && !cancelled ==> next == AudioProbeStage::FirstPacket
                && action == ProbeAction::WaitForPackets
            &&& !(status.capture_initialized && !cancelled) ==> next == AudioProbeStage::Stopping
                && action == ProbeAction::StopWorker
            &&& settled && status.capture_initialized ==> w.stages.last().status
                == DiagnosticStageStatus::Pass && w.verdict == v.verdict && w.failure_code
                == v.failure_code
            &&& !(settled && status.capture_initialized) && cancelled ==> w.stages.last().status
                == DiagnosticStageStatus::Cancelled && w.verdict == v.verdict && w.failure_code
                == v.failure_code
            &&& !(settled && status.capture_initialized) && !cancelled ==> w.stages.last().status
                == DiagnosticStageStatus::Fail && w.verdict != DiagnosticVerdict::Pass
                && w.failure_code is Some
        }),
        ({
            let (next, action, w) = after_packets(v, settled, cancelled, status, duration_ms);
            &&& settled && status.packets_received ==> next == AudioProbeStage::NonSilent
                && action == ProbeAction::WaitForSignal && w.stages.last().status
                == DiagnosticStageStatus::Pass && w.verdict == v.verdict && w.failure_code
                == v.failure_code
            &&& !(settled && status.packets_received) ==> next == AudioProbeStage::Stopping
                && action == ProbeAction::StopWorker
            &&& !(settled && status.packets_received) && cancelled ==> w == v
            &&& !(settled && status.packets_received) && !cancelled ==> w.stages.last().status
                == DiagnosticStageStatus::Fail && w.failure_code is Some && w.verdict
                != DiagnosticVerdict::Pass
        }),
        ({
            let w = after_signal(v, settled, cancelled, status, duration_ms);
            &&& settled && status.non_silent_samples_received ==> w.stages.last().status
                == DiagnosticStageStatus::Pass && w.verdict == v.verdict && w.failure_code
                == v.failure_code
            &&& !(settled && status.non_silent_samples_received) && cancelled ==> w == v
            &&& !(settled && status.non_silent_samples_received) && !cancelled ==> w.stages.last().status
                == DiagnosticStageStatus::Degraded && (v.failure_code is None ==> w.verdict
                == DiagnosticVerdict::Degraded && w.failure_code is Some)
        }),
{
}

/// Route discovery: without a route the probe ends failed, an unavailable
/// route ends it failed after recording why, and an available route starts
/// the capture worker. A found Rekordbox process, or a route that does not
/// need one, passes process discovery.
pub proof fn law_discovery_leads_on(
    v: ReportView,
    process_detected: bool,
    session_detected: bool,
    session_stage: bool,
    selected: Option<SelectedRoute>,
    duration_ms: u64,
    session_duration_ms: u64,
)
    ensures
        ({
            let (next, action, w) = after_discovery(
                v,
                process_detected,
                session_detected,
                session_stage,
                selected,
                duration_ms,
                session_duration_ms,
            );
            &&& selected is None ==> next == AudioProbeStage::Finished && action
                == ProbeAction::Finish && w.verdict != DiagnosticVerdict::Pass && w.failure_code
                is Some
            &&& (selected is Some && selected->0.available) ==> next
                == AudioProbeStage::Initializing && action == ProbeAction::StartWorker
            &&& (selected is Some && !selected->0.available) ==> next
                == AudioProbeStage::Finished && w.stages.last().status
                == DiagnosticStageStatus::Fail && w.failure_code is Some
            &&& w.process_detected == process_detected && w.session_detected == session_detected
            &&& (process_detected || !selected_requires(selected)) ==> w.stages[v.stages.len() as int].status
                == DiagnosticStageStatus::Pass
        }),
{
}

/// A worker that does not stop in time fails a report with no failure yet;
/// one that stops, or one whose report already failed, changes nothing.
pub proof fn law_worker_stop(v: ReportView, joined: bool)
    ensures
        !joined && v.failure_code is None ==> spec_probe_step(
            AudioProbeStage::Stopping,
            v,
            (ProbeEvent::Joined { joined }),
        ).2.failure_code is Some,
        (joined || v.failure_code is Some) ==> spec_probe_step(
            AudioProbeStage::Stopping,
            v,
            (ProbeEvent::Joined { joined }),
        ).2 == v,
        spec_probe_step(AudioProbeStage::Stopping, v, (ProbeEvent::Joined { joined })).0
            == AudioProbeStage::Finished,
{
}

} // verus!
