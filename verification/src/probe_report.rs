//! The report of a connection diagnostic as it is built: one result per
//! stage in the order the stages finished, the verdict, and the first
//! failure.
use vstd::prelude::*;

use crate::diagnostic_runner::{
    first_mentioned, map_renderer_failure, mark_cancelled, mark_failure, renderer_codes,
    spec_summary, summary_for, surface_failure_code, ReportOutcome,
};
use crate::diagnostics::{
    interrupted_message, interrupted_run, opt_string, DiagnosticMode, DiagnosticStageStatus,
    DiagnosticVerdict, LastSessionMarker, LogRecord,
};
use crate::text::{owned, push_str, spec_contains};

verus! {

/// One finished stage of a diagnostic report.
#[derive(Clone, Debug)]
pub struct DiagnosticStageResult {
    pub stage: String,
    pub status: DiagnosticStageStatus,
    pub duration_ms: u64,
    pub code: String,
    pub message: String,
}

/// A stage result with its texts as characters.
pub struct StageResultView {
    pub stage: Seq<char>,
    pub status: DiagnosticStageStatus,
    pub duration_ms: u64,
    pub code: Seq<char>,
    pub message: Seq<char>,
}

impl View for DiagnosticStageResult {
    type V = StageResultView;

    open spec fn view(&self) -> StageResultView {
        StageResultView {
            stage: self.stage@,
            status: self.status,
            duration_ms: self.duration_ms,
            code: self.code@,
            message: self.message@,
        }
    }
}

/// A connection diagnostic's report: which run it is, the verdict and first
/// failure, the stage results in the order they finished, and what route
/// discovery saw.
#[derive(Clone, Debug)]
pub struct DiagnosticReport {
    pub schema_version: u32,
    pub report_id: String,
    pub session_id: Option<String>,
    pub mode: DiagnosticMode,
    pub started_at: String,
    pub duration_ms: u64,
    pub log_path: String,
    pub report_path: Option<String>,
    pub recent_events: Vec<LogRecord>,
    pub outcome: ReportOutcome,
    pub stages: Vec<DiagnosticStageResult>,
    pub process_detected: bool,
    pub session_detected: bool,
}

/// A diagnostic report as values.
#[verifier::ext_equal]
pub struct ReportView {
    pub schema_version: u32,
    pub report_id: Seq<char>,
    pub session_id: Option<Seq<char>>,
    pub mode: DiagnosticMode,
    pub started_at: Seq<char>,
    pub duration_ms: u64,
    pub log_path: Seq<char>,
    pub report_path: Option<Seq<char>>,
    pub recent_events: Seq<LogRecord>,
    pub verdict: DiagnosticVerdict,
    pub failure_stage: Option<Seq<char>>,
    pub failure_code: Option<Seq<char>>,
    pub summary: Seq<char>,
    pub stages: Seq<StageResultView>,
    pub process_detected: bool,
    pub session_detected: bool,
}

impl View for DiagnosticReport {
    type V = ReportView;

    open spec fn view(&self) -> ReportView {
        ReportView {
            schema_version: self.schema_version,
            report_id: self.report_id@,
            session_id: opt_string(self.session_id),
            mode: self.mode,
            started_at: self.started_at@,
            duration_ms: self.duration_ms,
            log_path: self.log_path@,
            report_path: opt_string(self.report_path),
            recent_events: self.recent_events@,
            verdict: self.outcome.verdict,
            failure_stage: opt_string(self.outcome.failure_stage),
            failure_code: opt_string(self.outcome.failure_code),
            summary: self.outcome.summary@,
            stages: self.stages@.map_values(|r: DiagnosticStageResult| r@),
            process_detected: self.process_detected,
            session_detected: self.session_detected,
        }
    }
}

impl DiagnosticReport {
    /// The report of a run that starts now: first schema, no stage yet, a
    /// passing verdict and no summary.
    pub fn new(
        report_id: String,
        session_id: Option<String>,
        mode: DiagnosticMode,
        started_at: String,
        log_path: String,
    ) -> (r: Self)
        ensures
            r@.schema_version == 1,
            r@.report_id == report_id@,
            r@.session_id == opt_string(session_id),
            r@.mode == mode,
            r@.started_at == started_at@,
            r@.duration_ms == 0,
            r@.log_path == log_path@,
            r@.report_path is None,
            r@.recent_events.len() == 0,
            r@.verdict == DiagnosticVerdict::Pass,
            r@.failure_stage is None,
            r@.failure_code is None,
            r@.summary.len() == 0,
            r@.stages.len() == 0,
            !r@.process_detected,
            !r@.session_detected,
    {
        DiagnosticReport {
            schema_version: 1,
            report_id,
            session_id,
            mode,
            started_at,
            duration_ms: 0,
            log_path,
            report_path: None,
            recent_events: Vec::new(),
            outcome: ReportOutcome::passing(),
            stages: Vec::new(),
            process_detected: false,
            session_detected: false,
        }
    }
}

/// The report with one more stage result at its end.
pub open spec fn with_stage(
    v: ReportView,
    stage: Seq<char>,
    status: DiagnosticStageStatus,
    duration_ms: u64,
    code: Seq<char>,
    message: Seq<char>,
) -> ReportView {
    ReportView {
        stages: v.stages.push(
            StageResultView { stage, status, duration_ms, code, message },
        ),
        ..v
    }
}

/// The report after a failure at `stage`: the verdict fails unless the
/// diagnostic was cancelled, and only the first failure is attributed.
pub open spec fn with_failure(v: ReportView, stage: Seq<char>, code: Seq<char>) -> ReportView {
    ReportView {
        verdict: if v.verdict == DiagnosticVerdict::Cancelled {
            DiagnosticVerdict::Cancelled
        } else {
            DiagnosticVerdict::Fail
        },
        failure_stage: if v.failure_code is None {
            Some(stage)
        } else {
            v.failure_stage
        },
        failure_code: if v.failure_code is None {
            Some(code)
        } else {
            v.failure_code
        },
        ..v
    }
}

pub(crate) fn record(
    report: &mut DiagnosticReport,
    stage: &str,
    status: DiagnosticStageStatus,
    duration_ms: u64,
    code: &str,
    message: &str,
)
    ensures
        final(report)@ == with_stage(old(report)@, stage@, status, duration_ms, code@, message@),
{
    let entry = DiagnosticStageResult {
        stage: owned(stage),
        status,
        duration_ms,
        code: owned(code),
        message: owned(message),
    };
    let ghost added = entry@;
    report.stages.push(entry);
    assert(report.stages@.map_values(|r: DiagnosticStageResult| r@) =~= old(report).stages@.map_values(
        |r: DiagnosticStageResult| r@,
    ).push(added));
    assert(report@ =~= with_stage(old(report)@, stage@, status, duration_ms, code@, message@));
}

pub(crate) fn record_failure(report: &mut DiagnosticReport, stage: &str, code: &str)
    ensures
        final(report)@ == with_failure(old(report)@, stage@, code@),
{
    mark_failure(&mut report.outcome, stage, code);
    assert(report@ =~= with_failure(old(report)@, stage@, code@));
}

/// The headless renderer validation recorded: passed, cancelled, or failed
/// with the first stable code the error mentions.
pub open spec fn after_renderer_validation(
    v: ReportView,
    result: Result<(), String>,
    cancelled: bool,
    duration_ms: u64,
) -> ReportView {
    let stage = "renderer.headlessValidation"@;
    match result {
        Ok(_) => with_stage(
            v,
            stage,
            DiagnosticStageStatus::Pass,
            duration_ms,
            "GPU_PIPELINE_VALIDATED"@,
            "The GPU shader and pipeline validated without entering fullscreen."@,
        ),
        Err(error) => if cancelled {
            with_stage(
                v,
                stage,
                DiagnosticStageStatus::Cancelled,
                duration_ms,
                "DIAGNOSTIC_CANCELLED"@,
                error@,
            )
        } else {
            let code = first_mentioned(renderer_codes(), error@, "GPU_DIAGNOSTIC_FAILED"@);
            with_failure(
                with_stage(v, stage, DiagnosticStageStatus::Fail, duration_ms, code, error@),
                stage,
                code,
            )
        },
    }
}

/// Records the outcome of the headless renderer validation; `cancelled` is
/// whether the diagnostic was cancelled when it ended.
pub fn record_renderer_validation(
    report: &mut DiagnosticReport,
    result: Result<(), String>,
    cancelled: bool,
    duration_ms: u64,
)
    ensures
        final(report)@ == after_renderer_validation(old(report)@, result, cancelled, duration_ms),
{
    let stage = "renderer.headlessValidation";
    match result {
        Ok(()) => record(
            report,
            stage,
            DiagnosticStageStatus::Pass,
            duration_ms,
            "GPU_PIPELINE_VALIDATED",
            "The GPU shader and pipeline validated without entering fullscreen.",
        ),
        Err(error) => {
            if cancelled {
                record(
                    report,
                    stage,
                    DiagnosticStageStatus::Cancelled,
                    duration_ms,
                    "DIAGNOSTIC_CANCELLED",
                    error.as_str(),
                );
            } else {
                let code = map_renderer_failure(error.as_str());
                record(
                    report,
                    stage,
                    DiagnosticStageStatus::Fail,
                    duration_ms,
                    code,
                    error.as_str(),
                );
                record_failure(report, stage, code);
            }
        },
    }
}

/// The report once every probe has run after `duration_ms`: a cancelled
/// diagnostic says so, and a report without a summary gets the one its mode
/// and verdict call for.
pub open spec fn concluded(v: ReportView, cancelled: bool, duration_ms: u64) -> ReportView {
    let w = if cancelled {
        ReportView {
            verdict: DiagnosticVerdict::Cancelled,
            summary: "The connection diagnostic was cancelled and its workers were stopped."@,
            failure_code: if v.failure_code is None {
                Some("DIAGNOSTIC_CANCELLED"@)
            } else {
                v.failure_code
            },
            ..v
        }
    } else {
        v
    };
    if w.summary.len() == 0 {
        ReportView {
            summary: spec_summary(w.mode, w.verdict, w.failure_stage, w.failure_code),
            duration_ms,
            ..w
        }
    } else {
        ReportView { duration_ms, ..w }
    }
}

/// Closes the report after the probes its mode runs took `duration_ms`.
pub fn conclude(report: &mut DiagnosticReport, cancelled: bool, duration_ms: u64)
    ensures
        final(report)@ == concluded(old(report)@, cancelled, duration_ms),
{
    if cancelled {
        mark_cancelled(&mut report.outcome);
        proof {
            reveal_strlit("The connection diagnostic was cancelled and its workers were stopped.");
        }
    }
    if report.outcome.summary.as_str().is_empty() {
        let summary = summary_for(report.mode, &report.outcome);
        report.outcome.summary = summary;
    }
    report.duration_ms = duration_ms;
    assert(report@ =~= concluded(old(report)@, cancelled, duration_ms));
}

/// How the hidden-surface probe ended.
pub enum SurfaceProbeOutcome {
    /// The temporary window could not be created.
    WindowFailed(String),
    /// The GPU surface could not be prepared on the window.
    SurfaceFailed(String),
    /// The render worker could not be started.
    WorkerFailed(String),
    /// A frame was presented; `joined` is whether the worker then stopped
    /// in time.
    Presented { joined: bool },
    /// No frame was presented; the error says why.
    NotPresented(String),
}

/// The report with a failed stage recorded and attributed.
pub open spec fn with_failed_stage(
    v: ReportView,
    stage: Seq<char>,
    duration_ms: u64,
    code: Seq<char>,
    message: Seq<char>,
) -> ReportView {
    with_failure(
        with_stage(v, stage, DiagnosticStageStatus::Fail, duration_ms, code, message),
        stage,
        code,
    )
}

/// The stable code of a hidden-surface failure.
pub open spec fn surface_code(error: Seq<char>) -> Seq<char> {
    if spec_contains(error, "GPU_FIRST_FRAME_TIMEOUT"@) {
        "GPU_FIRST_FRAME_TIMEOUT"@
    } else if spec_contains(error, "GPU_SURFACE"@) {
        "GPU_SURFACE_CREATE_FAILED"@
    } else {
        first_mentioned(renderer_codes(), error, "GPU_DIAGNOSTIC_FAILED"@)
    }
}

/// The hidden-surface probe recorded.
pub open spec fn after_surface_probe(
    v: ReportView,
    outcome: SurfaceProbeOutcome,
    cancelled: bool,
    duration_ms: u64,
) -> ReportView {
    let stage = "renderer.hiddenSurface"@;
    match outcome {
        SurfaceProbeOutcome::WindowFailed(error) => with_failed_stage(
            v,
            stage,
            duration_ms,
            "DISPLAY_WINDOW_CREATE_FAILED"@,
            "DISPLAY_WINDOW_CREATE_FAILED: "@ + error@,
        ),
        SurfaceProbeOutcome::SurfaceFailed(error) => with_failed_stage(
            v,
            stage,
            duration_ms,
            "GPU_SURFACE_CREATE_FAILED"@,
            error@,
        ),
        SurfaceProbeOutcome::WorkerFailed(error) => with_failed_stage(
            v,
            stage,
            duration_ms,
            "GPU_SURFACE_CREATE_FAILED"@,
            "GPU_SURFACE_WORKER_START_FAILED: "@ + error@,
        ),
        SurfaceProbeOutcome::Presented { joined } => if joined {
            with_stage(
                v,
                stage,
                DiagnosticStageStatus::Pass,
                duration_ms,
                "GPU_FIRST_FRAME_PRESENTED"@,
                "A temporary hidden surface presented one frame and was cleaned up."@,
            )
        } else {
            with_failed_stage(
                v,
                stage,
                duration_ms,
                "WORKER_STOP_TIMEOUT"@,
                "WORKER_STOP_TIMEOUT: hidden renderer did not stop within two seconds"@,
            )
        },
        SurfaceProbeOutcome::NotPresented(error) => if cancelled {
            with_stage(
                v,
                stage,
                DiagnosticStageStatus::Cancelled,
                duration_ms,
                "DIAGNOSTIC_CANCELLED"@,
                error@,
            )
        } else {
            with_failed_stage(v, stage, duration_ms, surface_code(error@), error@)
        },
    }
}

fn prefixed(prefix: &str, text: &str) -> (r: String)
    ensures
        r@ == prefix@ + text@,
{
    let mut r = owned(prefix);
    push_str(&mut r, text);
    r
}

/// Records how the hidden-surface probe ended; `cancelled` is whether the
/// diagnostic was cancelled when it ended.
pub fn record_surface_probe(
    report: &mut DiagnosticReport,
    outcome: SurfaceProbeOutcome,
    cancelled: bool,
    duration_ms: u64,
)
    ensures
        final(report)@ == after_surface_probe(old(report)@, outcome, cancelled, duration_ms),
{
    let stage = "renderer.hiddenSurface";
    match outcome {
        SurfaceProbeOutcome::WindowFailed(error) => {
            let message = prefixed("DISPLAY_WINDOW_CREATE_FAILED: ", error.as_str());
            record(
                report,
                stage,
                DiagnosticStageStatus::Fail,
                duration_ms,
                "DISPLAY_WINDOW_CREATE_FAILED",
                message.as_str(),
            );
            record_failure(report, stage, "DISPLAY_WINDOW_CREATE_FAILED");
        },
        SurfaceProbeOutcome::SurfaceFailed(error) => {
            record(
                report,
                stage,
                DiagnosticStageStatus::Fail,
                duration_ms,
                "GPU_SURFACE_CREATE_FAILED",
                error.as_str(),
            );
            record_failure(report, stage, "GPU_SURFACE_CREATE_FAILED");
        },
        SurfaceProbeOutcome::WorkerFailed(error) => {
            let message = prefixed("GPU_SURFACE_WORKER_START_FAILED: ", error.as_str());
            record(
                report,
                stage,
                DiagnosticStageStatus::Fail,
                duration_ms,
                "GPU_SURFACE_CREATE_FAILED",
                message.as_str(),
            );
            record_failure(report, stage, "GPU_SURFACE_CREATE_FAILED");
        },
        SurfaceProbeOutcome::Presented { joined } => {
            if joined {
                record(
                    report,
                    stage,
                    DiagnosticStageStatus::Pass,
                    duration_ms,
                    "GPU_FIRST_FRAME_PRESENTED",
                    "A temporary hidden surface presented one frame and was cleaned up.",
                );
            } else {
                record(
                    report,
                    stage,
                    DiagnosticStageStatus::Fail,
                    duration_ms,
                    "WORKER_STOP_TIMEOUT",
                    "WORKER_STOP_TIMEOUT: hidden renderer did not stop within two seconds",
                );
                record_failure(report, stage, "WORKER_STOP_TIMEOUT");
            }
        },
        SurfaceProbeOutcome::NotPresented(error) => {
            if cancelled {
                record(
                    report,
                    stage,
                    DiagnosticStageStatus::Cancelled,
                    duration_ms,
                    "DIAGNOSTIC_CANCELLED",
                    error.as_str(),
                );
            } else {
                let code = surface_failure_code(error.as_str());
                record(report, stage, DiagnosticStageStatus::Fail, duration_ms, code, error.as_str());
                record_failure(report, stage, code);
            }
        },
    }
}

/// The report rebuilt for a run that ended while its marker was in
/// progress: it failed at the marker's last stage with
/// `UNEXPECTED_PROCESS_EXIT`, as a full-startup run of the marker's session,
/// under the report id the marker names (else `fresh_report_id`), with the
/// one failed stage, the previous log (else the current one), and the
/// events recovered from that log.
pub fn previous_run_report(
    marker: &LastSessionMarker,
    fresh_report_id: String,
    current_log_path: &str,
    recent_events: Vec<LogRecord>,
) -> (r: DiagnosticReport)
    ensures
        r@.schema_version == 1,
        r@.report_id == (match marker.active_report_id {
            Some(id) => id@,
            None => fresh_report_id@,
        }),
        r@.session_id == Some(marker.session_id@),
        r@.mode == DiagnosticMode::FullStartup,
        r@.started_at == marker.started_at@,
        r@.duration_ms == 0,
        r@.verdict == DiagnosticVerdict::Fail,
        r@.failure_stage == Some(marker.last_stage@),
        r@.failure_code == Some("UNEXPECTED_PROCESS_EXIT"@),
        r@.summary
            == "Previous run ended unexpectedly. The last durable startup stage is included below."@,
        r@.stages == seq![
            StageResultView {
                stage: marker.last_stage@,
                status: DiagnosticStageStatus::Fail,
                duration_ms: 0,
                code: "UNEXPECTED_PROCESS_EXIT"@,
                message: interrupted_message(marker.last_stage@, marker.last_status@),
            },
        ],
        r@.log_path == (if marker.log_path@.len() == 0 {
            current_log_path@
        } else {
            marker.log_path@
        }),
        r@.report_path is None,
        r@.recent_events == recent_events@,
        !r@.process_detected,
        !r@.session_detected,
{
    let run = interrupted_run(marker, current_log_path);
    let report_id = match run.report_id {
        Some(id) => id,
        None => fresh_report_id,
    };
    let stage = DiagnosticStageResult {
        stage: run.failure_stage.clone(),
        status: DiagnosticStageStatus::Fail,
        duration_ms: 0,
        code: run.failure_code.clone(),
        message: run.stage_message,
    };
    let ghost entry = stage@;
    let mut stages = Vec::new();
    stages.push(stage);
    let r = DiagnosticReport {
        schema_version: 1,
        report_id,
        session_id: Some(marker.session_id.clone()),
        mode: DiagnosticMode::FullStartup,
        started_at: marker.started_at.clone(),
        duration_ms: 0,
        log_path: run.log_path,
        report_path: None,
        recent_events,
        outcome: ReportOutcome {
            verdict: DiagnosticVerdict::Fail,
            failure_stage: Some(run.failure_stage),
            failure_code: Some(run.failure_code),
            summary: run.summary,
        },
        stages,
        process_detected: false,
        session_detected: false,
    };
    assert(r@.stages =~= seq![entry]);
    r
}

/// The file a saved report is written to, in the report directory.
pub fn report_file_name(report_id: &str) -> (r: String)
    ensures
        r@ == "diagnostic-"@ + report_id@ + ".json"@,
{
    let mut r = owned("diagnostic-");
    push_str(&mut r, report_id);
    push_str(&mut r, ".json");
    r
}

/// GPU probes recorded: a validated pipeline or a presented, cleaned-up
/// surface passes and leaves the verdict and failure as they were; an error
/// while the diagnostic was being cancelled is recorded as cancelled and
/// attributes no failure; any other error fails the stage and the report,
/// naming this stage unless an earlier failure is already named. Each
/// records exactly one stage result.
pub proof fn law_gpu_probes_are_recorded(
    v: ReportView,
    result: Result<(), String>,
    outcome: SurfaceProbeOutcome,
    cancelled: bool,
    duration_ms: u64,
)
    ensures
        after_renderer_validation(v, result, cancelled, duration_ms).stages.len() == v.stages.len()
            + 1,
        result is Ok ==> {
            let w = after_renderer_validation(v, result, cancelled, duration_ms);
            &&& w.stages.last().status == DiagnosticStageStatus::Pass
            &&& w.verdict == v.verdict
            &&& w.failure_code == v.failure_code
        },
        result is Err && cancelled ==> {
            let w = after_renderer_validation(v, result, cancelled, duration_ms);
            &&& w.stages.last().status == DiagnosticStageStatus::Cancelled
            &&& w.failure_code == v.failure_code
        },
        result is Err && !cancelled ==> {
            let w = after_renderer_validation(v, result, cancelled, duration_ms);
            &&& w.stages.last().status == DiagnosticStageStatus::Fail
            &&& w.verdict != DiagnosticVerdict::Pass
            &&& v.failure_code is None ==> w.failure_stage == Some("renderer.headlessValidation"@)
            &&& v.failure_code is Some ==> w.failure_code == v.failure_code
        },
        after_surface_probe(v, outcome, cancelled, duration_ms).stages.len() == v.stages.len() + 1,
        outcome == (SurfaceProbeOutcome::Presented { joined: true }) ==> {
            let w = after_surface_probe(v, outcome, cancelled, duration_ms);
            &&& w.stages.last().status == DiagnosticStageStatus::Pass
            &&& w.verdict == v.verdict
            &&& w.failure_code == v.failure_code
        },
        !(outcome == (SurfaceProbeOutcome::Presented { joined: true })) && !(
        outcome is NotPresented && cancelled) ==> {
            let w = after_surface_probe(v, outcome, cancelled, duration_ms);
            &&& w.stages.last().status == DiagnosticStageStatus::Fail
            &&& w.verdict != DiagnosticVerdict::Pass
            &&& v.failure_code is None ==> w.failure_stage == Some("renderer.hiddenSurface"@)
        },
        outcome is NotPresented && cancelled ==> after_surface_probe(
            v,
            outcome,
            cancelled,
            duration_ms,
        ).failure_code == v.failure_code,
{
}

/// A concluded report is cancelled exactly when the diagnostic was, or
/// when it already was; it always carries a summary and the run's duration,
/// and it keeps its stages.
pub proof fn law_concluded_reports(v: ReportView, cancelled: bool, duration_ms: u64)
    ensures
        cancelled ==> concluded(v, cancelled, duration_ms).verdict == DiagnosticVerdict::Cancelled,
        !cancelled ==> concluded(v, cancelled, duration_ms).verdict == v.verdict,
        concluded(v, cancelled, duration_ms).summary.len() > 0,
        concluded(v, cancelled, duration_ms).duration_ms == duration_ms,
        concluded(v, cancelled, duration_ms).stages == v.stages,
        v.summary.len() > 0 && !cancelled ==> concluded(v, cancelled, duration_ms).summary
            == v.summary,
{
    reveal_strlit("The connection diagnostic was cancelled and its workers were stopped.");
    let w = concluded(v, cancelled, duration_ms);
    if !cancelled && v.summary.len() == 0 {
        lemma_summaries_are_not_empty(v.mode, v.verdict, v.failure_stage, v.failure_code);
    }
}

proof fn lemma_summaries_are_not_empty(
    mode: DiagnosticMode,
    verdict: DiagnosticVerdict,
    stage: Option<Seq<char>>,
    code: Option<Seq<char>>,
)
    ensures
        spec_summary(mode, verdict, stage, code).len() > 0,
{
    reveal_strlit("Audio capture initialized and non-silent samples reached analysis.");
    reveal_strlit(
        "The GPU adapter, device, shader, and pipeline validated without entering fullscreen.",
    );
    reveal_strlit("Audio sample flow and headless GPU pipeline validation both passed.");
    reveal_strlit(
        "The diagnostic completed with a usable route, but audio is not yet reactive. Review the staged result.",
    );
    reveal_strlit("The diagnostic stopped at ");
    reveal_strlit("The diagnostic was cancelled and cleaned up.");
}

} // verus!
