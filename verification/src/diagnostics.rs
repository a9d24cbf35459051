//! Durable diagnostics bookkeeping: report vocabularies, the last-session
//! marker that survives an unexpected exit, log rotation, the bounded list of
//! recent events, and stage records that finish exactly once.
use vstd::prelude::*;

use std::collections::VecDeque;

use crate::text::{decimal_digits, owned, push_decimal, push_str};

verus! {

/// Which parts of the connection diagnostic run.
#[derive(Clone, Copy, Debug, PartialEq, Eq, Structural)]
pub enum DiagnosticMode {
    AudioOnly,
    RendererOnly,
    FullStartup,
    SafeRenderer,
}

/// The overall outcome of a diagnostic.
#[derive(Clone, Copy, Debug, PartialEq, Eq, Structural)]
pub enum DiagnosticVerdict {
    Pass,
    Degraded,
    Fail,
    Cancelled,
}

/// The outcome of one diagnostic stage.
#[derive(Clone, Copy, Debug, PartialEq, Eq, Structural)]
pub enum DiagnosticStageStatus {
    Pending,
    Running,
    Pass,
    Degraded,
    Fail,
    Cancelled,
}

impl Default for DiagnosticMode {
    fn default() -> (r: Self)
        ensures
            r == DiagnosticMode::AudioOnly,
    {
        DiagnosticMode::AudioOnly
    }
}

impl Default for DiagnosticVerdict {
    fn default() -> (r: Self)
        ensures
            r == DiagnosticVerdict::Fail,
    {
        DiagnosticVerdict::Fail
    }
}

impl Default for DiagnosticStageStatus {
    fn default() -> (r: Self)
        ensures
            r == DiagnosticStageStatus::Pending,
    {
        DiagnosticStageStatus::Pending
    }
}

pub open spec fn spec_mode_wire(mode: DiagnosticMode) -> Seq<char> {
    match mode {
        DiagnosticMode::AudioOnly => "audioOnly"@,
        DiagnosticMode::RendererOnly => "rendererOnly"@,
        DiagnosticMode::FullStartup => "fullStartup"@,
        DiagnosticMode::SafeRenderer => "safeRenderer"@,
    }
}

pub open spec fn spec_verdict_wire(verdict: DiagnosticVerdict) -> Seq<char> {
    match verdict {
        DiagnosticVerdict::Pass => "pass"@,
        DiagnosticVerdict::Degraded => "degraded"@,
        DiagnosticVerdict::Fail => "fail"@,
        DiagnosticVerdict::Cancelled => "cancelled"@,
    }
}

pub open spec fn spec_stage_status_wire(status: DiagnosticStageStatus) -> Seq<char> {
    match status {
        DiagnosticStageStatus::Pending => "pending"@,
        DiagnosticStageStatus::Running => "running"@,
        DiagnosticStageStatus::Pass => "pass"@,
        DiagnosticStageStatus::Degraded => "degraded"@,
        DiagnosticStageStatus::Fail => "fail"@,
        DiagnosticStageStatus::Cancelled => "cancelled"@,
    }
}

impl DiagnosticMode {
    /// The camel-case name used on the wire.
    pub fn wire_name(self) -> (r: &'static str)
        ensures
            r@ == spec_mode_wire(self),
    {
        match self {
            DiagnosticMode::AudioOnly => "audioOnly",
            DiagnosticMode::RendererOnly => "rendererOnly",
            DiagnosticMode::FullStartup => "fullStartup",
            DiagnosticMode::SafeRenderer => "safeRenderer",
        }
    }
}

impl DiagnosticVerdict {
    /// The camel-case name used on the wire.
    pub fn wire_name(self) -> (r: &'static str)
        ensures
            r@ == spec_verdict_wire(self),
    {
        match self {
            DiagnosticVerdict::Pass => "pass",
            DiagnosticVerdict::Degraded => "degraded",
            DiagnosticVerdict::Fail => "fail",
            DiagnosticVerdict::Cancelled => "cancelled",
        }
    }
}

impl DiagnosticStageStatus {
    /// The camel-case name used on the wire.
    pub fn wire_name(self) -> (r: &'static str)
        ensures
            r@ == spec_stage_status_wire(self),
    {
        match self {
            DiagnosticStageStatus::Pending => "pending",
            DiagnosticStageStatus::Running => "running",
            DiagnosticStageStatus::Pass => "pass",
            DiagnosticStageStatus::Degraded => "degraded",
            DiagnosticStageStatus::Fail => "fail",
            DiagnosticStageStatus::Cancelled => "cancelled",
        }
    }
}

/// The application build a report was produced by.
#[derive(Clone, Debug, PartialEq)]
pub struct DiagnosticAppInfo {
    pub version: String,
    pub platform: String,
    pub os_version: String,
    pub arch: String,
    pub target: String,
}

impl Default for DiagnosticAppInfo {
    fn default() -> (r: Self)
        ensures
            r.version@.len() == 0 && r.platform@.len() == 0 && r.os_version@.len() == 0
                && r.arch@.len() == 0 && r.target@.len() == 0,
    {
        DiagnosticAppInfo {
            version: String::new(),
            platform: String::new(),
            os_version: String::new(),
            arch: String::new(),
            target: String::new(),
        }
    }
}

/// What the GPU validation learnt about the renderer.
#[derive(Clone, Debug, PartialEq)]
pub struct DiagnosticRendererInfo {
    pub adapter: Option<String>,
    pub backend: Option<String>,
    pub driver: Option<String>,
    pub driver_info: Option<String>,
    pub device_type: Option<String>,
    pub surface_format: Option<String>,
    pub present_mode: Option<String>,
    pub shader_validated: bool,
    pub pipeline_created: bool,
    pub surface_tested: bool,
    pub software_fallback: bool,
    pub safe_mode: bool,
}

impl Default for DiagnosticRendererInfo {
    fn default() -> (r: Self)
        ensures
            r.adapter is None && r.backend is None && r.driver is None && r.driver_info is None
                && r.device_type is None && r.surface_format is None && r.present_mode is None
                && !r.shader_validated && !r.pipeline_created && !r.surface_tested
                && !r.software_fallback && !r.safe_mode,
    {
        DiagnosticRendererInfo {
            adapter: None,
            backend: None,
            driver: None,
            driver_info: None,
            device_type: None,
            surface_format: None,
            present_mode: None,
            shader_validated: false,
            pipeline_created: false,
            surface_tested: false,
            software_fallback: false,
            safe_mode: false,
        }
    }
}

/// Whether the previous run reached a clean exit.
#[derive(Clone, Copy, Debug, PartialEq, Eq, Structural)]
pub enum SessionExitState {
    InProgress,
    CleanExit,
}

/// The durable record of the last stage a session reached; a marker still
/// in progress at the next launch means the previous run ended unexpectedly.
#[derive(Clone, Debug)]
pub struct LastSessionMarker {
    pub schema_version: u32,
    pub session_id: String,
    pub started_at: String,
    pub updated_at: String,
    pub state: SessionExitState,
    pub active_report_id: Option<String>,
    pub last_stage: String,
    pub last_status: String,
    pub last_code: String,
    pub last_message: String,
    pub log_path: String,
}

/// A session marker as values.
#[verifier::ext_equal]
pub struct MarkerView {
    pub schema_version: u32,
    pub session_id: Seq<char>,
    pub started_at: Seq<char>,
    pub updated_at: Seq<char>,
    pub state: SessionExitState,
    pub active_report_id: Option<Seq<char>>,
    pub last_stage: Seq<char>,
    pub last_status: Seq<char>,
    pub last_code: Seq<char>,
    pub last_message: Seq<char>,
    pub log_path: Seq<char>,
}

impl View for LastSessionMarker {
    type V = MarkerView;

    open spec fn view(&self) -> MarkerView {
        MarkerView {
            schema_version: self.schema_version,
            session_id: self.session_id@,
            started_at: self.started_at@,
            updated_at: self.updated_at@,
            state: self.state,
            active_report_id: opt_string(self.active_report_id),
            last_stage: self.last_stage@,
            last_status: self.last_status@,
            last_code: self.last_code@,
            last_message: self.last_message@,
            log_path: self.log_path@,
        }
    }
}

/// One durable update of the session marker.
pub enum MarkerUpdate {
    /// A stage began: the session is in progress at that stage.
    Begin { stage: Seq<char>, code: Seq<char>, message: Seq<char>, now: Seq<char> },
    /// A stage record was logged.
    Record {
        stage: Seq<char>,
        status: Seq<char>,
        code: Seq<char>,
        message: Seq<char>,
        now: Seq<char>,
    },
    /// A diagnostic report started (`Some`) or ended (`None`).
    Report { report_id: Option<Seq<char>>, now: Seq<char> },
    /// The application exited cleanly.
    Clean { message: Seq<char>, now: Seq<char> },
}

/// The marker after one update.
pub open spec fn after_update(m: MarkerView, update: MarkerUpdate) -> MarkerView {
    match update {
        MarkerUpdate::Begin { stage, code, message, now } => MarkerView {
            state: SessionExitState::InProgress,
            updated_at: now,
            last_stage: stage,
            last_status: "begin"@,
            last_code: code,
            last_message: message,
            ..m
        },
        MarkerUpdate::Record { stage, status, code, message, now } => MarkerView {
            updated_at: now,
            last_stage: stage,
            last_status: status,
            last_code: code,
            last_message: message,
            ..m
        },
        MarkerUpdate::Report { report_id, now } => MarkerView {
            active_report_id: report_id,
            state: if report_id is Some {
                SessionExitState::InProgress
            } else {
                m.state
            },
            updated_at: now,
            ..m
        },
        MarkerUpdate::Clean { message, now } => MarkerView {
            state: SessionExitState::CleanExit,
            updated_at: now,
            last_stage: "application.cleanExit"@,
            last_status: "pass"@,
            last_code: "CLEAN_EXIT"@,
            last_message: message,
            ..m
        },
    }
}

/// The marker after a sequence of updates, in order.
pub open spec fn replay(m: MarkerView, updates: Seq<MarkerUpdate>) -> MarkerView
    decreases updates.len(),
{
    if updates.len() == 0 {
        m
    } else {
        after_update(replay(m, updates.drop_last()), updates.last())
    }
}


/// What is known of a run that ended while its marker was in progress.
pub struct InterruptedRun {
    /// The report that was running, if the marker names one.
    pub report_id: Option<String>,
    pub failure_stage: String,
    pub failure_code: String,
    pub stage_message: String,
    pub summary: String,
    pub log_path: String,
}

/// The stage message of an interrupted run.
pub open spec fn interrupted_message(stage: Seq<char>, status: Seq<char>) -> Seq<char> {
    "The previous run ended while '"@ + stage + "' was "@ + status + "."@
}

/// The report facts reconstructed from a marker left in progress: the last
/// durable stage failed with `UNEXPECTED_PROCESS_EXIT`, and the previous log
/// is named unless the marker recorded none, in which case the current log is.
pub fn interrupted_run(marker: &LastSessionMarker, current_log_path: &str) -> (r: InterruptedRun)
    ensures
        opt_string(r.report_id) == opt_string(marker.active_report_id),
        r.failure_stage@ == marker.last_stage@,
        r.failure_code@ == "UNEXPECTED_PROCESS_EXIT"@,
        r.stage_message@ == interrupted_message(marker.last_stage@, marker.last_status@),
        r.summary@
            == "Previous run ended unexpectedly. The last durable startup stage is included below."@,
        r.log_path@ == (if marker.log_path@.len() == 0 {
            current_log_path@
        } else {
            marker.log_path@
        }),
{
    let report_id = match &marker.active_report_id {
        Some(id) => Some(owned(id.as_str())),
        None => None,
    };
    let mut message = owned("The previous run ended while '");
    push_str(&mut message, marker.last_stage.as_str());
    push_str(&mut message, "' was ");
    push_str(&mut message, marker.last_status.as_str());
    push_str(&mut message, ".");
    let log_path = if marker.log_path.as_str().is_empty() {
        owned(current_log_path)
    } else {
        owned(marker.log_path.as_str())
    };
    InterruptedRun {
        report_id,
        failure_stage: owned(marker.last_stage.as_str()),
        failure_code: owned("UNEXPECTED_PROCESS_EXIT"),
        stage_message: message,
        summary: owned(
            "Previous run ended unexpectedly. The last durable startup stage is included below.",
        ),
        log_path,
    }
}

/// Option of a borrowed text as an option of its characters.
pub open spec fn opt_text(text: Option<&str>) -> Option<Seq<char>> {
    match text {
        Some(t) => Some(t@),
        None => None,
    }
}

/// Option of an owned text as an option of its characters.
pub open spec fn opt_string(text: Option<String>) -> Option<Seq<char>> {
    match text {
        Some(t) => Some(t@),
        None => None,
    }
}

/// The marker written when a session starts.
pub fn new_marker(session_id: String, started_at: String, log_path: String) -> (r:
    LastSessionMarker)
    ensures
        r.schema_version == 1,
        r.session_id == session_id,
        r.started_at == started_at,
        r.updated_at@ == started_at@,
        r.state == SessionExitState::InProgress,
        r.active_report_id is None,
        r.last_stage@ == "app.runtimeStart"@,
        r.last_status@ == "begin"@,
        r.last_code@ == "APP_RUNTIME_START"@,
        r.last_message@ == "PulseBridge native runtime starting"@,
        r.log_path == log_path,
{
    let updated_at = owned(started_at.as_str());
    LastSessionMarker {
        schema_version: 1,
        session_id,
        started_at,
        updated_at,
        state: SessionExitState::InProgress,
        active_report_id: None,
        last_stage: owned("app.runtimeStart"),
        last_status: owned("begin"),
        last_code: owned("APP_RUNTIME_START"),
        last_message: owned("PulseBridge native runtime starting"),
        log_path,
    }
}

/// Records which diagnostic report is running, stamped with `now`; starting
/// one marks the session in progress so an exit before it finishes is
/// detected.
pub fn set_active_report(marker: &mut LastSessionMarker, report_id: Option<&str>, now: String)
    ensures
        final(marker)@ == after_update(
            old(marker)@,
            (MarkerUpdate::Report { report_id: opt_text(report_id), now: now@ }),
        ),
        opt_string(final(marker).active_report_id) == opt_text(report_id),
        report_id is Some ==> final(marker).state == SessionExitState::InProgress,
        report_id is None ==> final(marker).state == old(marker).state,
        final(marker).updated_at == now,
        final(marker).session_id == old(marker).session_id,
        final(marker).started_at == old(marker).started_at,
        final(marker).last_stage == old(marker).last_stage,
        final(marker).last_status == old(marker).last_status,
        final(marker).last_code == old(marker).last_code,
        final(marker).last_message == old(marker).last_message,
        final(marker).log_path == old(marker).log_path,
        final(marker).schema_version == old(marker).schema_version,
{
    marker.active_report_id = match report_id {
        Some(id) => Some(owned(id)),
        None => None,
    };
    if report_id.is_some() {
        marker.state = SessionExitState::InProgress;
    }
    marker.updated_at = now;
}

/// Records that `stage` has begun at `now`, so an exit before it finishes
/// is attributed to it.
pub fn mark_in_progress(
    marker: &mut LastSessionMarker,
    stage: &str,
    code: &str,
    message: &str,
    now: String,
)
    ensures
        final(marker)@ == after_update(
            old(marker)@,
            (MarkerUpdate::Begin { stage: stage@, code: code@, message: message@, now: now@ }),
        ),
        final(marker).state == SessionExitState::InProgress,
        final(marker).updated_at == now,
        final(marker).last_stage@ == stage@,
        final(marker).last_status@ == "begin"@,
        final(marker).last_code@ == code@,
        final(marker).last_message@ == message@,
        final(marker).session_id == old(marker).session_id,
        final(marker).started_at == old(marker).started_at,
        final(marker).active_report_id == old(marker).active_report_id,
        final(marker).log_path == old(marker).log_path,
        final(marker).schema_version == old(marker).schema_version,
{
    marker.state = SessionExitState::InProgress;
    marker.updated_at = now;
    marker.last_stage = owned(stage);
    marker.last_status = owned("begin");
    marker.last_code = owned(code);
    marker.last_message = owned(message);
}

/// Records the latest stage record written to the log.
pub fn apply_stage_record(
    marker: &mut LastSessionMarker,
    stage: &str,
    status: &str,
    code: &str,
    message: &str,
    now: String,
)
    ensures
        final(marker)@ == after_update(
            old(marker)@,
            (MarkerUpdate::Record {
                stage: stage@,
                status: status@,
                code: code@,
                message: message@,
                now: now@,
            }),
        ),
        final(marker).updated_at == now,
        final(marker).last_stage@ == stage@,
        final(marker).last_status@ == status@,
        final(marker).last_code@ == code@,
        final(marker).last_message@ == message@,
        final(marker).state == old(marker).state,
        final(marker).session_id == old(marker).session_id,
        final(marker).started_at == old(marker).started_at,
        final(marker).active_report_id == old(marker).active_report_id,
        final(marker).log_path == old(marker).log_path,
        final(marker).schema_version == old(marker).schema_version,
{
    marker.updated_at = now;
    marker.last_stage = owned(stage);
    marker.last_status = owned(status);
    marker.last_code = owned(code);
    marker.last_message = owned(message);
}

/// Records a clean exit, so the next launch reconstructs no failure.
pub fn apply_clean_exit(marker: &mut LastSessionMarker, message: &str, now: String)
    ensures
        final(marker)@ == after_update(
            old(marker)@,
            (MarkerUpdate::Clean { message: message@, now: now@ }),
        ),
        final(marker).state == SessionExitState::CleanExit,
        final(marker).updated_at == now,
        final(marker).last_stage@ == "application.cleanExit"@,
        final(marker).last_status@ == "pass"@,
        final(marker).last_code@ == "CLEAN_EXIT"@,
        final(marker).last_message@ == message@,
        final(marker).session_id == old(marker).session_id,
        final(marker).started_at == old(marker).started_at,
        final(marker).active_report_id == old(marker).active_report_id,
        final(marker).log_path == old(marker).log_path,
        final(marker).schema_version == old(marker).schema_version,
{
    marker.updated_at = now;
    marker.state = SessionExitState::CleanExit;
    marker.last_stage = owned("application.cleanExit");
    marker.last_status = owned("pass");
    marker.last_code = owned("CLEAN_EXIT");
    marker.last_message = owned(message);
}

/// A previous marker describes an unexpected exit exactly when it was still
/// in progress.
pub fn ended_unexpectedly(marker: &LastSessionMarker) -> (r: bool)
    ensures
        r == (marker.state == SessionExitState::InProgress),
{
    marker.state == SessionExitState::InProgress
}

/// The stage and status written by the last update that wrote one, if any.
pub open spec fn last_written(updates: Seq<MarkerUpdate>) -> Option<(Seq<char>, Seq<char>)>
    decreases updates.len(),
{
    if updates.len() == 0 {
        None
    } else {
        match updates.last() {
            MarkerUpdate::Begin { stage, .. } => Some((stage, "begin"@)),
            MarkerUpdate::Record { stage, status, .. } => Some((stage, status)),
            MarkerUpdate::Clean { .. } => Some(("application.cleanExit"@, "pass"@)),
            MarkerUpdate::Report { .. } => last_written(updates.drop_last()),
        }
    }
}

/// Whether a session that started in `initial` is left in progress by the
/// updates: a stage that begins or a report that starts puts it in
/// progress, a clean exit ends that, and stage records leave it as it was.
pub open spec fn left_in_progress(initial: SessionExitState, updates: Seq<MarkerUpdate>) -> bool
    decreases updates.len(),
{
    if updates.len() == 0 {
        initial == SessionExitState::InProgress
    } else {
        match updates.last() {
            MarkerUpdate::Begin { .. } => true,
            MarkerUpdate::Clean { .. } => false,
            MarkerUpdate::Report { report_id, .. } => report_id is Some || left_in_progress(
                initial,
                updates.drop_last(),
            ),
            MarkerUpdate::Record { .. } => left_in_progress(initial, updates.drop_last()),
        }
    }
}

/// Unclean-exit reconstruction: after any sequence of marker updates the
/// next launch finds the session unfinished exactly when the updates left it
/// in progress, and the marker names the stage and status of the last
/// update that wrote one (the marker's own when none did), so the
/// reconstructed report blames the last durable stage. The session and its
/// log are never rewritten.
pub proof fn law_unclean_exit_names_last_durable_stage(m: MarkerView, updates: Seq<MarkerUpdate>)
    ensures
        (replay(m, updates).state == SessionExitState::InProgress) == left_in_progress(
            m.state,
            updates,
        ),
        match last_written(updates) {
            Some(written) => replay(m, updates).last_stage == written.0 && replay(
                m,
                updates,
            ).last_status == written.1,
            None => replay(m, updates).last_stage == m.last_stage && replay(m, updates).last_status
                == m.last_status,
        },
        replay(m, updates).session_id == m.session_id,
        replay(m, updates).started_at == m.started_at,
        replay(m, updates).log_path == m.log_path,
    decreases updates.len(),
{
    if updates.len() > 0 {
        law_unclean_exit_names_last_durable_stage(m, updates.drop_last());
    }
}

/// The name of the `index`-th rotated log file.
pub fn rotated_file_name(index: usize) -> (r: String)
    ensures
        r@ == "pulsebridge.log."@ + decimal_digits(index as nat),
{
    let mut name = owned("pulsebridge.log.");
    push_decimal(&mut name, index as u64);
    name
}

/// The renames that rotate the log: `(source, destination)` pairs, where
/// index 0 is the live log and `k > 0` the `k`-th rotated file. Older files
/// move first, so no file is overwritten before it has moved on.
pub open spec fn spec_rotation_plan(rotated_files: nat) -> Seq<(nat, nat)>
    decreases rotated_files,
{
    if rotated_files == 0 {
        Seq::empty()
    } else {
        seq![((rotated_files - 1) as nat, rotated_files)] + spec_rotation_plan(
            (rotated_files - 1) as nat,
        )
    }
}

/// The renames that rotate the log, oldest rotated file first.
pub fn rotation_plan(rotated_files: usize) -> (r: Vec<(usize, usize)>)
    ensures
        r@.len() == rotated_files,
        forall|k: int|
            0 <= k < r@.len() ==> (#[trigger] r@[k]).1 == rotated_files - k && r@[k].0
                == rotated_files - k - 1,
{
    let mut plan: Vec<(usize, usize)> = Vec::new();
    let mut index = rotated_files;
    while index > 0
        invariant
            index <= rotated_files,
            plan@.len() == rotated_files - index,
            forall|k: int|
                0 <= k < plan@.len() ==> (#[trigger] plan@[k]).1 == rotated_files - k
                    && plan@[k].0 == rotated_files - k - 1,
        decreases index,
    {
        plan.push((index - 1, index));
        index = index - 1;
    }
    plan
}

/// Each rotated file is written at most once by a rotation: destinations
/// are distinct, and a file is moved away before anything moves onto it.
pub proof fn law_rotation_never_overwrites_unmoved_files(plan: Seq<(usize, usize)>, rotated_files: nat)
    requires
        plan.len() == rotated_files,
        forall|k: int|
            0 <= k < plan.len() ==> (#[trigger] plan[k]).1 == rotated_files - k && plan[k].0
                == rotated_files - k - 1,
    ensures
        forall|i: int, j: int| 0 <= i < j < plan.len() ==> plan[i].1 != plan[j].1,
        forall|i: int, j: int| 0 <= i < j < plan.len() ==> plan[j].1 == plan[i].0 ==> j == i + 1,
{
    assert forall|i: int, j: int| 0 <= i < j < plan.len() implies plan[i].1 != plan[j].1 by {
        assert(plan[i].1 == rotated_files - i);
        assert(plan[j].1 == rotated_files - j);
    }
    assert forall|i: int, j: int| 0 <= i < j < plan.len() implies (plan[j].1 == plan[i].0 ==> j == i
        + 1) by {
        assert(plan[i].0 == rotated_files - i - 1);
        assert(plan[j].1 == rotated_files - j);
    }
}

/// Appends `item`, first dropping the oldest entry when `limit` entries are
/// already held.
pub fn push_bounded<T>(items: &mut VecDeque<T>, item: T, limit: usize)
    requires
        0 < limit,
        old(items)@.len() <= limit,
    ensures
        old(items)@.len() < limit ==> final(items)@ == old(items)@.push(item),
        old(items)@.len() == limit ==> final(items)@ == old(items)@.drop_first().push(item),
        final(items)@.len() <= limit,
{
    if items.len() == limit {
        let _ = items.pop_front();
    }
    items.push_back(item);
}

/// The recent-event list keeps the newest events: after a push it is the
/// old list plus the new event, minus at most its oldest entry, and it never
/// exceeds its limit.
pub proof fn law_recent_events_keep_newest<T>(old_items: Seq<T>, new_items: Seq<T>, item: T, limit: nat)
    requires
        0 < limit,
        old_items.len() <= limit,
        old_items.len() < limit ==> new_items == old_items.push(item),
        old_items.len() == limit ==> new_items == old_items.drop_first().push(item),
    ensures
        new_items.len() <= limit,
        new_items.last() == item,
        new_items.len() > 0,
{
}

/// How many recent events a report carries.
pub const RECENT_EVENT_LIMIT: usize = 128;

/// Milliseconds of a duration, saturated to `u64`.
pub fn duration_ms(millis: u128) -> (r: u64)
    ensures
        millis <= u64::MAX ==> r == millis,
        millis > u64::MAX ==> r == u64::MAX,
{
    if millis > u64::MAX as u128 {
        u64::MAX
    } else {
        millis as u64
    }
}

/// A logged stage that reports one terminal result: the first of pass,
/// degraded, error or cancel is recorded, and a stage dropped without one is
/// recorded as interrupted.
pub struct StageGuard {
    stage: String,
    code: String,
    finished: bool,
}

impl StageGuard {
    /// A stage that has begun and not yet finished.
    pub fn begin(stage: &str, code: &str) -> (r: Self)
        ensures
            r.stage_name() == stage@,
            r.begin_code() == code@,
            !r.is_finished(),
    {
        StageGuard { stage: owned(stage), code: owned(code), finished: false }
    }

    pub closed spec fn is_finished(&self) -> bool {
        self.finished
    }

    pub closed spec fn stage_name(&self) -> Seq<char> {
        self.stage@
    }

    pub closed spec fn begin_code(&self) -> Seq<char> {
        self.code@
    }

    /// The stage's name.
    pub fn stage(&self) -> (r: &str)
        ensures
            r@ == self.stage_name(),
    {
        self.stage.as_str()
    }

    /// The code the stage began with.
    pub fn code(&self) -> (r: &str)
        ensures
            r@ == self.begin_code(),
    {
        self.code.as_str()
    }

    /// Claims the terminal record: `true` only the first time.
    pub fn claim_finish(&mut self) -> (r: bool)
        ensures
            r == !old(self).is_finished(),
            final(self).is_finished(),
            final(self).stage_name() == old(self).stage_name(),
            final(self).begin_code() == old(self).begin_code(),
    {
        if self.finished {
            false
        } else {
            self.finished = true;
            true
        }
    }

    /// A stage left without a terminal result must be recorded as
    /// interrupted.
    pub fn needs_interrupted_record(&self) -> (r: bool)
        ensures
            r == !self.is_finished(),
    {
        !self.finished
    }
}

/// The name of the live diagnostic log file.
pub open spec fn log_file_name() -> Seq<char> {
    "pulsebridge.log"@
}

/// A path separator on some platform: `/` everywhere, `\` on Windows.
pub open spec fn is_separator(c: char) -> bool {
    c == '/' || c == '\\'
}

/// A single file name: not empty, not `.` or `..`, with no separator and
/// no `:` (so no Windows prefix).
pub open spec fn plain_name(n: Seq<char>) -> bool {
    &&& n.len() > 0
    &&& n != "."@
    &&& n != ".."@
    &&& forall|i: int| 0 <= i < n.len() ==> !is_separator(#[trigger] n[i]) && n[i] != ':'
}

/// A path that does not start with two separators (on Windows, a network
/// or verbatim path).
pub open spec fn local_path(d: Seq<char>) -> bool {
    !(d.len() >= 2 && is_separator(d[0]) && is_separator(d[1]))
}

/// A local directory whose last component is a normal name: not empty, and
/// not ending in a separator, `.` or `:`.
pub open spec fn plain_directory(d: Seq<char>) -> bool {
    &&& d.len() > 0
    &&& !is_separator(d.last())
    &&& d.last() != '.'
    &&& d.last() != ':'
    &&& local_path(d)
}

/// What joining a plain file name `name` onto `directory` gives: the name
/// alone onto an empty directory; onto a local directory, the directory and
/// the name with at most one separator between, none after a `/` and
/// exactly one after a normal character. The result always ends with the
/// name.
pub open spec fn joined(directory: Seq<char>, name: Seq<char>, path: Seq<char>) -> bool {
    &&& name.len() <= path.len()
    &&& path.subrange(path.len() - name.len(), path.len() as int) == name
    &&& directory.len() == 0 ==> path == name
    &&& local_path(directory) ==> path == directory + name || path == directory + "/"@ + name
        || path == directory + "\\"@ + name
    &&& local_path(directory) && directory.len() > 0 && directory.last() == '/' ==> path
        == directory + name
    &&& local_path(directory) && directory.len() > 0 && !is_separator(directory.last())
        && directory.last() != ':' ==> path == directory + "/"@ + name || path == directory
        + "\\"@ + name
}

/// The position of the last separator in `s`, or -1 when it has none.
pub open spec fn last_separator(s: Seq<char>) -> int
    decreases s.len(),
{
    if s.len() == 0 {
        -1
    } else if is_separator(s.last()) {
        s.len() - 1
    } else {
        last_separator(s.drop_last())
    }
}

/// The last component of `s` by its last separator.
pub open spec fn final_component(s: Seq<char>) -> Seq<char> {
    s.skip(last_separator(s) + 1)
}

/// When the last separator of `path` follows a plain local directory and
/// precedes a plain name, `parent` is a prefix of that directory, and is the
/// directory itself when the separator is `/`.
pub open spec fn parent_after_last_separator(path: Seq<char>, parent: Option<Seq<char>>) -> bool {
    let i = last_separator(path);
    i >= 0 && plain_directory(path.take(i)) && plain_name(path.skip(i + 1)) ==> (parent matches Some(
        p,
    ) && p.len() <= i && (path[i] == '/' ==> p == path.take(i)))
}

/// `std::path::Path::join` of `directory` and a plain file name, as text.
/// Its documentation (`PathBuf::push`) says that a relative name extends
/// the path, with the platform's separator (`/`, or `\` on Windows) added
/// unless the path is empty, already ends in a separator, or on Windows is
/// a bare drive such as `C:`. Paths that start with two separators (Windows
/// network and verbatim paths, which are normalised) get only the suffix
/// clause. Which separator is added depends on the platform.
#[verifier::external_body]
fn path_join(directory: &str, name: &str) -> (r: String)
    requires
        plain_name(name@),
    ensures
        joined(directory@, name@, r@),
{
    std::path::Path::new(directory).join(name).to_string_lossy().into_owned()
}

/// `std::path::Path::parent` of `path`, as text. Its documentation says
/// that the parent is the path without its final component (trailing
/// separators dropped), `Some("")` for a relative path of one component,
/// and `None` for an empty path. Stated here: a parent is a proper prefix;
/// a plain name has the empty parent; a path whose last separator follows a
/// plain local directory and precedes a plain name has a parent within that
/// directory, the directory itself when the separator is `/`. With `\` the
/// parent is the directory on Windows and a shorter prefix elsewhere, where
/// `\` is no separator; that is not stated.
#[verifier::external_body]
fn path_parent(path: &str) -> (r: Option<String>)
    ensures
        path@.len() == 0 ==> r is None,
        r matches Some(p) ==> p@.len() < path@.len() && path@.subrange(0, p@.len() as int) == p@,
        plain_name(path@) ==> opt_string(r) == Some(Seq::<char>::empty()),
        parent_after_last_separator(path@, opt_string(r)),
{
    std::path::Path::new(path).parent().and_then(|p| p.to_str()).map(|p| p.to_owned())
}

proof fn lemma_split_at_last_separator(a: Seq<char>, sep: Seq<char>, n: Seq<char>)
    requires
        sep.len() == 1,
        is_separator(sep[0]),
        forall|i: int| 0 <= i < n.len() ==> !is_separator(#[trigger] n[i]),
    ensures
        last_separator(a + sep + n) == a.len(),
        (a + sep + n).take(a.len() as int) == a,
        (a + sep + n).skip(a.len() as int + 1) == n,
        (a + sep + n)[a.len() as int] == sep[0],
    decreases n.len(),
{
    let whole = a + sep + n;
    assert(whole.take(a.len() as int) =~= a);
    assert(whole.skip(a.len() as int + 1) =~= n);
    if n.len() > 0 {
        let shorter = n.drop_last();
        lemma_split_at_last_separator(a, sep, shorter);
        assert(whole.drop_last() =~= a + sep + shorter);
        assert(whole.last() == n[n.len() - 1]);
    } else {
        assert(whole =~= a + sep);
    }
}

/// Where the log lands: joined onto a directory that is empty, plain, or
/// a plain directory followed by `/`, the log's final component is exactly
/// the file name, and its directory part is the given directory (without
/// the trailing `/`) when the added separator is `/`.
pub proof fn law_log_file_sits_in_its_directory(directory: Seq<char>, path: Seq<char>)
    requires
        joined(directory, log_file_name(), path),
    ensures
        plain_name(log_file_name()),
        directory.len() == 0 ==> path == log_file_name() && plain_name(path),
        plain_directory(directory) ==> last_separator(path) == directory.len() && path.take(
            directory.len() as int,
        ) == directory && final_component(path) == log_file_name() && (path[directory.len() as int]
            == '/' <==> path == directory + "/"@ + log_file_name()),
        directory.len() > 0 && directory.last() == '/' && plain_directory(directory.drop_last())
            ==> last_separator(path) == directory.len() - 1 && path.take(directory.len() - 1)
            == directory.drop_last() && path[directory.len() - 1] == '/' && final_component(path)
            == log_file_name(),
{
    reveal_strlit("pulsebridge.log");
    reveal_strlit("/");
    reveal_strlit("\\");
    reveal_strlit(".");
    reveal_strlit("..");
    let name = log_file_name();
    assert(forall|i: int| 0 <= i < name.len() ==> !is_separator(#[trigger] name[i]) && name[i] != ':');
    assert(plain_name(name));
    if plain_directory(directory) {
        if path == directory + "/"@ + name {
            lemma_split_at_last_separator(directory, "/"@, name);
        } else {
            assert(path == directory + "\\"@ + name);
            lemma_split_at_last_separator(directory, "\\"@, name);
            assert(path[directory.len() as int] == '\\');
            assert(path != directory + "/"@ + name) by {
                if path == directory + "/"@ + name {
                    assert((directory + "/"@ + name)[directory.len() as int] == '/');
                }
            }
        }
    }
    if directory.len() > 0 && directory.last() == '/' && plain_directory(directory.drop_last()) {
        let e = directory.drop_last();
        assert(local_path(directory)) by {
            if directory.len() >= 2 {
                if e.len() >= 2 {
                    assert(directory[0] == e[0] && directory[1] == e[1]);
                } else {
                    assert(directory[0] == e[0]);
                    assert(e.last() == e[0]);
                }
            }
        }
        assert(directory =~= e + "/"@);
        assert(path =~= e + "/"@ + name);
        lemma_split_at_last_separator(e, "/"@, name);
    }
}

/// Where this session's diagnostic log is written, and the session's id.
pub struct LogLocation {
    directory: String,
    path: String,
    session_id: String,
}

impl LogLocation {
    /// The directory the log was placed in.
    pub closed spec fn spec_directory(&self) -> Seq<char> {
        self.directory@
    }

    /// The log path: `pulsebridge.log` joined onto the directory.
    pub closed spec fn spec_path(&self) -> Seq<char> {
        self.path@
    }

    pub closed spec fn spec_session_id(&self) -> Seq<char> {
        self.session_id@
    }

    #[verifier::type_invariant]
    spec fn names_the_log_file(&self) -> bool {
        joined(self.directory@, log_file_name(), self.path@)
    }

    /// The log of session `session_id` in `directory`: the directory joined
    /// with `pulsebridge.log`.
    pub fn new(directory: &str, session_id: String) -> (r: Self)
        ensures
            r.spec_session_id() == session_id@,
            r.spec_directory() == directory@,
            joined(directory@, log_file_name(), r.spec_path()),
    {
        proof {
            reveal_strlit("pulsebridge.log");
            reveal_strlit(".");
            reveal_strlit("..");
            let name = log_file_name();
            assert(forall|i: int|
                0 <= i < name.len() ==> !is_separator(#[trigger] name[i]) && name[i] != ':');
        }
        let path = path_join(directory, "pulsebridge.log");
        LogLocation { directory: owned(directory), path, session_id }
    }

    /// The log path.
    pub fn path(&self) -> (r: &str)
        ensures
            r@ == self.spec_path(),
    {
        self.path.as_str()
    }
}

/// The log file of the session, once logging has started: `pulsebridge.log`
/// in the session's log directory, the file's final component.
pub fn log_path(location: Option<&LogLocation>) -> (r: Option<String>)
    ensures
        r is Some <==> location is Some,
        r matches Some(p) ==> p@ == location->0.spec_path(),
        r matches Some(p) ==> joined(location->0.spec_directory(), log_file_name(), p@),
        r matches Some(p) ==> ((location->0.spec_directory().len() == 0 || plain_directory(
            location->0.spec_directory(),
        )) ==> final_component(p@) == log_file_name()),
{
    match location {
        Some(l) => {
            proof {
                use_type_invariant(l);
                law_log_file_sits_in_its_directory(l.directory@, l.path@);
                if l.directory@.len() == 0 {
                    assert(last_separator(l.path@) == -1) by {
                        lemma_no_separator(l.path@);
                    }
                    assert(l.path@.skip(0) =~= l.path@);
                }
            }
            Some(l.path.clone())
        },
        None => None,
    }
}

proof fn lemma_no_separator(s: Seq<char>)
    requires
        forall|i: int| 0 <= i < s.len() ==> !is_separator(#[trigger] s[i]),
    ensures
        last_separator(s) == -1,
    decreases s.len(),
{
    if s.len() > 0 {
        assert(s.last() == s[s.len() - 1]);
        lemma_no_separator(s.drop_last());
    }
}

/// The session's id, once logging has started.
pub fn session_id(location: Option<&LogLocation>) -> (r: Option<String>)
    ensures
        r is Some <==> location is Some,
        r matches Some(id) ==> id@ == location->0.spec_session_id(),
{
    match location {
        Some(l) => Some(l.session_id.clone()),
        None => None,
    }
}

/// What is known of the parent of a log placed in `directory` at `path`:
/// the empty path for the working directory; for a plain directory, a
/// prefix of it, the directory itself when the added separator is `/`; and
/// for a plain directory written with a trailing `/`, that directory without
/// the `/`.
pub open spec fn parent_of_log(directory: Seq<char>, path: Seq<char>, parent: Option<Seq<char>>) -> bool {
    &&& directory.len() == 0 ==> parent == Some(Seq::<char>::empty())
    &&& plain_directory(directory) ==> (parent matches Some(d) && d.len() <= directory.len()
        && directory.take(d.len() as int) == d && (path == directory + "/"@ + log_file_name()
        ==> d == directory))
    &&& directory.len() > 0 && directory.last() == '/' && plain_directory(directory.drop_last())
        ==> parent == Some(directory.drop_last())
}

/// The folder that holds the log and the saved reports: the log path's
/// parent (`std::path::Path::parent`) once logging has started. For a log
/// in the working directory that is the empty path; for a plain directory
/// it is that directory when the platform's separator is `/` and a prefix
/// of it otherwise; for a plain directory written with a trailing `/` it is
/// the directory without the `/`.
pub fn report_directory(location: Option<&LogLocation>) -> (r: Option<String>)
    ensures
        location is None ==> r is None,
        r matches Some(d) ==> location matches Some(l) && d@.len() < l.spec_path().len()
            && l.spec_path().subrange(0, d@.len() as int) == d@,
        location matches Some(l) ==> parent_of_log(
            l.spec_directory(),
            l.spec_path(),
            opt_string(r),
        ),
{
    match location {
        Some(l) => {
            proof {
                use_type_invariant(l);
                law_log_file_sits_in_its_directory(l.directory@, l.path@);
            }
            let r = path_parent(l.path.as_str());
            proof {
                let dir = l.directory@;
                let path = l.path@;
                if plain_directory(dir) {
                    let i = last_separator(path);
                    assert(path.take(i) == dir);
                    assert(path.skip(i + 1) == log_file_name());
                    let p = r->0@;
                    assert(dir.take(p.len() as int) =~= path.subrange(0, p.len() as int));
                }
            }
            r
        },
        None => None,
    }
}

/// One line of the diagnostic log, as values; the caller adds its JSON
/// details when it writes the line.
#[derive(Clone, Debug)]
pub struct LogRecord {
    pub schema_version: u32,
    pub timestamp: String,
    pub timestamp_ms: u128,
    pub monotonic_ms: u64,
    pub session_id: String,
    pub level: String,
    pub event: String,
    pub stage: Option<String>,
    pub status: String,
    pub code: String,
    pub duration_ms: Option<u64>,
    pub message: String,
}

/// When a record is written: the wall-clock time as text and in
/// milliseconds since the epoch, and the milliseconds since the log opened.
#[derive(Clone, Debug)]
pub struct LogClock {
    pub timestamp: String,
    pub timestamp_ms: u128,
    pub monotonic_ms: u64,
}

/// A plain event: no stage, status `event`, no duration.
pub fn event_record(
    session_id: &str,
    level: &str,
    name: &str,
    code: &str,
    message: &str,
    clock: LogClock,
) -> (r: LogRecord)
    ensures
        r.schema_version == 1,
        r.timestamp == clock.timestamp,
        r.timestamp_ms == clock.timestamp_ms,
        r.monotonic_ms == clock.monotonic_ms,
        r.session_id@ == session_id@,
        r.level@ == level@,
        r.event@ == name@,
        r.stage is None,
        r.status@ == "event"@,
        r.code@ == code@,
        r.duration_ms is None,
        r.message@ == message@,
{
    LogRecord {
        schema_version: 1,
        timestamp: clock.timestamp,
        timestamp_ms: clock.timestamp_ms,
        monotonic_ms: clock.monotonic_ms,
        session_id: owned(session_id),
        level: owned(level),
        event: owned(name),
        stage: None,
        status: owned("event"),
        code: owned(code),
        duration_ms: None,
        message: owned(message),
    }
}

/// The event name of a stage record: `stage.<stage>.<status>`.
pub open spec fn stage_event_name(stage: Seq<char>, status: Seq<char>) -> Seq<char> {
    "stage."@ + stage + "."@ + status
}

/// A stage record: named after the stage and its status, carrying the
/// stage's duration when it is a terminal record.
pub fn stage_record(
    session_id: &str,
    level: &str,
    stage: &str,
    status: &str,
    code: &str,
    message: &str,
    duration_ms: Option<u64>,
    clock: LogClock,
) -> (r: LogRecord)
    ensures
        r.schema_version == 1,
        r.timestamp == clock.timestamp,
        r.timestamp_ms == clock.timestamp_ms,
        r.monotonic_ms == clock.monotonic_ms,
        r.session_id@ == session_id@,
        r.level@ == level@,
        r.event@ == stage_event_name(stage@, status@),
        r.stage matches Some(s) && s@ == stage@,
        r.status@ == status@,
        r.code@ == code@,
        r.duration_ms == duration_ms,
        r.message@ == message@,
{
    let mut event = owned("stage.");
    push_str(&mut event, stage);
    push_str(&mut event, ".");
    push_str(&mut event, status);
    LogRecord {
        schema_version: 1,
        timestamp: clock.timestamp,
        timestamp_ms: clock.timestamp_ms,
        monotonic_ms: clock.monotonic_ms,
        session_id: owned(session_id),
        level: owned(level),
        event,
        stage: Some(owned(stage)),
        status: owned(status),
        code: owned(code),
        duration_ms,
        message: owned(message),
    }
}

/// How a logged stage ended.
#[derive(Clone, Copy, Debug, PartialEq, Eq, Structural)]
pub enum StageEnd {
    Pass,
    Degraded,
    Error,
    Cancelled,
    /// The stage was abandoned without a terminal result.
    Interrupted,
}

/// The level and status a stage's terminal record is written with.
pub fn stage_end_fields(end: StageEnd) -> (r: (&'static str, &'static str))
    ensures
        end == StageEnd::Pass ==> r.0@ == "info"@ && r.1@ == "pass"@,
        end == StageEnd::Degraded ==> r.0@ == "warn"@ && r.1@ == "degraded"@,
        end == StageEnd::Error ==> r.0@ == "error"@ && r.1@ == "error"@,
        end == StageEnd::Cancelled ==> r.0@ == "warn"@ && r.1@ == "cancelled"@,
        end == StageEnd::Interrupted ==> r.0@ == "error"@ && r.1@ == "error"@,
{
    match end {
        StageEnd::Pass => ("info", "pass"),
        StageEnd::Degraded => ("warn", "degraded"),
        StageEnd::Error => ("error", "error"),
        StageEnd::Cancelled => ("warn", "cancelled"),
        StageEnd::Interrupted => ("error", "error"),
    }
}

/// The terminal record of a stage that began at `began_ms` and ended at
/// `clock.monotonic_ms`: a cancellation is recorded with the cancellation
/// code, an interruption with its own code and message, and every terminal
/// record carries the stage's duration.
pub fn terminal_stage_record(
    session_id: &str,
    stage: &str,
    end: StageEnd,
    code: &str,
    message: &str,
    began_ms: u64,
    clock: LogClock,
) -> (r: LogRecord)
    ensures
        r.stage matches Some(s) && s@ == stage@,
        r.session_id@ == session_id@,
        r.monotonic_ms == clock.monotonic_ms,
        r.timestamp == clock.timestamp,
        r.duration_ms == Some(
            (if clock.monotonic_ms >= began_ms {
                (clock.monotonic_ms - began_ms) as u64
            } else {
                0u64
            }),
        ),
        r.code@ == (match end {
            StageEnd::Cancelled => "DIAGNOSTIC_CANCELLED"@,
            StageEnd::Interrupted => "STAGE_INTERRUPTED"@,
            _ => code@,
        }),
        r.message@ == (match end {
            StageEnd::Interrupted => "Stage ended without a terminal result"@,
            _ => message@,
        }),
        r.event@ == stage_event_name(stage@, r.status@),
        end == StageEnd::Pass ==> r.level@ == "info"@ && r.status@ == "pass"@,
        end == StageEnd::Degraded ==> r.level@ == "warn"@ && r.status@ == "degraded"@,
        end == StageEnd::Error ==> r.level@ == "error"@ && r.status@ == "error"@,
        end == StageEnd::Cancelled ==> r.level@ == "warn"@ && r.status@ == "cancelled"@,
        end == StageEnd::Interrupted ==> r.level@ == "error"@ && r.status@ == "error"@,
{
    let (level, status) = stage_end_fields(end);
    let duration = if clock.monotonic_ms >= began_ms {
        clock.monotonic_ms - began_ms
    } else {
        0
    };
    let (code, message) = match end {
        StageEnd::Cancelled => ("DIAGNOSTIC_CANCELLED", message),
        StageEnd::Interrupted => ("STAGE_INTERRUPTED", "Stage ended without a terminal result"),
        _ => (code, message),
    };
    stage_record(session_id, level, stage, status, code, message, Some(duration), clock)
}

/// The log is rotated before a write once it has reached `max_bytes`; a
/// log whose size cannot be read is not rotated.
pub fn should_rotate(current_bytes: Option<u64>, max_bytes: u64) -> (r: bool)
    ensures
        r == (current_bytes matches Some(n) && n >= max_bytes),
{
    match current_bytes {
        Some(n) => n >= max_bytes,
        None => false,
    }
}

/// How many of the previous log's last lines are read back into a rebuilt
/// report.
pub const RECENT_LOG_LINES: usize = 64;

/// The records among `lines`, in order, skipping lines that did not parse.
pub open spec fn parsed_records(lines: Seq<Option<LogRecord>>) -> Seq<LogRecord>
    decreases lines.len(),
{
    if lines.len() == 0 {
        Seq::empty()
    } else {
        let before = parsed_records(lines.drop_last());
        match lines.last() {
            Some(record) => before.push(record),
            None => before,
        }
    }
}

/// The lines of a log from which its recent records are read: the last
/// `RECENT_LOG_LINES`, or all of them when there are fewer.
pub open spec fn recent_lines(lines: Seq<Option<LogRecord>>) -> Seq<Option<LogRecord>> {
    if lines.len() <= RECENT_LOG_LINES {
        lines
    } else {
        lines.skip(lines.len() - RECENT_LOG_LINES)
    }
}

fn copy_record(record: &LogRecord) -> (r: LogRecord)
    ensures
        r == *record,
{
    LogRecord {
        schema_version: record.schema_version,
        timestamp: record.timestamp.clone(),
        timestamp_ms: record.timestamp_ms,
        monotonic_ms: record.monotonic_ms,
        session_id: record.session_id.clone(),
        level: record.level.clone(),
        event: record.event.clone(),
        stage: match &record.stage {
            Some(stage) => Some(stage.clone()),
            None => None,
        },
        status: record.status.clone(),
        code: record.code.clone(),
        duration_ms: record.duration_ms,
        message: record.message.clone(),
    }
}

/// The records recovered from a previous log, given each of its lines as
/// parsed (`None` for a line that is no record): those among its last
/// `RECENT_LOG_LINES` lines, oldest first.
pub fn recent_records(lines: Vec<Option<LogRecord>>) -> (r: Vec<LogRecord>)
    ensures
        r@ == parsed_records(recent_lines(lines@)),
{
    let start: usize = if lines.len() <= RECENT_LOG_LINES {
        0
    } else {
        lines.len() - RECENT_LOG_LINES
    };
    let ghost tail = recent_lines(lines@);
    assert(tail =~= lines@.skip(start as int));
    let mut r: Vec<LogRecord> = Vec::new();
    let mut i: usize = start;
    assert(tail.take(0) =~= Seq::<Option<LogRecord>>::empty());
    while i < lines.len()
        invariant
            start <= i <= lines@.len(),
            tail == lines@.skip(start as int),
            r@ == parsed_records(tail.take(i - start)),
        decreases lines@.len() - i,
    {
        let ghost before = tail.take(i - start);
        let ghost after = tail.take(i + 1 - start);
        assert(after.drop_last() =~= before);
        assert(after.last() == lines@[i as int]);
        match &lines[i] {
            Some(record) => r.push(copy_record(record)),
            None => {},
        }
        i = i + 1;
    }
    assert(tail.take(lines@.len() - start) =~= tail);
    r
}

} // verus!
