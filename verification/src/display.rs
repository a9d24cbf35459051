//! The performance session's lifecycle, the output modes the renderer
//! understands, and the small decisions taken around a running session.
use vstd::prelude::*;

use crate::capture::{idle_status, CaptureStatus};
use crate::renderer::{RendererLifecycle, RendererStatus};
use crate::sources::{CaptureState, SampleFlowState};

verus! {

/// What the performance output shows.
#[derive(Clone, Copy, Debug, PartialEq, Eq, Structural)]
pub enum OutputMode {
    Reactive,
    Ambient,
    Black,
}

impl Default for OutputMode {
    fn default() -> (r: Self)
        ensures
            r == OutputMode::Reactive,
    {
        OutputMode::Reactive
    }
}

pub open spec fn spec_mode_value(mode: OutputMode) -> u8 {
    match mode {
        OutputMode::Reactive => 0,
        OutputMode::Ambient => 1,
        OutputMode::Black => 2,
    }
}

pub open spec fn spec_mode_from_value(value: u8) -> OutputMode {
    if value == 1 {
        OutputMode::Ambient
    } else if value == 2 {
        OutputMode::Black
    } else {
        OutputMode::Reactive
    }
}

impl OutputMode {
    /// The byte stored in the shared output-mode cell.
    pub fn value(self) -> (r: u8)
        ensures
            r == spec_mode_value(self),
    {
        match self {
            OutputMode::Reactive => 0,
            OutputMode::Ambient => 1,
            OutputMode::Black => 2,
        }
    }

    /// The mode a stored byte denotes; unknown bytes read as reactive.
    pub fn from_value(value: u8) -> (r: Self)
        ensures
            r == spec_mode_from_value(value),
    {
        match value {
            1 => OutputMode::Ambient,
            2 => OutputMode::Black,
            _ => OutputMode::Reactive,
        }
    }

    /// The camel-case name used on the wire.
    pub fn wire_name(self) -> (r: &'static str)
        ensures
            r@ == spec_output_mode_wire(self),
    {
        match self {
            OutputMode::Reactive => "reactive",
            OutputMode::Ambient => "ambient",
            OutputMode::Black => "black",
        }
    }
}

pub open spec fn spec_output_mode_wire(mode: OutputMode) -> Seq<char> {
    match mode {
        OutputMode::Reactive => "reactive"@,
        OutputMode::Ambient => "ambient"@,
        OutputMode::Black => "black"@,
    }
}

/// Storing a mode and reading it back gives the same mode.
pub proof fn law_output_mode_round_trips(mode: OutputMode)
    ensures
        spec_mode_from_value(spec_mode_value(mode)) == mode,
{
}

/// The lifecycle of the performance session.
#[derive(Clone, Copy, Debug, PartialEq, Eq, Structural)]
pub enum RuntimeLifecycle {
    Stopped,
    Starting,
    Running,
    Recovering,
    Failed,
}

impl Default for RuntimeLifecycle {
    fn default() -> (r: Self)
        ensures
            r == RuntimeLifecycle::Stopped,
    {
        RuntimeLifecycle::Stopped
    }
}

impl RuntimeLifecycle {
    /// The camel-case name used on the wire.
    pub fn wire_name(self) -> (r: &'static str)
        ensures
            r@ == spec_lifecycle_wire(self),
    {
        match self {
            RuntimeLifecycle::Stopped => "stopped",
            RuntimeLifecycle::Starting => "starting",
            RuntimeLifecycle::Running => "running",
            RuntimeLifecycle::Recovering => "recovering",
            RuntimeLifecycle::Failed => "failed",
        }
    }
}

pub open spec fn spec_lifecycle_wire(state: RuntimeLifecycle) -> Seq<char> {
    match state {
        RuntimeLifecycle::Stopped => "stopped"@,
        RuntimeLifecycle::Starting => "starting"@,
        RuntimeLifecycle::Running => "running"@,
        RuntimeLifecycle::Recovering => "recovering"@,
        RuntimeLifecycle::Failed => "failed"@,
    }
}

/// What happened to the session.
#[derive(Clone, Copy, Debug, PartialEq, Eq, Structural)]
pub enum LifecycleEvent {
    Start,
    Ready,
    Recover,
    Recovered,
    Fail,
    Stop,
}

/// Start, Fail and Stop always take effect; Ready only completes a start,
/// Recover only interrupts a running session, Recovered only ends a
/// recovery; any other event leaves the state unchanged.
pub open spec fn spec_transition(current: RuntimeLifecycle, event: LifecycleEvent) -> RuntimeLifecycle {
    match event {
        LifecycleEvent::Start => RuntimeLifecycle::Starting,
        LifecycleEvent::Ready => if current == RuntimeLifecycle::Starting {
            RuntimeLifecycle::Running
        } else {
            current
        },
        LifecycleEvent::Recover => if current == RuntimeLifecycle::Running {
            RuntimeLifecycle::Recovering
        } else {
            current
        },
        LifecycleEvent::Recovered => if current == RuntimeLifecycle::Recovering {
            RuntimeLifecycle::Running
        } else {
            current
        },
        LifecycleEvent::Fail => RuntimeLifecycle::Failed,
        LifecycleEvent::Stop => RuntimeLifecycle::Stopped,
    }
}

/// The next lifecycle state after `event`.
pub fn transition_lifecycle(current: RuntimeLifecycle, event: LifecycleEvent) -> (r: RuntimeLifecycle)
    ensures
        r == spec_transition(current, event),
{
    match event {
        LifecycleEvent::Start => RuntimeLifecycle::Starting,
        LifecycleEvent::Ready if current == RuntimeLifecycle::Starting => RuntimeLifecycle::Running,
        LifecycleEvent::Recover if current == RuntimeLifecycle::Running => {
            RuntimeLifecycle::Recovering
        },
        LifecycleEvent::Recovered if current == RuntimeLifecycle::Recovering => {
            RuntimeLifecycle::Running
        },
        LifecycleEvent::Fail => RuntimeLifecycle::Failed,
        LifecycleEvent::Stop => RuntimeLifecycle::Stopped,
        _ => current,
    }
}

/// Applies `event` to a shared lifecycle cell.
pub fn set_arc_lifecycle(lifecycle: &mut RuntimeLifecycle, event: LifecycleEvent)
    ensures
        *final(lifecycle) == spec_transition(*old(lifecycle), event),
{
    *lifecycle = transition_lifecycle(*lifecycle, event);
}

/// A session only becomes running through a completed start or a finished
/// recovery: no other event claims readiness.
pub proof fn law_only_start_or_recovery_reaches_running(
    current: RuntimeLifecycle,
    event: LifecycleEvent,
)
    requires
        current != RuntimeLifecycle::Running,
        spec_transition(current, event) == RuntimeLifecycle::Running,
    ensures
        (current == RuntimeLifecycle::Starting && event == LifecycleEvent::Ready) || (current
            == RuntimeLifecycle::Recovering && event == LifecycleEvent::Recovered),
{
}

/// Start, Fail and Stop are honoured from every state.
pub proof fn law_explicit_events_always_apply(current: RuntimeLifecycle)
    ensures
        spec_transition(current, LifecycleEvent::Start) == RuntimeLifecycle::Starting,
        spec_transition(current, LifecycleEvent::Fail) == RuntimeLifecycle::Failed,
        spec_transition(current, LifecycleEvent::Stop) == RuntimeLifecycle::Stopped,
{
}

/// A failed session stays failed until it is explicitly started or stopped.
pub proof fn law_failure_is_sticky(event: LifecycleEvent)
    requires
        event != LifecycleEvent::Start,
        event != LifecycleEvent::Stop,
    ensures
        spec_transition(RuntimeLifecycle::Failed, event) == RuntimeLifecycle::Failed,
{
}

/// The conditional events take effect exactly where they apply: readiness
/// completes a start, an interruption sends a running session into
/// recovery, and a finished recovery resumes it; anywhere else they leave
/// the lifecycle as it is.
pub proof fn law_conditional_events_apply_where_they_belong(current: RuntimeLifecycle)
    ensures
        spec_transition(RuntimeLifecycle::Starting, LifecycleEvent::Ready)
            == RuntimeLifecycle::Running,
        spec_transition(RuntimeLifecycle::Running, LifecycleEvent::Recover)
            == RuntimeLifecycle::Recovering,
        spec_transition(RuntimeLifecycle::Recovering, LifecycleEvent::Recovered)
            == RuntimeLifecycle::Running,
        current != RuntimeLifecycle::Starting ==> spec_transition(current, LifecycleEvent::Ready)
            == current,
        current != RuntimeLifecycle::Running ==> spec_transition(current, LifecycleEvent::Recover)
            == current,
        current != RuntimeLifecycle::Recovering ==> spec_transition(
            current,
            LifecycleEvent::Recovered,
        ) == current,
{
}

/// Different output modes are sent to the renderer as different numbers.
pub proof fn law_mode_numbers_are_distinct(a: OutputMode, b: OutputMode)
    ensures
        a != b ==> spec_mode_value(a) != spec_mode_value(b),
{
}

/// A session is cleaned up when a stop was requested or any worker exited.
pub fn should_reap_session(stop_requested: bool, worker_finished: bool) -> (r: bool)
    ensures
        r == (stop_requested || worker_finished),
{
    stop_requested || worker_finished
}

/// The lifecycle event implied by the capture worker's report: a recovering
/// or silent capture interrupts the session, listening with flowing samples
/// ends a recovery.
pub open spec fn spec_audio_event(state: CaptureState, flow: SampleFlowState) -> Option<
    LifecycleEvent,
> {
    if state == CaptureState::Recovering || flow == SampleFlowState::Silent {
        Some(LifecycleEvent::Recover)
    } else if state == CaptureState::Listening && flow == SampleFlowState::Flowing {
        Some(LifecycleEvent::Recovered)
    } else {
        None
    }
}

/// The lifecycle event implied by the capture worker's report.
pub fn audio_lifecycle_event(state: CaptureState, flow: SampleFlowState) -> (r: Option<
    LifecycleEvent,
>)
    ensures
        r == spec_audio_event(state, flow),
{
    if state == CaptureState::Recovering || flow == SampleFlowState::Silent {
        Some(LifecycleEvent::Recover)
    } else if state == CaptureState::Listening && flow == SampleFlowState::Flowing {
        Some(LifecycleEvent::Recovered)
    } else {
        None
    }
}

/// The lifecycle shown to the controller: the stored state, adjusted by the
/// capture worker's latest report.
pub open spec fn spec_displayed_lifecycle(
    stored: RuntimeLifecycle,
    state: CaptureState,
    flow: SampleFlowState,
) -> RuntimeLifecycle {
    if stored == RuntimeLifecycle::Running && (state == CaptureState::Recovering || flow
        == SampleFlowState::Silent) {
        RuntimeLifecycle::Recovering
    } else if stored == RuntimeLifecycle::Recovering && state == CaptureState::Listening && flow
        == SampleFlowState::Flowing {
        RuntimeLifecycle::Running
    } else {
        stored
    }
}

/// The controller sees what the capture worker's report does to the stored
/// lifecycle: a running session whose capture is recovering or whose
/// samples went silent is shown recovering, a recovering session whose
/// capture listens with flowing samples is shown running, and in every other
/// case the stored lifecycle is shown. This is the lifecycle event implied
/// by the report applied to a running or recovering session.
pub proof fn law_display_follows_the_capture_report(
    stored: RuntimeLifecycle,
    state: CaptureState,
    flow: SampleFlowState,
)
    ensures
        stored == RuntimeLifecycle::Running && (state == CaptureState::Recovering || flow
            == SampleFlowState::Silent) ==> spec_displayed_lifecycle(stored, state, flow)
            == RuntimeLifecycle::Recovering,
        stored == RuntimeLifecycle::Recovering && state == CaptureState::Listening && flow
            == SampleFlowState::Flowing ==> spec_displayed_lifecycle(stored, state, flow)
            == RuntimeLifecycle::Running,
        stored != RuntimeLifecycle::Running && stored != RuntimeLifecycle::Recovering
            ==> spec_displayed_lifecycle(stored, state, flow) == stored,
        state != CaptureState::Recovering && flow != SampleFlowState::Silent && !(state
            == CaptureState::Listening && flow == SampleFlowState::Flowing)
            ==> spec_displayed_lifecycle(stored, state, flow) == stored,
        stored == RuntimeLifecycle::Running || stored == RuntimeLifecycle::Recovering
            ==> spec_displayed_lifecycle(stored, state, flow) == match spec_audio_event(
            state,
            flow,
        ) {
            Some(event) => spec_transition(stored, event),
            None => stored,
        },
{
}

/// A recovering or silent capture interrupts the session, a listening
/// capture with flowing samples ends a recovery, and nothing else is
/// implied.
pub proof fn law_capture_reports_imply_events(state: CaptureState, flow: SampleFlowState)
    ensures
        state == CaptureState::Recovering ==> spec_audio_event(state, flow) == Some(
            LifecycleEvent::Recover,
        ),
        flow == SampleFlowState::Silent ==> spec_audio_event(state, flow) == Some(
            LifecycleEvent::Recover,
        ),
        state == CaptureState::Listening && flow == SampleFlowState::Flowing ==> spec_audio_event(
            state,
            flow,
        ) == Some(LifecycleEvent::Recovered),
        state != CaptureState::Recovering && flow != SampleFlowState::Silent && !(state
            == CaptureState::Listening && flow == SampleFlowState::Flowing) ==> spec_audio_event(
            state,
            flow,
        ) is None,
{
}

/// The lifecycle shown to the controller.
pub fn displayed_lifecycle(
    stored: RuntimeLifecycle,
    state: CaptureState,
    flow: SampleFlowState,
) -> (r: RuntimeLifecycle)
    ensures
        r == spec_displayed_lifecycle(stored, state, flow),
{
    if stored == RuntimeLifecycle::Running && (state == CaptureState::Recovering || flow
        == SampleFlowState::Silent) {
        RuntimeLifecycle::Recovering
    } else if stored == RuntimeLifecycle::Recovering && state == CaptureState::Listening && flow
        == SampleFlowState::Flowing {
        RuntimeLifecycle::Running
    } else {
        stored
    }
}

/// Live visuals are running while a session exists and is running or
/// recovering.
pub fn session_running(session_present: bool, lifecycle: RuntimeLifecycle) -> (r: bool)
    ensures
        r == (session_present && (lifecycle == RuntimeLifecycle::Running || lifecycle
            == RuntimeLifecycle::Recovering)),
{
    session_present && (lifecycle == RuntimeLifecycle::Running || lifecycle
        == RuntimeLifecycle::Recovering)
}

/// The display a session opens on: the configured one when connected,
/// otherwise the first; `None` when no display is connected.
pub fn selected_display(display_count: usize, display_id: usize) -> (r: Option<usize>)
    ensures
        display_count == 0 ==> r is None,
        display_count > 0 && display_id < display_count ==> r == Some(display_id),
        display_count > 0 && display_id >= display_count ==> r == Some(0usize),
{
    if display_id < display_count {
        Some(display_id)
    } else if display_count > 0 {
        Some(0)
    } else {
        None
    }
}

/// What the controller shows of the performance: the capture and renderer
/// statuses, the output mode and the runtime lifecycle.
pub struct PerformanceState {
    pub capture: CaptureStatus,
    pub renderer: RendererStatus,
    pub output_mode: OutputMode,
    pub lifecycle: RuntimeLifecycle,
}

/// Stops performance output. The statuses return to their idle values, the
/// output mode to reactive, and the lifecycle takes the stop event. The
/// result is whether a session was running: its workers are then cleaned up
/// by the caller and the clean exit recorded.
pub fn stop_performance(state: &mut PerformanceState, session_present: bool) -> (clean_exit: bool)
    ensures
        clean_exit == session_present,
        final(state).capture@ == idle_status(),
        final(state).renderer.state == RendererLifecycle::Stopped,
        final(state).renderer.adapter is None,
        final(state).renderer.backend is None,
        !final(state).renderer.software_fallback,
        final(state).renderer.message is None,
        final(state).output_mode == OutputMode::Reactive,
        final(state).lifecycle == spec_transition(old(state).lifecycle, LifecycleEvent::Stop),
{
    state.capture = CaptureStatus::default();
    state.renderer = RendererStatus::default();
    state.output_mode = OutputMode::Reactive;
    state.lifecycle = transition_lifecycle(state.lifecycle, LifecycleEvent::Stop);
    session_present
}

} // verus!
