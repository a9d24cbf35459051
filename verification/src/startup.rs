//! The performance start-up sequence as a state machine: each step's
//! outcome decides the next step, and a failure decides its message and
//! what must be cleaned up (nothing, the hidden window, or every worker).
//! The caller performs the steps and reports their outcomes.
use vstd::prelude::*;

use crate::text::{owned, push_str};

verus! {

/// Where start-up stands.
#[derive(Clone, Copy, Debug, PartialEq, Eq, Structural)]
pub enum StartupStage {
    EnumerateDisplays,
    CreateWindow,
    ConfigureWindow,
    PrepareSurface,
    SpawnAnalysis,
    SpawnAudio,
    SpawnRenderer,
    AwaitFirstFrame,
    Reveal,
    Running,
    Failed,
}

/// What the caller observed of the current step.
pub enum StartupEvent {
    /// The displays were listed; the count of connected displays.
    DisplaysListed(usize),
    /// The step finished.
    StepDone,
    /// The step failed with this error.
    StepFailed(String),
    /// The renderer presented its first frame; whether a stop was requested.
    FirstFrame(bool),
    /// The renderer reported a failure before its first frame.
    RendererFailed(String),
    /// No first frame arrived within the start-up timeout.
    FirstFrameTimedOut,
    /// The renderer worker exited before reporting.
    RendererDisconnected,
}

/// What must be undone after a failed step.
#[derive(Clone, Copy, Debug, PartialEq, Eq, Structural)]
pub enum Cleanup {
    Nothing,
    CloseWindow,
    RollBack,
}

/// A failed start-up: the error reported, its diagnostic code (empty when
/// the step logs none), and the cleanup owed.
pub struct StartupFailure {
    pub message: String,
    pub code: &'static str,
    pub cleanup: Cleanup,
}

/// The outcome of one event.
pub struct StartupStep {
    pub next: StartupStage,
    pub failure: Option<StartupFailure>,
}

/// Seconds the renderer has to present its first frame.
pub const RENDERER_START_TIMEOUT_SECS: u64 = 12;

/// What a failure at a stage must undo: nothing before the window exists,
/// the window alone before any worker runs, and everything afterwards.
pub open spec fn cleanup_for(stage: StartupStage) -> Cleanup {
    match stage {
        StartupStage::EnumerateDisplays | StartupStage::CreateWindow => Cleanup::Nothing,
        StartupStage::ConfigureWindow | StartupStage::PrepareSurface => Cleanup::CloseWindow,
        _ => Cleanup::RollBack,
    }
}

/// The stage after a completed one.
pub open spec fn successor(stage: StartupStage) -> StartupStage {
    match stage {
        StartupStage::EnumerateDisplays => StartupStage::CreateWindow,
        StartupStage::CreateWindow => StartupStage::ConfigureWindow,
        StartupStage::ConfigureWindow => StartupStage::PrepareSurface,
        StartupStage::PrepareSurface => StartupStage::SpawnAnalysis,
        StartupStage::SpawnAnalysis => StartupStage::SpawnAudio,
        StartupStage::SpawnAudio => StartupStage::SpawnRenderer,
        StartupStage::SpawnRenderer => StartupStage::AwaitFirstFrame,
        StartupStage::AwaitFirstFrame => StartupStage::Reveal,
        StartupStage::Reveal => StartupStage::Running,
        other => other,
    }
}

/// The message of a step that failed with `error`.
pub open spec fn step_failure_message(stage: StartupStage, error: Seq<char>) -> Seq<char> {
    match stage {
        StartupStage::EnumerateDisplays => "Unable to enumerate displays: "@ + error,
        StartupStage::CreateWindow => "Performance window creation failed: "@ + error,
        StartupStage::SpawnAnalysis => "Analysis worker failed to start: "@ + error,
        StartupStage::SpawnAudio => "Audio worker failed to start: "@ + error,
        StartupStage::SpawnRenderer => "Renderer worker failed to start: "@ + error,
        StartupStage::AwaitFirstFrame => "Performance renderer failed: "@ + error,
        _ => error,
    }
}

/// The diagnostic code logged for a step that failed.
pub open spec fn step_failure_code(stage: StartupStage) -> Seq<char> {
    match stage {
        StartupStage::EnumerateDisplays => "DISPLAY_ENUMERATION_FAILED"@,
        StartupStage::CreateWindow => "DISPLAY_WINDOW_CREATE_FAILED"@,
        StartupStage::ConfigureWindow => "DISPLAY_WINDOW_CONFIGURE_FAILED"@,
        StartupStage::Reveal => "FULLSCREEN_REVEAL_FAILED"@,
        _ => ""@,
    }
}

/// Whether `event` is one the stage waits for.
pub open spec fn expected(stage: StartupStage, event: StartupEvent) -> bool {
    match stage {
        StartupStage::EnumerateDisplays => event is DisplaysListed || event is StepFailed,
        StartupStage::AwaitFirstFrame => event is FirstFrame || event is RendererFailed
            || event is FirstFrameTimedOut || event is RendererDisconnected,
        StartupStage::Running | StartupStage::Failed => false,
        _ => event is StepDone || event is StepFailed,
    }
}

/// Where an event leads: the next stage when the step succeeded, `Failed`
/// when it failed, and nowhere for an event the stage does not wait for.
pub open spec fn spec_next(stage: StartupStage, event: StartupEvent) -> StartupStage {
    if !expected(stage, event) {
        stage
    } else {
        match event {
            StartupEvent::DisplaysListed(count) => if count == 0 {
                StartupStage::Failed
            } else {
                successor(stage)
            },
            StartupEvent::StepDone => successor(stage),
            StartupEvent::FirstFrame(stop_requested) => if stop_requested {
                StartupStage::Failed
            } else {
                successor(stage)
            },
            _ => StartupStage::Failed,
        }
    }
}

/// The message of the failure an event causes, if it causes one.
pub open spec fn spec_failure_message(stage: StartupStage, event: StartupEvent) -> Option<
    Seq<char>,
> {
    if !expected(stage, event) {
        None
    } else {
        match event {
            StartupEvent::DisplaysListed(count) => if count == 0 {
                Some("No connected displays were found"@)
            } else {
                None
            },
            StartupEvent::StepDone => None,
            StartupEvent::StepFailed(error) => Some(step_failure_message(stage, error@)),
            StartupEvent::FirstFrame(stop_requested) => if stop_requested {
                Some("Renderer stopped during startup"@)
            } else {
                None
            },
            StartupEvent::RendererFailed(error) => Some(step_failure_message(stage, error@)),
            StartupEvent::FirstFrameTimedOut => Some(
                "Performance renderer did not produce a frame within 12 seconds"@,
            ),
            StartupEvent::RendererDisconnected => Some(
                "Renderer worker exited before startup completed"@,
            ),
        }
    }
}

/// The code logged with the failure an event causes.
pub open spec fn spec_failure_code(stage: StartupStage, event: StartupEvent) -> Seq<char> {
    match event {
        StartupEvent::DisplaysListed(_) => "NO_DISPLAYS_FOUND"@,
        StartupEvent::StepFailed(_) => step_failure_code(stage),
        _ => ""@,
    }
}

fn prefixed(prefix: &str, error: &str) -> (r: String)
    ensures
        r@ == prefix@ + error@,
{
    let mut message = owned(prefix);
    push_str(&mut message, error);
    message
}

fn failure_message(stage: StartupStage, error: &str) -> (r: String)
    ensures
        r@ == step_failure_message(stage, error@),
{
    match stage {
        StartupStage::EnumerateDisplays => prefixed("Unable to enumerate displays: ", error),
        StartupStage::CreateWindow => prefixed("Performance window creation failed: ", error),
        StartupStage::SpawnAnalysis => prefixed("Analysis worker failed to start: ", error),
        StartupStage::SpawnAudio => prefixed("Audio worker failed to start: ", error),
        StartupStage::SpawnRenderer => prefixed("Renderer worker failed to start: ", error),
        StartupStage::AwaitFirstFrame => prefixed("Performance renderer failed: ", error),
        _ => owned(error),
    }
}

fn failure_code(stage: StartupStage) -> (r: &'static str)
    ensures
        r@ == step_failure_code(stage),
{
    match stage {
        StartupStage::EnumerateDisplays => "DISPLAY_ENUMERATION_FAILED",
        StartupStage::CreateWindow => "DISPLAY_WINDOW_CREATE_FAILED",
        StartupStage::ConfigureWindow => "DISPLAY_WINDOW_CONFIGURE_FAILED",
        StartupStage::Reveal => "FULLSCREEN_REVEAL_FAILED",
        _ => "",
    }
}

fn cleanup(stage: StartupStage) -> (r: Cleanup)
    ensures
        r == cleanup_for(stage),
{
    match stage {
        StartupStage::EnumerateDisplays | StartupStage::CreateWindow => Cleanup::Nothing,
        StartupStage::ConfigureWindow | StartupStage::PrepareSurface => Cleanup::CloseWindow,
        _ => Cleanup::RollBack,
    }
}

fn next_stage(stage: StartupStage) -> (r: StartupStage)
    ensures
        r == successor(stage),
{
    match stage {
        StartupStage::EnumerateDisplays => StartupStage::CreateWindow,
        StartupStage::CreateWindow => StartupStage::ConfigureWindow,
        StartupStage::ConfigureWindow => StartupStage::PrepareSurface,
        StartupStage::PrepareSurface => StartupStage::SpawnAnalysis,
        StartupStage::SpawnAnalysis => StartupStage::SpawnAudio,
        StartupStage::SpawnAudio => StartupStage::SpawnRenderer,
        StartupStage::SpawnRenderer => StartupStage::AwaitFirstFrame,
        StartupStage::AwaitFirstFrame => StartupStage::Reveal,
        StartupStage::Reveal => StartupStage::Running,
        other => other,
    }
}

fn is_expected(stage: StartupStage, event: &StartupEvent) -> (r: bool)
    ensures
        r == expected(stage, *event),
{
    match stage {
        StartupStage::EnumerateDisplays => match event {
            StartupEvent::DisplaysListed(_) | StartupEvent::StepFailed(_) => true,
            _ => false,
        },
        StartupStage::AwaitFirstFrame => match event {
            StartupEvent::FirstFrame(_) | StartupEvent::RendererFailed(_)
            | StartupEvent::FirstFrameTimedOut | StartupEvent::RendererDisconnected => true,
            _ => false,
        },
        StartupStage::Running | StartupStage::Failed => false,
        _ => match event {
            StartupEvent::StepDone | StartupEvent::StepFailed(_) => true,
            _ => false,
        },
    }
}

fn fail(stage: StartupStage, message: String, code: &'static str) -> (r: StartupStep)
    ensures
        r.next == StartupStage::Failed,
        r.failure matches Some(f) && f.message == message && f.code == code && f.cleanup
            == cleanup_for(stage),
{
    StartupStep {
        next: StartupStage::Failed,
        failure: Some(StartupFailure { message, code, cleanup: cleanup(stage) }),
    }
}

/// Decides what follows `event` at `stage`.
pub fn advance_startup(stage: StartupStage, event: &StartupEvent) -> (r: StartupStep)
    ensures
        r.next == spec_next(stage, *event),
        match spec_failure_message(stage, *event) {
            Some(m) => r.failure matches Some(f) && f.message@ == m && f.code@ == spec_failure_code(
                stage,
                *event,
            ) && f.cleanup == cleanup_for(stage),
            None => r.failure is None,
        },
{
    if !is_expected(stage, event) {
        return StartupStep { next: stage, failure: None };
    }
    match event {
        StartupEvent::DisplaysListed(count) => {
            if *count == 0 {
                fail(stage, owned("No connected displays were found"), "NO_DISPLAYS_FOUND")
            } else {
                StartupStep { next: next_stage(stage), failure: None }
            }
        },
        StartupEvent::StepDone => StartupStep { next: next_stage(stage), failure: None },
        StartupEvent::StepFailed(error) => {
            fail(stage, failure_message(stage, error.as_str()), failure_code(stage))
        },
        StartupEvent::FirstFrame(stop_requested) => {
            if *stop_requested {
                fail(stage, owned("Renderer stopped during startup"), "")
            } else {
                StartupStep { next: next_stage(stage), failure: None }
            }
        },
        StartupEvent::RendererFailed(error) => {
            fail(stage, failure_message(stage, error.as_str()), "")
        },
        StartupEvent::FirstFrameTimedOut => {
            fail(stage, owned("Performance renderer did not produce a frame within 12 seconds"), "")
        },
        StartupEvent::RendererDisconnected => {
            fail(stage, owned("Renderer worker exited before startup completed"), "")
        },
    }
}

/// Output runs only once every step succeeded in order: `Running` follows
/// only a completed reveal.
pub proof fn law_running_follows_only_a_completed_reveal(stage: StartupStage, event: StartupEvent)
    requires
        spec_next(stage, event) == StartupStage::Running,
        stage != StartupStage::Running,
    ensures
        stage == StartupStage::Reveal,
        event is StepDone,
{
}

/// A failure undoes exactly what its stage had built: nothing before the
/// window, the window before any worker, and every worker afterwards.
pub proof fn law_failures_clean_up_what_exists(stage: StartupStage, event: StartupEvent)
    requires
        spec_failure_message(stage, event) is Some,
    ensures
        spec_next(stage, event) == StartupStage::Failed,
        stage == StartupStage::EnumerateDisplays || stage == StartupStage::CreateWindow
            ==> cleanup_for(stage) == Cleanup::Nothing,
        stage == StartupStage::ConfigureWindow || stage == StartupStage::PrepareSurface
            ==> cleanup_for(stage) == Cleanup::CloseWindow,
        stage != StartupStage::EnumerateDisplays && stage != StartupStage::CreateWindow && stage
            != StartupStage::ConfigureWindow && stage != StartupStage::PrepareSurface
            ==> cleanup_for(stage) == Cleanup::RollBack,
{
}

/// Finished start-ups stay finished: no event moves `Running` or `Failed`.
pub proof fn law_finished_startups_stay_finished(stage: StartupStage, event: StartupEvent)
    requires
        stage == StartupStage::Running || stage == StartupStage::Failed,
    ensures
        spec_next(stage, event) == stage,
        spec_failure_message(stage, event) is None,
{
}

/// The order of the start-up stages.
pub open spec fn stage_rank(stage: StartupStage) -> int {
    match stage {
        StartupStage::EnumerateDisplays => 0,
        StartupStage::CreateWindow => 1,
        StartupStage::ConfigureWindow => 2,
        StartupStage::PrepareSurface => 3,
        StartupStage::SpawnAnalysis => 4,
        StartupStage::SpawnAudio => 5,
        StartupStage::SpawnRenderer => 6,
        StartupStage::AwaitFirstFrame => 7,
        StartupStage::Reveal => 8,
        StartupStage::Running => 9,
        StartupStage::Failed => -1,
    }
}

/// Start-up walks its stages in order: a step that succeeds (displays
/// found, the first frame presented without a stop, or the step done)
/// moves exactly one stage on, and every stage but the last two has one;
/// a step that fails, and at the first-frame wait a stop, a renderer
/// failure, a timeout or a lost worker, fails the start-up with a message.
pub proof fn law_startup_walks_its_stages(stage: StartupStage, count: usize, error: String)
    requires
        stage != StartupStage::Running,
        stage != StartupStage::Failed,
    ensures
        stage == StartupStage::EnumerateDisplays ==> stage_rank(
            spec_next(stage, StartupEvent::DisplaysListed(count)),
        ) == (if count > 0 {
            stage_rank(stage) + 1
        } else {
            -1
        }),
        stage == StartupStage::AwaitFirstFrame ==> stage_rank(
            spec_next(stage, StartupEvent::FirstFrame(false)),
        ) == stage_rank(stage) + 1,
        stage != StartupStage::EnumerateDisplays && stage != StartupStage::AwaitFirstFrame
            ==> stage_rank(spec_next(stage, StartupEvent::StepDone)) == stage_rank(stage) + 1,
        stage != StartupStage::AwaitFirstFrame ==> spec_next(stage, StartupEvent::StepFailed(error))
            == StartupStage::Failed && spec_failure_message(stage, StartupEvent::StepFailed(error))
            is Some,
        stage == StartupStage::AwaitFirstFrame ==> {
            &&& spec_next(stage, StartupEvent::FirstFrame(true)) == StartupStage::Failed
            &&& spec_next(stage, StartupEvent::RendererFailed(error)) == StartupStage::Failed
            &&& spec_next(stage, StartupEvent::FirstFrameTimedOut) == StartupStage::Failed
            &&& spec_next(stage, StartupEvent::RendererDisconnected) == StartupStage::Failed
            &&& spec_failure_message(stage, StartupEvent::FirstFrameTimedOut) is Some
            &&& spec_failure_message(stage, StartupEvent::RendererDisconnected) is Some
        },
{
}

} // verus!
