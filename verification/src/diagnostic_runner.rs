//! The decisions of the bounded connection diagnostic: which probes a mode
//! runs, how failures map to stable codes, how the verdict evolves as stages
//! report, and the summary the controller shows.
use vstd::prelude::*;

use std::sync::atomic::{AtomicBool, Ordering};
use std::sync::Arc;

use crate::diagnostics::{DiagnosticMode, DiagnosticStageStatus, DiagnosticVerdict};
use crate::capture::CaptureStatus;
use crate::sources::{AudioSourceKind, CaptureState};
use crate::text::{owned, push_str, spec_contains, str_contains};

verus! {

/// Serialises diagnostics and exposes the cancellation flag of the one that
/// is running.
pub struct DiagnosticCoordinator {
    active_cancel: Option<Arc<AtomicBool>>,
}

impl DiagnosticCoordinator {
    pub closed spec fn spec_active(&self) -> bool {
        self.active_cancel is Some
    }

    /// The cancellation flag of the running diagnostic, if any.
    pub closed spec fn active_flag(&self) -> Option<Arc<AtomicBool>> {
        self.active_cancel
    }

    /// A coordinator with no diagnostic running.
    pub fn new() -> (r: Self)
        ensures
            !r.spec_active(),
            r.active_flag() is None,
    {
        DiagnosticCoordinator { active_cancel: None }
    }

    /// Whether a diagnostic is running.
    pub fn is_active(&self) -> (r: bool)
        ensures
            r == self.spec_active(),
    {
        self.active_cancel.is_some()
    }

    /// The cancellation request for the running diagnostic: the flag the
    /// caller sets to cancel it, or `None` when none is running.
    pub fn cancel(&self) -> (r: Option<&Arc<AtomicBool>>)
        ensures
            r is Some <==> self.spec_active(),
            r matches Some(flag) ==> self.active_flag() == Some(*flag),
    {
        match &self.active_cancel {
            Some(cancel) => Some(cancel),
            None => None,
        }
    }

    /// Registers a diagnostic whose cancellation flag is `cancel`. Runs are
    /// serialised: while another is running nothing changes and `false`
    /// tells the caller to wait for it.
    pub fn begin(&mut self, cancel: Arc<AtomicBool>) -> (started: bool)
        ensures
            started == !old(self).spec_active(),
            final(self).spec_active(),
            started ==> final(self).active_flag() == Some(cancel),
            !started ==> final(self).active_flag() == old(self).active_flag(),
    {
        if self.active_cancel.is_some() {
            return false;
        }
        self.active_cancel = Some(cancel);
        true
    }

    /// Forgets the finished diagnostic.
    pub fn finish(&mut self)
        ensures
            !final(self).spec_active(),
            final(self).active_flag() is None,
    {
        self.active_cancel = None;
    }
}

impl Default for DiagnosticCoordinator {
    fn default() -> (r: Self)
        ensures
            !r.spec_active(),
    {
        DiagnosticCoordinator { active_cancel: None }
    }
}

/// The audio probe runs in audio-only and full-startup modes.
pub fn runs_audio_probe(mode: DiagnosticMode) -> (r: bool)
    ensures
        r == (mode == DiagnosticMode::AudioOnly || mode == DiagnosticMode::FullStartup),
{
    match mode {
        DiagnosticMode::AudioOnly | DiagnosticMode::FullStartup => true,
        _ => false,
    }
}

/// The headless GPU probe runs in every mode except audio-only.
pub fn runs_renderer_probe(mode: DiagnosticMode) -> (r: bool)
    ensures
        r == (mode != DiagnosticMode::AudioOnly),
{
    match mode {
        DiagnosticMode::AudioOnly => false,
        _ => true,
    }
}

/// The hidden-surface probe runs only in full-startup mode.
pub fn runs_surface_probe(mode: DiagnosticMode) -> (r: bool)
    ensures
        r == (mode == DiagnosticMode::FullStartup),
{
    match mode {
        DiagnosticMode::FullStartup => true,
        _ => false,
    }
}

/// The probes of a connection diagnostic, in the order they run.
#[derive(Clone, Copy, Debug, PartialEq, Eq, Structural)]
pub enum DiagnosticProbe {
    Audio,
    Renderer,
    HiddenSurface,
}

/// A probe's place in the run order.
pub open spec fn probe_order(probe: DiagnosticProbe) -> int {
    match probe {
        DiagnosticProbe::Audio => 0,
        DiagnosticProbe::Renderer => 1,
        DiagnosticProbe::HiddenSurface => 2,
    }
}

/// The probe that follows `previous` (`None` before the first) in `mode`:
/// the audio probe opens the run where the mode has it, and the GPU probes
/// that follow are skipped once the diagnostic is cancelled.
pub open spec fn spec_next_probe(
    mode: DiagnosticMode,
    previous: Option<DiagnosticProbe>,
    cancelled: bool,
) -> Option<DiagnosticProbe> {
    let renderer = !cancelled && mode != DiagnosticMode::AudioOnly;
    let surface = !cancelled && mode == DiagnosticMode::FullStartup;
    match previous {
        None => if mode == DiagnosticMode::AudioOnly || mode == DiagnosticMode::FullStartup {
            Some(DiagnosticProbe::Audio)
        } else if renderer {
            Some(DiagnosticProbe::Renderer)
        } else {
            None
        },
        Some(DiagnosticProbe::Audio) => if renderer {
            Some(DiagnosticProbe::Renderer)
        } else if surface {
            Some(DiagnosticProbe::HiddenSurface)
        } else {
            None
        },
        Some(DiagnosticProbe::Renderer) => if surface {
            Some(DiagnosticProbe::HiddenSurface)
        } else {
            None
        },
        Some(DiagnosticProbe::HiddenSurface) => None,
    }
}

/// The probe to run after `previous` (`None` at the start), or `None` when
/// the diagnostic has nothing left to run.
pub fn next_probe(mode: DiagnosticMode, previous: Option<DiagnosticProbe>, cancelled: bool) -> (r:
    Option<DiagnosticProbe>)
    ensures
        r == spec_next_probe(mode, previous, cancelled),
{
    let renderer = !cancelled && runs_renderer_probe(mode);
    let surface = !cancelled && runs_surface_probe(mode);
    match previous {
        None => {
            if runs_audio_probe(mode) {
                Some(DiagnosticProbe::Audio)
            } else if renderer {
                Some(DiagnosticProbe::Renderer)
            } else {
                None
            }
        },
        Some(DiagnosticProbe::Audio) => {
            if renderer {
                Some(DiagnosticProbe::Renderer)
            } else if surface {
                Some(DiagnosticProbe::HiddenSurface)
            } else {
                None
            }
        },
        Some(DiagnosticProbe::Renderer) => {
            if surface {
                Some(DiagnosticProbe::HiddenSurface)
            } else {
                None
            }
        },
        Some(DiagnosticProbe::HiddenSurface) => None,
    }
}

/// Probes run in a fixed order, each at most once: the probe that follows
/// another always comes later in that order, and a probe is only chosen in
/// a mode that runs it.
pub proof fn law_probes_run_once_in_order(
    mode: DiagnosticMode,
    previous: Option<DiagnosticProbe>,
    cancelled: bool,
)
    ensures
        spec_next_probe(mode, previous, cancelled) matches Some(next) ==> (match previous {
            Some(p) => probe_order(p) < probe_order(next),
            None => true,
        }),
        spec_next_probe(mode, previous, cancelled) == Some(DiagnosticProbe::Audio) ==> (mode
            == DiagnosticMode::AudioOnly || mode == DiagnosticMode::FullStartup),
        spec_next_probe(mode, previous, cancelled) == Some(DiagnosticProbe::Renderer) ==> mode
            != DiagnosticMode::AudioOnly && !cancelled,
        spec_next_probe(mode, previous, cancelled) == Some(DiagnosticProbe::HiddenSurface) ==> mode
            == DiagnosticMode::FullStartup && !cancelled,
{
}

/// Whether a run in `mode` performs `probe`: the audio probe in audio-only
/// and full-startup modes, the headless GPU probe in every other mode and in
/// full startup, the hidden surface only in full startup; the GPU probes are
/// skipped once the diagnostic is cancelled.
pub open spec fn performs(mode: DiagnosticMode, probe: DiagnosticProbe, cancelled: bool) -> bool {
    match probe {
        DiagnosticProbe::Audio => mode == DiagnosticMode::AudioOnly || mode
            == DiagnosticMode::FullStartup,
        DiagnosticProbe::Renderer => !cancelled && mode != DiagnosticMode::AudioOnly,
        DiagnosticProbe::HiddenSurface => !cancelled && mode == DiagnosticMode::FullStartup,
    }
}

/// Whether `probe` comes after `previous` in the run order (every probe
/// comes after the start).
pub open spec fn comes_after(previous: Option<DiagnosticProbe>, probe: DiagnosticProbe) -> bool {
    match previous {
        None => true,
        Some(p) => probe_order(p) < probe_order(probe),
    }
}

/// No probe is skipped: the probe chosen after `previous` is the first
/// later probe in the run order that the mode performs, and when none is
/// left the run ends. So renderer-only and safe-renderer runs start with the
/// headless GPU probe, audio-only runs stop after audio, and a full startup
/// runs all three unless cancelled.
pub proof fn law_no_probe_is_skipped(
    mode: DiagnosticMode,
    previous: Option<DiagnosticProbe>,
    cancelled: bool,
    probe: DiagnosticProbe,
)
    ensures
        comes_after(previous, probe) && performs(mode, probe, cancelled) ==> (spec_next_probe(
            mode,
            previous,
            cancelled,
        ) matches Some(next) && comes_after(previous, next) && performs(mode, next, cancelled)
            && probe_order(next) <= probe_order(probe)),
        spec_next_probe(mode, previous, cancelled) is None ==> !(comes_after(previous, probe)
            && performs(mode, probe, cancelled)),
        mode != DiagnosticMode::AudioOnly && mode != DiagnosticMode::FullStartup ==> spec_next_probe(
            mode,
            None,
            false,
        ) == Some(DiagnosticProbe::Renderer),
{
}

/// Every probe chosen is one the mode performs, later than the one before.
pub proof fn law_chosen_probes_are_performed(
    mode: DiagnosticMode,
    previous: Option<DiagnosticProbe>,
    cancelled: bool,
)
    ensures
        spec_next_probe(mode, previous, cancelled) matches Some(next) ==> comes_after(previous, next)
            && performs(mode, next, cancelled),
{
}

/// The stable renderer failure codes, in matching order.
pub open spec fn renderer_codes() -> Seq<Seq<char>> {
    seq![
        "GPU_ADAPTER_NOT_FOUND"@,
        "GPU_DEVICE_CREATE_FAILED"@,
        "GPU_SHADER_VALIDATION_FAILED"@,
        "GPU_PIPELINE_CREATE_FAILED"@,
        "GPU_DEVICE_LOST"@,
    ]
}

/// The stable audio failure codes, in matching order.
pub open spec fn audio_codes() -> Seq<Seq<char>> {
    seq![
        "WINDOWS_BUILD_UNSUPPORTED"@,
        "REKORDBOX_PROCESS_NOT_FOUND"@,
        "REKORDBOX_AUDIO_SESSION_NOT_FOUND"@,
        "REKORDBOX_AUDIO_SESSION_CHANGED"@,
        "REKORDBOX_SESSION_CAPTURE_FAILED"@,
        "REKORDBOX_ONLY_CAPTURE_FAILED"@,
        "PROCESS_LOOPBACK_ACTIVATION_FAILED"@,
        "OUTPUT_LOOPBACK_ACTIVATION_FAILED"@,
        "UNSUPPORTED_AUDIO_FORMAT"@,
        "CORE_AUDIO_PROCESS_TAP_CREATE_FAILED"@,
        "CORE_AUDIO_UNSUPPORTED_FORMAT"@,
    ]
}

/// The first of `codes` mentioned in `message`, or `fallback`.
pub open spec fn first_mentioned(codes: Seq<Seq<char>>, message: Seq<char>, fallback: Seq<char>) -> Seq<
    char,
>
    decreases codes.len(),
{
    if codes.len() == 0 {
        fallback
    } else if spec_contains(message, codes[0]) {
        codes[0]
    } else {
        first_mentioned(codes.drop_first(), message, fallback)
    }
}

fn renderer_code_list() -> (r: Vec<&'static str>)
    ensures
        r@.map_values(|s: &str| s@) == renderer_codes(),
{
    let v = vec![
        "GPU_ADAPTER_NOT_FOUND",
        "GPU_DEVICE_CREATE_FAILED",
        "GPU_SHADER_VALIDATION_FAILED",
        "GPU_PIPELINE_CREATE_FAILED",
        "GPU_DEVICE_LOST",
    ];
    assert(v@.map_values(|s: &str| s@) =~= renderer_codes());
    v
}

fn audio_code_list() -> (r: Vec<&'static str>)
    ensures
        r@.map_values(|s: &str| s@) == audio_codes(),
{
    let v = vec![
        "WINDOWS_BUILD_UNSUPPORTED",
        "REKORDBOX_PROCESS_NOT_FOUND",
        "REKORDBOX_AUDIO_SESSION_NOT_FOUND",
        "REKORDBOX_AUDIO_SESSION_CHANGED",
        "REKORDBOX_SESSION_CAPTURE_FAILED",
        "REKORDBOX_ONLY_CAPTURE_FAILED",
        "PROCESS_LOOPBACK_ACTIVATION_FAILED",
        "OUTPUT_LOOPBACK_ACTIVATION_FAILED",
        "UNSUPPORTED_AUDIO_FORMAT",
        "CORE_AUDIO_PROCESS_TAP_CREATE_FAILED",
        "CORE_AUDIO_UNSUPPORTED_FORMAT",
    ];
    assert(v@.map_values(|s: &str| s@) =~= audio_codes());
    v
}

fn first_mentioned_exec(codes: &Vec<&'static str>, message: &str, fallback: &'static str) -> (r:
    &'static str)
    ensures
        r@ == first_mentioned(codes@.map_values(|s: &str| s@), message@, fallback@),
{
    let ghost all = codes@.map_values(|s: &str| s@);
    let mut i: usize = 0;
    assert(all.skip(0) =~= all);
    while i < codes.len()
        invariant
            i <= codes.len(),
            all == codes@.map_values(|s: &str| s@),
            first_mentioned(all, message@, fallback@) == first_mentioned(
                all.skip(i as int),
                message@,
                fallback@,
            ),
        decreases codes.len() - i,
    {
        assert(all.skip(i as int).drop_first() =~= all.skip(i + 1));
        assert(all.skip(i as int)[0] == codes@[i as int]@);
        if str_contains(message, codes[i]) {
            return codes[i];
        }
        i = i + 1;
    }
    assert(all.skip(i as int) =~= Seq::<Seq<char>>::empty());
    fallback
}

/// The stable renderer failure code an error message carries, or
/// "GPU_DIAGNOSTIC_FAILED".
pub fn map_renderer_failure(error: &str) -> (r: &'static str)
    ensures
        r@ == first_mentioned(renderer_codes(), error@, "GPU_DIAGNOSTIC_FAILED"@),
{
    let codes = renderer_code_list();
    first_mentioned_exec(&codes, error, "GPU_DIAGNOSTIC_FAILED")
}

/// The message an audio failure reports when the worker left none.
pub open spec fn audio_failure_message(message: Option<&str>) -> Seq<char> {
    match message {
        Some(m) => m@,
        None => "Audio capture did not initialize before the timeout."@,
    }
}

/// The stable code and message of an audio failure: the first stable code
/// the worker's message mentions, else `fallback`.
pub fn map_audio_failure(message: Option<&str>, fallback: &str) -> (r: (String, String))
    ensures
        r.1@ == audio_failure_message(message),
        r.0@ == first_mentioned(audio_codes(), audio_failure_message(message), fallback@),
{
    let text = match message {
        Some(m) => owned(m),
        None => owned("Audio capture did not initialize before the timeout."),
    };
    let codes = audio_code_list();
    let ghost all = codes@.map_values(|s: &str| s@);
    let mut i: usize = 0;
    assert(all.skip(0) =~= all);
    while i < codes.len()
        invariant
            i <= codes.len(),
            all == codes@.map_values(|s: &str| s@),
            all == audio_codes(),
            text@ == audio_failure_message(message),
            first_mentioned(all, text@, fallback@) == first_mentioned(
                all.skip(i as int),
                text@,
                fallback@,
            ),
        decreases codes.len() - i,
    {
        assert(all.skip(i as int).drop_first() =~= all.skip(i + 1));
        assert(all.skip(i as int)[0] == codes@[i as int]@);
        if str_contains(text.as_str(), codes[i]) {
            return (owned(codes[i]), text);
        }
        i = i + 1;
    }
    assert(all.skip(i as int) =~= Seq::<Seq<char>>::empty());
    (owned(fallback), text)
}

/// A renderer failure message always maps to a stable code: one it
/// mentions, or the generic renderer failure.
pub proof fn law_renderer_codes_are_stable(error: Seq<char>)
    ensures
        renderer_codes().contains(first_mentioned(renderer_codes(), error, "GPU_DIAGNOSTIC_FAILED"@))
            || first_mentioned(renderer_codes(), error, "GPU_DIAGNOSTIC_FAILED"@)
            == "GPU_DIAGNOSTIC_FAILED"@,
        first_mentioned(renderer_codes(), error, "GPU_DIAGNOSTIC_FAILED"@)
            != "GPU_DIAGNOSTIC_FAILED"@ ==> spec_contains(
            error,
            first_mentioned(renderer_codes(), error, "GPU_DIAGNOSTIC_FAILED"@),
        ),
{
    lemma_first_mentioned(renderer_codes(), error, "GPU_DIAGNOSTIC_FAILED"@);
}

/// A failure is named by the earliest stable code, in list order, that its
/// message mentions; only a message that mentions none gets the fallback.
pub proof fn law_the_earliest_mentioned_code_names_a_failure(
    codes: Seq<Seq<char>>,
    message: Seq<char>,
    fallback: Seq<char>,
    i: int,
)
    ensures
        0 <= i < codes.len() && spec_contains(message, codes[i]) && (forall|j: int|
            0 <= j < i ==> !spec_contains(message, #[trigger] codes[j])) ==> first_mentioned(
            codes,
            message,
            fallback,
        ) == codes[i],
        (forall|j: int| 0 <= j < codes.len() ==> !spec_contains(message, #[trigger] codes[j]))
            ==> first_mentioned(codes, message, fallback) == fallback,
    decreases codes.len(),
{
    if codes.len() > 0 {
        let rest = codes.drop_first();
        law_the_earliest_mentioned_code_names_a_failure(rest, message, fallback, i - 1);
        if (forall|j: int| 0 <= j < codes.len() ==> !spec_contains(message, #[trigger] codes[j])) {
            assert(!spec_contains(message, codes[0]));
            assert forall|j: int| 0 <= j < rest.len() implies !spec_contains(
                message,
                #[trigger] rest[j],
            ) by {
                assert(rest[j] == codes[j + 1]);
            }
        }
        if 0 < i < codes.len() && spec_contains(message, codes[i]) && (forall|j: int|
            0 <= j < i ==> !spec_contains(message, #[trigger] codes[j])) {
            assert(!spec_contains(message, codes[0]));
            assert(rest[i - 1] == codes[i]);
            assert forall|j: int| 0 <= j < i - 1 implies !spec_contains(message, #[trigger] rest[j]) by {
                assert(rest[j] == codes[j + 1]);
            }
        }
    }
}

proof fn lemma_first_mentioned(codes: Seq<Seq<char>>, message: Seq<char>, fallback: Seq<char>)
    ensures
        codes.contains(first_mentioned(codes, message, fallback)) || first_mentioned(
            codes,
            message,
            fallback,
        ) == fallback,
        first_mentioned(codes, message, fallback) != fallback ==> spec_contains(
            message,
            first_mentioned(codes, message, fallback),
        ),
    decreases codes.len(),
{
    if codes.len() > 0 {
        lemma_first_mentioned(codes.drop_first(), message, fallback);
        if !spec_contains(message, codes[0]) {
            let r = first_mentioned(codes.drop_first(), message, fallback);
            if codes.drop_first().contains(r) {
                let k = choose|k: int| 0 <= k < codes.drop_first().len() && codes.drop_first()[k] == r;
                assert(codes[k + 1] == r);
            }
        } else {
            assert(codes[0] == codes[0]);
            assert(codes.contains(codes[0]));
        }
    }
}

/// The verdict and failure attribution of a running diagnostic.
#[derive(Clone, Debug)]
pub struct ReportOutcome {
    pub verdict: DiagnosticVerdict,
    pub failure_stage: Option<String>,
    pub failure_code: Option<String>,
    pub summary: String,
}

impl ReportOutcome {
    /// A diagnostic that has not failed yet.
    pub fn passing() -> (r: Self)
        ensures
            r.verdict == DiagnosticVerdict::Pass,
            r.failure_stage is None,
            r.failure_code is None,
            r.summary@.len() == 0,
    {
        ReportOutcome {
            verdict: DiagnosticVerdict::Pass,
            failure_stage: None,
            failure_code: None,
            summary: String::new(),
        }
    }
}

/// Records a failed stage: the verdict becomes Fail unless the diagnostic
/// was cancelled, and only the first failure is attributed.
pub fn mark_failure(outcome: &mut ReportOutcome, stage: &str, code: &str)
    ensures
        old(outcome).verdict == DiagnosticVerdict::Cancelled ==> final(outcome).verdict
            == DiagnosticVerdict::Cancelled,
        old(outcome).verdict != DiagnosticVerdict::Cancelled ==> final(outcome).verdict
            == DiagnosticVerdict::Fail,
        old(outcome).failure_code is Some ==> final(outcome).failure_code == old(outcome).failure_code && final(outcome).failure_stage == old(outcome).failure_stage,
        old(outcome).failure_code is None ==> final(outcome).failure_code is Some && final(outcome).failure_code->0@ == code@ && final(outcome).failure_stage is Some && final(outcome).failure_stage->0@ == stage@,
        final(outcome).summary == old(outcome).summary,
{
    if outcome.verdict != DiagnosticVerdict::Cancelled {
        outcome.verdict = DiagnosticVerdict::Fail;
    }
    if outcome.failure_code.is_none() {
        outcome.failure_stage = Some(owned(stage));
        outcome.failure_code = Some(owned(code));
    }
}

/// Records that non-silent samples never arrived: the diagnostic is
/// degraded unless a failure was already attributed.
pub fn mark_not_reactive(outcome: &mut ReportOutcome)
    ensures
        old(outcome).failure_code is Some ==> final(outcome).verdict == old(outcome).verdict
            && final(outcome).failure_code == old(outcome).failure_code && final(outcome).failure_stage == old(outcome).failure_stage,
        old(outcome).failure_code is None ==> final(outcome).verdict == DiagnosticVerdict::Degraded
            && final(outcome).failure_stage is Some && final(outcome).failure_stage->0@
            == "audio.nonSilentSamples"@ && final(outcome).failure_code is Some && final(outcome).failure_code->0@ == "NO_NON_SILENT_SAMPLES"@,
        final(outcome).summary == old(outcome).summary,
{
    if outcome.failure_code.is_none() {
        outcome.verdict = DiagnosticVerdict::Degraded;
        outcome.failure_stage = Some(owned("audio.nonSilentSamples"));
        outcome.failure_code = Some(owned("NO_NON_SILENT_SAMPLES"));
    }
}

/// Records a cancellation: the verdict becomes Cancelled with its summary,
/// and the cancellation code is attributed unless a failure already was.
pub fn mark_cancelled(outcome: &mut ReportOutcome)
    ensures
        final(outcome).verdict == DiagnosticVerdict::Cancelled,
        final(outcome).summary@
            == "The connection diagnostic was cancelled and its workers were stopped."@,
        old(outcome).failure_code is Some ==> final(outcome).failure_code == old(outcome).failure_code,
        old(outcome).failure_code is None ==> final(outcome).failure_code is Some && final(outcome).failure_code->0@ == "DIAGNOSTIC_CANCELLED"@,
        final(outcome).failure_stage == old(outcome).failure_stage,
{
    outcome.verdict = DiagnosticVerdict::Cancelled;
    outcome.summary = owned("The connection diagnostic was cancelled and its workers were stopped.");
    if outcome.failure_code.is_none() {
        outcome.failure_code = Some(owned("DIAGNOSTIC_CANCELLED"));
    }
}

/// The summary shown for a finished diagnostic.
pub open spec fn spec_summary(
    mode: DiagnosticMode,
    verdict: DiagnosticVerdict,
    failure_stage: Option<Seq<char>>,
    failure_code: Option<Seq<char>>,
) -> Seq<char> {
    match verdict {
        DiagnosticVerdict::Pass => match mode {
            DiagnosticMode::AudioOnly =>
                "Audio capture initialized and non-silent samples reached analysis."@,
            DiagnosticMode::RendererOnly | DiagnosticMode::SafeRenderer =>
                "The GPU adapter, device, shader, and pipeline validated without entering fullscreen."@,
            DiagnosticMode::FullStartup =>
                "Audio sample flow and headless GPU pipeline validation both passed."@,
        },
        DiagnosticVerdict::Degraded =>
            "The diagnostic completed with a usable route, but audio is not yet reactive. Review the staged result."@,
        DiagnosticVerdict::Fail => "The diagnostic stopped at "@ + match failure_stage {
            Some(s) => s,
            None => "unknown stage"@,
        } + " ("@ + match failure_code {
            Some(c) => c,
            None => "UNKNOWN_FAILURE"@,
        } + ")."@,
        DiagnosticVerdict::Cancelled => "The diagnostic was cancelled and cleaned up."@,
    }
}

fn text_or(text: &Option<String>, fallback: &str) -> (r: String)
    ensures
        r@ == match text {
            Some(t) => t@,
            None => fallback@,
        },
{
    match text {
        Some(t) => owned(t.as_str()),
        None => owned(fallback),
    }
}

/// The summary shown for a finished diagnostic.
pub fn summary_for(mode: DiagnosticMode, outcome: &ReportOutcome) -> (r: String)
    ensures
        r@ == spec_summary(
            mode,
            outcome.verdict,
            crate::diagnostics::opt_string(outcome.failure_stage),
            crate::diagnostics::opt_string(outcome.failure_code),
        ),
{
    match outcome.verdict {
        DiagnosticVerdict::Pass => match mode {
            DiagnosticMode::AudioOnly => owned(
                "Audio capture initialized and non-silent samples reached analysis.",
            ),
            DiagnosticMode::RendererOnly | DiagnosticMode::SafeRenderer => owned(
                "The GPU adapter, device, shader, and pipeline validated without entering fullscreen.",
            ),
            DiagnosticMode::FullStartup => owned(
                "Audio sample flow and headless GPU pipeline validation both passed.",
            ),
        },
        DiagnosticVerdict::Degraded => owned(
            "The diagnostic completed with a usable route, but audio is not yet reactive. Review the staged result.",
        ),
        DiagnosticVerdict::Fail => {
            let mut text = owned("The diagnostic stopped at ");
            let stage = text_or(&outcome.failure_stage, "unknown stage");
            push_str(&mut text, stage.as_str());
            push_str(&mut text, " (");
            let code = text_or(&outcome.failure_code, "UNKNOWN_FAILURE");
            push_str(&mut text, code.as_str());
            push_str(&mut text, ").");
            text
        },
        DiagnosticVerdict::Cancelled => owned("The diagnostic was cancelled and cleaned up."),
    }
}

/// A route of this kind needs a running Rekordbox.
pub fn requires_rekordbox(kind: AudioSourceKind) -> (r: bool)
    ensures
        r == (kind == AudioSourceKind::RekordboxProcess || kind
            == AudioSourceKind::RekordboxSession),
{
    match kind {
        AudioSourceKind::RekordboxProcess | AudioSourceKind::RekordboxSession => true,
        _ => false,
    }
}

/// The result of a discovery stage: its status, stable code and message.
pub struct StageFinding {
    pub status: DiagnosticStageStatus,
    pub code: &'static str,
    pub message: &'static str,
}

/// The Rekordbox process discovery stage: found, not required by the
/// selected route, or missing (degraded).
pub fn process_discovery(process_detected: bool, selected_requires_rekordbox: bool) -> (r:
    StageFinding)
    ensures
        process_detected ==> r.status == DiagnosticStageStatus::Pass && r.code@
            == "REKORDBOX_PROCESS_FOUND"@,
        !process_detected && !selected_requires_rekordbox ==> r.status
            == DiagnosticStageStatus::Pass && r.code@ == "REKORDBOX_PROCESS_NOT_REQUIRED"@,
        !process_detected && selected_requires_rekordbox ==> r.status
            == DiagnosticStageStatus::Degraded && r.code@ == "REKORDBOX_PROCESS_NOT_FOUND"@,
        process_detected ==> r.message@ == "Found a supported Rekordbox process."@,
        !process_detected && !selected_requires_rekordbox ==> r.message@
            == "The selected all-app or input route does not require Rekordbox process discovery."@,
        !process_detected && selected_requires_rekordbox ==> r.message@
            == "Rekordbox is not running. Start it before testing the live connection."@,
{
    if process_detected {
        StageFinding {
            status: DiagnosticStageStatus::Pass,
            code: "REKORDBOX_PROCESS_FOUND",
            message: "Found a supported Rekordbox process.",
        }
    } else if !selected_requires_rekordbox {
        StageFinding {
            status: DiagnosticStageStatus::Pass,
            code: "REKORDBOX_PROCESS_NOT_REQUIRED",
            message: "The selected all-app or input route does not require Rekordbox process discovery.",
        }
    } else {
        StageFinding {
            status: DiagnosticStageStatus::Degraded,
            code: "REKORDBOX_PROCESS_NOT_FOUND",
            message: "Rekordbox is not running. Start it before testing the live connection.",
        }
    }
}

/// The Windows audio-session discovery stage.
pub fn session_discovery(
    session_detected: bool,
    selected_requires_rekordbox: bool,
    process_detected: bool,
) -> (r: StageFinding)
    ensures
        session_detected ==> r.status == DiagnosticStageStatus::Pass && r.code@
            == "REKORDBOX_AUDIO_SESSION_FOUND"@ && r.message@
            == "Found the Windows output endpoint carrying Rekordbox audio."@,
        !session_detected && !selected_requires_rekordbox ==> r.status
            == DiagnosticStageStatus::Pass && r.code@ == "REKORDBOX_AUDIO_SESSION_NOT_REQUIRED"@
            && r.message@
            == "The selected Windows route can be tested without a Rekordbox audio session."@,
        !session_detected && selected_requires_rekordbox && process_detected ==> r.status
            == DiagnosticStageStatus::Degraded && r.code@ == "REKORDBOX_AUDIO_SESSION_NOT_FOUND"@
            && r.message@
            == "Rekordbox is running but has no capturable Windows audio session. Enable PC MASTER OUT in Performance mode and play a track."@,
        !session_detected && selected_requires_rekordbox && !process_detected ==> r.status
            == DiagnosticStageStatus::Degraded && r.code@ == "REKORDBOX_AUDIO_SESSION_NOT_FOUND"@
            && r.message@
            == "No Rekordbox audio session can be discovered until Rekordbox is running."@,
{
    if session_detected {
        StageFinding {
            status: DiagnosticStageStatus::Pass,
            code: "REKORDBOX_AUDIO_SESSION_FOUND",
            message: "Found the Windows output endpoint carrying Rekordbox audio.",
        }
    } else if !selected_requires_rekordbox {
        StageFinding {
            status: DiagnosticStageStatus::Pass,
            code: "REKORDBOX_AUDIO_SESSION_NOT_REQUIRED",
            message: "The selected Windows route can be tested without a Rekordbox audio session.",
        }
    } else if process_detected {
        StageFinding {
            status: DiagnosticStageStatus::Degraded,
            code: "REKORDBOX_AUDIO_SESSION_NOT_FOUND",
            message: "Rekordbox is running but has no capturable Windows audio session. Enable PC MASTER OUT in Performance mode and play a track.",
        }
    } else {
        StageFinding {
            status: DiagnosticStageStatus::Degraded,
            code: "REKORDBOX_AUDIO_SESSION_NOT_FOUND",
            message: "No Rekordbox audio session can be discovered until Rekordbox is running.",
        }
    }
}

/// Why an unavailable selected route cannot be tested.
pub fn unavailable_source_failure(selected_requires_rekordbox: bool, process_detected: bool) -> (r:
    (&'static str, &'static str))
    ensures
        selected_requires_rekordbox && !process_detected ==> r.0@ == "REKORDBOX_PROCESS_NOT_FOUND"@
            && r.1@ == "Start Rekordbox before selecting its audio-session route."@,
        !(selected_requires_rekordbox && !process_detected) ==> r.0@
            == "AUDIO_PLATFORM_UNSUPPORTED"@ && r.1@
            == "The selected live-audio route is unavailable on this OS version."@,
{
    if selected_requires_rekordbox && !process_detected {
        ("REKORDBOX_PROCESS_NOT_FOUND", "Start Rekordbox before selecting its audio-session route.")
    } else {
        (
            "AUDIO_PLATFORM_UNSUPPORTED",
            "The selected live-audio route is unavailable on this OS version.",
        )
    }
}

/// The code for packets that never arrived: with Rekordbox running the
/// likely cause is an ASIO route that bypasses the system mix.
pub fn first_packet_failure_code(rekordbox_detected: bool) -> (r: &'static str)
    ensures
        rekordbox_detected ==> r@ == "ASIO_BYPASS_SUSPECTED"@,
        !rekordbox_detected ==> r@ == "NO_AUDIO_PACKETS"@,
{
    if rekordbox_detected {
        "ASIO_BYPASS_SUSPECTED"
    } else {
        "NO_AUDIO_PACKETS"
    }
}

/// The first-packet stage's failure: its code, and the worker's message or
/// a note that nothing arrived in time.
pub fn first_packet_failure(status: &CaptureStatus) -> (r: (&'static str, String))
    ensures
        r.0@ == (if status.rekordbox_detected {
            "ASIO_BYPASS_SUSPECTED"@
        } else {
            "NO_AUDIO_PACKETS"@
        }),
        r.1@ == match status.message {
            Some(m) => m@,
            None => "Capture initialized, but no packets arrived before the timeout."@,
        },
{
    let message = match &status.message {
        Some(m) => m.clone(),
        None => owned("Capture initialized, but no packets arrived before the timeout."),
    };
    (first_packet_failure_code(status.rekordbox_detected), message)
}

/// The initialization wait ends once the worker initialized or failed for
/// good.
pub fn initialization_settled(status: &CaptureStatus) -> (r: bool)
    ensures
        r == (status.capture_initialized || status.state == CaptureState::Failed || status.state
            == CaptureState::Unsupported),
{
    status.capture_initialized || status.state == CaptureState::Failed || status.state
        == CaptureState::Unsupported
}

/// The first-packet wait ends once packets arrived or the worker failed.
pub fn packets_settled(status: &CaptureStatus) -> (r: bool)
    ensures
        r == (status.packets_received || status.state == CaptureState::Failed),
{
    status.packets_received || status.state == CaptureState::Failed
}

/// The signal wait ends once non-silent samples arrived or the worker
/// failed.
pub fn signal_settled(status: &CaptureStatus) -> (r: bool)
    ensures
        r == (status.non_silent_samples_received || status.state == CaptureState::Failed),
{
    status.non_silent_samples_received || status.state == CaptureState::Failed
}

/// The code for a failed hidden-surface probe.
pub fn surface_failure_code(error: &str) -> (r: &'static str)
    ensures
        spec_contains(error@, "GPU_FIRST_FRAME_TIMEOUT"@) ==> r@ == "GPU_FIRST_FRAME_TIMEOUT"@,
        !spec_contains(error@, "GPU_FIRST_FRAME_TIMEOUT"@) && spec_contains(
            error@,
            "GPU_SURFACE"@,
        ) ==> r@ == "GPU_SURFACE_CREATE_FAILED"@,
        !spec_contains(error@, "GPU_FIRST_FRAME_TIMEOUT"@) && !spec_contains(
            error@,
            "GPU_SURFACE"@,
        ) ==> r@ == first_mentioned(renderer_codes(), error@, "GPU_DIAGNOSTIC_FAILED"@),
{
    if str_contains(error, "GPU_FIRST_FRAME_TIMEOUT") {
        "GPU_FIRST_FRAME_TIMEOUT"
    } else if str_contains(error, "GPU_SURFACE") {
        "GPU_SURFACE_CREATE_FAILED"
    } else {
        map_renderer_failure(error)
    }
}

/// Milliseconds elapsed, saturated to `u64`.
pub fn elapsed_ms(millis: u128) -> (r: u64)
    ensures
        millis <= u64::MAX ==> r == millis,
        millis > u64::MAX ==> r == u64::MAX,
{
    crate::diagnostics::duration_ms(millis)
}

} // verus!
