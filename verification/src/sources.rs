//! Audio routes offered to the controller and the states a capture worker
//! reports.
use vstd::prelude::*;

use crate::text::owned;

verus! {

/// What kind of audio route a source is.
#[derive(Clone, Copy, Debug, PartialEq, Eq, Structural)]
pub enum AudioSourceKind {
    RekordboxProcess,
    RekordboxSession,
    OutputDevice,
    InputDevice,
}

/// One audio route offered to the controller.
#[derive(Clone, Debug, PartialEq)]
pub struct AudioSourceInfo {
    pub id: String,
    pub name: String,
    pub kind: AudioSourceKind,
    pub detected: bool,
    pub is_default: bool,
    pub available: bool,
}

/// The mathematical content of an [`AudioSourceInfo`].
pub struct SourceSpec {
    pub id: Seq<char>,
    pub name: Seq<char>,
    pub kind: AudioSourceKind,
    pub detected: bool,
    pub is_default: bool,
    pub available: bool,
}

impl View for AudioSourceInfo {
    type V = SourceSpec;

    open spec fn view(&self) -> SourceSpec {
        SourceSpec {
            id: self.id@,
            name: self.name@,
            kind: self.kind,
            detected: self.detected,
            is_default: self.is_default,
            available: self.available,
        }
    }
}

/// The views of a list of sources.
pub open spec fn source_views(sources: Seq<AudioSourceInfo>) -> Seq<SourceSpec> {
    sources.map_values(|s: AudioSourceInfo| s@)
}

/// The lifecycle a capture worker reports.
#[derive(Clone, Copy, Debug, PartialEq, Eq, Structural)]
pub enum CaptureState {
    Stopped,
    Connecting,
    Listening,
    Recovering,
    Failed,
    Unsupported,
}

/// The route a capture worker is actually using.
#[derive(Clone, Copy, Debug, PartialEq, Eq, Structural)]
pub enum CaptureRoute {
    NoRoute,
    RekordboxProcess,
    RekordboxSessionOutput,
    SelectedOutput,
    AutomaticOutput,
    DefaultOutputFallback,
    SystemOutputFallback,
    SelectedInput,
}

/// Whether samples are arriving on the current route.
#[derive(Clone, Copy, Debug, PartialEq, Eq, Structural)]
pub enum SampleFlowState {
    Unavailable,
    Waiting,
    Flowing,
    Silent,
}

impl Default for CaptureState {
    fn default() -> (r: Self)
        ensures
            r == CaptureState::Stopped,
    {
        CaptureState::Stopped
    }
}

impl Default for CaptureRoute {
    fn default() -> (r: Self)
        ensures
            r == CaptureRoute::NoRoute,
    {
        CaptureRoute::NoRoute
    }
}

impl Default for SampleFlowState {
    fn default() -> (r: Self)
        ensures
            r == SampleFlowState::Unavailable,
    {
        SampleFlowState::Unavailable
    }
}

pub open spec fn source_kind_wire(kind: AudioSourceKind) -> Seq<char> {
    match kind {
        AudioSourceKind::RekordboxProcess => "rekordboxProcess"@,
        AudioSourceKind::RekordboxSession => "rekordboxSession"@,
        AudioSourceKind::OutputDevice => "outputDevice"@,
        AudioSourceKind::InputDevice => "inputDevice"@,
    }
}

pub open spec fn capture_state_wire(state: CaptureState) -> Seq<char> {
    match state {
        CaptureState::Stopped => "stopped"@,
        CaptureState::Connecting => "connecting"@,
        CaptureState::Listening => "listening"@,
        CaptureState::Recovering => "recovering"@,
        CaptureState::Failed => "failed"@,
        CaptureState::Unsupported => "unsupported"@,
    }
}

pub open spec fn capture_route_wire(route: CaptureRoute) -> Seq<char> {
    match route {
        CaptureRoute::NoRoute => "none"@,
        CaptureRoute::RekordboxProcess => "rekordboxProcess"@,
        CaptureRoute::RekordboxSessionOutput => "rekordboxSessionOutput"@,
        CaptureRoute::SelectedOutput => "selectedOutput"@,
        CaptureRoute::AutomaticOutput => "automaticOutput"@,
        CaptureRoute::DefaultOutputFallback => "defaultOutputFallback"@,
        CaptureRoute::SystemOutputFallback => "systemOutputFallback"@,
        CaptureRoute::SelectedInput => "selectedInput"@,
    }
}

pub open spec fn sample_flow_wire(flow: SampleFlowState) -> Seq<char> {
    match flow {
        SampleFlowState::Unavailable => "unavailable"@,
        SampleFlowState::Waiting => "waiting"@,
        SampleFlowState::Flowing => "flowing"@,
        SampleFlowState::Silent => "silent"@,
    }
}

impl AudioSourceKind {
    /// The camel-case name used on the wire.
    pub fn wire_name(self) -> (r: String)
        ensures
            r@ == source_kind_wire(self),
    {
        match self {
            AudioSourceKind::RekordboxProcess => owned("rekordboxProcess"),
            AudioSourceKind::RekordboxSession => owned("rekordboxSession"),
            AudioSourceKind::OutputDevice => owned("outputDevice"),
            AudioSourceKind::InputDevice => owned("inputDevice"),
        }
    }
}

impl CaptureState {
    /// The camel-case name used on the wire.
    pub fn wire_name(self) -> (r: String)
        ensures
            r@ == capture_state_wire(self),
    {
        match self {
            CaptureState::Stopped => owned("stopped"),
            CaptureState::Connecting => owned("connecting"),
            CaptureState::Listening => owned("listening"),
            CaptureState::Recovering => owned("recovering"),
            CaptureState::Failed => owned("failed"),
            CaptureState::Unsupported => owned("unsupported"),
        }
    }
}

impl CaptureRoute {
    /// The camel-case name used on the wire.
    pub fn wire_name(self) -> (r: String)
        ensures
            r@ == capture_route_wire(self),
    {
        match self {
            CaptureRoute::NoRoute => owned("none"),
            CaptureRoute::RekordboxProcess => owned("rekordboxProcess"),
            CaptureRoute::RekordboxSessionOutput => owned("rekordboxSessionOutput"),
            CaptureRoute::SelectedOutput => owned("selectedOutput"),
            CaptureRoute::AutomaticOutput => owned("automaticOutput"),
            CaptureRoute::DefaultOutputFallback => owned("defaultOutputFallback"),
            CaptureRoute::SystemOutputFallback => owned("systemOutputFallback"),
            CaptureRoute::SelectedInput => owned("selectedInput"),
        }
    }
}

impl SampleFlowState {
    /// The camel-case name used on the wire.
    pub fn wire_name(self) -> (r: String)
        ensures
            r@ == sample_flow_wire(self),
    {
        match self {
            SampleFlowState::Unavailable => owned("unavailable"),
            SampleFlowState::Waiting => owned("waiting"),
            SampleFlowState::Flowing => owned("flowing"),
            SampleFlowState::Silent => owned("silent"),
        }
    }
}

/// The sources offered by a build without a native capture backend: none.
pub fn enumerate_sources() -> (r: Result<Vec<AudioSourceInfo>, String>)
    ensures
        r matches Ok(v) && v@.len() == 0,
{
    Ok(Vec::new())
}

/// The sources offered to the controller by this build.
pub fn enumerate_audio_sources() -> (r: Result<Vec<AudioSourceInfo>, String>)
    ensures
        r matches Ok(v) && v@.len() == 0,
{
    enumerate_sources()
}

/// The source a diagnostic tests: the requested one, else the default one,
/// else the first.
pub open spec fn selected_source_index(sources: Seq<SourceSpec>, requested: Seq<char>) -> Option<
    int,
> {
    if exists|i: int| 0 <= i < sources.len() && sources[i].id == requested {
        Some(choose_first(sources, |s: SourceSpec| s.id == requested))
    } else if exists|i: int| 0 <= i < sources.len() && sources[i].is_default {
        Some(choose_first(sources, |s: SourceSpec| s.is_default))
    } else if sources.len() > 0 {
        Some(0)
    } else {
        None
    }
}

/// The first index whose element satisfies `p`.
pub open spec fn choose_first(sources: Seq<SourceSpec>, p: spec_fn(SourceSpec) -> bool) -> int {
    choose|i: int|
        0 <= i < sources.len() && p(sources[i]) && forall|j: int| 0 <= j < i ==> !p(sources[j])
}

proof fn lemma_first_is_unique(sources: Seq<SourceSpec>, p: spec_fn(SourceSpec) -> bool, i: int)
    requires
        0 <= i < sources.len(),
        p(sources[i]),
        forall|j: int| 0 <= j < i ==> !p(sources[j]),
    ensures
        choose_first(sources, p) == i,
{
    let k = choose_first(sources, p);
    assert(0 <= k < sources.len() && p(sources[k]) && forall|j: int| 0 <= j < k ==> !p(sources[j]));
    if k < i {
        assert(!p(sources[k]));
    }
    if i < k {
        assert(!p(sources[i]));
    }
}

fn chars_equal(a: &Vec<char>, b: &Vec<char>) -> (r: bool)
    ensures
        r == (a@ == b@),
{
    if a.len() != b.len() {
        return false;
    }
    let mut i: usize = 0;
    while i < a.len()
        invariant
            a.len() == b.len(),
            i <= a.len(),
            forall|j: int| 0 <= j < i ==> a@[j] == b@[j],
        decreases a.len() - i,
    {
        if a[i] != b[i] {
            return false;
        }
        i = i + 1;
    }
    assert(a@ =~= b@);
    true
}

/// Picks the source a diagnostic tests: the requested id when present,
/// otherwise the first default source, otherwise the first source.
pub fn select_source(sources: &Vec<AudioSourceInfo>, requested_id: &str) -> (r: Option<usize>)
    ensures
        match r {
            Some(i) => selected_source_index(source_views(sources@), requested_id@) == Some(
                i as int,
            ),
            None => selected_source_index(source_views(sources@), requested_id@) is None,
        },
{
    let ghost views = source_views(sources@);
    let requested = crate::text::chars_of(requested_id);
    let mut i: usize = 0;
    while i < sources.len()
        invariant
            i <= sources.len(),
            views == source_views(sources@),
            requested@ == requested_id@,
            forall|j: int| 0 <= j < i ==> views[j].id != requested_id@,
        decreases sources.len() - i,
    {
        let id = crate::text::chars_of(sources[i].id.as_str());
        if chars_equal(&id, &requested) {
            proof {
                lemma_first_is_unique(views, |s: SourceSpec| s.id == requested_id@, i as int);
            }
            return Some(i);
        }
        i = i + 1;
    }
    let mut k: usize = 0;
    while k < sources.len()
        invariant
            k <= sources.len(),
            views == source_views(sources@),
            forall|j: int| 0 <= j < sources.len() ==> views[j].id != requested_id@,
            forall|j: int| 0 <= j < k ==> !views[j].is_default,
        decreases sources.len() - k,
    {
        if sources[k].is_default {
            proof {
                lemma_first_is_unique(views, |s: SourceSpec| s.is_default, k as int);
            }
            return Some(k);
        }
        k = k + 1;
    }
    if sources.len() > 0 {
        Some(0)
    } else {
        None
    }
}

} // verus!
