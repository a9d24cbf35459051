//! The capture status a capture worker reports, and the decisions of the
//! capture loops: what each packet, each callback and each stretch of
//! silence does to the status, when a Rekordbox session is validated again,
//! and when a silent route gives up. The platform loops own the devices,
//! the clock and the locks; they hand these functions plain facts.
use vstd::prelude::*;

use crate::music_state::CLOCK_LIMIT_MS;
use crate::reconnect::{spec_should_retry, ReconnectPolicy, RoutePolicy};
use crate::sources::{CaptureRoute, CaptureState, SampleFlowState};
use crate::text::{owned, push_str};

verus! {

/// A route with no signal for this long is reported as silent, in
/// milliseconds.
pub const SILENCE_REPORT_MS: u64 = 2_000;

/// A Rekordbox session is validated again this often, in milliseconds.
pub const SESSION_VALIDATION_MS: i64 = 2_000;

/// What a capture worker reports. The level meters are float bit patterns.
#[derive(Clone, Debug)]
pub struct CaptureStatus {
    pub state: CaptureState,
    pub route: CaptureRoute,
    pub sample_flow: SampleFlowState,
    pub rekordbox_detected: bool,
    pub rekordbox_session_detected: bool,
    pub capture_initialized: bool,
    pub packets_received: bool,
    pub non_silent_samples_received: bool,
    pub reactive_ready: bool,
    pub fallback_attempted: bool,
    pub preferred_route_failure: Option<String>,
    pub source_name: Option<String>,
    pub message: Option<String>,
    pub sample_rate: Option<u32>,
    pub channels: Option<u16>,
    pub format: Option<String>,
    pub captured_samples: u64,
    pub captured_frames: u64,
    pub dropped_samples: u64,
    pub rms_bits: u32,
    pub peak_bits: u32,
}

/// The status as values, texts as characters.
pub struct CaptureStatusView {
    pub state: CaptureState,
    pub route: CaptureRoute,
    pub sample_flow: SampleFlowState,
    pub rekordbox_detected: bool,
    pub rekordbox_session_detected: bool,
    pub capture_initialized: bool,
    pub packets_received: bool,
    pub non_silent_samples_received: bool,
    pub reactive_ready: bool,
    pub fallback_attempted: bool,
    pub preferred_route_failure: Option<Seq<char>>,
    pub source_name: Option<Seq<char>>,
    pub message: Option<Seq<char>>,
    pub sample_rate: Option<u32>,
    pub channels: Option<u16>,
    pub format: Option<Seq<char>>,
    pub captured_samples: u64,
    pub captured_frames: u64,
    pub dropped_samples: u64,
    pub rms_bits: u32,
    pub peak_bits: u32,
}

pub open spec fn text_of(text: Option<String>) -> Option<Seq<char>> {
    match text {
        Some(t) => Some(t@),
        None => None,
    }
}

impl View for CaptureStatus {
    type V = CaptureStatusView;

    open spec fn view(&self) -> CaptureStatusView {
        CaptureStatusView {
            state: self.state,
            route: self.route,
            sample_flow: self.sample_flow,
            rekordbox_detected: self.rekordbox_detected,
            rekordbox_session_detected: self.rekordbox_session_detected,
            capture_initialized: self.capture_initialized,
            packets_received: self.packets_received,
            non_silent_samples_received: self.non_silent_samples_received,
            reactive_ready: self.reactive_ready,
            fallback_attempted: self.fallback_attempted,
            preferred_route_failure: text_of(self.preferred_route_failure),
            source_name: text_of(self.source_name),
            message: text_of(self.message),
            sample_rate: self.sample_rate,
            channels: self.channels,
            format: text_of(self.format),
            captured_samples: self.captured_samples,
            captured_frames: self.captured_frames,
            dropped_samples: self.dropped_samples,
            rms_bits: self.rms_bits,
            peak_bits: self.peak_bits,
        }
    }
}

/// The status of a route that is not capturing.
pub open spec fn idle_status() -> CaptureStatusView {
    CaptureStatusView {
        state: CaptureState::Stopped,
        route: CaptureRoute::NoRoute,
        sample_flow: SampleFlowState::Unavailable,
        rekordbox_detected: false,
        rekordbox_session_detected: false,
        capture_initialized: false,
        packets_received: false,
        non_silent_samples_received: false,
        reactive_ready: false,
        fallback_attempted: false,
        preferred_route_failure: None,
        source_name: None,
        message: None,
        sample_rate: None,
        channels: None,
        format: None,
        captured_samples: 0,
        captured_frames: 0,
        dropped_samples: 0,
        rms_bits: 0,
        peak_bits: 0,
    }
}

impl Default for CaptureStatus {
    fn default() -> (r: Self)
        ensures
            r@ == idle_status(),
    {
        CaptureStatus {
            state: CaptureState::Stopped,
            route: CaptureRoute::NoRoute,
            sample_flow: SampleFlowState::Unavailable,
            rekordbox_detected: false,
            rekordbox_session_detected: false,
            capture_initialized: false,
            packets_received: false,
            non_silent_samples_received: false,
            reactive_ready: false,
            fallback_attempted: false,
            preferred_route_failure: None,
            source_name: None,
            message: None,
            sample_rate: None,
            channels: None,
            format: None,
            captured_samples: 0,
            captured_frames: 0,
            dropped_samples: 0,
            rms_bits: 0,
            peak_bits: 0,
        }
    }
}

fn concat(a: &str, b: &str, c: &str) -> (r: String)
    ensures
        r@ == a@ + b@ + c@,
{
    let mut r = owned(a);
    push_str(&mut r, b);
    push_str(&mut r, c);
    r
}

/// Sets the state, the sample flow and the message; the route and the
/// source name change only where given.
pub fn set_status(
    status: &mut CaptureStatus,
    state: CaptureState,
    sample_flow: SampleFlowState,
    route: Option<CaptureRoute>,
    source_name: Option<String>,
    message: Option<String>,
)
    ensures
        final(status)@ == (CaptureStatusView {
            state,
            sample_flow,
            route: match route {
                Some(r) => r,
                None => old(status)@.route,
            },
            source_name: if source_name is Some {
                text_of(source_name)
            } else {
                old(status)@.source_name
            },
            message: text_of(message),
            ..old(status)@
        }),
{
    status.state = state;
    status.sample_flow = sample_flow;
    match route {
        Some(r) => {
            status.route = r;
        },
        None => {},
    }
    if source_name.is_some() {
        status.source_name = source_name;
    }
    status.message = message;
}

/// A started loopback client: connecting on `route`, waiting for samples,
/// with the negotiated format recorded.
pub fn mark_client_started(
    status: &mut CaptureStatus,
    route: CaptureRoute,
    source_name: &str,
    sample_rate: u32,
    channels: u16,
    format: &str,
)
    ensures
        final(status)@ == (CaptureStatusView {
            state: CaptureState::Connecting,
            route,
            sample_flow: SampleFlowState::Waiting,
            source_name: Some(source_name@),
            capture_initialized: true,
            sample_rate: Some(sample_rate),
            channels: Some(channels),
            format: Some(format@),
            message: Some("Audio client initialized; waiting for samples"@),
            ..old(status)@
        }),
{
    status.state = CaptureState::Connecting;
    status.route = route;
    status.sample_flow = SampleFlowState::Waiting;
    status.source_name = Some(owned(source_name));
    status.capture_initialized = true;
    status.sample_rate = Some(sample_rate);
    status.channels = Some(channels);
    status.format = Some(owned(format));
    status.message = Some(owned("Audio client initialized; waiting for samples"));
}

/// An initialized tap or input stream: connecting on `route`, waiting for
/// samples, with the stream format and whether Rekordbox runs recorded.
pub fn initialize_capture_status(
    status: &mut CaptureStatus,
    route: CaptureRoute,
    rekordbox_detected: bool,
    source_name: &str,
    sample_rate: u32,
    channels: u16,
    format: &str,
)
    ensures
        final(status)@ == (CaptureStatusView {
            state: CaptureState::Connecting,
            route,
            sample_flow: SampleFlowState::Waiting,
            rekordbox_detected,
            capture_initialized: true,
            source_name: Some(source_name@),
            sample_rate: Some(sample_rate),
            channels: Some(channels),
            format: Some(format@),
            message: Some("Audio capture initialized; waiting for samples"@),
            ..old(status)@
        }),
{
    status.state = CaptureState::Connecting;
    status.route = route;
    status.sample_flow = SampleFlowState::Waiting;
    status.rekordbox_detected = rekordbox_detected;
    status.capture_initialized = true;
    status.source_name = Some(owned(source_name));
    status.sample_rate = Some(sample_rate);
    status.channels = Some(channels);
    status.format = Some(owned(format));
    status.message = Some(owned("Audio capture initialized; waiting for samples"));
}

/// A stopped worker: no route, no samples, no message.
pub fn mark_capture_stopped(status: &mut CaptureStatus)
    ensures
        final(status)@ == (CaptureStatusView {
            state: CaptureState::Stopped,
            route: CaptureRoute::NoRoute,
            sample_flow: SampleFlowState::Unavailable,
            message: None,
            ..old(status)@
        }),
{
    status.state = CaptureState::Stopped;
    status.route = CaptureRoute::NoRoute;
    status.sample_flow = SampleFlowState::Unavailable;
    status.message = None;
}

/// A capture that failed or is unsupported: no samples, not initialized,
/// not reactive, with the reason as the message.
pub fn update_failure(status: &mut CaptureStatus, state: CaptureState, message: &str)
    ensures
        final(status)@ == (CaptureStatusView {
            state,
            sample_flow: SampleFlowState::Unavailable,
            capture_initialized: false,
            reactive_ready: false,
            message: Some(message@),
            ..old(status)@
        }),
{
    status.state = state;
    status.sample_flow = SampleFlowState::Unavailable;
    status.capture_initialized = false;
    status.reactive_ready = false;
    status.message = Some(owned(message));
}

/// Rekordbox is not running: recovering while waiting for it.
pub fn mark_waiting_for_rekordbox(status: &mut CaptureStatus)
    ensures
        final(status)@ == (CaptureStatusView {
            state: CaptureState::Recovering,
            sample_flow: SampleFlowState::Waiting,
            rekordbox_detected: false,
            message: Some("Waiting for Rekordbox to start"@),
            ..old(status)@
        }),
{
    status.state = CaptureState::Recovering;
    status.sample_flow = SampleFlowState::Waiting;
    status.rekordbox_detected = false;
    status.message = Some(owned("Waiting for Rekordbox to start"));
}

/// A tap is about to be requested for the Rekordbox process `name`.
pub fn mark_rekordbox_found(status: &mut CaptureStatus, name: &str)
    ensures
        final(status)@ == (CaptureStatusView {
            state: CaptureState::Connecting,
            sample_flow: SampleFlowState::Waiting,
            rekordbox_detected: true,
            source_name: Some(name@),
            message: Some("Requesting macOS system-audio permission"@),
            ..old(status)@
        }),
{
    status.state = CaptureState::Connecting;
    status.sample_flow = SampleFlowState::Waiting;
    status.rekordbox_detected = true;
    status.source_name = Some(owned(name));
    status.message = Some(owned("Requesting macOS system-audio permission"));
}

/// A tap of all system output is about to be requested.
pub fn mark_system_output_requested(status: &mut CaptureStatus, rekordbox_detected: bool, source_name: &str)
    ensures
        final(status)@ == (CaptureStatusView {
            state: CaptureState::Connecting,
            route: CaptureRoute::SelectedOutput,
            sample_flow: SampleFlowState::Waiting,
            rekordbox_detected,
            source_name: Some(source_name@),
            message: Some("Requesting macOS system-audio permission"@),
            ..old(status)@
        }),
{
    status.state = CaptureState::Connecting;
    status.route = CaptureRoute::SelectedOutput;
    status.sample_flow = SampleFlowState::Waiting;
    status.rekordbox_detected = rekordbox_detected;
    status.source_name = Some(owned(source_name));
    status.message = Some(owned("Requesting macOS system-audio permission"));
}

/// A capture attempt ended with `message`; the worker retries.
pub fn mark_retrying(status: &mut CaptureStatus, message: &str)
    ensures
        final(status)@ == (CaptureStatusView {
            state: CaptureState::Recovering,
            sample_flow: SampleFlowState::Unavailable,
            message: Some(message@ + ". Retrying…"@),
            ..old(status)@
        }),
{
    status.state = CaptureState::Recovering;
    status.sample_flow = SampleFlowState::Unavailable;
    let mut text = owned(message);
    push_str(&mut text, ". Retrying…");
    status.message = Some(text);
}

/// What a capture callback has counted so far.
#[derive(Clone, Copy, Debug, PartialEq, Eq, Structural)]
pub struct CallbackCounters {
    pub packets: u64,
    pub frames: u64,
    pub non_silent: bool,
    pub dropped_samples: u64,
    pub rms_bits: u32,
    pub peak_bits: u32,
}

/// Publishes a callback's counters: the route is reactive while signal was
/// heard within the last two seconds; otherwise it is silent once packets
/// arrived, and waiting before that.
pub fn publish_callback_status(
    status: &mut CaptureStatus,
    counters: CallbackCounters,
    reactive_ready: bool,
    source_name: &str,
    route: CaptureRoute,
    rekordbox_detected: bool,
)
    ensures
        final(status)@ == (CaptureStatusView {
            state: if reactive_ready {
                CaptureState::Listening
            } else {
                CaptureState::Connecting
            },
            route,
            sample_flow: if reactive_ready {
                SampleFlowState::Flowing
            } else if counters.packets > 0 {
                SampleFlowState::Silent
            } else {
                SampleFlowState::Waiting
            },
            rekordbox_detected,
            capture_initialized: true,
            packets_received: counters.packets > 0,
            non_silent_samples_received: counters.non_silent,
            reactive_ready,
            source_name: Some(source_name@),
            captured_samples: counters.frames,
            captured_frames: counters.frames,
            dropped_samples: counters.dropped_samples,
            rms_bits: counters.rms_bits,
            peak_bits: counters.peak_bits,
            message: if reactive_ready {
                None
            } else if counters.packets > 0 {
                Some(source_name@ + " is initialized but currently silent"@)
            } else {
                Some("Core Audio tap initialized; waiting for the first packet"@)
            },
            ..old(status)@
        }),
{
    status.state = if reactive_ready {
        CaptureState::Listening
    } else {
        CaptureState::Connecting
    };
    status.route = route;
    status.sample_flow = if reactive_ready {
        SampleFlowState::Flowing
    } else if counters.packets > 0 {
        SampleFlowState::Silent
    } else {
        SampleFlowState::Waiting
    };
    status.rekordbox_detected = rekordbox_detected;
    status.capture_initialized = true;
    status.packets_received = counters.packets > 0;
    status.non_silent_samples_received = counters.non_silent;
    status.reactive_ready = reactive_ready;
    status.source_name = Some(owned(source_name));
    status.captured_samples = counters.frames;
    status.captured_frames = counters.frames;
    status.dropped_samples = counters.dropped_samples;
    status.rms_bits = counters.rms_bits;
    status.peak_bits = counters.peak_bits;
    status.message = if reactive_ready {
        None
    } else if counters.packets > 0 {
        let mut text = owned(source_name);
        push_str(&mut text, " is initialized but currently silent");
        Some(text)
    } else {
        Some(owned("Core Audio tap initialized; waiting for the first packet"))
    };
}

/// When a callback last delivered signal, as the status publisher sees it.
#[derive(Clone, Copy, Debug, PartialEq, Eq, Structural)]
pub struct SignalWatch {
    pub observed_packets: u64,
    pub last_signal_ms: Option<i64>,
}

/// Whether a route is reactive at `now_ms`: signal within the last two
/// seconds.
pub open spec fn reactive_at(last_signal_ms: Option<i64>, now_ms: i64) -> bool {
    match last_signal_ms {
        Some(last) => now_ms - last < SILENCE_REPORT_MS,
        None => false,
    }
}

impl SignalWatch {
    /// Nothing observed yet.
    pub fn new() -> (r: Self)
        ensures
            r == (SignalWatch { observed_packets: 0, last_signal_ms: None }),
    {
        SignalWatch { observed_packets: 0, last_signal_ms: None }
    }

    /// Takes the callback's packet count and whether its latest peak was
    /// audible: new packets with an audible peak mark signal now. Returns
    /// whether the route is reactive.
    pub fn observe(&mut self, packets: u64, audible_peak: bool, now_ms: i64) -> (reactive: bool)
        requires
            -CLOCK_LIMIT_MS <= now_ms <= CLOCK_LIMIT_MS,
            old(self).last_signal_ms matches Some(last) ==> -CLOCK_LIMIT_MS <= last <= CLOCK_LIMIT_MS,
        ensures
            final(self).observed_packets == packets,
            final(self).last_signal_ms == (if packets != old(self).observed_packets && audible_peak {
                Some(now_ms)
            } else {
                old(self).last_signal_ms
            }),
            reactive == reactive_at(final(self).last_signal_ms, now_ms),
    {
        if packets != self.observed_packets && audible_peak {
            self.last_signal_ms = Some(now_ms);
        }
        self.observed_packets = packets;
        match self.last_signal_ms {
            Some(last) => now_ms - last < 2_000,
            None => false,
        }
    }
}

/// What the log should note about a packet.
#[derive(Clone, Copy, Debug, PartialEq, Eq, Structural)]
pub struct PacketNotes {
    pub first_packet: bool,
    pub first_signal: bool,
}

/// The packet loop of a loopback client: when capture started, when signal
/// was last heard, what has been logged, and what has been captured.
#[derive(Clone, Copy, Debug, PartialEq, Eq, Structural)]
pub struct PacketMonitor {
    pub started_ms: i64,
    pub last_signal_ms: Option<i64>,
    pub next_validation_ms: i64,
    pub logged_first_packet: bool,
    pub logged_first_signal: bool,
    pub captured_samples: u64,
}

/// How long a route has been silent at `now_ms`: since the last signal, or
/// since capture started; never negative.
pub open spec fn silence_age_ms(m: PacketMonitor, now_ms: i64) -> u64 {
    let since = match m.last_signal_ms {
        Some(last) => last,
        None => m.started_ms,
    };
    if now_ms <= since {
        0
    } else {
        (now_ms - since) as u64
    }
}

/// The silence message for a route.
pub open spec fn silence_message(route: CaptureRoute, source_name: Seq<char>) -> Seq<char> {
    match route {
        CaptureRoute::RekordboxSessionOutput => "Connected to Rekordbox on "@ + source_name
            + ", but its Windows stream is silent. Play a track and verify PC MASTER OUT."@,
        CaptureRoute::AutomaticOutput => "No music detected on "@ + source_name
            + "; checking the other Windows outputs. If Rekordbox uses ASIO, enable PC MASTER OUT."@,
        _ => "Audio client is connected but the selected output is silent"@,
    }
}

pub open spec fn clock_ok(m: PacketMonitor) -> bool {
    &&& -CLOCK_LIMIT_MS <= m.started_ms <= CLOCK_LIMIT_MS
    &&& -CLOCK_LIMIT_MS <= m.next_validation_ms <= CLOCK_LIMIT_MS + SESSION_VALIDATION_MS
    &&& m.last_signal_ms matches Some(last) ==> -CLOCK_LIMIT_MS <= last <= CLOCK_LIMIT_MS
}

impl PacketMonitor {
    /// A client that started capturing at `now_ms`; the first session
    /// validation is due two seconds later.
    pub fn new(now_ms: i64) -> (r: Self)
        requires
            -CLOCK_LIMIT_MS <= now_ms <= CLOCK_LIMIT_MS,
        ensures
            r == (PacketMonitor {
                started_ms: now_ms,
                last_signal_ms: None,
                next_validation_ms: (now_ms + SESSION_VALIDATION_MS) as i64,
                logged_first_packet: false,
                logged_first_signal: false,
                captured_samples: 0,
            }),
            clock_ok(r),
    {
        PacketMonitor {
            started_ms: now_ms,
            last_signal_ms: None,
            next_validation_ms: now_ms + SESSION_VALIDATION_MS,
            logged_first_packet: false,
            logged_first_signal: false,
            captured_samples: 0,
        }
    }

    /// A packet of `frames` frames arrived at `now_ms`; `has_signal` says
    /// whether any resampled sample was audible. Signal makes the route
    /// listening and flowing; every packet marks the client as initialized
    /// and receiving, and records the counters and levels. Returns what the
    /// log should note: the first packet and the first signal, once each.
    pub fn on_packet(
        &mut self,
        status: &mut CaptureStatus,
        now_ms: i64,
        frames: u32,
        has_signal: bool,
        dropped_samples: u64,
        rms_bits: u32,
        peak_bits: u32,
        route: CaptureRoute,
        source_name: &str,
    ) -> (notes: PacketNotes)
        requires
            -CLOCK_LIMIT_MS <= now_ms <= CLOCK_LIMIT_MS,
            clock_ok(*old(self)),
        ensures
            clock_ok(*final(self)),
            notes == (PacketNotes {
                first_packet: !old(self).logged_first_packet,
                first_signal: has_signal && !old(self).logged_first_signal,
            }),
            *final(self) == (PacketMonitor {
                logged_first_packet: true,
                logged_first_signal: old(self).logged_first_signal || has_signal,
                last_signal_ms: if has_signal {
                    Some(now_ms)
                } else {
                    old(self).last_signal_ms
                },
                captured_samples: if old(self).captured_samples + frames > u64::MAX {
                    u64::MAX
                } else {
                    (old(self).captured_samples + frames) as u64
                },
                ..*old(self)
            }),
            final(status)@ == (CaptureStatusView {
                state: if has_signal {
                    CaptureState::Listening
                } else {
                    old(status)@.state
                },
                sample_flow: if has_signal {
                    SampleFlowState::Flowing
                } else {
                    old(status)@.sample_flow
                },
                route: if has_signal {
                    route
                } else {
                    old(status)@.route
                },
                source_name: if has_signal {
                    Some(source_name@)
                } else {
                    old(status)@.source_name
                },
                message: if has_signal {
                    None
                } else {
                    old(status)@.message
                },
                capture_initialized: true,
                packets_received: true,
                non_silent_samples_received: old(status)@.non_silent_samples_received || has_signal,
                reactive_ready: old(status)@.reactive_ready || has_signal,
                captured_samples: final(self).captured_samples,
                captured_frames: final(self).captured_samples,
                dropped_samples,
                rms_bits,
                peak_bits,
                ..old(status)@
            }),
    {
        self.captured_samples = self.captured_samples.saturating_add(frames as u64);
        let notes = PacketNotes {
            first_packet: !self.logged_first_packet,
            first_signal: has_signal && !self.logged_first_signal,
        };
        self.logged_first_packet = true;
        if has_signal {
            self.last_signal_ms = Some(now_ms);
            self.logged_first_signal = true;
            set_status(
                status,
                CaptureState::Listening,
                SampleFlowState::Flowing,
                Some(route),
                Some(owned(source_name)),
                None,
            );
        }
        status.capture_initialized = true;
        status.packets_received = true;
        status.non_silent_samples_received = status.non_silent_samples_received || has_signal;
        if has_signal {
            status.reactive_ready = true;
        }
        status.captured_samples = self.captured_samples;
        status.captured_frames = self.captured_samples;
        status.dropped_samples = dropped_samples;
        status.rms_bits = rms_bits;
        status.peak_bits = peak_bits;
        notes
    }

    /// Whether a Rekordbox session capture should validate its session at
    /// `now_ms`; when it should, the next validation moves two seconds on.
    pub fn session_validation_due(&mut self, validates_session: bool, now_ms: i64) -> (due: bool)
        requires
            -CLOCK_LIMIT_MS <= now_ms <= CLOCK_LIMIT_MS,
            clock_ok(*old(self)),
        ensures
            clock_ok(*final(self)),
            due == (validates_session && now_ms >= old(self).next_validation_ms),
            *final(self) == (if due {
                PacketMonitor { next_validation_ms: (now_ms + SESSION_VALIDATION_MS) as i64, ..*old(self) }
            } else {
                *old(self)
            }),
    {
        if validates_session && now_ms >= self.next_validation_ms {
            self.next_validation_ms = now_ms + SESSION_VALIDATION_MS;
            true
        } else {
            false
        }
    }

    /// After the pending packets at `now_ms`: a route silent for two seconds
    /// is reported as recovering and silent, and is no longer reactive.
    /// Returns why the route gives up when the reconnect policy says it
    /// should, and `None` to keep listening.
    pub fn after_packets(
        &self,
        status: &mut CaptureStatus,
        now_ms: i64,
        policy: RoutePolicy,
        route: CaptureRoute,
        source_name: &str,
    ) -> (give_up: Option<String>)
        requires
            -CLOCK_LIMIT_MS <= now_ms <= CLOCK_LIMIT_MS,
            clock_ok(*self),
        ensures
            silence_age_ms(*self, now_ms) >= SILENCE_REPORT_MS ==> final(status)@ == (
            CaptureStatusView {
                reactive_ready: false,
                state: CaptureState::Recovering,
                sample_flow: SampleFlowState::Silent,
                route,
                source_name: Some(source_name@),
                message: Some(silence_message(route, source_name@)),
                ..old(status)@
            }),
            silence_age_ms(*self, now_ms) < SILENCE_REPORT_MS ==> final(status)@ == old(status)@,
            give_up is Some <==> spec_should_retry(
                ReconnectPolicy { output_probe_grace_ms: 2_000, output_retry_ms: 30_000 },
                policy,
                self.last_signal_ms is Some,
                silence_age_ms(*self, now_ms),
            ),
            give_up matches Some(message) ==> message@
                == "Windows output remained silent; checking another output"@,
    {
        let since = match self.last_signal_ms {
            Some(last) => last,
            None => self.started_ms,
        };
        let age: u64 = if now_ms <= since {
            0
        } else {
            (now_ms - since) as u64
        };
        if age >= SILENCE_REPORT_MS {
            status.reactive_ready = false;
            let message = match route {
                CaptureRoute::RekordboxSessionOutput => concat(
                    "Connected to Rekordbox on ",
                    source_name,
                    ", but its Windows stream is silent. Play a track and verify PC MASTER OUT.",
                ),
                CaptureRoute::AutomaticOutput => concat(
                    "No music detected on ",
                    source_name,
                    "; checking the other Windows outputs. If Rekordbox uses ASIO, enable PC MASTER OUT.",
                ),
                _ => owned("Audio client is connected but the selected output is silent"),
            };
            set_status(
                status,
                CaptureState::Recovering,
                SampleFlowState::Silent,
                Some(route),
                Some(owned(source_name)),
                Some(message),
            );
        }
        let reconnect = ReconnectPolicy::default();
        if reconnect.should_retry(policy, self.last_signal_ms.is_some(), age) {
            Some(owned("Windows output remained silent; checking another output"))
        } else {
            None
        }
    }
}

/// Validates a Rekordbox session capture: `process_found` says whether a
/// Rekordbox process still runs, `session_missing` whether the endpoint it
/// played on no longer carries its session. Returns why capture stops, and
/// records what was found.
pub fn session_check(status: &mut CaptureStatus, process_found: bool, session_missing: bool) -> (stop:
    Option<String>)
    ensures
        !process_found ==> (stop matches Some(m) && m@
            == "REKORDBOX_PROCESS_NOT_FOUND: Rekordbox exited; waiting for it to restart"@
            && final(status)@ == (CaptureStatusView {
                rekordbox_detected: false,
                rekordbox_session_detected: false,
                ..old(status)@
            })),
        process_found && session_missing ==> (stop matches Some(m) && m@
            == "REKORDBOX_AUDIO_SESSION_CHANGED: Rekordbox moved or closed its Windows audio session; refreshing the endpoint"@
            && final(status)@ == (CaptureStatusView {
                rekordbox_detected: true,
                rekordbox_session_detected: false,
                ..old(status)@
            })),
        process_found && !session_missing ==> stop is None && final(status)@ == old(status)@,
{
    if !process_found {
        status.rekordbox_detected = false;
        status.rekordbox_session_detected = false;
        return Some(owned("REKORDBOX_PROCESS_NOT_FOUND: Rekordbox exited; waiting for it to restart"));
    }
    if session_missing {
        status.rekordbox_detected = true;
        status.rekordbox_session_detected = false;
        return Some(
            owned(
                "REKORDBOX_AUDIO_SESSION_CHANGED: Rekordbox moved or closed its Windows audio session; refreshing the endpoint",
            ),
        );
    }
    None
}

} // verus!
