//! Renderer state shared with the controller, the exclusive GPU lease, the
//! internal render size for large displays, and orderly failure handling.
use vstd::prelude::*;

use std::sync::atomic::{AtomicBool, Ordering};

use crate::text::owned;

verus! {

/// The renderer's lifecycle as the controller sees it.
#[derive(Clone, Copy, Debug, PartialEq, Eq, Structural)]
pub enum RendererLifecycle {
    Stopped,
    Initializing,
    Running,
    Failed,
}

impl Default for RendererLifecycle {
    fn default() -> (r: Self)
        ensures
            r == RendererLifecycle::Stopped,
    {
        RendererLifecycle::Stopped
    }
}

pub open spec fn spec_renderer_lifecycle_wire(state: RendererLifecycle) -> Seq<char> {
    match state {
        RendererLifecycle::Stopped => "stopped"@,
        RendererLifecycle::Initializing => "initializing"@,
        RendererLifecycle::Running => "running"@,
        RendererLifecycle::Failed => "failed"@,
    }
}

impl RendererLifecycle {
    /// The camel-case name used on the wire.
    pub fn wire_name(self) -> (r: &'static str)
        ensures
            r@ == spec_renderer_lifecycle_wire(self),
    {
        match self {
            RendererLifecycle::Stopped => "stopped",
            RendererLifecycle::Initializing => "initializing",
            RendererLifecycle::Running => "running",
            RendererLifecycle::Failed => "failed",
        }
    }
}

/// The renderer status reported to the controller.
#[derive(Clone, Debug)]
pub struct RendererStatus {
    pub state: RendererLifecycle,
    pub adapter: Option<String>,
    pub backend: Option<String>,
    pub software_fallback: bool,
    pub message: Option<String>,
}

impl Default for RendererStatus {
    fn default() -> (r: Self)
        ensures
            r.state == RendererLifecycle::Stopped,
            r.adapter is None,
            r.backend is None,
            !r.software_fallback,
            r.message is None,
    {
        RendererStatus {
            state: RendererLifecycle::Stopped,
            adapter: None,
            backend: None,
            software_fallback: false,
            message: None,
        }
    }
}

/// What the renderer reports once its first frame is presented.
#[derive(Clone, Debug)]
pub struct RendererReady {
    pub adapter: String,
    pub backend: String,
    pub driver: String,
    pub driver_info: String,
    pub device_type: String,
    pub surface_format: String,
    pub present_mode: String,
    pub software_fallback: bool,
}

/// Marks the renderer failed with `message`, keeping the adapter details
/// already reported, and returns the request for an orderly stop of the
/// session, which the caller raises on the session's stop flag.
pub fn transition_renderer_failure(status: &mut RendererStatus, message: String) -> (stop: bool)
    ensures
        stop,
        final(status).state == RendererLifecycle::Failed,
        final(status).message == Some(message),
        final(status).adapter == old(status).adapter,
        final(status).backend == old(status).backend,
        final(status).software_fallback == old(status).software_fallback,
{
    status.state = RendererLifecycle::Failed;
    status.message = Some(message);
    true
}

/// The largest internal render target, in pixels (1920 x 1080).
pub const MAX_RENDER_PIXELS: u64 = 2_073_600;

/// `k` is `sqrt(num / den)` rounded to the nearest integer (halves up).
pub open spec fn rounded_root(k: int, num: int, den: int) -> bool {
    &&& k == 0 || (2 * k - 1) * (2 * k - 1) * den <= 4 * num
    &&& 4 * num < (2 * k + 1) * (2 * k + 1) * den
}

/// One side of a target scaled to the pixel budget: `side * sqrt(MAX /
/// (side * other))` rounded, and at least 1.
pub open spec fn scaled_side_ok(out: int, side: int, other: int) -> bool {
    out >= 1 && (rounded_root(out, MAX_RENDER_PIXELS * side, other) || (out == 1 && rounded_root(
        0,
        MAX_RENDER_PIXELS * side,
        other,
    )))
}

proof fn lemma_odd_square_monotone(a: nat, b: nat, den: nat)
    requires
        a <= b,
    ensures
        (2 * a + 1) * (2 * a + 1) * den <= (2 * b + 1) * (2 * b + 1) * den,
{
    assert((2 * a + 1) * (2 * a + 1) <= (2 * b + 1) * (2 * b + 1)) by (nonlinear_arith)
        requires
            a <= b,
    ;
    assert((2 * a + 1) * (2 * a + 1) * den <= (2 * b + 1) * (2 * b + 1) * den) by (nonlinear_arith)
        requires
            (2 * a + 1) * (2 * a + 1) <= (2 * b + 1) * (2 * b + 1),
    ;
}

/// The nearest integer to `sqrt(MAX_RENDER_PIXELS * side / other)`.
fn scaled_side(side: u32, other: u32) -> (r: u32)
    requires
        side >= 1,
        other >= 1,
    ensures
        rounded_root(r as int, MAX_RENDER_PIXELS * side, other as int),
{
    let side128: u128 = side as u128;
    assert(8_294_400 * (side128 as int) <= 8_294_400 * 0xffff_ffff) by (nonlinear_arith)
        requires
            side128 <= 0xffff_ffff,
    ;
    let num: u128 = 8_294_400u128 * side128;
    let den: u128 = other as u128;
    assert(num <= 4 * 2_073_600 * 0xffff_ffff) by (nonlinear_arith)
        requires
            num == 4 * 2_073_600 * (side as int),
            side <= 0xffff_ffff,
    ;
    let mut lo: u128 = 0;
    let mut hi: u128 = 0x1000_0000;
    assert((2 * 0x1000_0000 + 1) * (2 * 0x1000_0000 + 1) * (den as int) > num as int) by (
    nonlinear_arith)
        requires
            den >= 1,
            num <= 4 * 2_073_600 * 0xffff_ffff,
    ;
    while lo < hi
        invariant
            lo <= hi <= 0x1000_0000,
            den >= 1,
            num == 4 * MAX_RENDER_PIXELS * side,
            den == other,
            num <= 4 * 2_073_600 * 0xffff_ffff,
            num < (2 * hi + 1) * (2 * hi + 1) * den,
            lo == 0 || (2 * lo - 1) * (2 * lo - 1) * den <= num,
        decreases hi - lo,
    {
        let mid: u128 = lo + (hi - lo) / 2;
        let odd: u128 = 2 * mid + 1;
        assert(odd * odd <= 0x2000_0001 * 0x2000_0001) by (nonlinear_arith)
            requires
                odd <= 0x2000_0001,
        ;
        let square: u128 = odd * odd;
        assert(square * den <= 0x2000_0001 * 0x2000_0001 * 0xffff_ffff) by (nonlinear_arith)
            requires
                square <= 0x2000_0001 * 0x2000_0001,
                den <= 0xffff_ffff,
        ;
        let bound: u128 = square * den;
        if num < bound {
            assert(num < (2 * mid + 1) * (2 * mid + 1) * den) by (nonlinear_arith)
                requires
                    odd == 2 * mid + 1,
                    square == odd * odd,
                    bound == square * den,
                    num < bound,
            ;
            hi = mid;
        } else {
            lo = mid + 1;
            assert((2 * lo - 1) * (2 * lo - 1) * den <= num) by (nonlinear_arith)
                requires
                    lo == mid + 1,
                    odd == 2 * mid + 1,
                    square == odd * odd,
                    bound == square * den,
                    bound <= num,
            ;
        }
    }
    lo as u32
}

/// The presentation interval of a 60 FPS frame, in nanoseconds.
pub const FRAME_INTERVAL_NS: u64 = 16_666_667;

/// The frame schedule after presenting a frame: the next deadline moves one
/// interval on; a renderer ahead of it sleeps until the deadline, and one
/// behind it restarts the schedule from now without sleeping. Returns the
/// sleep and the next deadline, in nanoseconds of a monotonic clock.
pub fn pace_frame(deadline_ns: u64, after_render_ns: u64) -> (r: (u64, u64))
    requires
        deadline_ns + FRAME_INTERVAL_NS <= u64::MAX,
    ensures
        deadline_ns + FRAME_INTERVAL_NS > after_render_ns ==> r == (
            (deadline_ns + FRAME_INTERVAL_NS - after_render_ns) as u64,
            (deadline_ns + FRAME_INTERVAL_NS) as u64,
        ),
        deadline_ns + FRAME_INTERVAL_NS <= after_render_ns ==> r == (0u64, after_render_ns),
{
    let next = deadline_ns + FRAME_INTERVAL_NS;
    if next > after_render_ns {
        (next - after_render_ns, next)
    } else {
        (0, after_render_ns)
    }
}

/// What a frame's window size asks of the surface and the render target.
#[derive(Clone, Copy, Debug, PartialEq, Eq, Structural)]
pub struct ResizePlan {
    /// The surface must be reconfigured to the window's size.
    pub surface_changed: bool,
    /// The render targets must be recreated at the target size.
    pub target_changed: bool,
    pub surface_width: u32,
    pub surface_height: u32,
    pub target_width: u32,
    pub target_height: u32,
}

/// The resize a window of `width` x `height` asks for, given the current
/// surface and render-target sizes; a window with a zero side (minimised)
/// asks for nothing.
pub fn plan_resize(width: u32, height: u32, surface: (u32, u32), target: (u32, u32)) -> (r: Option<
    ResizePlan,
>)
    ensures
        (width == 0 || height == 0) <==> r is None,
        r matches Some(plan) ==> {
            &&& plan.surface_width == width && plan.surface_height == height
            &&& is_performance_size(width, height, (plan.target_width, plan.target_height))
            &&& plan.surface_changed == ((width, height) != surface)
            &&& plan.target_changed == ((plan.target_width, plan.target_height) != target)
        },
{
    if width == 0 || height == 0 {
        return None;
    }
    let render = performance_render_size(width, height);
    Some(
        ResizePlan {
            surface_changed: width != surface.0 || height != surface.1,
            target_changed: render.0 != target.0 || render.1 != target.1,
            surface_width: width,
            surface_height: height,
            target_width: render.0,
            target_height: render.1,
        },
    )
}

/// What the surface handed back when a frame asked for its texture.
#[derive(Clone, Copy, Debug, PartialEq, Eq, Structural)]
pub enum SurfaceOutcome {
    Success,
    Suboptimal,
    Lost,
    Outdated,
    Timeout,
    Occluded,
    Validation,
}

/// What the renderer does about it.
#[derive(Clone, Copy, Debug, PartialEq, Eq, Structural)]
pub enum SurfaceAction {
    /// Draw and present the frame.
    Draw,
    /// Reconfigure the surface, then draw and present the frame.
    ReconfigureAndDraw,
    /// Recreate the lost surface and its render targets; skip the frame.
    Recreate,
    /// Reconfigure the surface and skip the frame.
    ReconfigureAndSkip,
    /// Skip the frame.
    Skip,
    /// Stop with an error: the GPU rejected the frame.
    Fail,
}

/// The renderer's response to each surface outcome: an out-of-date
/// surface is reconfigured, a lost one recreated, a busy or hidden one
/// skipped, and a validation failure ends the session.
pub fn surface_action(outcome: SurfaceOutcome) -> (r: SurfaceAction)
    ensures
        r == (match outcome {
            SurfaceOutcome::Success => SurfaceAction::Draw,
            SurfaceOutcome::Suboptimal => SurfaceAction::ReconfigureAndDraw,
            SurfaceOutcome::Lost => SurfaceAction::Recreate,
            SurfaceOutcome::Outdated => SurfaceAction::ReconfigureAndSkip,
            SurfaceOutcome::Timeout | SurfaceOutcome::Occluded => SurfaceAction::Skip,
            SurfaceOutcome::Validation => SurfaceAction::Fail,
        }),
{
    match outcome {
        SurfaceOutcome::Success => SurfaceAction::Draw,
        SurfaceOutcome::Suboptimal => SurfaceAction::ReconfigureAndDraw,
        SurfaceOutcome::Lost => SurfaceAction::Recreate,
        SurfaceOutcome::Outdated => SurfaceAction::ReconfigureAndSkip,
        SurfaceOutcome::Timeout | SurfaceOutcome::Occluded => SurfaceAction::Skip,
        SurfaceOutcome::Validation => SurfaceAction::Fail,
    }
}

/// `r` is the internal render size for a `width` x `height` surface.
pub open spec fn is_performance_size(width: u32, height: u32, r: (u32, u32)) -> bool {
    let w: int = if width == 0 {
        1
    } else {
        width as int
    };
    let h: int = if height == 0 {
        1
    } else {
        height as int
    };
    &&& w * h <= MAX_RENDER_PIXELS ==> r == (w as u32, h as u32)
    &&& w * h > MAX_RENDER_PIXELS ==> scaled_side_ok(r.0 as int, w, h) && scaled_side_ok(
        r.1 as int,
        h,
        w,
    )
}

/// The internal render size for a `width` x `height` surface: unchanged up
/// to 1920 x 1080 pixels, and otherwise scaled uniformly to that pixel
/// budget with each side rounded and at least 1. Zero sides count as 1.
pub fn performance_render_size(width: u32, height: u32) -> (r: (u32, u32))
    ensures
        is_performance_size(width, height, r),
{
    let width = if width == 0 {
        1
    } else {
        width
    };
    let height = if height == 0 {
        1
    } else {
        height
    };
    assert((width as int) * (height as int) <= 0xffff_ffff * 0xffff_ffff) by (nonlinear_arith)
        requires
            width <= 0xffff_ffff,
            height <= 0xffff_ffff,
    ;
    let pixels: u64 = (width as u64) * (height as u64);
    if pixels <= MAX_RENDER_PIXELS {
        return (width, height);
    }
    let w = scaled_side(width, height);
    let h = scaled_side(height, width);
    let w = if w == 0 {
        1
    } else {
        w
    };
    let h = if h == 0 {
        1
    } else {
        h
    };
    (w, h)
}

/// Exclusive ownership of the GPU renderer. A caller that timed out cannot
/// cancel a native driver call, so ownership stays with the worker until it
/// returns, and retries cannot pile up behind it.
pub struct RendererLease<'a> {
    active: &'a AtomicBool,
}

/// The message of a refused lease.
pub open spec fn busy_message() -> Seq<char> {
    "GPU_RENDERER_BUSY: the previous renderer is still running or finishing a GPU call. Wait for it to finish; if it remains stuck, close and reopen PulseBridge before retrying."@
}

impl<'a> RendererLease<'a> {
    /// The flag this lease holds; releasing the lease clears it.
    pub closed spec fn flag(&self) -> &'a AtomicBool {
        self.active
    }

    /// Takes the lease held in `active`; refused while another holder has it.
    /// Whether the flag was free is the atomic's state, which no contract
    /// here can read; an acquired lease holds `active` itself.
    pub fn try_acquire(active: &'a AtomicBool) -> (r: Result<Self, String>)
        ensures
            r matches Ok(lease) ==> lease.flag() == active,
            r matches Err(e) ==> e@ == busy_message(),
    {
        match active.compare_exchange(false, true, Ordering::AcqRel, Ordering::Acquire) {
            Ok(_) => Ok(RendererLease { active }),
            Err(_) => Err(
                owned(
                    "GPU_RENDERER_BUSY: the previous renderer is still running or finishing a GPU call. Wait for it to finish; if it remains stuck, close and reopen PulseBridge before retrying.",
                ),
            ),
        }
    }

    /// Takes the process-wide renderer lease held in `active`.
    pub fn acquire(active: &'a AtomicBool) -> (r: Result<Self, String>)
        ensures
            r matches Ok(lease) ==> lease.flag() == active,
            r matches Err(e) ==> e@ == busy_message(),
    {
        Self::try_acquire(active)
    }

    /// Gives the lease back: returns the flag the caller clears to free
    /// it.
    pub fn release(self) -> (flag: &'a AtomicBool)
        ensures
            flag == self.flag(),
    {
        self.active
    }
}

/// Whether the renderer still owes its starter the first-frame report.
#[derive(Clone, Copy, Debug, PartialEq, Eq, Structural)]
pub enum FirstFrame {
    Waiting,
    Reported,
}

/// What happened in the render loop: a frame was submitted (`true` when it
/// was presented), or the loop stopped.
#[derive(Clone, Copy, Debug, PartialEq, Eq, Structural)]
pub enum FrameEvent {
    Rendered(bool),
    Stopped,
}

/// What the render loop must tell its starter.
#[derive(Clone, Copy, Debug, PartialEq, Eq, Structural)]
pub enum FirstFrameReport {
    /// Nothing yet, or nothing any more.
    Nothing,
    /// The first frame was presented: the renderer is running, and the
    /// first-present stage passes with `first_frame_code`.
    Ready,
    /// The loop stopped before any frame was presented: the stage fails with
    /// `first_frame_timeout_code` and the starter gets
    /// `first_frame_timeout_message`.
    StoppedBeforeFirstFrame,
}

pub open spec fn spec_first_frame_step(state: FirstFrame, event: FrameEvent) -> (
    FirstFrame,
    FirstFrameReport,
) {
    match state {
        FirstFrame::Reported => (FirstFrame::Reported, FirstFrameReport::Nothing),
        FirstFrame::Waiting => match event {
            FrameEvent::Rendered(true) => (FirstFrame::Reported, FirstFrameReport::Ready),
            FrameEvent::Rendered(false) => (FirstFrame::Waiting, FirstFrameReport::Nothing),
            FrameEvent::Stopped => (FirstFrame::Reported, FirstFrameReport::StoppedBeforeFirstFrame),
        },
    }
}

/// The first-frame hand-off: the first presented frame reports the
/// renderer ready, a loop that stops before one reports the timeout, and
/// either is reported once.
pub fn first_frame_step(state: FirstFrame, event: FrameEvent) -> (r: (FirstFrame, FirstFrameReport))
    ensures
        r == spec_first_frame_step(state, event),
{
    match state {
        FirstFrame::Reported => (FirstFrame::Reported, FirstFrameReport::Nothing),
        FirstFrame::Waiting => match event {
            FrameEvent::Rendered(presented) => {
                if presented {
                    (FirstFrame::Reported, FirstFrameReport::Ready)
                } else {
                    (FirstFrame::Waiting, FirstFrameReport::Nothing)
                }
            },
            FrameEvent::Stopped => (FirstFrame::Reported, FirstFrameReport::StoppedBeforeFirstFrame),
        },
    }
}

/// The stage code of the first presented frame.
pub fn first_frame_code() -> (r: &'static str)
    ensures
        r@ == "GPU_FIRST_FRAME_PRESENTED"@,
{
    "GPU_FIRST_FRAME_PRESENTED"
}

/// The stage code of a renderer that stopped before its first frame.
pub fn first_frame_timeout_code() -> (r: &'static str)
    ensures
        r@ == "GPU_FIRST_FRAME_TIMEOUT"@,
{
    "GPU_FIRST_FRAME_TIMEOUT"
}

/// The error the starter receives when no frame was presented.
pub fn first_frame_timeout_message() -> (r: &'static str)
    ensures
        r@ == "Renderer stopped before the first valid performance frame"@,
{
    "Renderer stopped before the first valid performance frame"
}

/// The starter hears about the first frame exactly once: after a report
/// nothing more is reported, a report is only made while waiting, and the
/// timeout is only reported when the loop stopped without presenting.
pub proof fn law_first_frame_is_reported_once(state: FirstFrame, event: FrameEvent)
    ensures
        state == FirstFrame::Reported ==> spec_first_frame_step(state, event).1
            == FirstFrameReport::Nothing,
        spec_first_frame_step(state, event).1 != FirstFrameReport::Nothing ==> state
            == FirstFrame::Waiting && spec_first_frame_step(state, event).0
            == FirstFrame::Reported,
        spec_first_frame_step(state, event).1 == FirstFrameReport::Ready ==> event
            == FrameEvent::Rendered(true),
        spec_first_frame_step(state, event).1 == FirstFrameReport::StoppedBeforeFirstFrame
            ==> event == FrameEvent::Stopped,
{
}

} // verus!
