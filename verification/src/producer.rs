//! The capture producer's per-tick decisions: live-frame detection,
//! rate limiting, normalization and scaling of one captured frame,
//! and the session lifecycle it runs under.
//!
//! The producer loop itself runs on a capture thread around the
//! platform source; everything it decides is here, as functions from
//! observed state to the next action.

use vstd::prelude::*;

use crate::frame::FrameData;
use crate::normalize::{frame_to_buffer, normalized_pixels, normalizes, CapturedFrame};
use crate::scale::{
    base_width, resize_frame, resolution_target_size, scaled_buffer, target_height, Resolution,
};

verus! {

/// How long a "get next frame" call must take before the frame is
/// judged live rather than drained from the source's backlog. The
/// threshold is a heuristic and may need revalidation per platform;
/// the classifier below therefore takes it as an argument.
pub const LIVE_FRAME_THRESHOLD_US: u64 = 5000;

/// One million microseconds to the second.
pub const MICROS_PER_SECOND: u64 = 1000000;

/// Whether a capture call of the given latency returned a live frame:
/// only a call that blocked longer than the threshold is evidence
/// that the source's buffered backlog was exhausted.
pub open spec fn is_live_latency(elapsed_us: u64, threshold_us: u64) -> bool {
    elapsed_us > threshold_us
}

/// Classifies one "get next frame" call by its wall-clock latency.
/// A call faster than the threshold is assumed to have returned a
/// stale buffered frame, which the drain loop discards in favor of
/// the next call; a slower call ends the drain and its frame is
/// delivered.
pub fn classify_capture_latency(elapsed_us: u64, threshold_us: u64) -> (live: bool)
    ensures
        live == is_live_latency(elapsed_us, threshold_us),
{
    elapsed_us > threshold_us
}

/// The producer loop keeps going only while the session is running
/// and no graceful stop has been requested.
pub open spec fn session_active(running: bool, stop_requested: bool) -> bool {
    running && !stop_requested
}

/// The loop guard of the capture thread.
pub fn should_continue(running: bool, stop_requested: bool) -> (r: bool)
    ensures
        r == session_active(running, stop_requested),
{
    running && !stop_requested
}

/// A retired or stop-requested session never keeps its producer
/// looping: the guard fails at the very next check, so the thread
/// exits within one poll interval of retirement.
pub proof fn lemma_retired_producer_stops(running: bool, stop_requested: bool)
    requires
        !running || stop_requested,
    ensures
        !session_active(running, stop_requested),
{
}

/// The minimum spacing of delivered frames for a target rate:
/// one second divided by the rate, with a rate below one read as one.
pub open spec fn spec_frame_interval_us(fps: u32) -> int {
    MICROS_PER_SECOND as int / (if fps < 1 {
        1int
    } else {
        fps as int
    })
}

/// Microseconds that must separate two delivered frames at `fps`.
pub fn frame_interval_us(fps: u32) -> (r: u64)
    ensures
        r == spec_frame_interval_us(fps),
{
    let target_fps = if fps < 1 {
        1
    } else {
        fps
    };
    MICROS_PER_SECOND / (target_fps as u64)
}

/// Whether the throttle lets a frame through: enough time has passed
/// since the last delivery. Frames arriving faster are dropped, never
/// queued, so a burst above the rate costs nothing later.
pub open spec fn throttle_passes(now_us: u64, last_push_us: u64, interval_us: u64) -> bool {
    now_us - last_push_us >= interval_us
}

/// What the pipeline delivers for one captured frame when it
/// delivers at all: the normalized frame, scaled when the session
/// asks for a resolution class other than `Captured`.
pub open spec fn tick_output_matches(c: CapturedFrame, res: Resolution, f: FrameData) -> bool {
    let pixels = normalized_pixels(c.layout, c.data@);
    if res is Captured {
        f.width == c.width && f.height == c.height && f.buffer@ == pixels
    } else {
        let tw = base_width(res) as u32;
        let th = target_height(res, c.width, c.height) as u32;
        f.width == tw && f.height == th && f.buffer@ == scaled_buffer(
            pixels,
            c.width,
            c.height,
            tw,
            th,
        )
    }
}

/// One tick of the capture pipeline: normalize the captured frame,
/// apply the delivery-rate throttle, and scale to the session's
/// resolution class.
///
/// Nothing is delivered for a frame that does not normalize (a torn
/// buffer or unknown layout is skipped silently) or that arrives
/// before the throttle interval has elapsed; otherwise the delivered
/// frame is the normalized, optionally scaled image, and the caller
/// records `now_us` as the new last delivery time.
///
/// `last_push_us <= now_us` holds for any caller reading a monotonic
/// clock, which is what delivery times come from.
pub fn producer_tick(
    captured: &CapturedFrame,
    res: Resolution,
    now_us: u64,
    last_push_us: u64,
    interval_us: u64,
) -> (r: Option<FrameData>)
    requires
        last_push_us <= now_us,
    ensures
        r is Some <==> normalizes(captured.layout, captured.data@, captured.width, captured.height)
            && throttle_passes(now_us, last_push_us, interval_us),
        r matches Some(f) ==> tick_output_matches(*captured, res, f) && f.wf(),
{
    let normalized = match frame_to_buffer(captured) {
        None => {
            return None;
        },
        Some(f) => f,
    };
    if now_us - last_push_us < interval_us {
        return None;
    }
    match resolution_target_size(res, normalized.width, normalized.height) {
        None => Some(normalized),
        Some((tw, th)) => {
            let buffer = resize_frame(
                normalized.width,
                normalized.height,
                normalized.buffer.as_slice(),
                tw,
                th,
            );
            Some(FrameData { width: tw, height: th, buffer })
        },
    }
}

/// The capture session's lifecycle phases, from idle through an
/// attempt to open the source, a running capture, and its teardown.
#[derive(Clone, Copy, Debug, PartialEq, Eq, Structural)]
pub enum SessionPhase {
    Idle,
    Initializing,
    Running,
    Stopping,
    Failed,
}

/// What can happen to a capture session.
#[derive(Clone, Copy, Debug, PartialEq, Eq, Structural)]
pub enum SessionEvent {
    StartRequested,
    SourceOpened,
    SourceOpenFailed,
    StopObserved,
    SourceReadFailed,
    FailureReported,
    Exited,
}

/// The session lifecycle: a start moves an idle session into
/// initialization; opening the source either begins the capture or
/// fails the session; a running capture winds down when it observes a
/// stop or a read error; a failure returns to idle once reported, and
/// is never retried on its own. Any other event leaves the phase
/// where it is.
pub open spec fn session_transition(phase: SessionPhase, event: SessionEvent) -> SessionPhase {
    match (phase, event) {
        (SessionPhase::Idle, SessionEvent::StartRequested) => SessionPhase::Initializing,
        (SessionPhase::Initializing, SessionEvent::SourceOpened) => SessionPhase::Running,
        (SessionPhase::Initializing, SessionEvent::SourceOpenFailed) => SessionPhase::Failed,
        (SessionPhase::Running, SessionEvent::StopObserved) => SessionPhase::Stopping,
        (SessionPhase::Running, SessionEvent::SourceReadFailed) => SessionPhase::Stopping,
        (SessionPhase::Stopping, SessionEvent::Exited) => SessionPhase::Idle,
        (SessionPhase::Failed, SessionEvent::FailureReported) => SessionPhase::Idle,
        _ => phase,
    }
}

/// Advances the session lifecycle by one event.
pub fn session_step(phase: SessionPhase, event: SessionEvent) -> (r: SessionPhase)
    ensures
        r == session_transition(phase, event),
{
    match (phase, event) {
        (SessionPhase::Idle, SessionEvent::StartRequested) => SessionPhase::Initializing,
        (SessionPhase::Initializing, SessionEvent::SourceOpened) => SessionPhase::Running,
        (SessionPhase::Initializing, SessionEvent::SourceOpenFailed) => SessionPhase::Failed,
        (SessionPhase::Running, SessionEvent::StopObserved) => SessionPhase::Stopping,
        (SessionPhase::Running, SessionEvent::SourceReadFailed) => SessionPhase::Stopping,
        (SessionPhase::Stopping, SessionEvent::Exited) => SessionPhase::Idle,
        (SessionPhase::Failed, SessionEvent::FailureReported) => SessionPhase::Idle,
        (p, _) => p,
    }
}

} // verus!
