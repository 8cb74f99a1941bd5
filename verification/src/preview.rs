//! The preview consumer's decisions: lazy creation and lifecycle of
//! the output surface, redraw and texture management, the rolling
//! frames-per-second figure, and the byte expansion used to upload a
//! frame to the surface.
//!
//! The consumer runs as one persistent loop on a display-refresh
//! cadence; the windowing and GPU calls it drives live outside the
//! library, steered by the functions here.

use vstd::prelude::*;

use crate::producer::MICROS_PER_SECOND;
use crate::slot::PreviewState;

verus! {

/// The lifecycle of the output surface: none exists until the first
/// frame of a session arrives, then it tracks the frame size, and it
/// closes when the session ends or the user closes the window.
#[derive(Clone, Copy, Debug, PartialEq, Eq, Structural)]
pub enum SurfaceState {
    NoSurface,
    SurfaceAt { width: u32, height: u32 },
    Closed,
}

/// What the consumer does on one wake of its poll loop.
#[derive(Clone, Copy, Debug, PartialEq, Eq, Structural)]
pub enum PollAction {
    Exit,
    CreateSurface { width: u32, height: u32 },
    RequestRedraw,
    Idle,
}

/// The consumer's decision on one poll wake, given whether the
/// session still runs and the dimensions of a pending frame, if any.
/// A dead session exits; the first pending frame of a session
/// creates the surface at that frame's size; later pending frames
/// ask for a redraw; with nothing pending the consumer idles until
/// its next wake, one refresh interval away.
pub open spec fn poll_decision(
    surface: SurfaceState,
    running: bool,
    pending: Option<(u32, u32)>,
) -> PollAction {
    if !running {
        PollAction::Exit
    } else {
        match surface {
            SurfaceState::NoSurface => match pending {
                Some(dims) => PollAction::CreateSurface { width: dims.0, height: dims.1 },
                None => PollAction::Idle,
            },
            SurfaceState::SurfaceAt { .. } => if pending is Some {
                PollAction::RequestRedraw
            } else {
                PollAction::Idle
            },
            SurfaceState::Closed => PollAction::Idle,
        }
    }
}

/// The surface state after the poll's action is carried out.
pub open spec fn poll_transition(
    surface: SurfaceState,
    running: bool,
    pending: Option<(u32, u32)>,
) -> SurfaceState {
    match poll_decision(surface, running, pending) {
        PollAction::Exit => SurfaceState::Closed,
        PollAction::CreateSurface { width, height } => SurfaceState::SurfaceAt { width, height },
        _ => surface,
    }
}

/// One wake of the consumer's poll loop: returns the action to carry
/// out and the surface state after it.
pub fn poll_step(surface: SurfaceState, running: bool, pending: Option<(u32, u32)>) -> (r: (
    SurfaceState,
    PollAction,
))
    ensures
        r.1 == poll_decision(surface, running, pending),
        r.0 == poll_transition(surface, running, pending),
{
    if !running {
        (SurfaceState::Closed, PollAction::Exit)
    } else {
        match surface {
            SurfaceState::NoSurface => match pending {
                Some((width, height)) => (
                    SurfaceState::SurfaceAt { width, height },
                    PollAction::CreateSurface { width, height },
                ),
                None => (surface, PollAction::Idle),
            },
            SurfaceState::SurfaceAt { .. } => {
                if pending.is_some() {
                    (surface, PollAction::RequestRedraw)
                } else {
                    (surface, PollAction::Idle)
                }
            },
            SurfaceState::Closed => (surface, PollAction::Idle),
        }
    }
}

/// The user closing the preview window ends the session: `running`
/// is cleared so the producer stops promptly rather than capturing
/// into a slot nobody drains, and the surface is gone.
pub fn handle_close(slot: &mut PreviewState, surface: SurfaceState) -> (r: SurfaceState)
    ensures
        !final(slot).running,
        final(slot).frame == old(slot).frame,
        r is Closed,
{
    slot.retire();
    SurfaceState::Closed
}

/// The surface after an external resize: a live surface follows the
/// new size, but a degenerate size (a minimized window reports zero)
/// is ignored rather than applied.
pub open spec fn resize_transition(surface: SurfaceState, width: u32, height: u32) -> SurfaceState {
    if surface is SurfaceAt && width > 0 && height > 0 {
        SurfaceState::SurfaceAt { width, height }
    } else {
        surface
    }
}

/// Applies an external resize of the output surface.
pub fn handle_resize(surface: SurfaceState, width: u32, height: u32) -> (r: SurfaceState)
    ensures
        r == resize_transition(surface, width, height),
{
    if width > 0 && height > 0 {
        match surface {
            SurfaceState::SurfaceAt { .. } => SurfaceState::SurfaceAt { width, height },
            _ => surface,
        }
    } else {
        surface
    }
}

/// Whether the upload texture must be recreated before a frame of
/// `width` by `height` can be uploaded: only when no texture exists
/// yet or the frame size changed between publishes.
pub fn needs_new_texture(current: Option<(u32, u32)>, width: u32, height: u32) -> (r: bool)
    ensures
        r == (current != Some((width, height))),
{
    match current {
        None => true,
        Some((w, h)) => w != width || h != height,
    }
}

/// The packed pixels of a frame expanded to the four-byte form the
/// output surface takes: red, green, blue, opaque alpha, in that
/// order for each pixel.
pub fn frame_rgba_bytes(pixels: &[u32]) -> (r: Vec<u8>)
    ensures
        r@.len() == 4 * pixels@.len(),
        forall|i: int|
            0 <= i < pixels@.len() ==> {
                &&& r@[4 * i] == ((pixels@[i] >> 16) & 0xFF) as u8
                &&& r@[4 * i + 1] == ((pixels@[i] >> 8) & 0xFF) as u8
                &&& r@[4 * i + 2] == (pixels@[i] & 0xFF) as u8
                &&& r@[4 * i + 3] == 255u8
            },
{
    let mut out: Vec<u8> = Vec::new();
    let n = pixels.len();
    let mut i: usize = 0;
    while i < n
        invariant
            n == pixels@.len(),
            i <= n,
            out@.len() == 4 * i,
            forall|j: int|
                0 <= j < i ==> {
                    &&& out@[4 * j] == ((pixels@[j] >> 16) & 0xFF) as u8
                    &&& out@[4 * j + 1] == ((pixels@[j] >> 8) & 0xFF) as u8
                    &&& out@[4 * j + 2] == (pixels@[j] & 0xFF) as u8
                    &&& out@[4 * j + 3] == 255u8
                },
        decreases n - i,
    {
        let px = pixels[i];
        out.push(((px >> 16) & 0xFF) as u8);
        out.push(((px >> 8) & 0xFF) as u8);
        out.push((px & 0xFF) as u8);
        out.push(255);
        i = i + 1;
    }
    out
}

/// The rolling frames-per-second figure: frames counted only on
/// ticks that delivered a new one, reported once a full second of
/// window has elapsed.
#[derive(Debug)]
pub struct FpsCounter {
    pub frame_count: u32,
    pub window_start_us: u64,
}

/// The counter after one tick's delivery is recorded: the first
/// delivered frame opens a fresh one-second window, and each further
/// one is counted.
pub open spec fn counted(c: FpsCounter, delivered: bool, now_us: u64) -> FpsCounter {
    if !delivered {
        c
    } else if c.frame_count == 0 {
        FpsCounter { frame_count: 1, window_start_us: now_us }
    } else if c.frame_count < u32::MAX {
        FpsCounter { frame_count: (c.frame_count + 1) as u32, window_start_us: c.window_start_us }
    } else {
        c
    }
}

/// Whether a counter is due to report: its window spans at least one
/// second and at least one frame was delivered in it.
pub open spec fn report_due(c: FpsCounter, now_us: u64) -> bool {
    now_us - c.window_start_us >= MICROS_PER_SECOND && c.frame_count > 0
}

/// The figure a due counter reports: frames per full second of the
/// actual window.
pub open spec fn fps_figure(c: FpsCounter, now_us: u64) -> int {
    c.frame_count * MICROS_PER_SECOND / (now_us - c.window_start_us)
}

impl Default for FpsCounter {
    /// A counter with nothing delivered yet.
    fn default() -> (r: Self)
        ensures
            r.frame_count == 0,
            r.window_start_us == 0,
    {
        FpsCounter { frame_count: 0, window_start_us: 0 }
    }
}

impl FpsCounter {
    /// Records one consumer tick and reports the rolling figure when
    /// a full window has elapsed, resetting the window.
    ///
    /// `window_start_us <= now_us` holds for any caller reading a
    /// monotonic clock.
    pub fn tick(&mut self, delivered: bool, now_us: u64) -> (r: Option<u64>)
        requires
            old(self).window_start_us <= now_us,
        ensures
            ({
                let c = counted(*old(self), delivered, now_us);
                if report_due(c, now_us) {
                    &&& r == Some(fps_figure(c, now_us) as u64)
                    &&& final(self).frame_count == 0
                    &&& final(self).window_start_us == now_us
                } else {
                    &&& r is None
                    &&& *final(self) == c
                }
            }),
    {
        if delivered {
            if self.frame_count == 0 {
                self.frame_count = 1;
                self.window_start_us = now_us;
            } else if self.frame_count < u32::MAX {
                self.frame_count = self.frame_count + 1;
            }
        }
        let elapsed = now_us - self.window_start_us;
        if elapsed >= MICROS_PER_SECOND && self.frame_count > 0 {
            let fps = (self.frame_count as u64) * MICROS_PER_SECOND / elapsed;
            self.frame_count = 0;
            self.window_start_us = now_us;
            Some(fps)
        } else {
            None
        }
    }
}

} // verus!
