//! The single-slot, latest-wins frame handoff between the capture
//! producer and the preview consumer.
//!
//! One `PreviewState` is live per capture session. The producer
//! publishes into it, the consumer drains it, and either side ends
//! the session by clearing `running`. The slot itself never blocks:
//! callers that wait do so around it, re-checking the flags at every
//! wake through the decision functions below, which is what bounds
//! shutdown latency to one poll interval.

use vstd::prelude::*;

use crate::frame::FrameData;

verus! {

/// The shared state of one capture session: at most one pending
/// frame, and the `running` flag that producer and consumer both
/// poll. Either side clears `running` to terminate the other.
#[derive(Debug)]
pub struct PreviewState {
    pub frame: Option<FrameData>,
    pub running: bool,
}

/// The slot after a publish: the new frame replaces whatever was
/// pending. Latest wins; nothing is queued.
pub open spec fn spec_publish(s: PreviewState, f: FrameData) -> PreviewState {
    PreviewState { frame: Some(f), running: s.running }
}

/// The slot and the delivered frame after a take: the pending frame,
/// if any, leaves the slot.
pub open spec fn spec_take(s: PreviewState) -> (PreviewState, Option<FrameData>) {
    (PreviewState { frame: None, running: s.running }, s.frame)
}

/// The slot after retirement: `running` is cleared so both session
/// threads observe shutdown at their next poll.
pub open spec fn spec_retire(s: PreviewState) -> PreviewState {
    PreviewState { frame: s.frame, running: false }
}

/// What a consumer blocked in `wait_for_frame` does at a wake.
#[derive(Clone, Copy, Debug, PartialEq, Eq, Structural)]
pub enum WaitOutcome {
    FrameReady,
    Shutdown,
    TimedOut,
    KeepWaiting,
}

/// The consumer's decision at a wake: shutdown beats everything, a
/// pending frame beats the timeout, and only a live session with an
/// empty slot and time to spare keeps waiting.
pub open spec fn wait_decision(s: PreviewState, timed_out: bool) -> WaitOutcome {
    if !s.running {
        WaitOutcome::Shutdown
    } else if s.frame is Some {
        WaitOutcome::FrameReady
    } else if timed_out {
        WaitOutcome::TimedOut
    } else {
        WaitOutcome::KeepWaiting
    }
}

/// What a producer under the wait-for-drain backpressure policy does
/// at one poll of the slot.
#[derive(Clone, Copy, Debug, PartialEq, Eq, Structural)]
pub enum DrainWait {
    Proceed,
    Poll,
    Abandon,
}

/// The producer's wait-for-drain decision: abandon the wait as soon
/// as the session is shutting down, proceed once the slot is empty,
/// and otherwise poll again after one short interval.
pub open spec fn drain_wait_decision(
    slot_occupied: bool,
    running: bool,
    stop_requested: bool,
) -> DrainWait {
    if !running || stop_requested {
        DrainWait::Abandon
    } else if !slot_occupied {
        DrainWait::Proceed
    } else {
        DrainWait::Poll
    }
}

impl Default for PreviewState {
    /// A fresh session slot: no pending frame, session running.
    fn default() -> (r: Self)
        ensures
            r.frame is None,
            r.running,
    {
        PreviewState { frame: None, running: true }
    }
}

impl PreviewState {
    /// Replaces any pending frame with `f`. The producer never
    /// blocks here: an unconsumed frame is overwritten, not queued.
    /// This is the overwrite backpressure policy, the one the
    /// capture session uses.
    pub fn publish(&mut self, f: FrameData)
        ensures
            *final(self) == spec_publish(*old(self), f),
    {
        self.frame = Some(f);
    }

    /// Removes and returns the pending frame, if any.
    pub fn take(&mut self) -> (r: Option<FrameData>)
        ensures
            *final(self) == spec_take(*old(self)).0,
            r == spec_take(*old(self)).1,
    {
        self.frame.take()
    }

    /// Marks the session as over; both threads observe this at their
    /// next poll and exit.
    pub fn retire(&mut self)
        ensures
            *final(self) == spec_retire(*old(self)),
    {
        self.running = false;
    }

    /// Whether a frame is pending.
    pub fn has_frame(&self) -> (r: bool)
        ensures
            r == (self.frame is Some),
    {
        self.frame.is_some()
    }

    /// The consumer's decision at one wake of its frame wait;
    /// `timed_out` says whether the wait's timeout has elapsed.
    pub fn wait_step(&self, timed_out: bool) -> (r: WaitOutcome)
        ensures
            r == wait_decision(*self, timed_out),
    {
        if !self.running {
            WaitOutcome::Shutdown
        } else if self.frame.is_some() {
            WaitOutcome::FrameReady
        } else if timed_out {
            WaitOutcome::TimedOut
        } else {
            WaitOutcome::KeepWaiting
        }
    }
}

/// The producer's decision at one poll of the wait-for-drain policy.
pub fn drain_wait_step(slot_occupied: bool, running: bool, stop_requested: bool) -> (r: DrainWait)
    ensures
        r == drain_wait_decision(slot_occupied, running, stop_requested),
{
    if !running || stop_requested {
        DrainWait::Abandon
    } else if !slot_occupied {
        DrainWait::Proceed
    } else {
        DrainWait::Poll
    }
}

/// Latest wins, totally: after two publishes with no intervening
/// take, a take delivers exactly the later frame; the earlier one is
/// never observed (unless the two frames are the same value).
pub proof fn lemma_latest_wins(s: PreviewState, a: FrameData, b: FrameData)
    ensures
        spec_take(spec_publish(spec_publish(s, a), b)).1 == Some(b),
        spec_take(spec_publish(spec_publish(s, a), b)).1 == Some(a) ==> a == b,
{
}

/// No handoff step can leave either side blocked once `running` is
/// false: the consumer's next wake reports shutdown rather than
/// waiting on, and a producer blocked in the wait-for-drain policy
/// abandons the wait at its next poll. Each blocked call therefore
/// returns within one poll interval of retirement.
pub proof fn lemma_shutdown_unblocks(s: PreviewState, timed_out: bool, stop_requested: bool)
    requires
        !s.running,
    ensures
        wait_decision(s, timed_out) is Shutdown,
        drain_wait_decision(s.frame is Some, s.running, stop_requested) is Abandon,
{
}

/// Retirement is permanent for a session: no publish or take brings
/// `running` back, so a retired slot stays retired until it is
/// replaced by a fresh one.
pub proof fn lemma_retire_is_final(s: PreviewState, f: FrameData)
    ensures
        !spec_publish(spec_retire(s), f).running,
        !spec_take(spec_retire(s)).0.running,
        !spec_retire(spec_retire(s)).running,
{
}

} // verus!
