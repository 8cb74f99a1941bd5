//! The session controller: the one place that starts and stops
//! capture sessions, owns the live frame slot, and guards the
//! process-wide settings.

use vstd::prelude::*;

use crate::scale::{resolution_from_str, resolution_of, Resolution};
use crate::settings::{canonical_resolution, canonicalize_resolution, clamp_fps, clamped_fps,
    CaptureSettings};
use crate::slot::{spec_retire, PreviewState};

verus! {

/// Everything that can fail around a capture session. A message for
/// the UI layer comes from [`CaptureError::message`]; no failure is
/// retried on its own.
#[derive(Clone, Copy, Debug, PartialEq, Eq, Structural)]
pub enum CaptureError {
    UnsupportedPlatform,
    PermissionDenied,
    InvalidSettings,
    SourceOpenFailure,
    SourceReadFailure,
}

/// The human-readable reason each failure surfaces to the UI.
pub open spec fn message_of(e: CaptureError) -> Seq<char> {
    match e {
        CaptureError::UnsupportedPlatform => "Screen capture is not supported on this system."@,
        CaptureError::PermissionDenied => "Screen capture permission was denied."@,
        CaptureError::InvalidSettings => "Invalid resolution"@,
        CaptureError::SourceOpenFailure => "Could not open the capture source."@,
        CaptureError::SourceReadFailure => "The capture source stopped delivering frames."@,
    }
}

impl CaptureError {
    /// The reason as a string for the UI layer, which only displays
    /// it.
    pub fn message(&self) -> (r: String)
        ensures
            r@ == message_of(*self),
    {
        match self {
            CaptureError::UnsupportedPlatform => {
                "Screen capture is not supported on this system.".to_owned()
            },
            CaptureError::PermissionDenied => "Screen capture permission was denied.".to_owned(),
            CaptureError::InvalidSettings => "Invalid resolution".to_owned(),
            CaptureError::SourceOpenFailure => "Could not open the capture source.".to_owned(),
            CaptureError::SourceReadFailure => {
                "The capture source stopped delivering frames.".to_owned()
            },
        }
    }
}

/// What a capturable target is: a whole display or a single window.
#[derive(Clone, Copy, Debug, PartialEq, Eq, Structural)]
pub enum TargetKind {
    Display,
    Window,
}

/// One capturable on-screen entity, as enumerated by the platform:
/// an opaque id and a human-readable title.
#[derive(Debug)]
pub struct TargetInfo {
    pub id: u32,
    pub title: String,
    pub kind: TargetKind,
}

/// One enumerated target as handed to the UI: its position in the
/// enumeration, which later selects it, plus id, title and kind.
#[derive(Debug)]
pub struct TargetDto {
    pub index: usize,
    pub id: u32,
    pub title: String,
    pub kind: String,
}

/// The kind names the UI receives.
pub open spec fn kind_name(k: TargetKind) -> Seq<char> {
    match k {
        TargetKind::Display => "display"@,
        TargetKind::Window => "window"@,
    }
}

/// Turns an enumeration of capturable targets into the list the UI
/// shows, or the reason there is none: capture must be supported on
/// this host and permitted by the user before targets exist at all.
pub fn get_capture_targets(supported: bool, permitted: bool, targets: Vec<TargetInfo>) -> (r:
    Result<Vec<TargetDto>, CaptureError>)
    ensures
        !supported ==> r == Err::<Vec<TargetDto>, _>(CaptureError::UnsupportedPlatform),
        supported && !permitted ==> r == Err::<Vec<TargetDto>, _>(CaptureError::PermissionDenied),
        supported && permitted ==> (r matches Ok(dtos) && dtos@.len() == targets@.len()
            && forall|i: int|
            0 <= i < targets@.len() ==> {
                &&& (#[trigger] dtos@[i]).index == i
                &&& dtos@[i].id == targets@[i].id
                &&& dtos@[i].title@ == targets@[i].title@
                &&& dtos@[i].kind@ == kind_name(targets@[i].kind)
            }),
{
    if !supported {
        return Err(CaptureError::UnsupportedPlatform);
    }
    if !permitted {
        return Err(CaptureError::PermissionDenied);
    }
    let mut dtos: Vec<TargetDto> = Vec::new();
    let mut i: usize = 0;
    while i < targets.len()
        invariant
            i <= targets@.len(),
            dtos@.len() == i,
            forall|j: int|
                0 <= j < i ==> {
                    &&& (#[trigger] dtos@[j]).index == j
                    &&& dtos@[j].id == targets@[j].id
                    &&& dtos@[j].title@ == targets@[j].title@
                    &&& dtos@[j].kind@ == kind_name(targets@[j].kind)
                },
        decreases targets@.len() - i,
    {
        let t = &targets[i];
        let kind = match t.kind {
            TargetKind::Display => "display".to_owned(),
            TargetKind::Window => "window".to_owned(),
        };
        dtos.push(TargetDto { index: i, id: t.id, title: t.title.clone(), kind });
        i = i + 1;
    }
    Ok(dtos)
}

/// The controller's state: the stop flag a graceful shutdown sets,
/// the slot of the currently active session if one is active, and
/// the settings.
#[derive(Debug)]
pub struct CaptureState {
    pub stop_requested: bool,
    pub preview_state: Option<PreviewState>,
    pub settings: CaptureSettings,
}

/// Everything a capture session snapshots from the settings at its
/// start; mid-session settings changes do not reach a running
/// session.
#[derive(Debug)]
pub struct SessionPlan {
    pub fps: u32,
    pub target_fps: u32,
    pub resolution: Resolution,
    pub target_index: Option<usize>,
    pub show_cursor: bool,
}

/// The controller state after a stop: stop requested, no active
/// slot, settings untouched.
pub open spec fn spec_stop(s: CaptureState) -> CaptureState {
    CaptureState { stop_requested: true, preview_state: None, settings: s.settings }
}

impl Default for CaptureState {
    /// A controller with no session active and default settings.
    fn default() -> (r: Self)
        ensures
            !r.stop_requested,
            r.preview_state is None,
            r.settings.fps == crate::settings::DEFAULT_CAPTURE_FPS,
            r.settings.resolution@ == "captured"@,
            r.settings.target_index is None,
            r.settings.show_cursor,
    {
        CaptureState {
            stop_requested: false,
            preview_state: None,
            settings: CaptureSettings::default(),
        }
    }
}

impl CaptureState {
    /// A copy of the current settings, for display in the UI.
    pub fn get_capture_settings(&self) -> (r: CaptureSettings)
        ensures
            r.fps == self.settings.fps,
            r.resolution@ == self.settings.resolution@,
            r.target_index == self.settings.target_index,
            r.show_cursor == self.settings.show_cursor,
    {
        self.settings.clone()
    }

    /// Replaces the settings with validated values: the rate is held
    /// to the accepted range, and the resolution name must be one
    /// the pipeline knows, matched without regard to ASCII case and
    /// stored in its lower-case form. An unknown name is rejected
    /// with every prior setting intact. The caller persists the new
    /// settings after a successful update.
    pub fn set_capture_settings(
        &mut self,
        fps: u32,
        resolution: &str,
        target_index: Option<usize>,
        show_cursor: bool,
    ) -> (r: Result<(), CaptureError>)
        ensures
            canonical_resolution(resolution@) is None ==> r == Err::<(), _>(
                CaptureError::InvalidSettings,
            ) && *final(self) == *old(self),
            canonical_resolution(resolution@) matches Some(stored) ==> {
                &&& r == Ok::<_, CaptureError>(())
                &&& final(self).settings.fps == clamped_fps(fps)
                &&& final(self).settings.resolution@ == stored
                &&& final(self).settings.target_index == target_index
                &&& final(self).settings.show_cursor == show_cursor
                &&& final(self).stop_requested == old(self).stop_requested
                &&& final(self).preview_state == old(self).preview_state
            },
    {
        let stored = match canonicalize_resolution(resolution) {
            None => {
                return Err(CaptureError::InvalidSettings);
            },
            Some(s) => s,
        };
        self.settings = CaptureSettings {
            fps: clamp_fps(fps),
            resolution: stored,
            target_index,
            show_cursor,
        };
        Ok(())
    }

    /// Starts a capture session.
    ///
    /// Capture must be supported and permitted, or the matching
    /// error comes back with the controller untouched. On success
    /// any prior session's slot is retired, so its threads observe
    /// shutdown at their next poll, a fresh empty slot is installed
    /// for the new session, the stop flag is cleared, and the
    /// returned plan snapshots the settings: the configured rate
    /// (floored to one for pacing), the parsed resolution class, the
    /// cursor choice, and the requested target, falling back to the
    /// configured one.
    pub fn start_capture(
        &mut self,
        target_index: Option<usize>,
        supported: bool,
        permitted: bool,
    ) -> (r: Result<(SessionPlan, Option<PreviewState>), CaptureError>)
        ensures
            !supported ==> (r matches Err(e) && e == CaptureError::UnsupportedPlatform
                && *final(self) == *old(self)),
            supported && !permitted ==> (r matches Err(e) && e == CaptureError::PermissionDenied
                && *final(self) == *old(self)),
            supported && permitted ==> (r matches Ok(ok) && {
                let (plan, retired) = ok;
                &&& !final(self).stop_requested
                &&& final(self).settings == old(self).settings
                &&& final(self).preview_state matches Some(fresh) && fresh.frame is None
                    && fresh.running
                &&& (old(self).preview_state matches Some(prior) ==> retired == Some(
                    spec_retire(prior),
                ))
                &&& (old(self).preview_state is None ==> retired is None)
                &&& plan.fps == old(self).settings.fps
                &&& plan.target_fps == (if old(self).settings.fps < 1 {
                    1u32
                } else {
                    old(self).settings.fps
                })
                &&& plan.resolution == resolution_of(old(self).settings.resolution@)
                &&& plan.target_index == (if target_index is Some {
                    target_index
                } else {
                    old(self).settings.target_index
                })
                &&& plan.show_cursor == old(self).settings.show_cursor
            }),
    {
        if !supported {
            return Err(CaptureError::UnsupportedPlatform);
        }
        if !permitted {
            return Err(CaptureError::PermissionDenied);
        }
        self.stop_requested = false;
        let retired = match self.preview_state.take() {
            Some(mut prior) => {
                prior.retire();
                Some(prior)
            },
            None => None,
        };
        self.preview_state = Some(PreviewState::default());
        let plan = SessionPlan {
            fps: self.settings.fps,
            target_fps: if self.settings.fps < 1 {
                1
            } else {
                self.settings.fps
            },
            resolution: resolution_from_str(self.settings.resolution.as_str()),
            target_index: match target_index {
                Some(i) => Some(i),
                None => self.settings.target_index,
            },
            show_cursor: self.settings.show_cursor,
        };
        Ok((plan, retired))
    }

    /// Requests a graceful stop: sets the stop flag and retires the
    /// active session's slot, if any, returning it so its waiters
    /// can be woken. Safe to call with no session active.
    pub fn stop_capture(&mut self) -> (r: Option<PreviewState>)
        ensures
            *final(self) == spec_stop(*old(self)),
            old(self).preview_state matches Some(prior) ==> r == Some(spec_retire(prior)),
            old(self).preview_state is None ==> r is None,
    {
        self.stop_requested = true;
        match self.preview_state.take() {
            Some(mut prior) => {
                prior.retire();
                Some(prior)
            },
            None => None,
        }
    }
}

/// Stopping is idempotent: a second stop finds nothing left to do
/// and leaves the controller exactly where the first one did.
pub proof fn lemma_stop_idempotent(s: CaptureState)
    ensures
        spec_stop(spec_stop(s)) == spec_stop(s),
{
}

/// Starting a new session while one is active retires the prior one:
/// the slot handed back is the prior slot with `running` cleared, so
/// the prior session's producer fails its loop guard at its next
/// check and exits within one poll interval, even if the consumer
/// never drains the old slot again.
pub proof fn lemma_start_retires_prior(prior: PreviewState, stop_requested: bool)
    ensures
        !spec_retire(prior).running,
        !crate::producer::session_active(spec_retire(prior).running, stop_requested),
{
}

} // verus!
