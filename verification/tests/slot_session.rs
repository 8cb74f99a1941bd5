//! Tests of the frame slot handoff and of the session controller.

use liteview::frame::FrameData;
use liteview::scale::Resolution;
use liteview::session::{
    get_capture_targets, CaptureError, CaptureState, TargetInfo, TargetKind,
};
use liteview::settings::default_show_cursor;
use liteview::slot::{drain_wait_step, DrainWait, PreviewState, WaitOutcome};

fn frame(tag: u32) -> FrameData {
    FrameData { width: 1, height: 1, buffer: vec![tag] }
}

#[test]
fn latest_publish_wins() {
    let mut slot = PreviewState::default();
    slot.publish(frame(1));
    slot.publish(frame(2));
    let taken = slot.take().unwrap();
    assert_eq!(taken.buffer, vec![2]);
    assert!(slot.take().is_none());
}

#[test]
fn take_empties_the_slot_only() {
    let mut slot = PreviewState::default();
    assert!(slot.take().is_none());
    slot.publish(frame(7));
    assert!(slot.has_frame());
    let _ = slot.take();
    assert!(!slot.has_frame());
    assert!(slot.running);
}

#[test]
fn wait_step_priorities() {
    let mut slot = PreviewState::default();
    slot.publish(frame(1));
    assert_eq!(slot.wait_step(true), WaitOutcome::FrameReady);
    let _ = slot.take();
    assert_eq!(slot.wait_step(true), WaitOutcome::TimedOut);
    assert_eq!(slot.wait_step(false), WaitOutcome::KeepWaiting);
    slot.publish(frame(2));
    slot.retire();
    assert_eq!(slot.wait_step(false), WaitOutcome::Shutdown);
}

#[test]
fn drain_wait_abandons_on_shutdown() {
    assert_eq!(drain_wait_step(true, false, false), DrainWait::Abandon);
    assert_eq!(drain_wait_step(false, false, false), DrainWait::Abandon);
    assert_eq!(drain_wait_step(true, true, true), DrainWait::Abandon);
    assert_eq!(drain_wait_step(false, true, false), DrainWait::Proceed);
    assert_eq!(drain_wait_step(true, true, false), DrainWait::Poll);
}

#[test]
fn start_retires_the_prior_session() {
    let mut cs = CaptureState::default();
    let (_, retired) = cs.start_capture(None, true, true).unwrap();
    assert!(retired.is_none());
    // Leave a frame pending in the first session's slot.
    cs.preview_state.as_mut().unwrap().publish(frame(3));
    let (_, retired) = cs.start_capture(None, true, true).unwrap();
    let old_slot = retired.unwrap();
    assert!(!old_slot.running);
    // The new slot is fresh: empty and running.
    let new_slot = cs.preview_state.as_ref().unwrap();
    assert!(new_slot.running);
    assert!(new_slot.frame.is_none());
    assert!(!cs.stop_requested);
}

#[test]
fn start_snapshots_settings() {
    let mut cs = CaptureState::default();
    cs.set_capture_settings(30, "720p", Some(4), false).unwrap();
    let (plan, _) = cs.start_capture(None, true, true).unwrap();
    assert_eq!(plan.fps, 30);
    assert_eq!(plan.target_fps, 30);
    assert_eq!(plan.resolution, Resolution::P720);
    assert_eq!(plan.target_index, Some(4));
    assert!(!plan.show_cursor);
    // An explicit target wins over the configured one.
    let (plan, _) = cs.start_capture(Some(1), true, true).unwrap();
    assert_eq!(plan.target_index, Some(1));
}

#[test]
fn start_requires_support_and_permission() {
    let mut cs = CaptureState::default();
    assert_eq!(
        cs.start_capture(None, false, true).unwrap_err(),
        CaptureError::UnsupportedPlatform
    );
    assert_eq!(
        cs.start_capture(None, true, false).unwrap_err(),
        CaptureError::PermissionDenied
    );
    assert!(cs.preview_state.is_none());
}

#[test]
fn stop_is_idempotent() {
    let mut cs = CaptureState::default();
    let _ = cs.start_capture(None, true, true).unwrap();
    let retired = cs.stop_capture();
    assert!(!retired.unwrap().running);
    assert!(cs.stop_requested);
    assert!(cs.preview_state.is_none());
    assert!(cs.stop_capture().is_none());
    assert!(cs.stop_requested);
}

#[test]
fn settings_fps_is_clamped() {
    let mut cs = CaptureState::default();
    cs.set_capture_settings(200, "captured", None, true).unwrap();
    assert_eq!(cs.settings.fps, 120);
    cs.set_capture_settings(0, "captured", None, true).unwrap();
    assert_eq!(cs.settings.fps, 1);
    cs.set_capture_settings(60, "captured", None, true).unwrap();
    assert_eq!(cs.settings.fps, 60);
}

#[test]
fn invalid_resolution_is_rejected_with_settings_intact() {
    let mut cs = CaptureState::default();
    cs.set_capture_settings(30, "1080p", Some(2), false).unwrap();
    let err = cs.set_capture_settings(90, "8k", None, true).unwrap_err();
    assert_eq!(err, CaptureError::InvalidSettings);
    assert_eq!(cs.settings.fps, 30);
    assert_eq!(cs.settings.resolution, "1080p");
    assert_eq!(cs.settings.target_index, Some(2));
    assert!(!cs.settings.show_cursor);
}

#[test]
fn resolution_names_match_without_regard_to_case() {
    let mut cs = CaptureState::default();
    cs.set_capture_settings(60, "720P", None, true).unwrap();
    assert_eq!(cs.settings.resolution, "720p");
    cs.set_capture_settings(60, "CAPTURED", None, true).unwrap();
    assert_eq!(cs.settings.resolution, "captured");
}

#[test]
fn settings_snapshot_matches() {
    let mut cs = CaptureState::default();
    cs.set_capture_settings(45, "1440p", Some(1), false).unwrap();
    let snap = cs.get_capture_settings();
    assert_eq!(snap.fps, 45);
    assert_eq!(snap.resolution, "1440p");
    assert_eq!(snap.target_index, Some(1));
    assert!(!snap.show_cursor);
}

#[test]
fn default_settings() {
    let cs = CaptureState::default();
    assert_eq!(cs.settings.fps, 60);
    assert_eq!(cs.settings.resolution, "captured");
    assert!(cs.settings.target_index.is_none());
    assert!(cs.settings.show_cursor);
    assert!(default_show_cursor());
}

#[test]
fn error_messages_are_for_people() {
    assert_eq!(
        CaptureError::UnsupportedPlatform.message(),
        "Screen capture is not supported on this system."
    );
    assert_eq!(
        CaptureError::PermissionDenied.message(),
        "Screen capture permission was denied."
    );
    assert_eq!(CaptureError::InvalidSettings.message(), "Invalid resolution");
    assert_eq!(
        CaptureError::SourceOpenFailure.message(),
        "Could not open the capture source."
    );
    assert_eq!(
        CaptureError::SourceReadFailure.message(),
        "The capture source stopped delivering frames."
    );
}

#[test]
fn targets_require_support_and_permission() {
    assert_eq!(
        get_capture_targets(false, true, vec![]).unwrap_err(),
        CaptureError::UnsupportedPlatform
    );
    assert_eq!(
        get_capture_targets(true, false, vec![]).unwrap_err(),
        CaptureError::PermissionDenied
    );
}

#[test]
fn targets_are_indexed_in_enumeration_order() {
    let targets = vec![
        TargetInfo { id: 11, title: "Main display".to_owned(), kind: TargetKind::Display },
        TargetInfo { id: 42, title: "Editor".to_owned(), kind: TargetKind::Window },
    ];
    let dtos = get_capture_targets(true, true, targets).unwrap();
    assert_eq!(dtos.len(), 2);
    assert_eq!(dtos[0].index, 0);
    assert_eq!(dtos[0].id, 11);
    assert_eq!(dtos[0].title, "Main display");
    assert_eq!(dtos[0].kind, "display");
    assert_eq!(dtos[1].index, 1);
    assert_eq!(dtos[1].kind, "window");
}
