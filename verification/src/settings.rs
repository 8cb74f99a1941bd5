//! Capture settings: the user-facing configuration a session
//! snapshots when it starts, and its validation.

use vstd::prelude::*;

use crate::ascii::{eq_ignore_ascii_case, matches_ci};

verus! {

/// The capture rate used when nothing is configured.
pub const DEFAULT_CAPTURE_FPS: u32 = 60;

/// The configured delivery rate is held to this range.
pub const MIN_CAPTURE_FPS: u32 = 1;

/// The configured delivery rate is held to this range.
pub const MAX_CAPTURE_FPS: u32 = 120;

/// Whether the cursor is captured when nothing is configured.
pub fn default_show_cursor() -> (r: bool)
    ensures
        r,
{
    true
}

/// The process-wide capture configuration. It is read once by each
/// session at its start: a session works on a snapshot, and changing
/// the settings mid-session affects only the next start.
#[derive(Debug)]
pub struct CaptureSettings {
    pub fps: u32,
    pub resolution: String,
    pub target_index: Option<usize>,
    pub show_cursor: bool,
}

/// A requested rate held to the accepted range.
pub open spec fn clamped_fps(fps: u32) -> u32 {
    if fps < MIN_CAPTURE_FPS {
        MIN_CAPTURE_FPS
    } else if fps > MAX_CAPTURE_FPS {
        MAX_CAPTURE_FPS
    } else {
        fps
    }
}

/// Holds a requested rate to the accepted range.
pub fn clamp_fps(fps: u32) -> (r: u32)
    ensures
        r == clamped_fps(fps),
{
    if fps < MIN_CAPTURE_FPS {
        MIN_CAPTURE_FPS
    } else if fps > MAX_CAPTURE_FPS {
        MAX_CAPTURE_FPS
    } else {
        fps
    }
}

/// The stored, lower-case form of a user-supplied resolution name,
/// or nothing when the name is not one the pipeline knows. Matching
/// ignores ASCII case, as the names are typed by people.
pub open spec fn canonical_resolution(s: Seq<char>) -> Option<Seq<char>> {
    if matches_ci(s, "captured"@) {
        Some("captured"@)
    } else if matches_ci(s, "480p"@) {
        Some("480p"@)
    } else if matches_ci(s, "720p"@) {
        Some("720p"@)
    } else if matches_ci(s, "1080p"@) {
        Some("1080p"@)
    } else if matches_ci(s, "1440p"@) {
        Some("1440p"@)
    } else if matches_ci(s, "2160p"@) {
        Some("2160p"@)
    } else if matches_ci(s, "4320p"@) {
        Some("4320p"@)
    } else {
        None
    }
}

/// Validates a user-supplied resolution name and returns the form
/// that is stored.
pub fn canonicalize_resolution(s: &str) -> (r: Option<String>)
    ensures
        r is Some <==> canonical_resolution(s@) is Some,
        r matches Some(c) ==> Some(c@) == canonical_resolution(s@),
{
    if eq_ignore_ascii_case(s, "captured") {
        Some("captured".to_owned())
    } else if eq_ignore_ascii_case(s, "480p") {
        Some("480p".to_owned())
    } else if eq_ignore_ascii_case(s, "720p") {
        Some("720p".to_owned())
    } else if eq_ignore_ascii_case(s, "1080p") {
        Some("1080p".to_owned())
    } else if eq_ignore_ascii_case(s, "1440p") {
        Some("1440p".to_owned())
    } else if eq_ignore_ascii_case(s, "2160p") {
        Some("2160p".to_owned())
    } else if eq_ignore_ascii_case(s, "4320p") {
        Some("4320p".to_owned())
    } else {
        None
    }
}

impl Default for CaptureSettings {
    /// The configuration used until a stored one is loaded: full
    /// rate, frames at their captured size, the primary target,
    /// cursor shown.
    fn default() -> (r: Self)
        ensures
            r.fps == DEFAULT_CAPTURE_FPS,
            r.resolution@ == "captured"@,
            r.target_index is None,
            r.show_cursor,
    {
        CaptureSettings {
            fps: DEFAULT_CAPTURE_FPS,
            resolution: "captured".to_owned(),
            target_index: None,
            show_cursor: true,
        }
    }
}

impl Clone for CaptureSettings {
    /// A field-for-field copy; sessions snapshot the settings with
    /// it.
    fn clone(&self) -> (r: Self)
        ensures
            r.fps == self.fps,
            r.resolution@ == self.resolution@,
            r.target_index == self.target_index,
            r.show_cursor == self.show_cursor,
    {
        CaptureSettings {
            fps: self.fps,
            resolution: self.resolution.clone(),
            target_index: self.target_index,
            show_cursor: self.show_cursor,
        }
    }
}

} // verus!
