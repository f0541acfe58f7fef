//! The sidecar's command line and its main-loop decisions.

use crate::sidecar::types::TrackingState;
use crate::telemetry::sat_sub;
use std::path::PathBuf;
use vstd::prelude::*;

verus! {

#[verifier::external_type_specification]
#[verifier::external_body]
pub struct ExPathBuf(PathBuf);

/// Command-line options of the sidecar.
#[derive(Debug, Clone)]
pub struct Cli {
    pub camera_index: i32,
    pub width: u32,
    pub height: u32,
    pub fps: u32,
    pub trace_file: Option<PathBuf>,
    pub profile: Option<PathBuf>,
    /// Stop after this many frames; zero runs forever.
    pub max_frames: u64,
}

pub open spec fn frame_interval_ms_spec(fps: u32) -> u64 {
    (1000u64 / (if fps == 0 { 1u64 } else { fps as u64 })) as u64
}

/// Milliseconds per frame at the requested rate (a zero rate counts as one).
pub fn frame_interval_ms(fps: u32) -> (ms: u64)
    ensures
        ms == frame_interval_ms_spec(fps),
{
    let f: u64 = if fps == 0 { 1 } else { fps as u64 };
    1000 / f
}

/// Tracking memory and frame count of the sidecar's main loop.
#[derive(Debug, Clone, Copy, PartialEq, Eq, Structural)]
pub struct SidecarLoop {
    pub last_seen_ok_ms: u64,
    pub frame_id: u64,
}

impl SidecarLoop {
    /// A loop at frame zero that last saw a confident hand at `now_ms`.
    pub fn new(now_ms: u64) -> (l: SidecarLoop)
        ensures
            l == (SidecarLoop { last_seen_ok_ms: now_ms, frame_id: 0 }),
    {
        SidecarLoop { last_seen_ok_ms: now_ms, frame_id: 0 }
    }

    /// Whether a frame counts as lost: no confident frame for longer than the
    /// timeout, confidence below the unlock threshold, or no landmarks.
    pub fn observe(
        &mut self,
        ts_ms: u64,
        meets_lock: bool,
        below_unlock: bool,
        has_landmarks: bool,
        lost_timeout_ms: u64,
    ) -> (lost: bool)
        ensures
            final(self).last_seen_ok_ms == (if meets_lock { ts_ms } else { old(self).last_seen_ok_ms }),
            final(self).frame_id == old(self).frame_id,
            lost == (sat_sub(ts_ms, final(self).last_seen_ok_ms) > lost_timeout_ms || below_unlock
                || !has_landmarks),
    {
        if meets_lock {
            self.last_seen_ok_ms = ts_ms;
        }
        ts_ms.saturating_sub(self.last_seen_ok_ms) > lost_timeout_ms || below_unlock || !has_landmarks
    }

    /// Counts a finished frame; false once `max_frames` (when non-zero) have
    /// run.
    pub fn finish_frame(&mut self, max_frames: u64) -> (keep_running: bool)
        requires
            old(self).frame_id < u64::MAX,
        ensures
            final(self).frame_id == old(self).frame_id + 1,
            final(self).last_seen_ok_ms == old(self).last_seen_ok_ms,
            keep_running == !(max_frames > 0 && final(self).frame_id >= max_frames),
    {
        self.frame_id = self.frame_id + 1;
        !(max_frames > 0 && self.frame_id >= max_frames)
    }
}

/// State sent with a frame: lost, or a pause candidate when the palm looks
/// open, or tracking.
pub fn frame_tracking_state(lost: bool, open_palm_like: bool) -> (s: TrackingState)
    ensures
        s == (if lost {
            TrackingState::Lost
        } else if open_palm_like {
            TrackingState::PausedCandidate
        } else {
            TrackingState::Tracking
        }),
{
    if lost {
        TrackingState::Lost
    } else if open_palm_like {
        TrackingState::PausedCandidate
    } else {
        TrackingState::Tracking
    }
}

} // verus!
