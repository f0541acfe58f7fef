//! Status and mode vocabulary shared by the runtime and its consumers.

use vstd::prelude::*;

verus! {

/// Tracker confidence state reported to the UI.
#[derive(Debug, Clone, Copy, PartialEq, Eq, Structural)]
pub enum TrackingStatus {
    Tracking,
    Lost,
    LowConfidence,
    Calibrating,
}

/// Vision pipeline lifecycle state reported to the UI.
#[derive(Debug, Clone, Copy, PartialEq, Eq, Structural)]
pub enum VisionStatus {
    LoadingModel,
    LoadingCamera,
    Ready,
    Running,
    Paused,
    Stopped,
}

/// Control mode of the gesture engine.
#[derive(Debug, Clone, Copy, PartialEq, Eq, Structural)]
pub enum ControlMode {
    /// Gestures do nothing until an open palm is held.
    Inactive,
    /// Two-finger slides move the pointer.
    Move,
    /// Pointer is held still; pinches click.
    Clutch,
}

/// A camera preview frame, JPEG data encoded in Base64.
#[derive(Debug, Clone, PartialEq)]
pub struct CameraPreview {
    pub ts_ms: u64,
    pub frame_id: u64,
    pub jpeg_base64: String,
}


/// The user-interface channels that runtime events are published on; the
/// diagnostics dump records each event under the same name.
#[derive(Debug, Clone, Copy, PartialEq, Eq, Structural)]
pub enum EventChannel {
    VisionStatus,
    TrackingStatus,
    TrackingFrame,
    CameraPreview,
    GestureHint,
    /// Control intents.
    GestureDebug,
    HealthMetrics,
}

pub open spec fn channel_name_spec(c: EventChannel) -> Seq<char> {
    match c {
        EventChannel::VisionStatus => "vision_status"@,
        EventChannel::TrackingStatus => "tracking_status"@,
        EventChannel::TrackingFrame => "tracking_frame"@,
        EventChannel::CameraPreview => "camera_preview"@,
        EventChannel::GestureHint => "gesture_hint"@,
        EventChannel::GestureDebug => "gesture_debug"@,
        EventChannel::HealthMetrics => "health_metrics"@,
    }
}

impl EventChannel {
    /// The channel's wire name.
    pub fn name(&self) -> (n: &'static str)
        ensures
            n@ == channel_name_spec(*self),
    {
        match self {
            EventChannel::VisionStatus => "vision_status",
            EventChannel::TrackingStatus => "tracking_status",
            EventChannel::TrackingFrame => "tracking_frame",
            EventChannel::CameraPreview => "camera_preview",
            EventChannel::GestureHint => "gesture_hint",
            EventChannel::GestureDebug => "gesture_debug",
            EventChannel::HealthMetrics => "health_metrics",
        }
    }
}

} // verus!
