use tracking_core::types::EventChannel;

#[test]
fn channels_use_the_documented_event_names() {
    assert_eq!(EventChannel::VisionStatus.name(), "vision_status");
    assert_eq!(EventChannel::TrackingStatus.name(), "tracking_status");
    assert_eq!(EventChannel::TrackingFrame.name(), "tracking_frame");
    assert_eq!(EventChannel::CameraPreview.name(), "camera_preview");
    assert_eq!(EventChannel::GestureHint.name(), "gesture_hint");
    assert_eq!(EventChannel::GestureDebug.name(), "gesture_debug");
    assert_eq!(EventChannel::HealthMetrics.name(), "health_metrics");
}
