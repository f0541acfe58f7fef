use tracking_core::config::{CameraSettings, VisionBackend};
use tracking_core::engine::{
    decimal_string, plan_frame, plan_tick, signed_decimal_string, stop_engine,
    tracker_command_args, tracker_settings_changed, warmup_state,
    FrameObservation, GestureAction, StatusUpdate, TickEvent, TrackerSettings, TrackingMonitor,
    WarmupState,
};
use tracking_core::gestures::{
    FingerReadings, GestureMachine, GestureSignal, GestureTiming, PoseSignals, VerticalSlide,
};
use tracking_core::types::ControlMode;
use tracking_core::types::TrackingStatus;

fn default_tracker() -> TrackerSettings {
    TrackerSettings {
        vision_backend: VisionBackend::PythonMediapipe,
        python_executable: "python".to_string(),
        mediapipe_script_path: Some("vision/mediapipe_tracker.py".to_string()),
        camera: CameraSettings {
            camera_index: 0,
            camera_width: 1280,
            camera_height: 720,
            camera_fps: 30,
        },
    }
}

#[test]
fn tracker_restart_scope_is_limited_to_vision_settings() {
    let current = default_tracker();
    let gesture_only = current.clone();
    assert!(!tracker_settings_changed(&current, &gesture_only));

    let mut camera_change = current.clone();
    camera_change.camera.camera_index += 1;
    assert!(tracker_settings_changed(&default_tracker(), &camera_change));

    let mut script_change = current.clone();
    script_change.mediapipe_script_path = None;
    assert!(tracker_settings_changed(&current, &script_change));
    let mut exe_change = current.clone();
    exe_change.python_executable = "python3".to_string();
    assert!(tracker_settings_changed(&current, &exe_change));
    let mut backend_change = current.clone();
    backend_change.vision_backend = VisionBackend::Mock;
    assert!(tracker_settings_changed(&current, &backend_change));
}

#[test]
fn warmup_classifies_frames() {
    assert_eq!(warmup_state(true, Some(21)), WarmupState::NoFrame);
    assert_eq!(warmup_state(false, Some(21)), WarmupState::HandVisible);
    assert_eq!(warmup_state(false, Some(20)), WarmupState::FrameAvailable);
    assert_eq!(warmup_state(false, None), WarmupState::FrameAvailable);
}

fn seen(lock: bool, below_unlock: bool) -> FrameObservation {
    FrameObservation {
        has_landmarks: true,
        meets_lock: lock,
        below_unlock,
    }
}

fn missing() -> FrameObservation {
    FrameObservation {
        has_landmarks: false,
        meets_lock: false,
        below_unlock: true,
    }
}

#[test]
fn emits_tracking_status_on_changes_only() {
    let mut m = TrackingMonitor::new();
    let first = m.observe(10, seen(true, false), 700);
    assert_eq!(first.status, TrackingStatus::Tracking);
    assert!(first.emit_status);
    assert!(!m.observe(43, seen(true, false), 700).emit_status);
    let low = m.observe(76, seen(false, true), 700);
    assert_eq!(low.status, TrackingStatus::LowConfidence);
    assert!(low.emit_status);
}

#[test]
fn lost_status_waits_for_timeout_and_reset_for_grace() {
    let mut m = TrackingMonitor::new();
    let _ = m.observe(1_000, seen(true, false), 700);
    let gap = m.observe(1_700, missing(), 700);
    assert_eq!(gap.status, TrackingStatus::LowConfidence);
    let lost = m.observe(1_701, missing(), 700);
    assert_eq!(lost.status, TrackingStatus::Lost);
    assert!(lost.emit_status);
    assert!(!lost.reset_gestures);
    assert_eq!(m.lost_since_ms, Some(1_701));
    assert!(!m.observe(2_600, missing(), 700).reset_gestures);
    assert!(m.observe(2_601, missing(), 700).reset_gestures);
    let back = m.observe(2_700, seen(true, false), 700);
    assert_eq!(back.status, TrackingStatus::Tracking);
    assert_eq!(m.lost_since_ms, None);
    m.release();
    assert_eq!(m, TrackingMonitor::new());
}

#[test]
fn frame_plans_process_or_reset() {
    let mut m = TrackingMonitor::new();
    let u = m.observe(10, seen(true, false), 700);
    let p = plan_frame(u, Some(21));
    assert!(p.emit_hint_and_frame);
    assert_eq!(p.gestures, GestureAction::Process);
    let p = plan_frame(u, Some(5));
    assert!(!p.emit_hint_and_frame);
    assert_eq!(p.gestures, GestureAction::Idle);
    let _ = m.observe(2_000, missing(), 700);
    let reset = m.observe(3_000, missing(), 700);
    assert!(reset.reset_gestures);
    assert_eq!(plan_frame(reset, None).gestures, GestureAction::ResetOnLost);
}

#[test]
fn paused_tick_sends_preview_and_hint_only() {
    let update = StatusUpdate {
        status: TrackingStatus::Tracking,
        emit_status: true,
        reset_gestures: false,
    };
    let paused = plan_tick(true, Some(21), None);
    assert_eq!(paused.events, vec![TickEvent::CameraPreview, TickEvent::GestureHint]);
    assert_eq!(paused.gestures, GestureAction::Idle);
    let paused_partial = plan_tick(false, Some(5), None);
    assert!(paused_partial.events.is_empty());
    let running = plan_tick(true, Some(21), Some(update));
    assert_eq!(
        running.events,
        vec![
            TickEvent::CameraPreview,
            TickEvent::TrackingStatus,
            TickEvent::ControlIntents,
            TickEvent::GestureHint,
            TickEvent::TrackingFrame,
        ]
    );
    assert_eq!(running.gestures, GestureAction::Process);
}

#[test]
fn lost_tick_resets_gestures_after_the_grace() {
    let lost = StatusUpdate {
        status: TrackingStatus::Lost,
        emit_status: false,
        reset_gestures: true,
    };
    let plan = plan_tick(false, None, Some(lost));
    assert_eq!(plan.events, vec![TickEvent::ControlIntents]);
    assert_eq!(plan.gestures, GestureAction::ResetOnLost);
    let waiting = plan_tick(false, None, Some(StatusUpdate { reset_gestures: false, ..lost }));
    assert!(waiting.events.is_empty());
    assert_eq!(waiting.gestures, GestureAction::Idle);
}

#[test]
fn stop_turns_control_off_and_forgets_tracking() {
    let timing = GestureTiming {
        hold_to_control_ms: 70,
        clutch_enter_ms: 70,
        click_cooldown_ms: 160,
    };
    let open = FingerReadings {
        index_extended: true,
        middle_extended: true,
        ring_extended: true,
        pinky_extended: true,
        index_curled: false,
        middle_curled: false,
        ring_curled: false,
        pinky_curled: false,
        index_down: false,
        middle_down: false,
        ring_down: false,
        pinky_down: false,
        pinch_index: false,
        pinch_middle: false,
        index_pinch_not_farther: false,
        index_middle_close: false,
        vertical_slide: VerticalSlide::Still,
    };
    let mut g = GestureMachine::new(timing);
    let _ = g.process(0, Some(PoseSignals::from_readings(&open)));
    let _ = g.process(100, Some(PoseSignals::from_readings(&open)));
    assert_eq!(g.control_mode, ControlMode::Clutch);
    let mut monitor = TrackingMonitor::new();
    let _ = monitor.observe(
        10,
        FrameObservation { has_landmarks: true, meets_lock: true, below_unlock: false },
        700,
    );
    let out = stop_engine(&mut g, &mut monitor);
    assert_eq!(out, vec![GestureSignal::ControlOff]);
    assert_eq!(g.control_mode, ControlMode::Inactive);
    assert_eq!(monitor, TrackingMonitor::new());
    assert!(stop_engine(&mut g, &mut monitor).is_empty());
}

#[test]
fn tracker_command_line_carries_camera_settings() {
    let mut t = default_tracker();
    t.camera.camera_width = 640;
    t.camera.camera_height = 480;
    t.camera.camera_fps = 60;
    t.camera.camera_index = 2;
    assert_eq!(
        tracker_command_args(&t),
        vec![
            "vision/mediapipe_tracker.py", "--camera-index", "2", "--width", "640", "--height",
            "480", "--fps", "60", "--preview-every", "3",
        ]
    );
    t.mediapipe_script_path = None;
    t.camera.camera_index = -1;
    let args = tracker_command_args(&t);
    assert_eq!(args[0], "vision/mediapipe_tracker.py");
    assert_eq!(args[2], "-1");
    t.mediapipe_script_path = Some("custom.py".to_string());
    assert_eq!(tracker_command_args(&t)[0], "custom.py");
}

#[test]
fn decimal_strings_match_std_formatting() {
    for n in [0u64, 7, 10, 99, 100, 1280, u64::MAX] {
        assert_eq!(decimal_string(n), n.to_string());
    }
    for i in [0i32, -1, 42, i32::MIN, i32::MAX] {
        assert_eq!(signed_decimal_string(i), i.to_string());
    }
}
