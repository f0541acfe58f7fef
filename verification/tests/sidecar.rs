use tracking_core::gestures::CursorUpdate;
use tracking_core::sidecar::config::{frame_interval_ms, frame_tracking_state, SidecarLoop};
use tracking_core::sidecar::gestures::{
    SidecarGestureMachine, SidecarPose, SidecarReadings, SidecarTiming,
};
use tracking_core::sidecar::health::{SidecarHealth, SidecarHealthReport};
use tracking_core::sidecar::pipeline::{MockShape, MockThumb, MockTracker};
use tracking_core::sidecar::types::{ControlType, TrackingState};

fn timing() -> SidecarTiming {
    SidecarTiming {
        move_pose_hold_ms: 70,
        pause_hold_ms: 180,
        double_click_window_ms: 280,
    }
}

fn base_hand() -> SidecarPose {
    SidecarPose::from_readings(Some(SidecarReadings {
        index_extended: true,
        middle_extended: true,
        ring_extended: false,
        pinky_extended: false,
        thumb_spread: true,
        pinch: false,
    }))
}

fn with_pinch(mut p: SidecarPose) -> SidecarPose {
    p.pinch = true;
    p
}

fn with_open_palm() -> SidecarPose {
    SidecarPose::from_readings(Some(SidecarReadings {
        index_extended: true,
        middle_extended: true,
        ring_extended: true,
        pinky_extended: true,
        thumb_spread: true,
        pinch: false,
    }))
}

#[test]
fn move_activation_uses_debounce() {
    let mut eng = SidecarGestureMachine::new(timing());
    let lm = base_hand();
    let first = eng.process(0, lm);
    assert_eq!(first.activation, None);
    assert_eq!(first.click, None);
    assert!(!first.pause_request);
    let after = eng.process(80, lm);
    assert_eq!(after.activation, Some(ControlType::MoveActiveOn));
}

#[test]
fn pinch_begin_generates_click() {
    let mut eng = SidecarGestureMachine::new(timing());
    let lm = base_hand();
    let _ = eng.process(100, lm);
    let _ = eng.process(180, lm);
    let out = eng.process(200, with_pinch(lm));
    assert_eq!(out.click, Some(ControlType::Click));
}

#[test]
fn double_click_window() {
    let mut eng = SidecarGestureMachine::new(timing());
    let lm = base_hand();
    let _ = eng.process(100, with_pinch(lm));
    let _ = eng.process(130, lm);
    let out = eng.process(300, with_pinch(lm));
    assert_eq!(out.click, Some(ControlType::DoubleClick));
}

#[test]
fn open_palm_emits_pause() {
    let mut eng = SidecarGestureMachine::new(timing());
    let op = with_open_palm();
    let _ = eng.process(100, op);
    let out = eng.process(290, op);
    assert!(out.pause_request);
    assert!(!eng.process(600, op).pause_request);
}

#[test]
fn sidecar_tracks_the_pointer_only_while_moving() {
    let mut eng = SidecarGestureMachine::new(timing());
    let lm = base_hand();
    assert_eq!(eng.process(0, lm).cursor, CursorUpdate::Clear);
    assert_eq!(eng.process(80, lm).cursor, CursorUpdate::Track);
    let off = eng.process(90, with_open_palm());
    assert_eq!(off.activation, Some(ControlType::MoveActiveOff));
    assert_eq!(off.cursor, CursorUpdate::Clear);
    assert_eq!(eng.process(100, lm).activation, None);
    assert_eq!(eng.process(170, lm).activation, Some(ControlType::MoveActiveOn));
    assert_eq!(eng.reset_on_lost(), Some(ControlType::MoveActiveOff));
    assert_eq!(eng.reset_on_lost(), None);
    let none = SidecarPose::from_readings(None);
    assert!(!none.two_finger && !none.open_palm && !none.pinch);
}

#[test]
fn sidecar_mock_schedule() {
    let t = MockTracker::new();
    assert_eq!(t.shape(430), MockShape::Dropped);
    assert_eq!(
        t.shape(40),
        MockShape::Hand {
            open_palm: false,
            thumb: MockThumb::TightPinch
        }
    );
    assert_eq!(
        t.shape(57),
        MockShape::Hand {
            open_palm: false,
            thumb: MockThumb::LoosePinch
        }
    );
    assert_eq!(
        t.shape(560),
        MockShape::Hand {
            open_palm: true,
            thumb: MockThumb::Spread
        }
    );
    assert_eq!(
        t.shape(1),
        MockShape::Hand {
            open_palm: false,
            thumb: MockThumb::Rest
        }
    );
}

#[test]
fn sidecar_health_keeps_lifetime_counts() {
    let mut h = SidecarHealth::new();
    h.on_frame(true, false);
    h.on_frame(false, true);
    assert_eq!(
        h.maybe_emit(1_000),
        Some(SidecarHealthReport {
            ts_ms: 1_000,
            in_count: 2,
            out_count: 1,
            dropped_frames: 1
        })
    );
    h.on_frame(true, false);
    assert_eq!(h.maybe_emit(1_500), None);
    assert_eq!(h.maybe_emit(2_000).map(|r| r.in_count), Some(3));
}

#[test]
fn sidecar_loop_decisions() {
    assert_eq!(frame_interval_ms(0), 1000);
    assert_eq!(frame_interval_ms(30), 33);
    let mut l = SidecarLoop::new(1_000);
    assert!(!l.observe(1_100, true, false, true, 250));
    assert!(l.observe(1_400, false, false, true, 250));
    assert!(l.observe(1_410, true, true, true, 250));
    assert!(l.observe(1_420, true, false, false, 250));
    assert!(l.finish_frame(2));
    assert!(!l.finish_frame(2));
    assert_eq!(frame_tracking_state(true, true), TrackingState::Lost);
    assert_eq!(frame_tracking_state(false, true), TrackingState::PausedCandidate);
    assert_eq!(frame_tracking_state(false, false), TrackingState::Tracking);
}
