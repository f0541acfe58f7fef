use tracking_core::gestures::{
    can_fire, hint_label, scroll_mode_active, CursorUpdate, FingerReadings, GestureMachine, GestureSignal,
    GestureTiming, HintLabel, PoseSignals, VerticalSlide,
};
use tracking_core::types::ControlMode;

fn default_timing() -> GestureTiming {
    GestureTiming {
        hold_to_control_ms: 70,
        clutch_enter_ms: 70,
        click_cooldown_ms: 160,
    }
}

fn readings(extended: [bool; 4], curled: [bool; 4]) -> FingerReadings {
    FingerReadings {
        index_extended: extended[0],
        middle_extended: extended[1],
        ring_extended: extended[2],
        pinky_extended: extended[3],
        index_curled: curled[0],
        middle_curled: curled[1],
        ring_curled: curled[2],
        pinky_curled: curled[3],
        index_down: false,
        middle_down: false,
        ring_down: false,
        pinky_down: false,
        pinch_index: false,
        pinch_middle: false,
        index_pinch_not_farther: false,
        index_middle_close: false,
        vertical_slide: VerticalSlide::Still,
    }
}

/// All four fingers up, thumb away.
fn open_palm_hand() -> Option<PoseSignals> {
    Some(PoseSignals::from_readings(&readings(
        [true, true, true, true],
        [false, false, false, false],
    )))
}

/// Index and middle up, ring and pinky curled.
fn two_finger_hand() -> Option<PoseSignals> {
    Some(PoseSignals::from_readings(&readings(
        [true, true, false, false],
        [false, false, true, true],
    )))
}

/// Every finger curled.
fn closed_hand() -> Option<PoseSignals> {
    Some(PoseSignals::from_readings(&readings(
        [false, false, false, false],
        [true, true, true, true],
    )))
}

/// Every finger pointing down without a fist.
fn hand_down_open_hand() -> Option<PoseSignals> {
    let mut r = readings([false, false, false, false], [false, false, false, false]);
    r.index_down = true;
    r.middle_down = true;
    r.ring_down = true;
    r.pinky_down = true;
    Some(PoseSignals::from_readings(&r))
}

/// Open palm with the thumb on the index tip.
fn left_pinch_open_hand() -> Option<PoseSignals> {
    let mut r = readings([true, true, true, true], [false, false, false, false]);
    r.pinch_index = true;
    r.index_pinch_not_farther = true;
    Some(PoseSignals::from_readings(&r))
}

/// Open palm with the thumb on the middle tip.
fn right_pinch_open_hand() -> Option<PoseSignals> {
    let mut r = readings([true, true, true, true], [false, false, false, false]);
    r.pinch_middle = true;
    Some(PoseSignals::from_readings(&r))
}

/// Two-finger pose with the thumb on the index tip.
fn two_finger_pinch_hand() -> Option<PoseSignals> {
    let mut r = readings([true, true, false, false], [false, false, true, true]);
    r.pinch_index = true;
    r.index_pinch_not_farther = true;
    Some(PoseSignals::from_readings(&r))
}

/// Two-finger pose with the index and middle tips together, sliding as given.
fn scroll_hand(slide: VerticalSlide) -> Option<PoseSignals> {
    let mut r = readings([true, true, false, false], [false, false, true, true]);
    r.index_middle_close = true;
    r.vertical_slide = slide;
    Some(PoseSignals::from_readings(&r))
}

fn has(step: &[GestureSignal], s: GestureSignal) -> bool {
    step.iter().any(|x| *x == s)
}

#[test]
fn open_palm_hold_enables_control() {
    let mut g = GestureMachine::new(default_timing());
    let lm = open_palm_hand();
    assert!(g.process(0, lm).intents.is_empty());
    let out = g.process(100, lm);
    assert!(has(&out.intents, GestureSignal::ControlOn));
}

#[test]
fn two_finger_does_not_start_control_by_itself() {
    let mut g = GestureMachine::new(default_timing());
    let lm = two_finger_hand();
    let _ = g.process(0, lm);
    let out = g.process(120, lm);
    assert!(!has(&out.intents, GestureSignal::ControlOn));
}

#[test]
fn index_pinch_generates_left_click() {
    let mut g = GestureMachine::new(default_timing());
    let lm_open = open_palm_hand();
    let _ = g.process(0, lm_open);
    let _ = g.process(100, lm_open);
    let out = g.process(140, left_pinch_open_hand());
    assert!(has(&out.intents, GestureSignal::LeftClick));
    assert!(!has(&out.intents, GestureSignal::ClutchOff));
}

#[test]
fn middle_pinch_generates_right_click() {
    let mut g = GestureMachine::new(default_timing());
    let lm_open = open_palm_hand();
    let _ = g.process(0, lm_open);
    let _ = g.process(100, lm_open);
    let out = g.process(140, right_pinch_open_hand());
    assert!(has(&out.intents, GestureSignal::RightClick));
    assert!(!has(&out.intents, GestureSignal::ClutchOff));
}

#[test]
fn two_finger_slide_generates_cursor_move() {
    let mut g = GestureMachine::new(default_timing());
    let lm = open_palm_hand();
    let _ = g.process(0, lm);
    let _ = g.process(100, lm);
    let lm = two_finger_hand();
    let _ = g.process(120, lm);
    let _ = g.process(200, lm);
    let anchor = g.process(240, lm);
    assert_eq!(anchor.cursor, CursorUpdate::Track);
    // The slid index tip comes within the scroll-mode distance of the middle
    // tip, but its vertical motion stays inside the scroll deadzone.
    let out = g.process(280, scroll_hand(VerticalSlide::Still));
    assert_eq!(out.cursor, CursorUpdate::Track);
    assert!(out.intents.is_empty());
}

#[test]
fn closed_palm_stops_control() {
    let mut g = GestureMachine::new(default_timing());
    let lm_open = open_palm_hand();
    let _ = g.process(0, lm_open);
    let out_on = g.process(100, lm_open);
    assert!(has(&out_on.intents, GestureSignal::ControlOn));
    let lm_closed = closed_hand();
    assert!(lm_closed.unwrap().closed_palm_pose);
    let _ = g.process(140, lm_closed);
    let out = g.process(330, lm_closed);
    assert!(has(&out.intents, GestureSignal::ControlOff));
    assert_eq!(g.control_mode, ControlMode::Inactive);
}

#[test]
fn brief_closed_palm_does_not_stop_control() {
    let mut g = GestureMachine::new(default_timing());
    let lm_open = open_palm_hand();
    let _ = g.process(0, lm_open);
    let out_on = g.process(100, lm_open);
    assert!(has(&out_on.intents, GestureSignal::ControlOn));
    let out = g.process(160, closed_hand());
    assert!(!has(&out.intents, GestureSignal::ControlOff));
}

#[test]
fn hand_down_without_fist_does_not_stop_control() {
    let mut g = GestureMachine::new(default_timing());
    let lm_open = open_palm_hand();
    let _ = g.process(0, lm_open);
    let out_on = g.process(100, lm_open);
    assert!(has(&out_on.intents, GestureSignal::ControlOn));
    let out = g.process(140, hand_down_open_hand());
    assert!(!has(&out.intents, GestureSignal::ControlOff));
}

#[test]
fn hint_reports_arming_and_motion_state() {
    let mut g = GestureMachine::new(default_timing());
    let lm = open_palm_hand();
    let _ = g.process(0, lm);
    let h = hint_label(g.control_mode, lm, false);
    assert_eq!(h.as_str(), "arming_control_open_palm");
    assert_eq!(g.control_mode, ControlMode::Inactive);
    let _ = g.process(100, lm);
    let lm_move = two_finger_hand();
    let _ = g.process(120, lm_move);
    let _ = g.process(200, lm_move);
    let h2 = hint_label(g.control_mode, lm_move, true);
    assert_eq!(h2.as_str(), "move_cursor");
    assert_eq!(g.control_mode, ControlMode::Move);
}

#[test]
fn relaxed_open_palm_with_three_fingers_does_not_start_control() {
    let mut g = GestureMachine::new(default_timing());
    let lm = Some(PoseSignals::from_readings(&readings(
        [true, true, true, false],
        [false, false, false, true],
    )));
    let _ = g.process(0, lm);
    let out = g.process(100, lm);
    assert!(!has(&out.intents, GestureSignal::ControlOn));
}

#[test]
fn open_palm_while_active_enters_clutch_and_resumes_on_move() {
    let mut g = GestureMachine::new(default_timing());
    let lm_open = open_palm_hand();
    let _ = g.process(0, lm_open);
    let out_on = g.process(100, lm_open);
    assert!(has(&out_on.intents, GestureSignal::ControlOn));
    assert!(has(&out_on.intents, GestureSignal::ClutchOn));

    let lm_move = two_finger_hand();
    let out_not_yet = g.process(130, lm_move);
    assert!(!has(&out_not_yet.intents, GestureSignal::ClutchOff));
    let out_unclutch = g.process(220, lm_move);
    assert!(has(&out_unclutch.intents, GestureSignal::ClutchOff));

    let _ = g.process(260, lm_open);
    let out_clutch = g.process(340, lm_open);
    assert!(has(&out_clutch.intents, GestureSignal::ClutchOn));
    assert_eq!(g.control_mode, ControlMode::Clutch);

    let _ = g.process(370, lm_move);
    let out_resume = g.process(450, lm_move);
    assert!(has(&out_resume.intents, GestureSignal::ClutchOff));
}

#[test]
fn move_mode_blocks_clicks() {
    let mut g = GestureMachine::new(default_timing());
    let lm_open = open_palm_hand();
    let _ = g.process(0, lm_open);
    let _ = g.process(100, lm_open);
    let lm_move = two_finger_hand();
    let _ = g.process(130, lm_move);
    let _ = g.process(220, lm_move);
    let out = g.process(260, two_finger_pinch_hand());
    assert!(!has(&out.intents, GestureSignal::LeftClick));
    assert!(!has(&out.intents, GestureSignal::RightClick));
}

#[test]
fn clutch_does_not_exit_during_pinch_attempt() {
    let mut g = GestureMachine::new(default_timing());
    let lm_open = open_palm_hand();
    let _ = g.process(0, lm_open);
    let _ = g.process(100, lm_open);
    let lm_move = two_finger_hand();
    let _ = g.process(130, lm_move);
    let _ = g.process(220, lm_move);
    let _ = g.process(260, lm_open);
    let _ = g.process(340, lm_open);
    let out = g.process(370, two_finger_pinch_hand());
    assert!(!has(&out.intents, GestureSignal::ClutchOff));
    assert_ne!(out.cursor, CursorUpdate::Track);
    assert!(!has(&out.intents, GestureSignal::LeftClick));
}

#[test]
fn clicks_respect_the_cooldown() {
    let mut g = GestureMachine::new(default_timing());
    let lm_open = open_palm_hand();
    let _ = g.process(0, lm_open);
    let _ = g.process(100, lm_open);
    assert!(has(&g.process(140, left_pinch_open_hand()).intents, GestureSignal::LeftClick));
    let _ = g.process(150, lm_open);
    assert!(!has(&g.process(200, left_pinch_open_hand()).intents, GestureSignal::LeftClick));
    let _ = g.process(250, lm_open);
    assert!(has(&g.process(300, left_pinch_open_hand()).intents, GestureSignal::LeftClick));
    assert_eq!(g.last_left_click_ms, Some(300));
}

#[test]
fn losing_the_hand_turns_control_off_once() {
    let mut g = GestureMachine::new(default_timing());
    assert!(g.reset_on_lost().is_empty());
    let lm_open = open_palm_hand();
    let _ = g.process(0, lm_open);
    let _ = g.process(100, lm_open);
    assert_eq!(g.reset_on_lost(), vec![GestureSignal::ControlOff]);
    assert_eq!(g.control_mode, ControlMode::Inactive);
    assert!(g.reset_on_lost().is_empty());
    let none = g.process(500, None);
    assert!(none.intents.is_empty());
    assert_eq!(none.cursor, CursorUpdate::Keep);
}

#[test]
fn can_fire_waits_for_the_cooldown() {
    let mut last = None;
    assert!(can_fire(100, &mut last, 160));
    assert_eq!(last, Some(100));
    assert!(!can_fire(200, &mut last, 160));
    assert_eq!(last, Some(100));
    assert!(can_fire(260, &mut last, 160));
    assert_eq!(last, Some(260));
}

#[test]
fn hint_labels_cover_every_mode() {
    let fist = closed_hand();
    assert_eq!(hint_label(ControlMode::Inactive, None, false), HintLabel::NoHand);
    assert_eq!(HintLabel::NoHand.as_str(), "no_hand");
    assert_eq!(
        hint_label(ControlMode::Inactive, open_palm_hand(), true).as_str(),
        "control_ready"
    );
    assert_eq!(
        hint_label(ControlMode::Clutch, fist, false).as_str(),
        "stop_tracking_pose"
    );
    assert_eq!(
        hint_label(ControlMode::Clutch, right_pinch_open_hand(), false).as_str(),
        "right_click_clutch_pinch"
    );
    assert_eq!(
        hint_label(ControlMode::Move, hand_down_open_hand(), false).as_str(),
        "tracking_active_hand_down"
    );
    assert_eq!(
        hint_label(ControlMode::Move, open_palm_hand(), false).as_str(),
        "clutch_enter_pose"
    );
}

fn machine_in_move_mode() -> GestureMachine {
    let mut g = GestureMachine::new(default_timing());
    let _ = g.process(0, open_palm_hand());
    let _ = g.process(100, open_palm_hand());
    let _ = g.process(120, two_finger_hand());
    let out = g.process(200, two_finger_hand());
    assert!(has(&out.intents, GestureSignal::ClutchOff));
    assert_eq!(g.control_mode, ControlMode::Move);
    g
}

#[test]
fn two_finger_vertical_slide_scrolls_with_the_slide() {
    let mut g = machine_in_move_mode();
    let down = g.process(240, scroll_hand(VerticalSlide::Down));
    assert_eq!(down.intents, vec![GestureSignal::ScrollDown]);
    assert_eq!(down.cursor, CursorUpdate::Anchor);
    let up = g.process(280, scroll_hand(VerticalSlide::Up));
    assert_eq!(up.intents, vec![GestureSignal::ScrollUp]);
    assert_eq!(up.cursor, CursorUpdate::Anchor);
    assert_eq!(g.control_mode, ControlMode::Move);
    assert_eq!(
        hint_label(g.control_mode, scroll_hand(VerticalSlide::Up), false).as_str(),
        "scroll_mode"
    );
    assert!(scroll_mode_active(g.control_mode, scroll_hand(VerticalSlide::Still)));
}

#[test]
fn spread_fingers_slide_moves_instead_of_scrolling() {
    let mut g = machine_in_move_mode();
    let mut r = readings([true, true, false, false], [false, false, true, true]);
    r.vertical_slide = VerticalSlide::Down;
    let out = g.process(240, Some(PoseSignals::from_readings(&r)));
    assert!(out.intents.is_empty());
    assert_eq!(out.cursor, CursorUpdate::Track);
    assert!(!scroll_mode_active(g.control_mode, Some(PoseSignals::from_readings(&r))));
}

#[test]
fn scroll_pose_in_clutch_does_not_scroll() {
    let mut g = GestureMachine::new(default_timing());
    let _ = g.process(0, open_palm_hand());
    let _ = g.process(100, open_palm_hand());
    assert_eq!(g.control_mode, ControlMode::Clutch);
    let out = g.process(110, scroll_hand(VerticalSlide::Down));
    assert!(!has(&out.intents, GestureSignal::ScrollDown));
    assert!(!scroll_mode_active(g.control_mode, scroll_hand(VerticalSlide::Down)));
}
