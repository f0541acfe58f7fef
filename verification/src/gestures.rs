//! Hand pose classification and the hold-to-control gesture state machine.
//!
//! Landmark geometry is measured elsewhere; this module receives the results
//! of those measurements as plain booleans and decides which control intents
//! a frame produces.

use crate::types::ControlMode;
use vstd::prelude::*;

verus! {

/// How long a closed fist must be held before control stops.
pub const STOP_HOLD_MS: u64 = 180;

/// Elementary measurements taken on one frame's 21 hand landmarks.
#[derive(Debug, Clone, Copy, PartialEq, Eq, Structural)]
pub struct FingerReadings {
    /// Tip above PIP above MCP, per finger.
    pub index_extended: bool,
    pub middle_extended: bool,
    pub ring_extended: bool,
    pub pinky_extended: bool,
    /// Tip within the curl radius of the MCP joint, per finger.
    pub index_curled: bool,
    pub middle_curled: bool,
    pub ring_curled: bool,
    pub pinky_curled: bool,
    /// Tip below the MCP joint, per finger.
    pub index_down: bool,
    pub middle_down: bool,
    pub ring_down: bool,
    pub pinky_down: bool,
    /// Thumb tip closer to the index tip than the left-click threshold.
    pub pinch_index: bool,
    /// Thumb tip closer to the middle tip than the right-click threshold.
    pub pinch_middle: bool,
    /// Thumb-index distance at most the thumb-middle distance; otherwise the
    /// thumb is closer to the middle tip.
    pub index_pinch_not_farther: bool,
    /// Index and middle tips closer together than the scroll-mode threshold.
    pub index_middle_close: bool,
    /// Vertical motion of the index tip since the remembered pointer anchor,
    /// scaled by the scroll gain and held against the scroll deadzone.
    pub vertical_slide: VerticalSlide,
}

/// Vertical motion of the index tip since the pointer anchor.
#[derive(Debug, Clone, Copy, PartialEq, Eq, Structural)]
pub enum VerticalSlide {
    /// No anchor, or the scaled motion stays within the deadzone.
    Still,
    /// Up the image, past the deadzone.
    Up,
    /// Down the image, past the deadzone.
    Down,
}

/// Poses recognised on one frame.
#[derive(Debug, Clone, Copy, PartialEq, Eq, Structural)]
pub struct PoseSignals {
    pub index_extended: bool,
    pub middle_extended: bool,
    pub ring_extended: bool,
    pub pinky_extended: bool,
    pub two_finger_pose: bool,
    pub open_palm_pose: bool,
    pub closed_palm_pose: bool,
    pub hand_down_pose: bool,
    pub pinch_index: bool,
    pub pinch_middle: bool,
    pub left_click_pose: bool,
    pub right_click_pose: bool,
    /// The two-finger pose with the index and middle tips close together.
    pub scroll_pose: bool,
    pub vertical_slide: VerticalSlide,
}

pub open spec fn pose_signals_spec(r: FingerReadings) -> PoseSignals {
    let two_finger = r.index_extended && r.middle_extended && !r.ring_extended && !r.pinky_extended;
    let all_curled = r.index_curled && r.middle_curled && r.ring_curled && r.pinky_curled;
    let none_extended = !r.index_extended && !r.middle_extended && !r.ring_extended
        && !r.pinky_extended;
    let closed = none_extended && all_curled;
    PoseSignals {
        index_extended: r.index_extended,
        middle_extended: r.middle_extended,
        ring_extended: r.ring_extended,
        pinky_extended: r.pinky_extended,
        two_finger_pose: two_finger,
        open_palm_pose: r.index_extended && r.middle_extended && r.ring_extended
            && r.pinky_extended && !closed,
        closed_palm_pose: closed,
        hand_down_pose: r.index_down && r.middle_down && r.ring_down && r.pinky_down,
        pinch_index: r.pinch_index,
        pinch_middle: r.pinch_middle,
        left_click_pose: r.pinch_index && r.middle_extended && r.ring_extended && r.pinky_extended
            && (!r.pinch_middle || r.index_pinch_not_farther),
        right_click_pose: r.pinch_middle && r.index_extended && r.ring_extended && r.pinky_extended
            && (!r.pinch_index || !r.index_pinch_not_farther),
        scroll_pose: two_finger && r.index_middle_close,
        vertical_slide: r.vertical_slide,
    }
}

impl PoseSignals {
    /// Classifies a frame's measurements into poses.
    pub fn from_readings(r: &FingerReadings) -> (s: PoseSignals)
        ensures
            s == pose_signals_spec(*r),
    {
        let two_finger = r.index_extended && r.middle_extended && !r.ring_extended && !r.pinky_extended;
        let all_curled = r.index_curled && r.middle_curled && r.ring_curled && r.pinky_curled;
        let none_extended = !r.index_extended && !r.middle_extended && !r.ring_extended
            && !r.pinky_extended;
        let closed = none_extended && all_curled;
        PoseSignals {
            index_extended: r.index_extended,
            middle_extended: r.middle_extended,
            ring_extended: r.ring_extended,
            pinky_extended: r.pinky_extended,
            two_finger_pose: two_finger,
            open_palm_pose: r.index_extended && r.middle_extended && r.ring_extended
                && r.pinky_extended && !closed,
            closed_palm_pose: closed,
            hand_down_pose: r.index_down && r.middle_down && r.ring_down && r.pinky_down,
            pinch_index: r.pinch_index,
            pinch_middle: r.pinch_middle,
            left_click_pose: r.pinch_index && r.middle_extended && r.ring_extended
                && r.pinky_extended && (!r.pinch_middle || r.index_pinch_not_farther),
            right_click_pose: r.pinch_middle && r.index_extended && r.ring_extended
                && r.pinky_extended && (!r.pinch_index || !r.index_pinch_not_farther),
            scroll_pose: two_finger && r.index_middle_close,
            vertical_slide: r.vertical_slide,
        }
    }
}

/// The start, move and stop poses exclude one another, a frame is never both
/// a left-click and a right-click pose, and the scroll pose is a two-finger
/// pose.
pub proof fn lemma_poses_are_exclusive(r: FingerReadings)
    ensures
        ({
            let s = pose_signals_spec(r);
            &&& !(s.two_finger_pose && s.open_palm_pose)
            &&& !(s.two_finger_pose && s.closed_palm_pose)
            &&& !(s.open_palm_pose && s.closed_palm_pose)
            &&& !(s.left_click_pose && s.right_click_pose)
            &&& s.scroll_pose ==> s.two_finger_pose
        }),
{
}

/// Timing thresholds of the gesture state machine, in milliseconds.
#[derive(Debug, Clone, Copy, PartialEq, Eq, Structural)]
pub struct GestureTiming {
    pub hold_to_control_ms: u64,
    pub clutch_enter_ms: u64,
    pub click_cooldown_ms: u64,
}

/// A control intent that carries no pointer motion.
#[derive(Debug, Clone, Copy, PartialEq, Eq, Structural)]
pub enum GestureSignal {
    ControlOn,
    ControlOff,
    ClutchOn,
    ClutchOff,
    LeftClick,
    RightClick,
    /// Wheel motion following an upward two-finger slide.
    ScrollUp,
    /// Wheel motion following a downward two-finger slide.
    ScrollDown,
}

/// What the pointer anchor does after a frame.
#[derive(Debug, Clone, Copy, PartialEq, Eq, Structural)]
pub enum CursorUpdate {
    /// The remembered index-tip position stays as it was.
    Keep,
    /// The remembered position is forgotten.
    Clear,
    /// Motion since the remembered position becomes a move delta, then the
    /// current index tip is remembered.
    Track,
    /// The current index tip is remembered without moving the pointer (the
    /// motion went to the wheel).
    Anchor,
}

/// Intents of one frame, followed by the pointer anchor update.
#[derive(Debug, Clone)]
pub struct GestureStep {
    pub intents: Vec<GestureSignal>,
    pub cursor: CursorUpdate,
}

/// The hold-to-control gesture state machine.
#[derive(Debug, Clone, Copy, PartialEq, Eq, Structural)]
pub struct GestureMachine {
    pub timing: GestureTiming,
    pub arm_pose_since_ms: Option<u64>,
    pub clutch_pose_since_ms: Option<u64>,
    pub unclutch_pose_since_ms: Option<u64>,
    pub stop_pose_since_ms: Option<u64>,
    pub control_mode: ControlMode,
    pub left_click_pose_prev: bool,
    pub right_click_pose_prev: bool,
    pub last_left_click_ms: Option<u64>,
    pub last_right_click_ms: Option<u64>,
}

/// `a - b`, or zero when `b` is larger.
pub open spec fn elapsed_ms(now: u64, since: u64) -> u64 {
    if now >= since { (now - since) as u64 } else { 0 }
}

/// When a pose started: the recorded time, or now if none is recorded.
pub open spec fn since_or_now(since: Option<u64>, now: u64) -> u64 {
    match since {
        Some(t) => t,
        None => now,
    }
}

/// Whether a click may fire at `now`, and the click time to remember.
pub open spec fn can_fire_spec(now: u64, last: Option<u64>, cooldown_ms: u64) -> (bool, Option<u64>) {
    match last {
        Some(prev) if elapsed_ms(now, prev) < cooldown_ms => (false, last),
        _ => (true, Some(now)),
    }
}

/// Fires a click unless the previous one is less than a cooldown ago, and
/// then remembers this click's time.
pub fn can_fire(ts_ms: u64, last_ts: &mut Option<u64>, cooldown_ms: u64) -> (fired: bool)
    ensures
        (fired, *final(last_ts)) == can_fire_spec(ts_ms, *old(last_ts), cooldown_ms),
{
    if let Some(prev) = *last_ts {
        if ts_ms.saturating_sub(prev) < cooldown_ms {
            return false;
        }
    }
    *last_ts = Some(ts_ms);
    true
}

impl GestureMachine {
    /// A machine with control off and nothing held.
    pub open spec fn initial(timing: GestureTiming) -> GestureMachine {
        GestureMachine {
            timing,
            arm_pose_since_ms: None,
            clutch_pose_since_ms: None,
            unclutch_pose_since_ms: None,
            stop_pose_since_ms: None,
            control_mode: ControlMode::Inactive,
            left_click_pose_prev: false,
            right_click_pose_prev: false,
            last_left_click_ms: None,
            last_right_click_ms: None,
        }
    }

    /// Frame transition while control is off.
    pub open spec fn inactive_step(self, ts: u64, s: PoseSignals) -> (GestureMachine, Seq<GestureSignal>) {
        let arm = if s.open_palm_pose { Some(since_or_now(self.arm_pose_since_ms, ts)) } else { None };
        let armed = s.open_palm_pose && elapsed_ms(ts, since_or_now(self.arm_pose_since_ms, ts))
            >= self.timing.hold_to_control_ms;
        (
            GestureMachine {
                arm_pose_since_ms: arm,
                clutch_pose_since_ms: None,
                unclutch_pose_since_ms: None,
                stop_pose_since_ms: None,
                control_mode: if armed { ControlMode::Clutch } else { ControlMode::Inactive },
                left_click_pose_prev: s.left_click_pose,
                right_click_pose_prev: s.right_click_pose,
                ..self
            },
            if armed { seq![GestureSignal::ControlOn, GestureSignal::ClutchOn] } else { seq![] },
        )
    }

    /// Frame transition while control is on and a fist is shown.
    pub open spec fn stop_step(self, ts: u64, s: PoseSignals) -> (GestureMachine, Seq<GestureSignal>, CursorUpdate) {
        let since = since_or_now(self.stop_pose_since_ms, ts);
        let stop = elapsed_ms(ts, since) >= STOP_HOLD_MS;
        (
            GestureMachine {
                arm_pose_since_ms: None,
                stop_pose_since_ms: if stop { None } else { Some(since) },
                control_mode: if stop { ControlMode::Inactive } else { self.control_mode },
                left_click_pose_prev: s.left_click_pose,
                right_click_pose_prev: s.right_click_pose,
                ..self
            },
            if stop { seq![GestureSignal::ControlOff] } else { seq![] },
            if stop { CursorUpdate::Clear } else { CursorUpdate::Keep },
        )
    }

    /// Frame transition in move mode while an open palm is shown.
    pub open spec fn clutch_enter_step(self, ts: u64, s: PoseSignals) -> (GestureMachine, Seq<GestureSignal>, CursorUpdate) {
        let since = since_or_now(self.clutch_pose_since_ms, ts);
        let enter = elapsed_ms(ts, since) >= self.timing.clutch_enter_ms;
        (
            GestureMachine {
                arm_pose_since_ms: None,
                stop_pose_since_ms: None,
                clutch_pose_since_ms: if enter { None } else { Some(since) },
                unclutch_pose_since_ms: if enter { None } else { self.unclutch_pose_since_ms },
                control_mode: if enter { ControlMode::Clutch } else { ControlMode::Move },
                left_click_pose_prev: s.left_click_pose,
                right_click_pose_prev: s.right_click_pose,
                ..self
            },
            if enter { seq![GestureSignal::ClutchOn] } else { seq![] },
            if enter { CursorUpdate::Clear } else { CursorUpdate::Keep },
        )
    }

    /// Frame transition in clutch mode (no fist): leave for move mode after a
    /// held two-finger pose, otherwise click on new pinches.
    pub open spec fn clutch_step(self, ts: u64, s: PoseSignals) -> (GestureMachine, Seq<GestureSignal>, CursorUpdate) {
        let candidate = s.two_finger_pose && !s.pinch_index && !s.pinch_middle && !s.open_palm_pose;
        let since = since_or_now(self.unclutch_pose_since_ms, ts);
        if candidate && elapsed_ms(ts, since) >= self.timing.clutch_enter_ms {
            (
                GestureMachine {
                    arm_pose_since_ms: None,
                    stop_pose_since_ms: None,
                    unclutch_pose_since_ms: None,
                    control_mode: ControlMode::Move,
                    left_click_pose_prev: false,
                    right_click_pose_prev: false,
                    ..self
                },
                seq![GestureSignal::ClutchOff],
                CursorUpdate::Clear,
            )
        } else {
            let (left_fired, last_left) = if s.left_click_pose && !self.left_click_pose_prev {
                can_fire_spec(ts, self.last_left_click_ms, self.timing.click_cooldown_ms)
            } else {
                (false, self.last_left_click_ms)
            };
            let (right_fired, last_right) = if s.right_click_pose && !self.right_click_pose_prev {
                can_fire_spec(ts, self.last_right_click_ms, self.timing.click_cooldown_ms)
            } else {
                (false, self.last_right_click_ms)
            };
            (
                GestureMachine {
                    arm_pose_since_ms: None,
                    stop_pose_since_ms: None,
                    unclutch_pose_since_ms: if candidate { Some(since) } else { None },
                    last_left_click_ms: last_left,
                    last_right_click_ms: last_right,
                    left_click_pose_prev: s.left_click_pose,
                    right_click_pose_prev: s.right_click_pose,
                    ..self
                },
                (if left_fired { seq![GestureSignal::LeftClick] } else { seq![] }) + (if right_fired {
                    seq![GestureSignal::RightClick]
                } else {
                    seq![]
                }),
                CursorUpdate::Clear,
            )
        }
    }

    /// Frame transition in move mode without an open palm or fist: a
    /// vertical slide in the scroll pose scrolls; otherwise the index tip is
    /// tracked while the two-finger pose is held.
    pub open spec fn move_step(self, s: PoseSignals) -> (GestureMachine, Seq<GestureSignal>, CursorUpdate) {
        let scroll = s.two_finger_pose && s.scroll_pose && s.vertical_slide != VerticalSlide::Still;
        (
            GestureMachine {
                arm_pose_since_ms: None,
                stop_pose_since_ms: None,
                clutch_pose_since_ms: None,
                unclutch_pose_since_ms: None,
                left_click_pose_prev: s.left_click_pose,
                right_click_pose_prev: s.right_click_pose,
                ..self
            },
            if !scroll {
                seq![]
            } else if s.vertical_slide == VerticalSlide::Up {
                seq![GestureSignal::ScrollUp]
            } else {
                seq![GestureSignal::ScrollDown]
            },
            if scroll {
                CursorUpdate::Anchor
            } else if s.two_finger_pose {
                CursorUpdate::Track
            } else {
                CursorUpdate::Clear
            },
        )
    }

    /// The machine's response to one frame; `None` when the frame holds no
    /// usable hand.
    pub open spec fn process_spec(self, ts: u64, signals: Option<PoseSignals>) -> (GestureMachine, Seq<GestureSignal>, CursorUpdate) {
        match signals {
            None => (self, seq![], CursorUpdate::Keep),
            Some(s) => if self.control_mode == ControlMode::Inactive {
                let (m, out) = self.inactive_step(ts, s);
                (m, out, CursorUpdate::Keep)
            } else if s.closed_palm_pose {
                self.stop_step(ts, s)
            } else if self.control_mode == ControlMode::Move && s.open_palm_pose {
                self.clutch_enter_step(ts, s)
            } else if self.control_mode == ControlMode::Clutch {
                self.clutch_step(ts, s)
            } else {
                self.move_step(s)
            },
        }
    }

    pub open spec fn reset_spec(self) -> (GestureMachine, Seq<GestureSignal>) {
        (
            GestureMachine {
                arm_pose_since_ms: None,
                clutch_pose_since_ms: None,
                unclutch_pose_since_ms: None,
                stop_pose_since_ms: None,
                left_click_pose_prev: false,
                right_click_pose_prev: false,
                control_mode: ControlMode::Inactive,
                ..self
            },
            if self.control_mode != ControlMode::Inactive {
                seq![GestureSignal::ControlOff]
            } else {
                seq![]
            },
        )
    }

    /// A machine with control off.
    pub fn new(timing: GestureTiming) -> (m: GestureMachine)
        ensures
            m == GestureMachine::initial(timing),
    {
        GestureMachine {
            timing,
            arm_pose_since_ms: None,
            clutch_pose_since_ms: None,
            unclutch_pose_since_ms: None,
            stop_pose_since_ms: None,
            control_mode: ControlMode::Inactive,
            left_click_pose_prev: false,
            right_click_pose_prev: false,
            last_left_click_ms: None,
            last_right_click_ms: None,
        }
    }

    /// Takes new timing thresholds; the rest of the state carries over.
    pub fn update_timing(&mut self, timing: GestureTiming)
        ensures
            *final(self) == (GestureMachine { timing, ..*old(self) }),
    {
        self.timing = timing;
    }

    /// Forgets every held pose after the hand was lost; turns control off.
    pub fn reset_on_lost(&mut self) -> (out: Vec<GestureSignal>)
        ensures
            (*final(self), out@) == old(self).reset_spec(),
    {
        self.arm_pose_since_ms = None;
        self.clutch_pose_since_ms = None;
        self.unclutch_pose_since_ms = None;
        self.stop_pose_since_ms = None;
        self.left_click_pose_prev = false;
        self.right_click_pose_prev = false;
        let mut out: Vec<GestureSignal> = Vec::new();
        if self.control_mode != ControlMode::Inactive {
            self.control_mode = ControlMode::Inactive;
            out.push(GestureSignal::ControlOff);
        }
        assert(out@ =~= old(self).reset_spec().1);
        out
    }

    /// Processes one frame's poses (`None`: fewer than 21 landmarks).
    pub fn process(&mut self, ts_ms: u64, signals: Option<PoseSignals>) -> (step: GestureStep)
        ensures
            (*final(self), step.intents@, step.cursor) == old(self).process_spec(ts_ms, signals),
    {
        let s = match signals {
            None => {
                return GestureStep { intents: Vec::new(), cursor: CursorUpdate::Keep };
            },
            Some(s) => s,
        };
        let ghost pre = *self;
        let mut intents: Vec<GestureSignal> = Vec::new();

        if self.control_mode == ControlMode::Inactive {
            if s.open_palm_pose {
                if self.arm_pose_since_ms.is_none() {
                    self.arm_pose_since_ms = Some(ts_ms);
                }
                if let Some(since) = self.arm_pose_since_ms {
                    if ts_ms.saturating_sub(since) >= self.timing.hold_to_control_ms {
                        self.control_mode = ControlMode::Clutch;
                        intents.push(GestureSignal::ControlOn);
                        intents.push(GestureSignal::ClutchOn);
                    }
                }
            } else {
                self.arm_pose_since_ms = None;
            }
            self.clutch_pose_since_ms = None;
            self.unclutch_pose_since_ms = None;
            self.stop_pose_since_ms = None;
            self.left_click_pose_prev = s.left_click_pose;
            self.right_click_pose_prev = s.right_click_pose;
            assert(intents@ =~= pre.inactive_step(ts_ms, s).1);
            return GestureStep { intents, cursor: CursorUpdate::Keep };
        }

        self.arm_pose_since_ms = None;

        if s.closed_palm_pose {
            let since = match self.stop_pose_since_ms {
                Some(t) => t,
                None => ts_ms,
            };
            self.stop_pose_since_ms = Some(since);
            let mut cursor = CursorUpdate::Keep;
            if ts_ms.saturating_sub(since) >= STOP_HOLD_MS {
                self.control_mode = ControlMode::Inactive;
                cursor = CursorUpdate::Clear;
                self.stop_pose_since_ms = None;
                intents.push(GestureSignal::ControlOff);
            }
            self.left_click_pose_prev = s.left_click_pose;
            self.right_click_pose_prev = s.right_click_pose;
            assert(intents@ =~= pre.stop_step(ts_ms, s).1);
            return GestureStep { intents, cursor };
        }
        self.stop_pose_since_ms = None;

        if self.control_mode == ControlMode::Move && s.open_palm_pose {
            let since = match self.clutch_pose_since_ms {
                Some(t) => t,
                None => ts_ms,
            };
            self.clutch_pose_since_ms = Some(since);
            let mut cursor = CursorUpdate::Keep;
            if ts_ms.saturating_sub(since) >= self.timing.clutch_enter_ms {
                self.control_mode = ControlMode::Clutch;
                cursor = CursorUpdate::Clear;
                self.clutch_pose_since_ms = None;
                self.unclutch_pose_since_ms = None;
                intents.push(GestureSignal::ClutchOn);
            }
            self.right_click_pose_prev = s.right_click_pose;
            self.left_click_pose_prev = s.left_click_pose;
            assert(intents@ =~= pre.clutch_enter_step(ts_ms, s).1);
            return GestureStep { intents, cursor };
        }

        if self.control_mode == ControlMode::Move {
            self.clutch_pose_since_ms = None;
            self.unclutch_pose_since_ms = None;
        }

        if self.control_mode == ControlMode::Clutch {
            let unclutch_candidate = s.two_finger_pose && !s.pinch_index && !s.pinch_middle
                && !s.open_palm_pose;
            if unclutch_candidate {
                let since = match self.unclutch_pose_since_ms {
                    Some(t) => t,
                    None => ts_ms,
                };
                self.unclutch_pose_since_ms = Some(since);
                if ts_ms.saturating_sub(since) >= self.timing.clutch_enter_ms {
                    self.control_mode = ControlMode::Move;
                    self.unclutch_pose_since_ms = None;
                    intents.push(GestureSignal::ClutchOff);
                    self.left_click_pose_prev = false;
                    self.right_click_pose_prev = false;
                    assert(intents@ =~= pre.clutch_step(ts_ms, s).1);
                    return GestureStep { intents, cursor: CursorUpdate::Clear };
                }
            } else {
                self.unclutch_pose_since_ms = None;
            }

            if s.left_click_pose && !self.left_click_pose_prev {
                let cooldown = self.timing.click_cooldown_ms;
                if can_fire(ts_ms, &mut self.last_left_click_ms, cooldown) {
                    intents.push(GestureSignal::LeftClick);
                }
            }
            if s.right_click_pose && !self.right_click_pose_prev {
                let cooldown = self.timing.click_cooldown_ms;
                if can_fire(ts_ms, &mut self.last_right_click_ms, cooldown) {
                    intents.push(GestureSignal::RightClick);
                }
            }
            self.left_click_pose_prev = s.left_click_pose;
            self.right_click_pose_prev = s.right_click_pose;
            assert(intents@ =~= pre.clutch_step(ts_ms, s).1);
            return GestureStep { intents, cursor: CursorUpdate::Clear };
        }

        let cursor = if s.two_finger_pose && s.scroll_pose && s.vertical_slide != VerticalSlide::Still {
            match s.vertical_slide {
                VerticalSlide::Up => intents.push(GestureSignal::ScrollUp),
                _ => intents.push(GestureSignal::ScrollDown),
            }
            CursorUpdate::Anchor
        } else if s.two_finger_pose {
            CursorUpdate::Track
        } else {
            CursorUpdate::Clear
        };
        self.left_click_pose_prev = s.left_click_pose;
        self.right_click_pose_prev = s.right_click_pose;
        assert(intents@ =~= pre.move_step(s).1);
        GestureStep { intents, cursor }
    }
}


/// The label shown for the current hand state.
#[derive(Debug, Clone, Copy, PartialEq, Eq, Structural)]
pub enum HintLabel {
    NoHand,
    ControlReady,
    ArmingControlOpenPalm,
    StopTrackingPose,
    IdleHand,
    ClutchEnterPose,
    ScrollMode,
    MoveCursor,
    TrackingActiveHandDown,
    TrackingActiveIdle,
    LeftClickClutchPinch,
    RightClickClutchPinch,
    ClutchPause,
}

pub open spec fn hint_label_spec(mode: ControlMode, signals: Option<PoseSignals>, hold_complete: bool) -> HintLabel {
    match signals {
        None => HintLabel::NoHand,
        Some(s) => match mode {
            ControlMode::Inactive => if s.open_palm_pose {
                if hold_complete { HintLabel::ControlReady } else { HintLabel::ArmingControlOpenPalm }
            } else if s.closed_palm_pose {
                HintLabel::StopTrackingPose
            } else {
                HintLabel::IdleHand
            },
            ControlMode::Move => if s.closed_palm_pose {
                HintLabel::StopTrackingPose
            } else if s.open_palm_pose {
                HintLabel::ClutchEnterPose
            } else if s.two_finger_pose && s.scroll_pose {
                HintLabel::ScrollMode
            } else if s.two_finger_pose {
                HintLabel::MoveCursor
            } else if s.hand_down_pose {
                HintLabel::TrackingActiveHandDown
            } else {
                HintLabel::TrackingActiveIdle
            },
            ControlMode::Clutch => if s.closed_palm_pose {
                HintLabel::StopTrackingPose
            } else if s.left_click_pose {
                HintLabel::LeftClickClutchPinch
            } else if s.right_click_pose {
                HintLabel::RightClickClutchPinch
            } else {
                HintLabel::ClutchPause
            },
        },
    }
}

/// Chooses the hint label for a frame; `hold_complete` says whether the
/// open-palm hold has reached the control threshold.
pub fn hint_label(mode: ControlMode, signals: Option<PoseSignals>, hold_complete: bool) -> (l: HintLabel)
    ensures
        l == hint_label_spec(mode, signals, hold_complete),
{
    match signals {
        None => HintLabel::NoHand,
        Some(s) => match mode {
            ControlMode::Inactive => if s.open_palm_pose {
                if hold_complete { HintLabel::ControlReady } else { HintLabel::ArmingControlOpenPalm }
            } else if s.closed_palm_pose {
                HintLabel::StopTrackingPose
            } else {
                HintLabel::IdleHand
            },
            ControlMode::Move => if s.closed_palm_pose {
                HintLabel::StopTrackingPose
            } else if s.open_palm_pose {
                HintLabel::ClutchEnterPose
            } else if s.two_finger_pose && s.scroll_pose {
                HintLabel::ScrollMode
            } else if s.two_finger_pose {
                HintLabel::MoveCursor
            } else if s.hand_down_pose {
                HintLabel::TrackingActiveHandDown
            } else {
                HintLabel::TrackingActiveIdle
            },
            ControlMode::Clutch => if s.closed_palm_pose {
                HintLabel::StopTrackingPose
            } else if s.left_click_pose {
                HintLabel::LeftClickClutchPinch
            } else if s.right_click_pose {
                HintLabel::RightClickClutchPinch
            } else {
                HintLabel::ClutchPause
            },
        },
    }
}

pub open spec fn scroll_mode_spec(mode: ControlMode, signals: Option<PoseSignals>) -> bool {
    match signals {
        Some(s) => mode == ControlMode::Move && !s.closed_palm_pose && !s.open_palm_pose
            && s.two_finger_pose && s.scroll_pose,
        None => false,
    }
}

/// Whether a frame is in scroll mode: control in move mode, and the scroll
/// pose shown without a fist or an open palm, so that a vertical slide
/// scrolls.
pub fn scroll_mode_active(mode: ControlMode, signals: Option<PoseSignals>) -> (active: bool)
    ensures
        active == scroll_mode_spec(mode, signals),
        active <==> hint_label_spec(mode, signals, false) == HintLabel::ScrollMode,
{
    match signals {
        Some(s) => match mode {
            ControlMode::Move => !s.closed_palm_pose && !s.open_palm_pose && s.two_finger_pose
                && s.scroll_pose,
            _ => false,
        },
        None => false,
    }
}

pub open spec fn hint_label_text(l: HintLabel) -> Seq<char> {
    match l {
        HintLabel::NoHand => "no_hand"@,
        HintLabel::ControlReady => "control_ready"@,
        HintLabel::ArmingControlOpenPalm => "arming_control_open_palm"@,
        HintLabel::StopTrackingPose => "stop_tracking_pose"@,
        HintLabel::IdleHand => "idle_hand"@,
        HintLabel::ClutchEnterPose => "clutch_enter_pose"@,
        HintLabel::ScrollMode => "scroll_mode"@,
        HintLabel::MoveCursor => "move_cursor"@,
        HintLabel::TrackingActiveHandDown => "tracking_active_hand_down"@,
        HintLabel::TrackingActiveIdle => "tracking_active_idle"@,
        HintLabel::LeftClickClutchPinch => "left_click_clutch_pinch"@,
        HintLabel::RightClickClutchPinch => "right_click_clutch_pinch"@,
        HintLabel::ClutchPause => "clutch_pause"@,
    }
}

impl HintLabel {
    /// The label's wire name.
    pub fn as_str(&self) -> (t: &'static str)
        ensures
            t@ == hint_label_text(*self),
    {
        match self {
            HintLabel::NoHand => "no_hand",
            HintLabel::ControlReady => "control_ready",
            HintLabel::ArmingControlOpenPalm => "arming_control_open_palm",
            HintLabel::StopTrackingPose => "stop_tracking_pose",
            HintLabel::IdleHand => "idle_hand",
            HintLabel::ClutchEnterPose => "clutch_enter_pose",
            HintLabel::ScrollMode => "scroll_mode",
            HintLabel::MoveCursor => "move_cursor",
            HintLabel::TrackingActiveHandDown => "tracking_active_hand_down",
            HintLabel::TrackingActiveIdle => "tracking_active_idle",
            HintLabel::LeftClickClutchPinch => "left_click_clutch_pinch",
            HintLabel::RightClickClutchPinch => "right_click_clutch_pinch",
            HintLabel::ClutchPause => "clutch_pause",
        }
    }
}

/// Losing the hand turns control off and forgets every held pose; `control
/// off` is reported exactly when control was on.
pub proof fn lemma_reset_turns_control_off(m: GestureMachine)
    ensures
        ({
            let (n, out) = m.reset_spec();
            &&& n.control_mode == ControlMode::Inactive
            &&& n.arm_pose_since_ms is None && n.clutch_pose_since_ms is None
            &&& n.unclutch_pose_since_ms is None && n.stop_pose_since_ms is None
            &&& n.timing == m.timing
            &&& (out.len() > 0 <==> m.control_mode != ControlMode::Inactive)
            &&& out.len() > 0 ==> out == seq![GestureSignal::ControlOff]
        }),
{
}

/// A frame without a usable hand changes nothing and produces nothing.
pub proof fn lemma_no_hand_changes_nothing(m: GestureMachine, ts: u64)
    ensures
        m.process_spec(ts, None) == (m, Seq::<GestureSignal>::empty(), CursorUpdate::Keep),
{
}

/// Clicks only happen in clutch mode, which the click leaves unchanged, and
/// each click is at least a cooldown after the previous one of its button,
/// whose time it then records.
pub proof fn lemma_clicks_only_in_clutch_with_cooldown(m: GestureMachine, ts: u64, signals: Option<PoseSignals>)
    ensures
        ({
            let (n, out, _c) = m.process_spec(ts, signals);
            &&& out.contains(GestureSignal::LeftClick) ==> {
                &&& m.control_mode == ControlMode::Clutch && n.control_mode == ControlMode::Clutch
                &&& signals.unwrap().left_click_pose && !m.left_click_pose_prev
                &&& (m.last_left_click_ms matches Some(prev) ==> elapsed_ms(ts, prev)
                    >= m.timing.click_cooldown_ms)
                &&& n.last_left_click_ms == Some(ts)
            }
            &&& out.contains(GestureSignal::RightClick) ==> {
                &&& m.control_mode == ControlMode::Clutch && n.control_mode == ControlMode::Clutch
                &&& signals.unwrap().right_click_pose && !m.right_click_pose_prev
                &&& (m.last_right_click_ms matches Some(prev) ==> elapsed_ms(ts, prev)
                    >= m.timing.click_cooldown_ms)
                &&& n.last_right_click_ms == Some(ts)
            }
        }),
{
}

/// Control is switched on only from the inactive mode, by an open palm held
/// for the configured time, and it then starts in clutch mode; a frame with
/// the two-finger pose never switches it on.
pub proof fn lemma_control_starts_only_after_open_palm_hold(m: GestureMachine, ts: u64, r: FingerReadings)
    ensures
        ({
            let s = pose_signals_spec(r);
            let (n, out, _c) = m.process_spec(ts, Some(s));
            &&& out.contains(GestureSignal::ControlOn) ==> {
                &&& m.control_mode == ControlMode::Inactive
                &&& s.open_palm_pose
                &&& elapsed_ms(ts, since_or_now(m.arm_pose_since_ms, ts)) >= m.timing.hold_to_control_ms
                &&& n.control_mode == ControlMode::Clutch
            }
            &&& s.two_finger_pose ==> !out.contains(GestureSignal::ControlOn)
        }),
{
}

/// Control is switched off by a frame only after a fist has been held for
/// the stop time; the first fist frame never stops control.
pub proof fn lemma_control_stops_only_after_fist_hold(m: GestureMachine, ts: u64, signals: Option<PoseSignals>)
    ensures
        ({
            let (n, out, _c) = m.process_spec(ts, signals);
            out.contains(GestureSignal::ControlOff) ==> {
                &&& m.control_mode != ControlMode::Inactive
                &&& signals.unwrap().closed_palm_pose
                &&& m.stop_pose_since_ms matches Some(since) && elapsed_ms(ts, since) >= STOP_HOLD_MS
                &&& n.control_mode == ControlMode::Inactive
            }
        }),
{
}

/// Pointer motion is only tracked in move mode, which tracking keeps, and
/// never in a frame that also produced an intent.
pub proof fn lemma_tracking_only_in_move_mode(m: GestureMachine, ts: u64, signals: Option<PoseSignals>)
    ensures
        ({
            let (n, out, c) = m.process_spec(ts, signals);
            c == CursorUpdate::Track ==> {
                &&& m.control_mode == ControlMode::Move
                &&& n.control_mode == ControlMode::Move
                &&& out.len() == 0
                &&& signals.unwrap().two_finger_pose
            }
        }),
{
}

/// Scrolling happens exactly in scroll mode with a vertical slide past the
/// deadzone: the wheel follows the slide's direction, the pointer does not
/// move (the anchor is only renewed), and the mode stays as it is.
pub proof fn lemma_scroll_follows_vertical_slide(m: GestureMachine, ts: u64, signals: Option<PoseSignals>)
    ensures
        ({
            let (n, out, c) = m.process_spec(ts, signals);
            let scrolling = scroll_mode_spec(m.control_mode, signals)
                && signals.unwrap().vertical_slide != VerticalSlide::Still;
            &&& scrolling ==> {
                &&& out == if signals.unwrap().vertical_slide == VerticalSlide::Up {
                    seq![GestureSignal::ScrollUp]
                } else {
                    seq![GestureSignal::ScrollDown]
                }
                &&& c == CursorUpdate::Anchor
                &&& n.control_mode == ControlMode::Move
            }
            &&& (out.contains(GestureSignal::ScrollUp) || out.contains(GestureSignal::ScrollDown)
                || c == CursorUpdate::Anchor) ==> scrolling
            &&& out.contains(GestureSignal::ScrollUp) ==> signals.unwrap().vertical_slide == VerticalSlide::Up
            &&& out.contains(GestureSignal::ScrollDown) ==> signals.unwrap().vertical_slide == VerticalSlide::Down
        }),
{
}

/// Every change of control mode is announced in the frame's intents: turning
/// control on, entering and leaving clutch, and turning control off.
pub proof fn lemma_mode_changes_are_announced(m: GestureMachine, ts: u64, signals: Option<PoseSignals>)
    ensures
        ({
            let (n, out, _c) = m.process_spec(ts, signals);
            &&& (m.control_mode == ControlMode::Inactive && n.control_mode == ControlMode::Clutch)
                ==> out == seq![GestureSignal::ControlOn, GestureSignal::ClutchOn]
            &&& (m.control_mode == ControlMode::Move && n.control_mode == ControlMode::Clutch)
                ==> out == seq![GestureSignal::ClutchOn]
            &&& (m.control_mode == ControlMode::Clutch && n.control_mode == ControlMode::Move)
                ==> out == seq![GestureSignal::ClutchOff]
            &&& (m.control_mode != ControlMode::Inactive && n.control_mode == ControlMode::Inactive)
                ==> out == seq![GestureSignal::ControlOff]
            &&& n.control_mode != ControlMode::Move || m.control_mode != ControlMode::Inactive
        }),
{
}


/// A frame as seen by the state machine: its time and its poses (`None`
/// without a usable hand).
pub type GestureFrame = (u64, Option<PoseSignals>);

/// The machine after processing `frames` in order.
pub open spec fn run_frames(m: GestureMachine, frames: Seq<GestureFrame>) -> GestureMachine
    decreases frames.len(),
{
    if frames.len() == 0 {
        m
    } else {
        run_frames(m, frames.drop_last()).process_spec(frames.last().0, frames.last().1).0
    }
}

/// The frame shows no hand or an open palm.
pub open spec fn open_or_no_hand(f: GestureFrame) -> bool {
    match f.1 {
        Some(s) => s.open_palm_pose,
        None => true,
    }
}

/// The frame shows no hand or a fist.
pub open spec fn fist_or_no_hand(f: GestureFrame) -> bool {
    match f.1 {
        Some(s) => s.closed_palm_pose,
        None => true,
    }
}

/// From frame `k` on, every frame showing a hand showed an open palm, and
/// frame `k` did.
pub open spec fn open_palm_held_from(frames: Seq<GestureFrame>, k: int) -> bool {
    &&& 0 <= k < frames.len()
    &&& frames[k].1 matches Some(s) && s.open_palm_pose
    &&& forall|j: int| k <= j < frames.len() ==> open_or_no_hand(#[trigger] frames[j])
}

/// From frame `k` on, every frame showing a hand showed a fist, and frame
/// `k` did.
pub open spec fn fist_held_from(frames: Seq<GestureFrame>, k: int) -> bool {
    &&& 0 <= k < frames.len()
    &&& frames[k].1 matches Some(s) && s.closed_palm_pose
    &&& forall|j: int| k <= j < frames.len() ==> fist_or_no_hand(#[trigger] frames[j])
}

/// What a machine started from rest remembers of held poses is true of the
/// frames it saw: an arming time is the first frame of an open palm still
/// held, a stop time the first frame of a fist still held.
pub proof fn lemma_held_pose_times_are_witnessed(t: GestureTiming, frames: Seq<GestureFrame>)
    ensures
        ({
            let m = run_frames(GestureMachine::initial(t), frames);
            &&& m.timing == t
            &&& (m.control_mode == ControlMode::Inactive && m.arm_pose_since_ms is Some) ==> exists|k: int|
                open_palm_held_from(frames, k) && frames[k].0 == m.arm_pose_since_ms->0
            &&& m.stop_pose_since_ms is Some ==> exists|k: int|
                fist_held_from(frames, k) && frames[k].0 == m.stop_pose_since_ms->0
        }),
    decreases frames.len(),
{
    if frames.len() > 0 {
        let prev = frames.drop_last();
        lemma_held_pose_times_are_witnessed(t, prev);
        let m0 = run_frames(GestureMachine::initial(t), prev);
        let (ts, sig) = frames.last();
        let m = run_frames(GestureMachine::initial(t), frames);
        assert(m == m0.process_spec(ts, sig).0);
        let n = frames.len() - 1;
        assert(frames[n] == (ts, sig));
        if m.control_mode == ControlMode::Inactive && m.arm_pose_since_ms is Some {
            if m0.control_mode == ControlMode::Inactive && m0.arm_pose_since_ms is Some
                && m.arm_pose_since_ms == m0.arm_pose_since_ms {
                let k = choose|k: int| open_palm_held_from(prev, k) && prev[k].0 == m0.arm_pose_since_ms->0;
                assert forall|j: int| k <= j < frames.len() implies open_or_no_hand(#[trigger] frames[j]) by {
                    if j < n {
                        assert(frames[j] == prev[j]);
                    }
                }
                assert(frames[k] == prev[k]);
                assert(open_palm_held_from(frames, k));
            } else {
                assert(open_palm_held_from(frames, n));
            }
        }
        if m.stop_pose_since_ms is Some {
            if m0.stop_pose_since_ms is Some && m.stop_pose_since_ms == m0.stop_pose_since_ms {
                let k = choose|k: int| fist_held_from(prev, k) && prev[k].0 == m0.stop_pose_since_ms->0;
                assert forall|j: int| k <= j < frames.len() implies fist_or_no_hand(#[trigger] frames[j]) by {
                    if j < n {
                        assert(frames[j] == prev[j]);
                    }
                }
                assert(frames[k] == prev[k]);
                assert(fist_held_from(frames, k));
            } else {
                assert(fist_held_from(frames, n));
            }
        }
    }
}

/// Hold-to-control debounce over a whole session: when a frame switches
/// control on, an open palm has been shown in every hand frame since one at
/// least the hold time earlier; when a frame switches control off, a fist
/// has been shown in every hand frame since one at least the stop time
/// earlier.
pub proof fn lemma_control_changes_need_continuous_holds(t: GestureTiming, frames: Seq<GestureFrame>, ts: u64, signals: Option<PoseSignals>)
    ensures
        ({
            let m = run_frames(GestureMachine::initial(t), frames);
            let all = frames.push((ts, signals));
            let out = m.process_spec(ts, signals).1;
            &&& out.contains(GestureSignal::ControlOn) ==> exists|k: int|
                open_palm_held_from(all, k) && elapsed_ms(ts, all[k].0) >= t.hold_to_control_ms
            &&& out.contains(GestureSignal::ControlOff) ==> exists|k: int|
                fist_held_from(all, k) && elapsed_ms(ts, all[k].0) >= STOP_HOLD_MS
        }),
{
    let m = run_frames(GestureMachine::initial(t), frames);
    let all = frames.push((ts, signals));
    let out = m.process_spec(ts, signals).1;
    lemma_held_pose_times_are_witnessed(t, frames);
    lemma_control_starts_only_after_open_palm_hold_any(m, ts, signals);
    lemma_control_stops_only_after_fist_hold(m, ts, signals);
    let n = frames.len() as int;
    assert(all[n] == (ts, signals));
    if out.contains(GestureSignal::ControlOn) {
        match m.arm_pose_since_ms {
            Some(since) => {
                let k = choose|k: int| open_palm_held_from(frames, k) && frames[k].0 == since;
                assert forall|j: int| k <= j < all.len() implies open_or_no_hand(#[trigger] all[j]) by {
                    if j < n {
                        assert(all[j] == frames[j]);
                    }
                }
                assert(all[k] == frames[k]);
                assert(open_palm_held_from(all, k) && elapsed_ms(ts, all[k].0) >= t.hold_to_control_ms);
            },
            None => {
                assert(open_palm_held_from(all, n) && elapsed_ms(ts, all[n].0) >= t.hold_to_control_ms);
            },
        }
    }
    if out.contains(GestureSignal::ControlOff) {
        let since = m.stop_pose_since_ms->0;
        let k = choose|k: int| fist_held_from(frames, k) && frames[k].0 == since;
        assert forall|j: int| k <= j < all.len() implies fist_or_no_hand(#[trigger] all[j]) by {
            if j < n {
                assert(all[j] == frames[j]);
            }
        }
        assert(all[k] == frames[k]);
        assert(fist_held_from(all, k) && elapsed_ms(ts, all[k].0) >= STOP_HOLD_MS);
    }
}

proof fn lemma_control_starts_only_after_open_palm_hold_any(m: GestureMachine, ts: u64, signals: Option<PoseSignals>)
    ensures
        ({
            let (n, out, _c) = m.process_spec(ts, signals);
            out.contains(GestureSignal::ControlOn) ==> {
                &&& m.control_mode == ControlMode::Inactive
                &&& signals matches Some(s) && s.open_palm_pose
                &&& elapsed_ms(ts, since_or_now(m.arm_pose_since_ms, ts)) >= m.timing.hold_to_control_ms
            }
        }),
{
}


/// In move mode, a hand frame that shows none of the two-finger pose, an open
/// palm or a fist forgets the pointer anchor, so that the pointer does not
/// jump when the two-finger pose returns; the anchor is kept unchanged only
/// on frames that leave pointer tracking alone: no hand, control off, or a
/// fist or open palm still being held.
pub proof fn lemma_anchor_cleared_outside_move_pose(m: GestureMachine, ts: u64, signals: Option<PoseSignals>)
    ensures
        ({
            let (n, out, c) = m.process_spec(ts, signals);
            &&& (m.control_mode == ControlMode::Move && signals is Some
                && !signals.unwrap().two_finger_pose && !signals.unwrap().open_palm_pose
                && !signals.unwrap().closed_palm_pose) ==> (c == CursorUpdate::Clear
                && out.len() == 0 && n.control_mode == ControlMode::Move)
            &&& c == CursorUpdate::Keep ==> {
                ||| signals is None
                ||| m.control_mode == ControlMode::Inactive
                ||| (signals.unwrap().closed_palm_pose && n.control_mode == m.control_mode
                    && out.len() == 0)
                ||| (m.control_mode == ControlMode::Move && signals.unwrap().open_palm_pose
                    && n.control_mode == ControlMode::Move && out.len() == 0)
            }
        }),
{
}


/// Clutch is entered from move mode only by an open palm held for the clutch
/// time, and left for move mode only by a two-finger pose without a pinch or
/// an open palm, held for the clutch time; control off never goes straight
/// to move mode.
pub proof fn lemma_clutch_changes_need_held_poses(m: GestureMachine, ts: u64, signals: Option<PoseSignals>)
    ensures
        ({
            let (n, out, c) = m.process_spec(ts, signals);
            &&& (m.control_mode == ControlMode::Move && n.control_mode == ControlMode::Clutch) ==> {
                &&& signals.unwrap().open_palm_pose && !signals.unwrap().closed_palm_pose
                &&& elapsed_ms(ts, since_or_now(m.clutch_pose_since_ms, ts)) >= m.timing.clutch_enter_ms
            }
            &&& (m.control_mode == ControlMode::Clutch && n.control_mode == ControlMode::Move) ==> {
                &&& signals.unwrap().two_finger_pose && !signals.unwrap().pinch_index
                &&& !signals.unwrap().pinch_middle && !signals.unwrap().open_palm_pose
                &&& !signals.unwrap().closed_palm_pose
                &&& elapsed_ms(ts, since_or_now(m.unclutch_pose_since_ms, ts)) >= m.timing.clutch_enter_ms
                &&& c == CursorUpdate::Clear
            }
            &&& m.control_mode == ControlMode::Inactive ==> n.control_mode != ControlMode::Move
            &&& m.control_mode == ControlMode::Clutch ==> c != CursorUpdate::Track
        }),
{
}

} // verus!
