//! Per-frame decisions of the runtime engine: tracking status with its lost
//! timeout and reset grace, which gesture work a frame gets, warm-up
//! classification, and which settings changes need a new tracker.

use crate::config::{CameraSettings, VisionBackend};
use crate::gestures::{GestureMachine, GestureSignal};
use crate::types::ControlMode;
use crate::types::TrackingStatus;
use vstd::prelude::*;

verus! {

/// How far a warm-up frame got.
#[derive(Debug, Clone, Copy, PartialEq, Eq, Structural)]
pub enum WarmupState {
    NoFrame,
    FrameAvailable,
    HandVisible,
}

/// Number of hand landmarks in a complete frame.
pub const HAND_LANDMARKS: usize = 21;

/// Shortest time tracking must stay lost before gestures are reset.
pub const LOST_RESET_MIN_GRACE_MS: u64 = 900;

pub open spec fn warmup_state_spec(dropped: bool, landmark_count: Option<usize>) -> WarmupState {
    if dropped {
        WarmupState::NoFrame
    } else if landmark_count == Some(HAND_LANDMARKS) {
        WarmupState::HandVisible
    } else {
        WarmupState::FrameAvailable
    }
}

/// Classifies a warm-up frame: dropped, a complete hand, or anything else.
pub fn warmup_state(dropped: bool, landmark_count: Option<usize>) -> (w: WarmupState)
    ensures
        w == warmup_state_spec(dropped, landmark_count),
{
    if dropped {
        return WarmupState::NoFrame;
    }
    if let Some(n) = landmark_count {
        if n == HAND_LANDMARKS {
            return WarmupState::HandVisible;
        }
    }
    WarmupState::FrameAvailable
}

/// What one tracker packet shows, measured against the confidence thresholds.
#[derive(Debug, Clone, Copy, PartialEq, Eq, Structural)]
pub struct FrameObservation {
    pub has_landmarks: bool,
    /// Confidence at least the lock threshold.
    pub meets_lock: bool,
    /// Confidence below the unlock threshold.
    pub below_unlock: bool,
}

/// The tracking status decided for a frame.
#[derive(Debug, Clone, Copy, PartialEq, Eq, Structural)]
pub struct StatusUpdate {
    pub status: TrackingStatus,
    /// The status differs from the last one reported.
    pub emit_status: bool,
    /// Tracking has been lost for the whole reset grace.
    pub reset_gestures: bool,
}

/// Tracking status memory of the runtime engine.
#[derive(Debug, Clone, Copy, PartialEq, Eq, Structural)]
pub struct TrackingMonitor {
    pub last_seen_ok_ms: u64,
    pub last_seen_landmark_ms: u64,
    pub lost_since_ms: Option<u64>,
    pub last_status: Option<TrackingStatus>,
}

pub open spec fn sat_sub(a: u64, b: u64) -> u64 {
    if a >= b { (a - b) as u64 } else { 0 }
}

impl TrackingMonitor {
    pub open spec fn fresh() -> TrackingMonitor {
        TrackingMonitor { last_seen_ok_ms: 0, last_seen_landmark_ms: 0, lost_since_ms: None, last_status: None }
    }

    /// A loss is being timed only while the last status was `lost`.
    pub open spec fn well_formed(self) -> bool {
        self.lost_since_ms is Some ==> self.last_status == Some(TrackingStatus::Lost)
    }

    pub open spec fn observe_spec(self, ts: u64, obs: FrameObservation, lost_timeout_ms: u64) -> (TrackingMonitor, StatusUpdate) {
        let seen_landmark = if obs.has_landmarks { ts } else { self.last_seen_landmark_ms };
        let status = if !obs.has_landmarks && sat_sub(ts, seen_landmark) > lost_timeout_ms {
            TrackingStatus::Lost
        } else if obs.below_unlock {
            TrackingStatus::LowConfidence
        } else {
            TrackingStatus::Tracking
        };
        let lost_since = if status == TrackingStatus::Lost {
            match self.lost_since_ms {
                Some(t) => Some(t),
                None => Some(ts),
            }
        } else {
            None
        };
        let grace = if lost_timeout_ms > LOST_RESET_MIN_GRACE_MS { lost_timeout_ms } else { LOST_RESET_MIN_GRACE_MS };
        (
            TrackingMonitor {
                last_seen_ok_ms: if obs.meets_lock && obs.has_landmarks { ts } else { self.last_seen_ok_ms },
                last_seen_landmark_ms: seen_landmark,
                lost_since_ms: lost_since,
                last_status: Some(status),
            },
            StatusUpdate {
                status,
                emit_status: self.last_status != Some(status),
                reset_gestures: status == TrackingStatus::Lost && sat_sub(ts, lost_since->0) >= grace,
            },
        )
    }

    /// A monitor that has seen nothing yet.
    pub fn new() -> (m: TrackingMonitor)
        ensures
            m == TrackingMonitor::fresh(),
    {
        TrackingMonitor { last_seen_ok_ms: 0, last_seen_landmark_ms: 0, lost_since_ms: None, last_status: None }
    }

    /// Forgets everything, as when the tracker is released.
    pub fn release(&mut self)
        ensures
            *final(self) == TrackingMonitor::fresh(),
    {
        self.last_seen_ok_ms = 0;
        self.last_seen_landmark_ms = 0;
        self.lost_since_ms = None;
        self.last_status = None;
    }

    /// Decides the tracking status of a frame: lost once landmarks have been
    /// missing for longer than the timeout, low confidence below the unlock
    /// threshold, tracking otherwise.
    pub fn observe(&mut self, ts_ms: u64, obs: FrameObservation, lost_timeout_ms: u64) -> (u: StatusUpdate)
        ensures
            (*final(self), u) == old(self).observe_spec(ts_ms, obs, lost_timeout_ms),
    {
        if obs.has_landmarks {
            self.last_seen_landmark_ms = ts_ms;
        }
        if obs.meets_lock && obs.has_landmarks {
            self.last_seen_ok_ms = ts_ms;
        }
        let status = if !obs.has_landmarks && ts_ms.saturating_sub(self.last_seen_landmark_ms)
            > lost_timeout_ms {
            TrackingStatus::Lost
        } else if obs.below_unlock {
            TrackingStatus::LowConfidence
        } else {
            TrackingStatus::Tracking
        };
        let is_lost = match status {
            TrackingStatus::Lost => true,
            _ => false,
        };
        if is_lost {
            if self.lost_since_ms.is_none() {
                self.lost_since_ms = Some(ts_ms);
            }
        } else {
            self.lost_since_ms = None;
        }
        let grace = if lost_timeout_ms > LOST_RESET_MIN_GRACE_MS {
            lost_timeout_ms
        } else {
            LOST_RESET_MIN_GRACE_MS
        };
        let reset_gestures = match self.lost_since_ms {
            Some(since) => is_lost && ts_ms.saturating_sub(since) >= grace,
            None => false,
        };
        let emit_status = match self.last_status {
            Some(prev) => prev != status,
            None => true,
        };
        self.last_status = Some(status);
        StatusUpdate { status, emit_status, reset_gestures }
    }
}

/// Gesture work for one frame.
#[derive(Debug, Clone, Copy, PartialEq, Eq, Structural)]
pub enum GestureAction {
    Idle,
    Process,
    ResetOnLost,
}

/// What an unpaused frame produces after its status.
#[derive(Debug, Clone, Copy, PartialEq, Eq, Structural)]
pub struct FramePlan {
    /// Smoothed landmarks, their gesture hint and the tracking frame are sent.
    pub emit_hint_and_frame: bool,
    pub gestures: GestureAction,
}

pub open spec fn plan_frame_spec(update: StatusUpdate, landmark_count: Option<usize>) -> FramePlan {
    let complete = landmark_count == Some(HAND_LANDMARKS);
    let lost = update.status == TrackingStatus::Lost;
    FramePlan {
        emit_hint_and_frame: complete,
        gestures: if complete && !lost {
            GestureAction::Process
        } else if lost && update.reset_gestures {
            GestureAction::ResetOnLost
        } else {
            GestureAction::Idle
        },
    }
}

/// Plans an unpaused frame: a complete hand is smoothed, hinted and sent,
/// and its gestures processed unless tracking is lost; a lost hand resets
/// the gestures once the grace has passed.
pub fn plan_frame(update: StatusUpdate, landmark_count: Option<usize>) -> (p: FramePlan)
    ensures
        p == plan_frame_spec(update, landmark_count),
{
    let complete = match landmark_count {
        Some(n) => n == HAND_LANDMARKS,
        None => false,
    };
    let lost = match update.status {
        TrackingStatus::Lost => true,
        _ => false,
    };
    let gestures = if complete && !lost {
        GestureAction::Process
    } else if lost && update.reset_gestures {
        GestureAction::ResetOnLost
    } else {
        GestureAction::Idle
    };
    FramePlan { emit_hint_and_frame: complete, gestures }
}

/// One kind of event a runtime tick emits, in the order they are sent.
#[derive(Debug, Clone, Copy, PartialEq, Eq, Structural)]
pub enum TickEvent {
    CameraPreview,
    TrackingStatus,
    /// The control intents of the frame's gesture work (possibly none).
    ControlIntents,
    GestureHint,
    TrackingFrame,
}

/// What one tick of the runtime engine emits before its health report, and
/// the gesture work it does.
#[derive(Debug, Clone)]
pub struct TickPlan {
    pub events: Vec<TickEvent>,
    pub gestures: GestureAction,
}

pub open spec fn tick_events_spec(has_preview: bool, landmark_count: Option<usize>, update: Option<StatusUpdate>) -> Seq<TickEvent> {
    let preview = if has_preview { seq![TickEvent::CameraPreview] } else { seq![] };
    preview + match update {
        None => if landmark_count == Some(HAND_LANDMARKS) {
            seq![TickEvent::GestureHint]
        } else {
            seq![]
        },
        Some(u) => {
            let p = plan_frame_spec(u, landmark_count);
            (if u.emit_status { seq![TickEvent::TrackingStatus] } else { seq![] }) + (if p.gestures
                != GestureAction::Idle {
                seq![TickEvent::ControlIntents]
            } else {
                seq![]
            }) + (if p.emit_hint_and_frame {
                seq![TickEvent::GestureHint, TickEvent::TrackingFrame]
            } else {
                seq![]
            })
        },
    }
}

pub open spec fn tick_gestures_spec(landmark_count: Option<usize>, update: Option<StatusUpdate>) -> GestureAction {
    match update {
        None => GestureAction::Idle,
        Some(u) => plan_frame_spec(u, landmark_count).gestures,
    }
}

/// Plans one tick: `update` is the frame's status, or `None` while paused,
/// when tracking status is not consulted. A paused tick sends the preview
/// and, for a complete hand, its gesture hint, and leaves the gestures
/// alone; a running tick sends the preview, a changed status, the intents of
/// its gesture work, then the hint and the tracking frame of a complete hand.
pub fn plan_tick(has_preview: bool, landmark_count: Option<usize>, update: Option<StatusUpdate>) -> (p: TickPlan)
    ensures
        p.events@ == tick_events_spec(has_preview, landmark_count, update),
        p.gestures == tick_gestures_spec(landmark_count, update),
{
    let mut events: Vec<TickEvent> = Vec::new();
    if has_preview {
        events.push(TickEvent::CameraPreview);
    }
    let complete = match landmark_count {
        Some(n) => n == HAND_LANDMARKS,
        None => false,
    };
    let gestures = match update {
        None => {
            if complete {
                events.push(TickEvent::GestureHint);
            }
            GestureAction::Idle
        },
        Some(u) => {
            let plan = plan_frame(u, landmark_count);
            if u.emit_status {
                events.push(TickEvent::TrackingStatus);
            }
            match plan.gestures {
                GestureAction::Idle => {},
                _ => events.push(TickEvent::ControlIntents),
            }
            if plan.emit_hint_and_frame {
                events.push(TickEvent::GestureHint);
                events.push(TickEvent::TrackingFrame);
            }
            plan.gestures
        },
    };
    proof {
        assert(events@ =~= tick_events_spec(has_preview, landmark_count, update));
    }
    TickPlan { events, gestures }
}

/// A paused tick leaves the gestures alone and sends neither a status nor a
/// tracking frame; a running tick sends its status first after the preview,
/// and the tracking frame last, right after the hint.
pub proof fn lemma_tick_event_order(has_preview: bool, landmark_count: Option<usize>, update: Option<StatusUpdate>)
    ensures
        ({
            let ev = tick_events_spec(has_preview, landmark_count, update);
            let pre = if has_preview { 1int } else { 0int };
            &&& update is None ==> {
                &&& tick_gestures_spec(landmark_count, update) == GestureAction::Idle
                &&& !ev.contains(TickEvent::TrackingStatus)
                &&& !ev.contains(TickEvent::TrackingFrame)
                &&& !ev.contains(TickEvent::ControlIntents)
            }
            &&& has_preview ==> ev[0] == TickEvent::CameraPreview
            &&& ev.contains(TickEvent::TrackingStatus) ==> ev[pre] == TickEvent::TrackingStatus
            &&& ev.contains(TickEvent::TrackingFrame) ==> {
                &&& ev.last() == TickEvent::TrackingFrame
                &&& ev[ev.len() - 2] == TickEvent::GestureHint
            }
        }),
{
    let ev = tick_events_spec(has_preview, landmark_count, update);
    if ev.contains(TickEvent::TrackingStatus) || ev.contains(TickEvent::TrackingFrame)
        || ev.contains(TickEvent::ControlIntents) {
        let e = choose|i: int| 0 <= i < ev.len() && (ev[i] == TickEvent::TrackingStatus
            || ev[i] == TickEvent::TrackingFrame || ev[i] == TickEvent::ControlIntents);
        assert(0 <= e < ev.len());
    }
}

/// The gestures, tracking monitor and intents after the runtime engine stops.
pub open spec fn stop_engine_spec(gestures: GestureMachine) -> (GestureMachine, TrackingMonitor, Seq<GestureSignal>) {
    let (g, out) = gestures.reset_spec();
    (g, TrackingMonitor::fresh(), out)
}

/// Stops the runtime engine: gestures are reset as on a lost hand (turning
/// control off) and the tracking monitor forgets everything, as the tracker
/// is released; the next tick starts a new tracker from scratch.
pub fn stop_engine(gestures: &mut GestureMachine, monitor: &mut TrackingMonitor) -> (out: Vec<GestureSignal>)
    ensures
        (*final(gestures), *final(monitor), out@) == stop_engine_spec(*old(gestures)),
{
    monitor.release();
    gestures.reset_on_lost()
}

/// Stopping the engine sends `control off` exactly when control was on and
/// nothing else, leaves control off with the timing kept, releases the
/// tracker (the monitor has reported no status, so the next tick reports
/// one again), and a second stop sends nothing.
pub proof fn lemma_engine_stop_turns_control_off_and_releases_tracker(gestures: GestureMachine)
    ensures
        ({
            let (g, monitor, out) = stop_engine_spec(gestures);
            &&& out == if gestures.control_mode != ControlMode::Inactive {
                seq![GestureSignal::ControlOff]
            } else {
                Seq::<GestureSignal>::empty()
            }
            &&& g.control_mode == ControlMode::Inactive
            &&& g.timing == gestures.timing
            &&& monitor == TrackingMonitor::fresh()
            &&& monitor.last_status is None
            &&& stop_engine_spec(g).2 == Seq::<GestureSignal>::empty()
        }),
{
}

/// A frame with landmarks is never lost; a lost status is reported only
/// after landmarks were missing for longer than the timeout; gestures reset
/// only when lost for the whole grace, which is at least the timeout and at
/// least the minimum grace; the status is re-sent only when it changes.
pub proof fn lemma_lost_status_needs_timeout_and_grace(
    m: TrackingMonitor,
    ts: u64,
    obs: FrameObservation,
    lost_timeout_ms: u64,
)
    ensures
        ({
            let (n, u) = m.observe_spec(ts, obs, lost_timeout_ms);
            &&& u.status == TrackingStatus::Lost ==> (!obs.has_landmarks && sat_sub(ts, m.last_seen_landmark_ms) > lost_timeout_ms)
            &&& u.reset_gestures ==> (u.status == TrackingStatus::Lost && n.lost_since_ms is Some
                && sat_sub(ts, n.lost_since_ms->0) >= lost_timeout_ms
                && sat_sub(ts, n.lost_since_ms->0) >= LOST_RESET_MIN_GRACE_MS)
            &&& u.emit_status <==> m.last_status != Some(u.status)
            &&& n.last_status == Some(u.status)
            &&& u.status != TrackingStatus::Lost ==> n.lost_since_ms is None
        }),
{
}

/// Observing frames and releasing the tracker keep the monitor well formed.
pub proof fn lemma_monitor_stays_well_formed(m: TrackingMonitor, ts: u64, obs: FrameObservation, lost_timeout_ms: u64)
    requires
        m.well_formed(),
    ensures
        TrackingMonitor::fresh().well_formed(),
        m.observe_spec(ts, obs, lost_timeout_ms).0.well_formed(),
{
}

/// A frame's gestures are either processed or reset, never both; a lost
/// frame is never processed.
pub proof fn lemma_frame_plan_never_processes_lost_frames(u: StatusUpdate, landmark_count: Option<usize>)
    ensures
        ({
            let p = plan_frame_spec(u, landmark_count);
            &&& p.gestures == GestureAction::Process ==> (u.status != TrackingStatus::Lost && p.emit_hint_and_frame)
            &&& p.gestures == GestureAction::ResetOnLost ==> (u.status == TrackingStatus::Lost && u.reset_gestures)
        }),
{
}

/// The settings that decide which tracker runs and how it captures.
#[derive(Debug, Clone, PartialEq)]
pub struct TrackerSettings {
    pub vision_backend: VisionBackend,
    pub python_executable: String,
    pub mediapipe_script_path: Option<String>,
    pub camera: CameraSettings,
}

impl TrackerSettings {
    /// Two tracker configurations start the same tracker.
    pub open spec fn same_tracker(self, other: TrackerSettings) -> bool {
        &&& self.vision_backend == other.vision_backend
        &&& self.python_executable@ == other.python_executable@
        &&& match (self.mediapipe_script_path, other.mediapipe_script_path) {
            (None, None) => true,
            (Some(a), Some(b)) => a@ == b@,
            _ => false,
        }
        &&& self.camera == other.camera
    }
}

/// Whether switching from `current` to `next` needs a new tracker.
pub fn tracker_settings_changed(current: &TrackerSettings, next: &TrackerSettings) -> (changed: bool)
    ensures
        changed == !current.same_tracker(*next),
{
    if current.vision_backend != next.vision_backend {
        return true;
    }
    if current.python_executable != next.python_executable {
        return true;
    }
    let same_script = match (&current.mediapipe_script_path, &next.mediapipe_script_path) {
        (None, None) => true,
        (Some(a), Some(b)) => *a == *b,
        _ => false,
    };
    if !same_script {
        return true;
    }
    current.camera.camera_index != next.camera.camera_index || current.camera.camera_width
        != next.camera.camera_width || current.camera.camera_height != next.camera.camera_height
        || current.camera.camera_fps != next.camera.camera_fps
}

/// The tracker script used when none is configured.
pub open spec fn default_tracker_script() -> Seq<char> {
    "vision/mediapipe_tracker.py"@
}

/// The tracker sends a camera preview every this many frames.
pub const PREVIEW_EVERY_FRAMES: u64 = 3;

/// A decimal digit.
pub open spec fn decimal_digit(d: nat) -> char {
    if d == 0 {
        '0'
    } else if d == 1 {
        '1'
    } else if d == 2 {
        '2'
    } else if d == 3 {
        '3'
    } else if d == 4 {
        '4'
    } else if d == 5 {
        '5'
    } else if d == 6 {
        '6'
    } else if d == 7 {
        '7'
    } else if d == 8 {
        '8'
    } else {
        '9'
    }
}

/// A number written in decimal, without leading zeros.
pub open spec fn decimal_text(n: nat) -> Seq<char>
    decreases n,
{
    if n < 10 {
        seq![decimal_digit(n)]
    } else {
        decimal_text(n / 10).push(decimal_digit(n % 10))
    }
}

/// An integer written in decimal, with a minus sign when negative.
pub open spec fn signed_decimal_text(i: int) -> Seq<char> {
    if i < 0 {
        seq!['-'] + decimal_text((-i) as nat)
    } else {
        decimal_text(i as nat)
    }
}

fn digit_str(d: u64) -> (s: &'static str)
    requires
        d < 10,
    ensures
        s@ == seq![decimal_digit(d as nat)],
{
    if d == 0 {
        proof {
            reveal_strlit("0");
        }
        "0"
    } else if d == 1 {
        proof {
            reveal_strlit("1");
        }
        "1"
    } else if d == 2 {
        proof {
            reveal_strlit("2");
        }
        "2"
    } else if d == 3 {
        proof {
            reveal_strlit("3");
        }
        "3"
    } else if d == 4 {
        proof {
            reveal_strlit("4");
        }
        "4"
    } else if d == 5 {
        proof {
            reveal_strlit("5");
        }
        "5"
    } else if d == 6 {
        proof {
            reveal_strlit("6");
        }
        "6"
    } else if d == 7 {
        proof {
            reveal_strlit("7");
        }
        "7"
    } else if d == 8 {
        proof {
            reveal_strlit("8");
        }
        "8"
    } else {
        proof {
            reveal_strlit("9");
        }
        "9"
    }
}

/// Writes a number in decimal.
pub fn decimal_string(n: u64) -> (s: String)
    ensures
        s@ == decimal_text(n as nat),
    decreases n,
{
    if n < 10 {
        digit_str(n).to_owned()
    } else {
        let mut s = decimal_string(n / 10);
        s.append(digit_str(n % 10));
        s
    }
}

/// Writes an integer in decimal, with a minus sign when negative.
pub fn signed_decimal_string(i: i32) -> (s: String)
    ensures
        s@ == signed_decimal_text(i as int),
{
    if i < 0 {
        let magnitude: u64 = (0i64 - (i as i64)) as u64;
        let digits = decimal_string(magnitude);
        let mut s = "-".to_owned();
        proof {
            reveal_strlit("-");
        }
        s.append(digits.as_str());
        s
    } else {
        decimal_string(i as u64)
    }
}

/// The arguments the tracker process is started with, after the interpreter.
pub open spec fn tracker_args_spec(t: TrackerSettings) -> Seq<Seq<char>> {
    seq![
        match t.mediapipe_script_path {
            Some(p) => p@,
            None => default_tracker_script(),
        },
        "--camera-index"@,
        signed_decimal_text(t.camera.camera_index as int),
        "--width"@,
        decimal_text(t.camera.camera_width as nat),
        "--height"@,
        decimal_text(t.camera.camera_height as nat),
        "--fps"@,
        decimal_text(t.camera.camera_fps as nat),
        "--preview-every"@,
        decimal_text(PREVIEW_EVERY_FRAMES as nat),
    ]
}

/// Builds the tracker's command line: its script (the default one when none
/// is configured), then the camera index, capture size and rate, and the
/// preview interval.
pub fn tracker_command_args(t: &TrackerSettings) -> (args: Vec<String>)
    ensures
        args@.map_values(|a: String| a@) == tracker_args_spec(*t),
{
    let mut args: Vec<String> = Vec::new();
    let script = match &t.mediapipe_script_path {
        Some(p) => p.clone(),
        None => "vision/mediapipe_tracker.py".to_owned(),
    };
    args.push(script);
    args.push("--camera-index".to_owned());
    args.push(signed_decimal_string(t.camera.camera_index));
    args.push("--width".to_owned());
    args.push(decimal_string(t.camera.camera_width as u64));
    args.push("--height".to_owned());
    args.push(decimal_string(t.camera.camera_height as u64));
    args.push("--fps".to_owned());
    args.push(decimal_string(t.camera.camera_fps as u64));
    args.push("--preview-every".to_owned());
    args.push(decimal_string(PREVIEW_EVERY_FRAMES));
    proof {
        assert(args@.map_values(|a: String| a@) =~= tracker_args_spec(*t));
    }
    args
}


/// A frame that is not lost has low confidence exactly when its confidence is
/// below the unlock threshold, whatever the lock threshold says; a frame with
/// landmarks is never lost, and is tracked unless below the unlock
/// threshold.
pub proof fn lemma_low_confidence_only_below_unlock(
    m: TrackingMonitor,
    ts: u64,
    obs: FrameObservation,
    lost_timeout_ms: u64,
)
    ensures
        ({
            let u = m.observe_spec(ts, obs, lost_timeout_ms).1;
            &&& u.status != TrackingStatus::Lost ==> (u.status == TrackingStatus::LowConfidence
                <==> obs.below_unlock)
            &&& (obs.has_landmarks && !obs.below_unlock) ==> u.status == TrackingStatus::Tracking
            &&& (obs.has_landmarks && obs.below_unlock) ==> u.status == TrackingStatus::LowConfidence
            &&& u.status == TrackingStatus::Tracking ==> !obs.below_unlock
        }),
{
}

} // verus!
