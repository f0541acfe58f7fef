//! The sidecar's gesture state machine: two-finger hold to move, pinch to
//! click (a second pinch within the window double-clicks), open palm held to
//! request a pause.

use crate::gestures::{elapsed_ms, since_or_now, CursorUpdate};
use crate::sidecar::types::ControlType;
use vstd::prelude::*;

verus! {

/// Elementary measurements on one frame's 21 landmarks.
#[derive(Debug, Clone, Copy, PartialEq, Eq, Structural)]
pub struct SidecarReadings {
    pub index_extended: bool,
    pub middle_extended: bool,
    pub ring_extended: bool,
    pub pinky_extended: bool,
    /// Thumb tip more than the spread distance to the side of the index MCP.
    pub thumb_spread: bool,
    /// Thumb tip closer to the index tip than the pinch threshold.
    pub pinch: bool,
}

/// Poses recognised on one frame.
#[derive(Debug, Clone, Copy, PartialEq, Eq, Structural)]
pub struct SidecarPose {
    pub two_finger: bool,
    pub open_palm: bool,
    pub pinch: bool,
}

pub open spec fn sidecar_pose_spec(r: Option<SidecarReadings>) -> SidecarPose {
    match r {
        None => SidecarPose { two_finger: false, open_palm: false, pinch: false },
        Some(r) => SidecarPose {
            two_finger: r.index_extended && r.middle_extended && !r.ring_extended && !r.pinky_extended,
            open_palm: r.index_extended && r.middle_extended && r.ring_extended && r.pinky_extended
                && r.thumb_spread,
            pinch: r.pinch,
        },
    }
}

impl SidecarPose {
    /// Classifies a frame (`None`: fewer than 21 landmarks, no pose at all).
    pub fn from_readings(r: Option<SidecarReadings>) -> (p: SidecarPose)
        ensures
            p == sidecar_pose_spec(r),
    {
        match r {
            None => SidecarPose { two_finger: false, open_palm: false, pinch: false },
            Some(r) => SidecarPose {
                two_finger: r.index_extended && r.middle_extended && !r.ring_extended
                    && !r.pinky_extended,
                open_palm: r.index_extended && r.middle_extended && r.ring_extended
                    && r.pinky_extended && r.thumb_spread,
                pinch: r.pinch,
            },
        }
    }
}

/// Hold and window lengths in milliseconds.
#[derive(Debug, Clone, Copy, PartialEq, Eq, Structural)]
pub struct SidecarTiming {
    pub move_pose_hold_ms: u64,
    pub pause_hold_ms: u64,
    pub double_click_window_ms: u64,
}

impl Default for SidecarTiming {
    /// 70 ms move hold, 180 ms pause hold, 280 ms double-click window.
    fn default() -> (t: Self)
        ensures
            t == (SidecarTiming { move_pose_hold_ms: 70, pause_hold_ms: 180, double_click_window_ms: 280 }),
    {
        SidecarTiming { move_pose_hold_ms: 70, pause_hold_ms: 180, double_click_window_ms: 280 }
    }
}

/// The intents of one frame, in the order they are sent: the move
/// activation change, the pointer update (a move delta when tracking and a
/// previous anchor exists), the click, then the pause request.
#[derive(Debug, Clone, Copy, PartialEq, Eq, Structural)]
pub struct SidecarStep {
    pub activation: Option<ControlType>,
    pub cursor: CursorUpdate,
    pub click: Option<ControlType>,
    pub pause_request: bool,
}

/// The sidecar gesture state machine.
#[derive(Debug, Clone, Copy, PartialEq, Eq, Structural)]
pub struct SidecarGestureMachine {
    pub timing: SidecarTiming,
    pub move_pose_since_ms: Option<u64>,
    pub move_active: bool,
    pub pinch_prev: bool,
    pub last_click_ts_ms: Option<u64>,
    pub open_palm_since_ms: Option<u64>,
    pub pause_latched: bool,
}

impl SidecarGestureMachine {
    pub open spec fn initial(timing: SidecarTiming) -> SidecarGestureMachine {
        SidecarGestureMachine {
            timing,
            move_pose_since_ms: None,
            move_active: false,
            pinch_prev: false,
            last_click_ts_ms: None,
            open_palm_since_ms: None,
            pause_latched: false,
        }
    }

    pub open spec fn process_spec(self, ts: u64, p: SidecarPose) -> (SidecarGestureMachine, SidecarStep) {
        let move_since = if p.two_finger { Some(since_or_now(self.move_pose_since_ms, ts)) } else { None };
        let turn_on = p.two_finger && !self.move_active && elapsed_ms(ts, since_or_now(
            self.move_pose_since_ms,
            ts,
        )) >= self.timing.move_pose_hold_ms;
        let turn_off = !p.two_finger && self.move_active;
        let active = if p.two_finger { self.move_active || turn_on } else { false };
        let new_pinch = p.pinch && !self.pinch_prev;
        let click = if !new_pinch {
            None
        } else {
            match self.last_click_ts_ms {
                Some(last) if elapsed_ms(ts, last) <= self.timing.double_click_window_ms => Some(
                    ControlType::DoubleClick,
                ),
                _ => Some(ControlType::Click),
            }
        };
        let open_since = if p.open_palm { Some(since_or_now(self.open_palm_since_ms, ts)) } else { None };
        let pause = p.open_palm && !self.pause_latched && elapsed_ms(ts, since_or_now(
            self.open_palm_since_ms,
            ts,
        )) >= self.timing.pause_hold_ms;
        (
            SidecarGestureMachine {
                timing: self.timing,
                move_pose_since_ms: move_since,
                move_active: active,
                pinch_prev: p.pinch,
                last_click_ts_ms: if new_pinch { Some(ts) } else { self.last_click_ts_ms },
                open_palm_since_ms: open_since,
                pause_latched: p.open_palm && (self.pause_latched || pause),
            },
            SidecarStep {
                activation: if turn_on {
                    Some(ControlType::MoveActiveOn)
                } else if turn_off {
                    Some(ControlType::MoveActiveOff)
                } else {
                    None
                },
                cursor: if active { CursorUpdate::Track } else { CursorUpdate::Clear },
                click,
                pause_request: pause,
            },
        )
    }

    pub open spec fn reset_spec(self) -> (SidecarGestureMachine, Option<ControlType>) {
        (
            SidecarGestureMachine {
                move_pose_since_ms: None,
                move_active: false,
                pinch_prev: false,
                open_palm_since_ms: None,
                pause_latched: false,
                ..self
            },
            if self.move_active { Some(ControlType::MoveActiveOff) } else { None },
        )
    }

    /// A machine with movement off and nothing held.
    pub fn new(timing: SidecarTiming) -> (m: SidecarGestureMachine)
        ensures
            m == SidecarGestureMachine::initial(timing),
    {
        SidecarGestureMachine {
            timing,
            move_pose_since_ms: None,
            move_active: false,
            pinch_prev: false,
            last_click_ts_ms: None,
            open_palm_since_ms: None,
            pause_latched: false,
        }
    }

    /// Forgets held poses after tracking was lost; reports the end of
    /// movement when it was active.
    pub fn reset_on_lost(&mut self) -> (off: Option<ControlType>)
        ensures
            (*final(self), off) == old(self).reset_spec(),
    {
        self.move_pose_since_ms = None;
        self.pinch_prev = false;
        self.open_palm_since_ms = None;
        self.pause_latched = false;
        if self.move_active {
            self.move_active = false;
            Some(ControlType::MoveActiveOff)
        } else {
            None
        }
    }

    /// Processes one frame's poses.
    pub fn process(&mut self, ts_ms: u64, p: SidecarPose) -> (step: SidecarStep)
        ensures
            (*final(self), step) == old(self).process_spec(ts_ms, p),
    {
        let mut activation: Option<ControlType> = None;
        if p.two_finger {
            if self.move_pose_since_ms.is_none() {
                self.move_pose_since_ms = Some(ts_ms);
            }
            if !self.move_active {
                if let Some(since) = self.move_pose_since_ms {
                    if ts_ms.saturating_sub(since) >= self.timing.move_pose_hold_ms {
                        self.move_active = true;
                        activation = Some(ControlType::MoveActiveOn);
                    }
                }
            }
        } else {
            self.move_pose_since_ms = None;
            if self.move_active {
                self.move_active = false;
                activation = Some(ControlType::MoveActiveOff);
            }
        }
        let cursor = if self.move_active { CursorUpdate::Track } else { CursorUpdate::Clear };

        let mut click: Option<ControlType> = None;
        if p.pinch && !self.pinch_prev {
            if let Some(last) = self.last_click_ts_ms {
                if ts_ms.saturating_sub(last) <= self.timing.double_click_window_ms {
                    click = Some(ControlType::DoubleClick);
                } else {
                    click = Some(ControlType::Click);
                }
            } else {
                click = Some(ControlType::Click);
            }
            self.last_click_ts_ms = Some(ts_ms);
        }
        self.pinch_prev = p.pinch;

        let mut pause_request = false;
        if p.open_palm {
            if self.open_palm_since_ms.is_none() {
                self.open_palm_since_ms = Some(ts_ms);
            }
            if !self.pause_latched {
                if let Some(since) = self.open_palm_since_ms {
                    if ts_ms.saturating_sub(since) >= self.timing.pause_hold_ms {
                        self.pause_latched = true;
                        pause_request = true;
                    }
                }
            }
        } else {
            self.open_palm_since_ms = None;
            self.pause_latched = false;
        }
        SidecarStep { activation, cursor, click, pause_request }
    }
}

/// A new pinch double-clicks exactly when the previous click is within the
/// window, and clicks otherwise; a held pinch never clicks again.
pub proof fn lemma_double_click_within_window(m: SidecarGestureMachine, ts: u64, p: SidecarPose)
    ensures
        ({
            let (n, step) = m.process_spec(ts, p);
            &&& (step.click is Some <==> (p.pinch && !m.pinch_prev))
            &&& step.click == Some(ControlType::DoubleClick) <==> (p.pinch && !m.pinch_prev
                && m.last_click_ts_ms is Some && elapsed_ms(ts, m.last_click_ts_ms->0)
                <= m.timing.double_click_window_ms)
            &&& step.click is Some ==> n.last_click_ts_ms == Some(ts)
        }),
{
}

/// A pause is requested at most once per continuous open-palm hold: the
/// frame after a request never requests again while the palm stays open.
pub proof fn lemma_pause_requested_once_per_hold(m: SidecarGestureMachine, ts1: u64, ts2: u64, p1: SidecarPose, p2: SidecarPose)
    requires
        p2.open_palm,
    ensures
        m.process_spec(ts1, p1).1.pause_request ==> !m.process_spec(ts1, p1).0.process_spec(ts2, p2).1.pause_request,
{
}

/// Movement turns on only after the two-finger pose was held, turns off only
/// when the pose ends, and the pointer is tracked exactly while movement is
/// active.
pub proof fn lemma_movement_follows_two_finger_hold(m: SidecarGestureMachine, ts: u64, p: SidecarPose)
    ensures
        ({
            let (n, step) = m.process_spec(ts, p);
            &&& step.activation == Some(ControlType::MoveActiveOn) ==> (p.two_finger && !m.move_active
                && elapsed_ms(ts, since_or_now(m.move_pose_since_ms, ts)) >= m.timing.move_pose_hold_ms)
            &&& step.activation == Some(ControlType::MoveActiveOff) <==> (!p.two_finger && m.move_active)
            &&& (step.cursor == CursorUpdate::Track <==> n.move_active)
            &&& n.move_active ==> p.two_finger
        }),
{
}

/// Losing tracking ends movement, reporting it exactly when movement was on,
/// and keeps the time of the last click.
pub proof fn lemma_reset_ends_movement(m: SidecarGestureMachine)
    ensures
        !m.reset_spec().0.move_active,
        m.reset_spec().1 is Some <==> m.move_active,
        m.reset_spec().0.last_click_ts_ms == m.last_click_ts_ms,
{
}


/// A sidecar frame: its time and its poses.
pub type SidecarFrame = (u64, SidecarPose);

/// The machine after processing `frames` in order.
pub open spec fn run_sidecar_frames(m: SidecarGestureMachine, frames: Seq<SidecarFrame>) -> SidecarGestureMachine
    decreases frames.len(),
{
    if frames.len() == 0 {
        m
    } else {
        run_sidecar_frames(m, frames.drop_last()).process_spec(frames.last().0, frames.last().1).0
    }
}

/// Every frame from `k` on shows the two-finger pose.
pub open spec fn two_finger_held_from(frames: Seq<SidecarFrame>, k: int) -> bool {
    &&& 0 <= k < frames.len()
    &&& forall|j: int| k <= j < frames.len() ==> (#[trigger] frames[j]).1.two_finger
}

/// Every frame from `k` on shows an open palm.
pub open spec fn open_palm_held_from(frames: Seq<SidecarFrame>, k: int) -> bool {
    &&& 0 <= k < frames.len()
    &&& forall|j: int| k <= j < frames.len() ==> (#[trigger] frames[j]).1.open_palm
}

/// The hold start times a machine remembers are the first frames of poses
/// still held.
pub proof fn lemma_sidecar_hold_times_are_witnessed(t: SidecarTiming, frames: Seq<SidecarFrame>)
    ensures
        ({
            let m = run_sidecar_frames(SidecarGestureMachine::initial(t), frames);
            &&& m.timing == t
            &&& m.move_pose_since_ms is Some ==> exists|k: int|
                two_finger_held_from(frames, k) && frames[k].0 == m.move_pose_since_ms->0
            &&& m.open_palm_since_ms is Some ==> exists|k: int|
                open_palm_held_from(frames, k) && frames[k].0 == m.open_palm_since_ms->0
        }),
    decreases frames.len(),
{
    if frames.len() > 0 {
        let prev = frames.drop_last();
        lemma_sidecar_hold_times_are_witnessed(t, prev);
        let m0 = run_sidecar_frames(SidecarGestureMachine::initial(t), prev);
        let (ts, p) = frames.last();
        let m = run_sidecar_frames(SidecarGestureMachine::initial(t), frames);
        assert(m == m0.process_spec(ts, p).0);
        let n = frames.len() - 1;
        assert(frames[n] == (ts, p));
        if m.move_pose_since_ms is Some {
            if m0.move_pose_since_ms is Some {
                let k = choose|k: int| two_finger_held_from(prev, k) && prev[k].0 == m0.move_pose_since_ms->0;
                assert forall|j: int| k <= j < frames.len() implies (#[trigger] frames[j]).1.two_finger by {
                    if j < n {
                        assert(frames[j] == prev[j]);
                    }
                }
                assert(frames[k] == prev[k]);
                assert(two_finger_held_from(frames, k));
            } else {
                assert(two_finger_held_from(frames, n));
            }
        }
        if m.open_palm_since_ms is Some {
            if m0.open_palm_since_ms is Some {
                let k = choose|k: int| open_palm_held_from(prev, k) && prev[k].0 == m0.open_palm_since_ms->0;
                assert forall|j: int| k <= j < frames.len() implies (#[trigger] frames[j]).1.open_palm by {
                    if j < n {
                        assert(frames[j] == prev[j]);
                    }
                }
                assert(frames[k] == prev[k]);
                assert(open_palm_held_from(frames, k));
            } else {
                assert(open_palm_held_from(frames, n));
            }
        }
    }
}

/// Debounce over a whole run: movement turns on only after the two-finger
/// pose has been held in every frame for at least the move hold, and a
/// pause is requested only after an open palm has been held in every frame
/// for at least the pause hold.
pub proof fn lemma_sidecar_debounce_over_frames(t: SidecarTiming, frames: Seq<SidecarFrame>, ts: u64, p: SidecarPose)
    ensures
        ({
            let m = run_sidecar_frames(SidecarGestureMachine::initial(t), frames);
            let all = frames.push((ts, p));
            let step = m.process_spec(ts, p).1;
            &&& step.activation == Some(ControlType::MoveActiveOn) ==> exists|k: int|
                two_finger_held_from(all, k) && elapsed_ms(ts, all[k].0) >= t.move_pose_hold_ms
            &&& step.pause_request ==> exists|k: int|
                open_palm_held_from(all, k) && elapsed_ms(ts, all[k].0) >= t.pause_hold_ms
        }),
{
    let m = run_sidecar_frames(SidecarGestureMachine::initial(t), frames);
    let all = frames.push((ts, p));
    let step = m.process_spec(ts, p).1;
    lemma_sidecar_hold_times_are_witnessed(t, frames);
    let n = frames.len() as int;
    assert(all[n] == (ts, p));
    if step.activation == Some(ControlType::MoveActiveOn) {
        match m.move_pose_since_ms {
            Some(since) => {
                let k = choose|k: int| two_finger_held_from(frames, k) && frames[k].0 == since;
                assert forall|j: int| k <= j < all.len() implies (#[trigger] all[j]).1.two_finger by {
                    if j < n {
                        assert(all[j] == frames[j]);
                    }
                }
                assert(all[k] == frames[k]);
                assert(two_finger_held_from(all, k) && elapsed_ms(ts, all[k].0) >= t.move_pose_hold_ms);
            },
            None => {
                assert(two_finger_held_from(all, n) && elapsed_ms(ts, all[n].0) >= t.move_pose_hold_ms);
            },
        }
    }
    if step.pause_request {
        match m.open_palm_since_ms {
            Some(since) => {
                let k = choose|k: int| open_palm_held_from(frames, k) && frames[k].0 == since;
                assert forall|j: int| k <= j < all.len() implies (#[trigger] all[j]).1.open_palm by {
                    if j < n {
                        assert(all[j] == frames[j]);
                    }
                }
                assert(all[k] == frames[k]);
                assert(open_palm_held_from(all, k) && elapsed_ms(ts, all[k].0) >= t.pause_hold_ms);
            },
            None => {
                assert(open_palm_held_from(all, n) && elapsed_ms(ts, all[n].0) >= t.pause_hold_ms);
            },
        }
    }
}


/// The open palm needs all four fingers extended and the thumb spread away
/// from the index: a hand with the thumb tucked in is no open palm, so
/// holding it never requests a pause.
pub proof fn lemma_open_palm_needs_spread_thumb(m: SidecarGestureMachine, ts: u64, r: SidecarReadings)
    ensures
        sidecar_pose_spec(Some(r)).open_palm <==> (r.index_extended && r.middle_extended
            && r.ring_extended && r.pinky_extended && r.thumb_spread),
        !r.thumb_spread ==> !m.process_spec(ts, sidecar_pose_spec(Some(r))).1.pause_request,
        sidecar_pose_spec(Some(r)).open_palm ==> !sidecar_pose_spec(Some(r)).two_finger,
{
}


/// The two-finger pose is index and middle up with ring and pinky down; the
/// pinch is read as measured; a frame without a full hand shows no pose.
pub proof fn lemma_sidecar_poses_follow_readings(r: SidecarReadings)
    ensures
        sidecar_pose_spec(Some(r)).two_finger <==> (r.index_extended && r.middle_extended
            && !r.ring_extended && !r.pinky_extended),
        sidecar_pose_spec(Some(r)).pinch == r.pinch,
        !sidecar_pose_spec(None).two_finger && !sidecar_pose_spec(None).open_palm
            && !sidecar_pose_spec(None).pinch,
{
}

} // verus!
