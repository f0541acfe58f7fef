//! Runtime session lifecycle: which vision status announcements a start,
//! pause, resume, tracker restart or first frame calls for.

use crate::types::VisionStatus;
use vstd::prelude::*;

verus! {

/// What a start of the runtime has to announce.
#[derive(Debug, Clone, Copy, PartialEq, Eq, Structural)]
pub enum StartDecision {
    /// Vision already delivered frames: announce `ready` right away.
    AlreadyReady,
    /// Vision must still load its model and camera.
    NeedsLoading,
}

/// Outcome of a resume request.
#[derive(Debug, Clone, Copy, PartialEq, Eq, Structural)]
pub struct ResumeDecision {
    pub accepted: bool,
    pub announce_ready: bool,
}

/// Lifecycle flags of the runtime thread.
#[derive(Debug, Clone, Copy, PartialEq, Eq, Structural)]
pub struct RuntimeSessionState {
    pub running: bool,
    pub paused: bool,
    pub vision_ready: bool,
    pub ready_announced: bool,
}

impl Default for RuntimeSessionState {
    fn default() -> (s: Self)
        ensures
            s == RuntimeSessionState::idle(),
    {
        RuntimeSessionState { running: false, paused: false, vision_ready: false, ready_announced: false }
    }
}

impl RuntimeSessionState {
    /// The stopped session with nothing announced.
    pub open spec fn idle() -> RuntimeSessionState {
        RuntimeSessionState { running: false, paused: false, vision_ready: false, ready_announced: false }
    }

    /// A session never counts as paused while stopped, and `ready` is only
    /// ever announced for a tracker whose vision is ready.
    pub open spec fn well_formed(self) -> bool {
        &&& self.paused ==> self.running
        &&& self.ready_announced ==> self.vision_ready
    }

    pub open spec fn start_spec(self) -> (RuntimeSessionState, StartDecision) {
        (
            RuntimeSessionState {
                running: true,
                paused: false,
                vision_ready: self.vision_ready,
                ready_announced: self.ready_announced || self.vision_ready,
            },
            if self.vision_ready { StartDecision::AlreadyReady } else { StartDecision::NeedsLoading },
        )
    }

    pub open spec fn stop_spec(self) -> RuntimeSessionState {
        RuntimeSessionState::idle()
    }

    pub open spec fn pause_spec(self) -> (RuntimeSessionState, bool) {
        if !self.running {
            (self, false)
        } else {
            (RuntimeSessionState { paused: true, ..self }, true)
        }
    }

    pub open spec fn resume_spec(self) -> (RuntimeSessionState, ResumeDecision) {
        if !self.running {
            (self, ResumeDecision { accepted: false, announce_ready: false })
        } else {
            let announce = self.vision_ready && !self.ready_announced;
            (
                RuntimeSessionState {
                    paused: false,
                    ready_announced: self.ready_announced || announce,
                    ..self
                },
                ResumeDecision { accepted: true, announce_ready: announce },
            )
        }
    }

    pub open spec fn tracker_change_spec(self, tracker_changed: bool) -> (RuntimeSessionState, bool) {
        (
            if tracker_changed {
                RuntimeSessionState { vision_ready: false, ready_announced: false, ..self }
            } else {
                self
            },
            self.running && tracker_changed,
        )
    }

    pub open spec fn mark_ready_spec(self) -> (RuntimeSessionState, bool) {
        (
            RuntimeSessionState { vision_ready: true, ready_announced: true, ..self },
            !self.ready_announced,
        )
    }

    /// Starts the runtime; says whether vision must still load.
    pub fn start(&mut self) -> (d: StartDecision)
        ensures
            (*final(self), d) == old(self).start_spec(),
    {
        self.running = true;
        self.paused = false;
        if self.vision_ready {
            self.ready_announced = true;
            StartDecision::AlreadyReady
        } else {
            StartDecision::NeedsLoading
        }
    }

    /// Stops the runtime and forgets the vision state of the tracker.
    pub fn stop(&mut self)
        ensures
            *final(self) == old(self).stop_spec(),
    {
        self.running = false;
        self.paused = false;
        self.vision_ready = false;
        self.ready_announced = false;
    }

    /// Pauses a running session; a stopped one ignores the request.
    pub fn pause(&mut self) -> (accepted: bool)
        ensures
            (*final(self), accepted) == old(self).pause_spec(),
    {
        if !self.running {
            return false;
        }
        self.paused = true;
        true
    }

    /// Resumes a running session and says whether `ready` is still owed.
    pub fn resume(&mut self) -> (d: ResumeDecision)
        ensures
            (*final(self), d) == old(self).resume_spec(),
    {
        if !self.running {
            return ResumeDecision { accepted: false, announce_ready: false };
        }
        self.paused = false;
        let announce_ready = self.vision_ready && !self.ready_announced;
        if announce_ready {
            self.ready_announced = true;
        }
        ResumeDecision { accepted: true, announce_ready }
    }

    /// Records new settings; a tracker change makes vision load again, which a
    /// running session has to announce (the result).
    pub fn apply_tracker_settings_change(&mut self, tracker_changed: bool) -> (announce_loading: bool)
        ensures
            (*final(self), announce_loading) == old(self).tracker_change_spec(tracker_changed),
    {
        if tracker_changed {
            self.vision_ready = false;
            self.ready_announced = false;
        }
        self.running && tracker_changed
    }

    /// Records that the tracker delivered a frame; true when `ready` has to
    /// be announced now.
    pub fn mark_vision_ready(&mut self) -> (announce: bool)
        ensures
            (*final(self), announce) == old(self).mark_ready_spec(),
    {
        self.vision_ready = true;
        if self.ready_announced {
            return false;
        }
        self.ready_announced = true;
        true
    }
}


/// Every lifecycle operation keeps a well-formed session well formed, and the
/// default session is well formed.
pub proof fn lemma_session_operations_keep_well_formed(s: RuntimeSessionState, tracker_changed: bool)
    requires
        s.well_formed(),
    ensures
        RuntimeSessionState::idle().well_formed(),
        s.start_spec().0.well_formed(),
        s.stop_spec().well_formed(),
        s.pause_spec().0.well_formed(),
        s.resume_spec().0.well_formed(),
        s.tracker_change_spec(tracker_changed).0.well_formed(),
        s.mark_ready_spec().0.well_formed(),
{
}

/// A stopped session ignores pause and resume requests and stays as it is.
pub proof fn lemma_stopped_session_ignores_pause_and_resume(s: RuntimeSessionState)
    requires
        !s.running,
    ensures
        s.pause_spec() == (s, false),
        s.resume_spec() == (s, ResumeDecision { accepted: false, announce_ready: false }),
{
}

/// After a stop, the next start always has to load vision again.
pub proof fn lemma_start_after_stop_needs_loading(s: RuntimeSessionState)
    ensures
        s.stop_spec().start_spec().1 == StartDecision::NeedsLoading,
        !s.stop_spec().start_spec().0.ready_announced,
{
}

/// `ready` is announced once per tracker generation: a second frame
/// announces nothing, and after a tracker change the next frame announces it
/// again.
pub proof fn lemma_ready_announced_once_per_tracker(s: RuntimeSessionState)
    ensures
        !s.mark_ready_spec().0.mark_ready_spec().1,
        s.mark_ready_spec().0.tracker_change_spec(true).0.mark_ready_spec().1,
        s.mark_ready_spec().0.tracker_change_spec(false).0.mark_ready_spec().1 == false,
{
}

/// Loading is announced for a settings change exactly when the session runs
/// and the tracker changed.
pub proof fn lemma_loading_announced_only_for_running_tracker_change(s: RuntimeSessionState, changed: bool)
    ensures
        s.tracker_change_spec(changed).1 <==> (s.running && changed),
        !changed ==> s.tracker_change_spec(changed).0 == s,
{
}


/// A runtime command as the session sees it.
#[derive(Debug, Clone, Copy, PartialEq, Eq, Structural)]
pub enum SessionCommand {
    Start,
    Stop,
    Pause,
    Resume,
    /// New settings were applied; `tracker_changed` says whether they need a
    /// new tracker.
    UpdateSettings { tracker_changed: bool },
}

/// Something the runtime announces to the user interface.
#[derive(Debug, Clone, Copy, PartialEq, Eq, Structural)]
pub enum Announcement {
    Vision(VisionStatus),
    /// Tracking status `lost`.
    TrackingLost,
    /// Control intent `control_off`.
    ControlOff,
    /// Control intent `paused`.
    PausedIntent,
}

pub open spec fn loading_announcements() -> Seq<Announcement> {
    seq![Announcement::Vision(VisionStatus::LoadingModel), Announcement::Vision(VisionStatus::LoadingCamera)]
}

impl RuntimeSessionState {
    /// The session after a command, whether the command was accepted, and
    /// what it announces, in order.
    pub open spec fn command_spec(self, cmd: SessionCommand) -> (RuntimeSessionState, bool, Seq<Announcement>) {
        match cmd {
            SessionCommand::Start => {
                let (n, d) = self.start_spec();
                (
                    n,
                    true,
                    seq![Announcement::Vision(VisionStatus::Running)] + if d == StartDecision::AlreadyReady {
                        seq![Announcement::Vision(VisionStatus::Ready)]
                    } else {
                        loading_announcements()
                    },
                )
            },
            SessionCommand::Stop => (
                self.stop_spec(),
                true,
                seq![
                    Announcement::TrackingLost,
                    Announcement::ControlOff,
                    Announcement::Vision(VisionStatus::Stopped),
                ],
            ),
            SessionCommand::Pause => {
                let (n, accepted) = self.pause_spec();
                (
                    n,
                    accepted,
                    if accepted {
                        seq![Announcement::PausedIntent, Announcement::Vision(VisionStatus::Paused)]
                    } else {
                        seq![]
                    },
                )
            },
            SessionCommand::Resume => {
                let (n, d) = self.resume_spec();
                (
                    n,
                    d.accepted,
                    if !d.accepted {
                        seq![]
                    } else if d.announce_ready {
                        seq![Announcement::Vision(VisionStatus::Running), Announcement::Vision(VisionStatus::Ready)]
                    } else {
                        seq![Announcement::Vision(VisionStatus::Running)]
                    },
                )
            },
            SessionCommand::UpdateSettings { tracker_changed } => {
                let (n, loading) = self.tracker_change_spec(tracker_changed);
                (n, true, if loading { loading_announcements() } else { seq![] })
            },
        }
    }

    /// Applies a runtime command: returns whether it was accepted (pause and
    /// resume are ignored while stopped) and what must be announced.
    pub fn handle_command(&mut self, cmd: SessionCommand) -> (r: (bool, Vec<Announcement>))
        ensures
            (*final(self), r.0, r.1@) == old(self).command_spec(cmd),
    {
        let mut out: Vec<Announcement> = Vec::new();
        match cmd {
            SessionCommand::Start => {
                let d = self.start();
                out.push(Announcement::Vision(VisionStatus::Running));
                match d {
                    StartDecision::AlreadyReady => out.push(Announcement::Vision(VisionStatus::Ready)),
                    StartDecision::NeedsLoading => {
                        out.push(Announcement::Vision(VisionStatus::LoadingModel));
                        out.push(Announcement::Vision(VisionStatus::LoadingCamera));
                    },
                }
                proof {
                    assert(out@ =~= old(self).command_spec(cmd).2);
                }
                (true, out)
            },
            SessionCommand::Stop => {
                self.stop();
                out.push(Announcement::TrackingLost);
                out.push(Announcement::ControlOff);
                out.push(Announcement::Vision(VisionStatus::Stopped));
                proof {
                    assert(out@ =~= old(self).command_spec(cmd).2);
                }
                (true, out)
            },
            SessionCommand::Pause => {
                let accepted = self.pause();
                if accepted {
                    out.push(Announcement::PausedIntent);
                    out.push(Announcement::Vision(VisionStatus::Paused));
                }
                proof {
                    assert(out@ =~= old(self).command_spec(cmd).2);
                }
                (accepted, out)
            },
            SessionCommand::Resume => {
                let d = self.resume();
                if d.accepted {
                    out.push(Announcement::Vision(VisionStatus::Running));
                    if d.announce_ready {
                        out.push(Announcement::Vision(VisionStatus::Ready));
                    }
                }
                proof {
                    assert(out@ =~= old(self).command_spec(cmd).2);
                }
                (d.accepted, out)
            },
            SessionCommand::UpdateSettings { tracker_changed } => {
                if self.apply_tracker_settings_change(tracker_changed) {
                    out.push(Announcement::Vision(VisionStatus::LoadingModel));
                    out.push(Announcement::Vision(VisionStatus::LoadingCamera));
                }
                proof {
                    assert(out@ =~= old(self).command_spec(cmd).2);
                }
                (true, out)
            },
        }
    }
}

/// The session after a sequence of commands, from `s`.
pub open spec fn run_commands(s: RuntimeSessionState, cmds: Seq<SessionCommand>) -> RuntimeSessionState
    decreases cmds.len(),
{
    if cmds.len() == 0 {
        s
    } else {
        run_commands(s, cmds.drop_last()).command_spec(cmds.last()).0
    }
}

/// Any sequence of commands from the default session keeps it well formed:
/// never paused while stopped, and `ready` only announced for ready vision.
pub proof fn lemma_commands_keep_session_well_formed(cmds: Seq<SessionCommand>)
    ensures
        run_commands(RuntimeSessionState::idle(), cmds).well_formed(),
    decreases cmds.len(),
{
    if cmds.len() > 0 {
        lemma_commands_keep_session_well_formed(cmds.drop_last());
    }
}

/// Every accepted start and resume first announces `running`; a start then
/// announces either `ready` or the two loading stages; a stop always
/// announces `lost`, `control off` and `stopped`.
pub proof fn lemma_command_announcement_protocol(s: RuntimeSessionState, cmd: SessionCommand)
    ensures
        ({
            let (n, accepted, a) = s.command_spec(cmd);
            &&& (cmd == SessionCommand::Start || (cmd == SessionCommand::Resume && accepted))
                ==> (a.len() > 0 && a[0] == Announcement::Vision(VisionStatus::Running))
            &&& cmd == SessionCommand::Start ==> (a.len() == 2 || a.len() == 3)
            &&& cmd == SessionCommand::Stop ==> (a.last() == Announcement::Vision(VisionStatus::Stopped) && n == RuntimeSessionState::idle())
            &&& !accepted ==> (a.len() == 0 && n == s)
            &&& a.contains(Announcement::Vision(VisionStatus::Ready)) ==> n.ready_announced && n.vision_ready
        }),
{
    let (n, accepted, a) = s.command_spec(cmd);
    if a.contains(Announcement::Vision(VisionStatus::Ready)) {
        let i = choose|i: int| 0 <= i < a.len() && a[i] == Announcement::Vision(VisionStatus::Ready);
        assert(a[i] == Announcement::Vision(VisionStatus::Ready));
    }
}


/// Whatever state it comes from, a start leaves the session running and not
/// paused, with its vision state kept; a paused session that is started again
/// ticks unpaused.
pub proof fn lemma_start_runs_unpaused(s: RuntimeSessionState)
    ensures
        ({
            let n = s.start_spec().0;
            &&& n.running
            &&& !n.paused
            &&& n.vision_ready == s.vision_ready
            &&& (s.running && s.paused) ==> !n.paused
        }),
{
}


/// On a running session, pause and resume are accepted and only flip the
/// paused flag (resume also announces a ready vision that was not yet
/// announced); pausing then resuming leaves it running unpaused; a stop
/// leaves nothing running, paused or ready; a start needs loading exactly
/// when vision is not ready.
pub proof fn lemma_pause_resume_stop_and_start(s: RuntimeSessionState)
    ensures
        s.running ==> {
            let (p, accepted) = s.pause_spec();
            &&& accepted && p.paused && p.running
            &&& p.vision_ready == s.vision_ready && p.ready_announced == s.ready_announced
        },
        s.running ==> {
            let (r, d) = s.resume_spec();
            &&& d.accepted && !r.paused && r.running && r.vision_ready == s.vision_ready
            &&& d.announce_ready <==> (s.vision_ready && !s.ready_announced)
        },
        s.running ==> !s.pause_spec().0.resume_spec().0.paused && s.pause_spec().0.resume_spec().0.running,
        !s.stop_spec().running && !s.stop_spec().paused && !s.stop_spec().vision_ready,
        (s.start_spec().1 == StartDecision::NeedsLoading) <==> !s.vision_ready,
{
}

} // verus!
