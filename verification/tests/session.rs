use tracking_core::session::{
    Announcement, ResumeDecision, RuntimeSessionState, SessionCommand, StartDecision,
};
use tracking_core::types::VisionStatus;

#[test]
fn runtime_session_start_selects_loading_until_vision_is_ready() {
    let mut session = RuntimeSessionState::default();

    assert_eq!(session.start(), StartDecision::NeedsLoading);
    assert!(session.running);
    assert!(!session.paused);
    assert!(!session.ready_announced);

    session.stop();
    session.vision_ready = true;

    assert_eq!(session.start(), StartDecision::AlreadyReady);
    assert!(session.ready_announced);
}

#[test]
fn runtime_session_ignores_pause_and_resume_while_stopped() {
    let mut session = RuntimeSessionState::default();

    assert!(!session.pause());
    assert_eq!(
        session.resume(),
        ResumeDecision {
            accepted: false,
            announce_ready: false,
        }
    );
    assert!(!session.running);
    assert!(!session.paused);
}

#[test]
fn runtime_session_marks_vision_ready_once_per_tracker_generation() {
    let mut session = RuntimeSessionState::default();
    let _ = session.start();

    assert!(session.mark_vision_ready());
    assert!(!session.mark_vision_ready());

    assert!(session.apply_tracker_settings_change(true));
    assert!(!session.vision_ready);
    assert!(!session.ready_announced);
    assert!(session.mark_vision_ready());
}

#[test]
fn runtime_session_settings_emit_loading_only_for_running_tracker_changes() {
    let mut session = RuntimeSessionState::default();

    assert!(!session.apply_tracker_settings_change(true));

    let _ = session.start();
    session.vision_ready = true;
    session.ready_announced = true;

    assert!(!session.apply_tracker_settings_change(false));
    assert!(session.vision_ready);
    assert!(session.ready_announced);

    assert!(session.apply_tracker_settings_change(true));
    assert!(!session.vision_ready);
    assert!(!session.ready_announced);
}

#[test]
fn resume_announces_ready_that_arrived_while_paused() {
    let mut session = RuntimeSessionState::default();
    let _ = session.start();
    assert!(session.pause());
    assert!(session.paused);
    session.vision_ready = true;
    assert_eq!(
        session.resume(),
        ResumeDecision {
            accepted: true,
            announce_ready: true,
        }
    );
    assert!(!session.paused);
    assert_eq!(
        session.resume(),
        ResumeDecision {
            accepted: true,
            announce_ready: false,
        }
    );
}

#[test]
fn stop_forgets_vision_and_start_loads_again() {
    let mut session = RuntimeSessionState::default();
    let _ = session.start();
    assert!(session.mark_vision_ready());
    session.stop();
    assert_eq!(session, RuntimeSessionState::default());
    assert_eq!(session.start(), StartDecision::NeedsLoading);
}

#[test]
fn commands_announce_the_vision_lifecycle() {
    let mut session = RuntimeSessionState::default();
    assert_eq!(session.handle_command(SessionCommand::Pause), (false, vec![]));
    assert_eq!(
        session.handle_command(SessionCommand::Start),
        (
            true,
            vec![
                Announcement::Vision(VisionStatus::Running),
                Announcement::Vision(VisionStatus::LoadingModel),
                Announcement::Vision(VisionStatus::LoadingCamera),
            ]
        )
    );
    assert!(session.mark_vision_ready());
    assert_eq!(
        session.handle_command(SessionCommand::Pause),
        (
            true,
            vec![
                Announcement::PausedIntent,
                Announcement::Vision(VisionStatus::Paused)
            ]
        )
    );
    assert_eq!(
        session.handle_command(SessionCommand::Resume),
        (true, vec![Announcement::Vision(VisionStatus::Running)])
    );
    assert_eq!(
        session.handle_command(SessionCommand::UpdateSettings {
            tracker_changed: false
        }),
        (true, vec![])
    );
    assert_eq!(
        session.handle_command(SessionCommand::Start),
        (
            true,
            vec![
                Announcement::Vision(VisionStatus::Running),
                Announcement::Vision(VisionStatus::Ready)
            ]
        )
    );
    assert_eq!(
        session.handle_command(SessionCommand::Stop),
        (
            true,
            vec![
                Announcement::TrackingLost,
                Announcement::ControlOff,
                Announcement::Vision(VisionStatus::Stopped)
            ]
        )
    );
    assert_eq!(session, RuntimeSessionState::default());
}
