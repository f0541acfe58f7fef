use tracking_core::config::SafetyFlags;
use tracking_core::input::{
    clamp_move_axis, clamp_wheel, input_action, left_click, mouse_move_relative, right_click,
    wheel_scroll, InputAction, IntentKind,
};

fn flags(enabled: bool, safe: bool, movement: bool) -> SafetyFlags {
    SafetyFlags {
        input_injection_enabled: enabled,
        safe_mode: safe,
        allow_safe_mode_movement: movement,
    }
}

#[test]
fn disabled_injection_ignores_everything() {
    for kind in [
        IntentKind::MoveDelta,
        IntentKind::LeftClick,
        IntentKind::RightClick,
        IntentKind::Scroll,
    ] {
        assert_eq!(input_action(flags(false, false, true), kind), InputAction::Ignore);
    }
}

#[test]
fn safe_mode_prevents_clicks_and_wheel() {
    let f = flags(true, true, true);
    assert_eq!(input_action(f, IntentKind::LeftClick), InputAction::Ignore);
    assert_eq!(input_action(f, IntentKind::RightClick), InputAction::Ignore);
    assert_eq!(input_action(f, IntentKind::Scroll), InputAction::Ignore);
    assert_eq!(
        input_action(f, IntentKind::MoveDelta),
        InputAction::MovePointer { full_mode: false }
    );
    assert_eq!(
        input_action(flags(true, true, false), IntentKind::MoveDelta),
        InputAction::Ignore
    );
}

#[test]
fn full_mode_injects_every_pointer_intent() {
    let f = flags(true, false, false);
    assert_eq!(
        input_action(f, IntentKind::MoveDelta),
        InputAction::MovePointer { full_mode: true }
    );
    assert_eq!(input_action(f, IntentKind::LeftClick), InputAction::LeftClick);
    assert_eq!(input_action(f, IntentKind::RightClick), InputAction::RightClick);
    assert_eq!(input_action(f, IntentKind::Scroll), InputAction::Wheel);
    assert_eq!(input_action(f, IntentKind::ClutchOn), InputAction::Ignore);
}

#[test]
fn pointer_and_wheel_steps_are_capped() {
    assert_eq!(clamp_move_axis(500, true), (180, false));
    assert_eq!(clamp_move_axis(-500, false), (-36, false));
    assert_eq!(clamp_move_axis(12, false), (12, true));
    assert_eq!(clamp_wheel(300), 120);
    assert_eq!(clamp_wheel(-121), -120);
    assert_eq!(clamp_wheel(7), 7);
}

#[test]
fn platform_without_backend_accepts_events() {
    assert!(mouse_move_relative(3, -4).is_ok());
    assert!(left_click().is_ok());
    assert!(right_click().is_ok());
    assert!(wheel_scroll(120).is_ok());
}
