//! Input injection policy: which control intents reach the operating system
//! under the safety switches, the pixel caps on pointer motion and wheel
//! steps, and the platform entry points used where no injection backend
//! exists.

use crate::config::SafetyFlags;
use vstd::prelude::*;

verus! {

/// Kind of a control intent, without its motion payload.
#[derive(Debug, Clone, Copy, PartialEq, Eq, Structural)]
pub enum IntentKind {
    MoveDelta,
    LeftClick,
    RightClick,
    Scroll,
    ControlOn,
    ControlOff,
    ClutchOn,
    ClutchOff,
    Paused,
}

/// What the input driver does with an intent.
#[derive(Debug, Clone, Copy, PartialEq, Eq, Structural)]
pub enum InputAction {
    /// Nothing reaches the operating system.
    Ignore,
    /// Pointer motion; `full_mode` selects the full-speed mapping and caps.
    MovePointer { full_mode: bool },
    LeftClick,
    RightClick,
    Wheel,
}

pub open spec fn input_action_spec(flags: SafetyFlags, kind: IntentKind) -> InputAction {
    if !flags.input_injection_enabled {
        InputAction::Ignore
    } else if flags.safe_mode {
        if kind == IntentKind::MoveDelta && flags.allow_safe_mode_movement {
            InputAction::MovePointer { full_mode: false }
        } else {
            InputAction::Ignore
        }
    } else {
        match kind {
            IntentKind::MoveDelta => InputAction::MovePointer { full_mode: true },
            IntentKind::LeftClick => InputAction::LeftClick,
            IntentKind::RightClick => InputAction::RightClick,
            IntentKind::Scroll => InputAction::Wheel,
            _ => InputAction::Ignore,
        }
    }
}

/// Decides what an intent does under the safety switches: nothing while
/// injection is off; in safe mode only bounded movement, and only when
/// allowed; otherwise movement, clicks and scrolling.
pub fn input_action(flags: SafetyFlags, kind: IntentKind) -> (a: InputAction)
    ensures
        a == input_action_spec(flags, kind),
{
    if !flags.input_injection_enabled {
        return InputAction::Ignore;
    }
    if flags.safe_mode {
        return match kind {
            IntentKind::MoveDelta => if flags.allow_safe_mode_movement {
                InputAction::MovePointer { full_mode: false }
            } else {
                InputAction::Ignore
            },
            _ => InputAction::Ignore,
        };
    }
    match kind {
        IntentKind::MoveDelta => InputAction::MovePointer { full_mode: true },
        IntentKind::LeftClick => InputAction::LeftClick,
        IntentKind::RightClick => InputAction::RightClick,
        IntentKind::Scroll => InputAction::Wheel,
        IntentKind::ControlOn | IntentKind::ControlOff | IntentKind::ClutchOn | IntentKind::ClutchOff
        | IntentKind::Paused => InputAction::Ignore,
    }
}

/// Safe mode never clicks or scrolls and moves only when allowed, at the
/// reduced speed; with injection off nothing happens at all; mode changes
/// never inject anything.
pub proof fn lemma_safe_mode_prevents_clicks_and_wheel(flags: SafetyFlags, kind: IntentKind)
    ensures
        ({
            let a = input_action_spec(flags, kind);
            &&& !flags.input_injection_enabled ==> a == InputAction::Ignore
            &&& flags.safe_mode ==> (a == InputAction::Ignore || (a == InputAction::MovePointer { full_mode: false }
                && flags.allow_safe_mode_movement))
            &&& (a == InputAction::LeftClick || a == InputAction::RightClick || a == InputAction::Wheel)
                ==> (flags.input_injection_enabled && !flags.safe_mode)
            &&& (kind == IntentKind::ControlOn || kind == IntentKind::ControlOff || kind == IntentKind::ClutchOn
                || kind == IntentKind::ClutchOff || kind == IntentKind::Paused) ==> a == InputAction::Ignore
        }),
{
}

/// `v` limited to `[-cap, cap]`.
pub open spec fn clamp_symmetric(v: int, cap: int) -> int {
    if v < -cap { -cap } else if v > cap { cap } else { v }
}

/// Largest pointer step in pixels per axis.
pub open spec fn move_cap(full_mode: bool) -> i32 {
    if full_mode { 180 } else { 36 }
}

/// A rounded pointer step clamped to the axis cap, and whether the sub-pixel
/// remainder is kept (only when the step was not clamped).
pub fn clamp_move_axis(rounded: i32, full_mode: bool) -> (r: (i32, bool))
    ensures
        -move_cap(full_mode) <= r.0 <= move_cap(full_mode),
        r.0 == clamp_symmetric(rounded as int, move_cap(full_mode) as int),
        r.1 == (r.0 == rounded),
{
    let cap: i32 = if full_mode { 180 } else { 36 };
    let clamped = if rounded < -cap { -cap } else if rounded > cap { cap } else { rounded };
    (clamped, clamped == rounded)
}

/// Largest wheel step.
pub const WHEEL_STEP_CAP: i32 = 120;

/// A rounded wheel step clamped to one notch either way.
pub fn clamp_wheel(rounded: i32) -> (r: i32)
    ensures
        r == clamp_symmetric(rounded as int, WHEEL_STEP_CAP as int),
{
    if rounded < -WHEEL_STEP_CAP { -WHEEL_STEP_CAP } else if rounded > WHEEL_STEP_CAP { WHEEL_STEP_CAP } else { rounded }
}

/// Failure of the operating system to take an injected event.
#[derive(Debug, Clone, Copy, PartialEq, Eq, Structural)]
pub enum PlatformError {
    SendInputFailed,
}

/// Relative pointer move where no injection backend exists: accepted and
/// dropped.
pub fn mouse_move_relative(_dx: i32, _dy: i32) -> (r: Result<(), PlatformError>)
    ensures
        r is Ok,
{
    Ok(())
}

/// Left click where no injection backend exists: accepted and dropped.
pub fn left_click() -> (r: Result<(), PlatformError>)
    ensures
        r is Ok,
{
    Ok(())
}

/// Right click where no injection backend exists: accepted and dropped.
pub fn right_click() -> (r: Result<(), PlatformError>)
    ensures
        r is Ok,
{
    Ok(())
}

/// Wheel step where no injection backend exists: accepted and dropped.
pub fn wheel_scroll(_dy: i32) -> (r: Result<(), PlatformError>)
    ensures
        r is Ok,
{
    Ok(())
}


/// With injection on and safe mode off, every intent acts at full strength
/// whatever the safe-mode movement switch says: movement at full speed,
/// clicks and the wheel; the movement switch changes nothing outside safe
/// mode.
pub proof fn lemma_full_mode_acts_on_every_intent(flags: SafetyFlags, kind: IntentKind)
    ensures
        (flags.input_injection_enabled && !flags.safe_mode) ==> {
            &&& kind == IntentKind::MoveDelta ==> input_action_spec(flags, kind) == (InputAction::MovePointer { full_mode: true })
            &&& kind == IntentKind::LeftClick ==> input_action_spec(flags, kind) == InputAction::LeftClick
            &&& kind == IntentKind::RightClick ==> input_action_spec(flags, kind) == InputAction::RightClick
            &&& kind == IntentKind::Scroll ==> input_action_spec(flags, kind) == InputAction::Wheel
            &&& input_action_spec(flags, kind) == input_action_spec(
                SafetyFlags { allow_safe_mode_movement: !flags.allow_safe_mode_movement, ..flags },
                kind,
            )
        },
        (flags.input_injection_enabled && flags.safe_mode) ==> (input_action_spec(flags, kind)
            != InputAction::Ignore ==> input_action_spec(flags, kind) == (InputAction::MovePointer {
            full_mode: false,
        })),
{
}

} // verus!
