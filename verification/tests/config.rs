use tracking_core::config::{
    normalize_python_executable, normalize_script_path, str_trim, profile_timing, CalibrationProfile,
    CameraSettings, ProfileTiming, SafetyFlags, TimingSettings, VisionBackend,
};

#[test]
fn normalizes_invalid_camera_and_timing_bounds() {
    let camera = CameraSettings {
        camera_index: -10,
        camera_width: 0,
        camera_height: 8_000,
        camera_fps: 0,
    }
    .normalized();
    assert_eq!(camera.camera_index, 0);
    assert_eq!(camera.camera_width, 160);
    assert_eq!(camera.camera_height, 2160);
    assert_eq!(camera.camera_fps, 1);

    let timing = TimingSettings {
        lost_timeout_ms: 90_000,
        hold_to_control_ms: 1,
        clutch_enter_ms: 1_000,
        click_cooldown_ms: 1,
    }
    .normalized();
    assert_eq!(timing.lost_timeout_ms, 10_000);
    assert_eq!(timing.hold_to_control_ms, 20);
    assert_eq!(timing.clutch_enter_ms, 300);
    assert_eq!(timing.click_cooldown_ms, 60);
}

#[test]
fn legacy_lost_timeout_becomes_default() {
    let timing = TimingSettings {
        lost_timeout_ms: 250,
        hold_to_control_ms: 70,
        clutch_enter_ms: 70,
        click_cooldown_ms: 160,
    }
    .normalized();
    assert_eq!(timing.lost_timeout_ms, 700);
    assert_eq!(timing.normalized(), timing);
}

#[test]
fn blank_text_settings_fall_back() {
    assert_eq!(normalize_python_executable("  "), "python");
    assert_eq!(normalize_python_executable("  py3 \t"), "py3");
    assert_eq!(normalize_script_path(Some(" ")), None);
    assert_eq!(
        normalize_script_path(Some(" vision/t.py ")).as_deref(),
        Some("vision/t.py")
    );
    assert_eq!(normalize_script_path(None), None);
}

#[test]
fn calibration_timing_clamps_overrides_and_keeps_safety_overrides() {
    let base = TimingSettings {
        lost_timeout_ms: 700,
        hold_to_control_ms: 70,
        clutch_enter_ms: 70,
        click_cooldown_ms: 160,
    };
    let t = base
        .with_profile(CalibrationProfile::Responsive)
        .with_overrides(Some(1), Some(1_000), Some(1))
        .normalized();
    assert_eq!(t.hold_to_control_ms, 20);
    assert_eq!(t.clutch_enter_ms, 300);
    assert_eq!(t.click_cooldown_ms, 60);
    assert_eq!(t.lost_timeout_ms, 700);

    let kept = base.with_profile(CalibrationProfile::Comfort).with_overrides(None, None, None);
    assert_eq!(kept.hold_to_control_ms, 85);
    assert_eq!(kept.clutch_enter_ms, 80);
    assert_eq!(kept.click_cooldown_ms, 190);

    let flags = SafetyFlags {
        input_injection_enabled: false,
        safe_mode: true,
        allow_safe_mode_movement: false,
    }
    .with_overrides(Some(true), Some(false), None);
    assert!(flags.input_injection_enabled);
    assert!(!flags.safe_mode);
    assert!(!flags.allow_safe_mode_movement);
}

#[test]
fn profiles_have_their_baselines() {
    assert_eq!(
        profile_timing(CalibrationProfile::Balanced),
        ProfileTiming {
            hold_to_control_ms: 70,
            clutch_enter_ms: 70,
            click_cooldown_ms: 170
        }
    );
    assert_eq!(
        profile_timing(CalibrationProfile::Responsive).click_cooldown_ms,
        140
    );
    assert_eq!(CalibrationProfile::default(), CalibrationProfile::Balanced);
    assert_eq!(VisionBackend::default(), VisionBackend::PythonMediapipe);
}

#[test]
fn defaults_are_already_normalized() {
    let camera = CameraSettings::default();
    assert_eq!(camera.camera_width, 1280);
    assert_eq!(camera.normalized(), camera);
    let timing = TimingSettings::default();
    assert_eq!(timing.lost_timeout_ms, 700);
    assert_eq!(timing.normalized(), timing);
    let flags = SafetyFlags::default();
    assert!(!flags.input_injection_enabled);
    assert!(flags.safe_mode);
    assert!(!flags.allow_safe_mode_movement);
}

#[test]
fn trimming_matches_std_on_unicode_whitespace() {
    for text in [
        "",
        "   ",
        "\u{3000}python3\u{a0}\n",
        "\u{85}\u{2028} a b \u{205f}",
        "\u{200b}x\u{200b}",
        "plain",
    ] {
        assert_eq!(str_trim(text), text.trim());
    }
    assert_eq!(normalize_python_executable("\u{3000}\u{2003}"), "python");
    assert_eq!(normalize_python_executable("\u{2009}py\u{1680}"), "py");
}
