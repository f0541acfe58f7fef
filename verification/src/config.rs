//! Settings vocabulary and the normalisation rules for the integer, flag and
//! text settings: camera geometry, timing thresholds, calibration profiles and
//! input safety switches.

use vstd::prelude::*;

verus! {

/// Which hand tracker feeds the runtime.
#[derive(Debug, Clone, Copy, PartialEq, Eq, Structural)]
pub enum VisionBackend {
    Mock,
    PythonMediapipe,
}

impl Default for VisionBackend {
    fn default() -> (b: Self)
        ensures
            b == VisionBackend::PythonMediapipe,
    {
        VisionBackend::PythonMediapipe
    }
}

/// Named calibration baselines.
#[derive(Debug, Clone, Copy, PartialEq, Eq, Structural)]
pub enum CalibrationProfile {
    Comfort,
    Balanced,
    Responsive,
}

impl Default for CalibrationProfile {
    fn default() -> (p: Self)
        ensures
            p == CalibrationProfile::Balanced,
    {
        CalibrationProfile::Balanced
    }
}

/// Version written into every normalised settings file.
pub const CONFIG_VERSION: u32 = 1;

pub open spec fn clamp_u32(v: u32, lo: u32, hi: u32) -> u32 {
    if v < lo { lo } else if v > hi { hi } else { v }
}

pub open spec fn clamp_u64(v: u64, lo: u64, hi: u64) -> u64 {
    if v < lo { lo } else if v > hi { hi } else { v }
}

fn clamp_u32_exec(v: u32, lo: u32, hi: u32) -> (r: u32)
    requires
        lo <= hi,
    ensures
        r == clamp_u32(v, lo, hi),
{
    if v < lo { lo } else if v > hi { hi } else { v }
}

fn clamp_u64_exec(v: u64, lo: u64, hi: u64) -> (r: u64)
    requires
        lo <= hi,
    ensures
        r == clamp_u64(v, lo, hi),
{
    if v < lo { lo } else if v > hi { hi } else { v }
}

/// Camera selection and capture geometry.
#[derive(Debug, Clone, Copy, PartialEq, Eq, Structural)]
pub struct CameraSettings {
    pub camera_index: i32,
    pub camera_width: u32,
    pub camera_height: u32,
    pub camera_fps: u32,
}

impl CameraSettings {
    pub open spec fn normalized_spec(self) -> CameraSettings {
        CameraSettings {
            camera_index: if self.camera_index < 0 { 0 } else { self.camera_index },
            camera_width: clamp_u32(self.camera_width, 160, 3840),
            camera_height: clamp_u32(self.camera_height, 120, 2160),
            camera_fps: clamp_u32(self.camera_fps, 1, 120),
        }
    }

    pub open spec fn in_bounds(self) -> bool {
        &&& self.camera_index >= 0
        &&& 160 <= self.camera_width <= 3840
        &&& 120 <= self.camera_height <= 2160
        &&& 1 <= self.camera_fps <= 120
    }

    /// No negative camera index; width, height and rate within what the
    /// capture supports.
    pub fn normalized(self) -> (c: CameraSettings)
        ensures
            c == self.normalized_spec(),
    {
        CameraSettings {
            camera_index: if self.camera_index < 0 { 0 } else { self.camera_index },
            camera_width: clamp_u32_exec(self.camera_width, 160, 3840),
            camera_height: clamp_u32_exec(self.camera_height, 120, 2160),
            camera_fps: clamp_u32_exec(self.camera_fps, 1, 120),
        }
    }
}

/// Shortest accepted lost-tracking timeout; shorter values are legacy.
pub const MIN_LOST_TIMEOUT_MS: u64 = 500;
/// Replacement for a legacy lost-tracking timeout.
pub const DEFAULT_LOST_TIMEOUT_MS: u64 = 700;
/// Longest accepted lost-tracking timeout.
pub const MAX_LOST_TIMEOUT_MS: u64 = 10_000;

/// Timing thresholds, in milliseconds.
#[derive(Debug, Clone, Copy, PartialEq, Eq, Structural)]
pub struct TimingSettings {
    pub lost_timeout_ms: u64,
    pub hold_to_control_ms: u64,
    pub clutch_enter_ms: u64,
    pub click_cooldown_ms: u64,
}

/// The timing thresholds that a calibration profile sets.
#[derive(Debug, Clone, Copy, PartialEq, Eq, Structural)]
pub struct ProfileTiming {
    pub hold_to_control_ms: u64,
    pub clutch_enter_ms: u64,
    pub click_cooldown_ms: u64,
}

pub open spec fn profile_timing_spec(profile: CalibrationProfile) -> ProfileTiming {
    match profile {
        CalibrationProfile::Comfort => ProfileTiming {
            hold_to_control_ms: 85,
            clutch_enter_ms: 80,
            click_cooldown_ms: 190,
        },
        CalibrationProfile::Balanced => ProfileTiming {
            hold_to_control_ms: 70,
            clutch_enter_ms: 70,
            click_cooldown_ms: 170,
        },
        CalibrationProfile::Responsive => ProfileTiming {
            hold_to_control_ms: 55,
            clutch_enter_ms: 60,
            click_cooldown_ms: 140,
        },
    }
}

/// The timing baseline of a calibration profile.
pub fn profile_timing(profile: CalibrationProfile) -> (t: ProfileTiming)
    ensures
        t == profile_timing_spec(profile),
{
    match profile {
        CalibrationProfile::Comfort => ProfileTiming {
            hold_to_control_ms: 85,
            clutch_enter_ms: 80,
            click_cooldown_ms: 190,
        },
        CalibrationProfile::Balanced => ProfileTiming {
            hold_to_control_ms: 70,
            clutch_enter_ms: 70,
            click_cooldown_ms: 170,
        },
        CalibrationProfile::Responsive => ProfileTiming {
            hold_to_control_ms: 55,
            clutch_enter_ms: 60,
            click_cooldown_ms: 140,
        },
    }
}

pub open spec fn override_u64(current: u64, requested: Option<u64>, lo: u64, hi: u64) -> u64 {
    match requested {
        Some(v) => clamp_u64(v, lo, hi),
        None => current,
    }
}

fn override_u64_exec(current: u64, requested: Option<u64>, lo: u64, hi: u64) -> (r: u64)
    requires
        lo <= hi,
    ensures
        r == override_u64(current, requested, lo, hi),
{
    match requested {
        Some(v) => clamp_u64_exec(v, lo, hi),
        None => current,
    }
}

impl TimingSettings {
    pub open spec fn normalized_spec(self) -> TimingSettings {
        let lost = if self.lost_timeout_ms < MIN_LOST_TIMEOUT_MS {
            DEFAULT_LOST_TIMEOUT_MS
        } else {
            self.lost_timeout_ms
        };
        TimingSettings {
            lost_timeout_ms: if lost > MAX_LOST_TIMEOUT_MS { MAX_LOST_TIMEOUT_MS } else { lost },
            hold_to_control_ms: clamp_u64(self.hold_to_control_ms, 20, 300),
            clutch_enter_ms: clamp_u64(self.clutch_enter_ms, 20, 300),
            click_cooldown_ms: clamp_u64(self.click_cooldown_ms, 60, 450),
        }
    }

    pub open spec fn in_bounds(self) -> bool {
        &&& MIN_LOST_TIMEOUT_MS <= self.lost_timeout_ms <= MAX_LOST_TIMEOUT_MS
        &&& 20 <= self.hold_to_control_ms <= 300
        &&& 20 <= self.clutch_enter_ms <= 300
        &&& 60 <= self.click_cooldown_ms <= 450
    }

    pub open spec fn with_profile_spec(self, profile: CalibrationProfile) -> TimingSettings {
        let p = profile_timing_spec(profile);
        TimingSettings {
            lost_timeout_ms: self.lost_timeout_ms,
            hold_to_control_ms: p.hold_to_control_ms,
            clutch_enter_ms: p.clutch_enter_ms,
            click_cooldown_ms: p.click_cooldown_ms,
        }
    }

    pub open spec fn with_overrides_spec(
        self,
        hold_to_control_ms: Option<u64>,
        clutch_enter_ms: Option<u64>,
        click_cooldown_ms: Option<u64>,
    ) -> TimingSettings {
        TimingSettings {
            lost_timeout_ms: self.lost_timeout_ms,
            hold_to_control_ms: override_u64(self.hold_to_control_ms, hold_to_control_ms, 20, 300),
            clutch_enter_ms: override_u64(self.clutch_enter_ms, clutch_enter_ms, 20, 300),
            click_cooldown_ms: override_u64(self.click_cooldown_ms, click_cooldown_ms, 60, 450),
        }
    }

    /// Legacy lost timeouts below the minimum become the default; every
    /// threshold is then clamped into its safe range.
    pub fn normalized(self) -> (t: TimingSettings)
        ensures
            t == self.normalized_spec(),
    {
        let lost = if self.lost_timeout_ms < MIN_LOST_TIMEOUT_MS {
            DEFAULT_LOST_TIMEOUT_MS
        } else {
            self.lost_timeout_ms
        };
        TimingSettings {
            lost_timeout_ms: if lost > MAX_LOST_TIMEOUT_MS { MAX_LOST_TIMEOUT_MS } else { lost },
            hold_to_control_ms: clamp_u64_exec(self.hold_to_control_ms, 20, 300),
            clutch_enter_ms: clamp_u64_exec(self.clutch_enter_ms, 20, 300),
            click_cooldown_ms: clamp_u64_exec(self.click_cooldown_ms, 60, 450),
        }
    }

    /// Takes the timing baseline of a calibration profile.
    pub fn with_profile(self, profile: CalibrationProfile) -> (t: TimingSettings)
        ensures
            t == self.with_profile_spec(profile),
    {
        let p = profile_timing(profile);
        TimingSettings {
            lost_timeout_ms: self.lost_timeout_ms,
            hold_to_control_ms: p.hold_to_control_ms,
            clutch_enter_ms: p.clutch_enter_ms,
            click_cooldown_ms: p.click_cooldown_ms,
        }
    }

    /// Applies per-user calibration overrides, each clamped into its safe
    /// range.
    pub fn with_overrides(
        self,
        hold_to_control_ms: Option<u64>,
        clutch_enter_ms: Option<u64>,
        click_cooldown_ms: Option<u64>,
    ) -> (t: TimingSettings)
        ensures
            t == self.with_overrides_spec(hold_to_control_ms, clutch_enter_ms, click_cooldown_ms),
    {
        TimingSettings {
            lost_timeout_ms: self.lost_timeout_ms,
            hold_to_control_ms: override_u64_exec(self.hold_to_control_ms, hold_to_control_ms, 20, 300),
            clutch_enter_ms: override_u64_exec(self.clutch_enter_ms, clutch_enter_ms, 20, 300),
            click_cooldown_ms: override_u64_exec(self.click_cooldown_ms, click_cooldown_ms, 60, 450),
        }
    }
}

/// Input injection switches.
#[derive(Debug, Clone, Copy, PartialEq, Eq, Structural)]
pub struct SafetyFlags {
    pub input_injection_enabled: bool,
    pub safe_mode: bool,
    pub allow_safe_mode_movement: bool,
}

pub open spec fn override_bool(current: bool, requested: Option<bool>) -> bool {
    match requested {
        Some(v) => v,
        None => current,
    }
}

impl SafetyFlags {
    pub open spec fn with_overrides_spec(
        self,
        input_injection_enabled: Option<bool>,
        safe_mode: Option<bool>,
        allow_safe_mode_movement: Option<bool>,
    ) -> SafetyFlags {
        SafetyFlags {
            input_injection_enabled: override_bool(self.input_injection_enabled, input_injection_enabled),
            safe_mode: override_bool(self.safe_mode, safe_mode),
            allow_safe_mode_movement: override_bool(self.allow_safe_mode_movement, allow_safe_mode_movement),
        }
    }

    /// Takes each switch that a calibration request sets explicitly.
    pub fn with_overrides(
        self,
        input_injection_enabled: Option<bool>,
        safe_mode: Option<bool>,
        allow_safe_mode_movement: Option<bool>,
    ) -> (f: SafetyFlags)
        ensures
            f == self.with_overrides_spec(input_injection_enabled, safe_mode, allow_safe_mode_movement),
    {
        SafetyFlags {
            input_injection_enabled: match input_injection_enabled {
                Some(v) => v,
                None => self.input_injection_enabled,
            },
            safe_mode: match safe_mode {
                Some(v) => v,
                None => self.safe_mode,
            },
            allow_safe_mode_movement: match allow_safe_mode_movement {
                Some(v) => v,
                None => self.allow_safe_mode_movement,
            },
        }
    }
}

/// Normalised settings lie within their bounds, and normalising twice gives
/// the same settings as normalising once.
pub proof fn lemma_normalization_is_idempotent(c: CameraSettings, t: TimingSettings)
    ensures
        c.normalized_spec().in_bounds(),
        c.normalized_spec().normalized_spec() == c.normalized_spec(),
        t.normalized_spec().in_bounds(),
        t.normalized_spec().normalized_spec() == t.normalized_spec(),
        c.in_bounds() ==> c.normalized_spec() == c,
        t.in_bounds() ==> t.normalized_spec() == t,
{
}

/// Calibration (profile baseline, then clamped overrides, then
/// normalisation) always yields timing within the safe ranges, keeps every
/// clamped override and every profile value that was not overridden.
pub proof fn lemma_calibration_timing_in_safe_range(
    t: TimingSettings,
    profile: CalibrationProfile,
    hold: Option<u64>,
    clutch: Option<u64>,
    cooldown: Option<u64>,
)
    ensures
        ({
            let r = t.with_profile_spec(profile).with_overrides_spec(hold, clutch, cooldown).normalized_spec();
            let p = profile_timing_spec(profile);
            &&& r.in_bounds()
            &&& r.hold_to_control_ms == override_u64(p.hold_to_control_ms, hold, 20, 300)
            &&& r.clutch_enter_ms == override_u64(p.clutch_enter_ms, clutch, 20, 300)
            &&& r.click_cooldown_ms == override_u64(p.click_cooldown_ms, cooldown, 60, 450)
            &&& r.lost_timeout_ms == t.normalized_spec().lost_timeout_ms
        }),
{
}

/// Safety switches that a calibration request leaves unset keep their
/// values; those it sets take exactly the requested value.
pub proof fn lemma_calibration_preserves_safety_overrides(
    f: SafetyFlags,
    injection: Option<bool>,
    safe: Option<bool>,
    movement: Option<bool>,
)
    ensures
        ({
            let g = f.with_overrides_spec(injection, safe, movement);
            &&& g.input_injection_enabled == (if let Some(v) = injection { v } else { f.input_injection_enabled })
            &&& g.safe_mode == (if let Some(v) = safe { v } else { f.safe_mode })
            &&& g.allow_safe_mode_movement == (if let Some(v) = movement { v } else { f.allow_safe_mode_movement })
        }),
{
}


/// A Unicode `White_Space` character, the set that `char::is_whitespace`
/// and `str::trim` use.
pub open spec fn is_unicode_whitespace(c: char) -> bool {
    let u = c as u32;
    (0x9 <= u && u <= 0xD) || u == 0x20 || u == 0x85 || u == 0xA0 || u == 0x1680 || (0x2000 <= u
        && u <= 0x200A) || u == 0x2028 || u == 0x2029 || u == 0x202F || u == 0x205F || u == 0x3000
}

fn is_unicode_whitespace_exec(c: char) -> (w: bool)
    ensures
        w == is_unicode_whitespace(c),
{
    let u = c as u32;
    (0x9 <= u && u <= 0xD) || u == 0x20 || u == 0x85 || u == 0xA0 || u == 0x1680 || (0x2000 <= u
        && u <= 0x200A) || u == 0x2028 || u == 0x2029 || u == 0x202F || u == 0x205F || u == 0x3000
}

/// The text without its leading whitespace.
pub open spec fn trim_start_spec(s: Seq<char>) -> Seq<char>
    decreases s.len(),
{
    if s.len() > 0 && is_unicode_whitespace(s[0]) {
        trim_start_spec(s.drop_first())
    } else {
        s
    }
}

/// The text without its trailing whitespace.
pub open spec fn trim_end_spec(s: Seq<char>) -> Seq<char>
    decreases s.len(),
{
    if s.len() > 0 && is_unicode_whitespace(s.last()) {
        trim_end_spec(s.drop_last())
    } else {
        s
    }
}

/// The text without leading and trailing whitespace, as `str::trim` gives it.
pub open spec fn trim_spec(s: Seq<char>) -> Seq<char> {
    trim_end_spec(trim_start_spec(s))
}

/// Removes leading and trailing whitespace.
pub fn str_trim(s: &str) -> (t: &str)
    ensures
        t@ == trim_spec(s@),
{
    let n = s.unicode_len();
    let mut i: usize = 0;
    assert(s@.subrange(0, n as int) =~= s@);
    loop
        invariant
            n == s@.len(),
            i <= n,
            trim_start_spec(s@.subrange(i as int, n as int)) == trim_start_spec(s@),
        ensures
            i <= n,
            trim_start_spec(s@) == s@.subrange(i as int, n as int),
        decreases n - i,
    {
        if i == n {
            assert(s@.subrange(i as int, n as int) =~= Seq::<char>::empty());
            break;
        }
        let c = s.get_char(i);
        if !is_unicode_whitespace_exec(c) {
            break;
        }
        assert(s@.subrange(i as int, n as int).drop_first() =~= s@.subrange(i + 1, n as int));
        i = i + 1;
    }
    let mut k: usize = n;
    loop
        invariant
            n == s@.len(),
            i <= k <= n,
            trim_start_spec(s@) == s@.subrange(i as int, n as int),
            trim_end_spec(s@.subrange(i as int, k as int)) == trim_end_spec(s@.subrange(i as int, n as int)),
        ensures
            i <= k <= n,
            trim_end_spec(s@.subrange(i as int, n as int)) == s@.subrange(i as int, k as int),
        decreases k - i,
    {
        if k == i {
            assert(s@.subrange(i as int, k as int) =~= Seq::<char>::empty());
            break;
        }
        let c = s.get_char(k - 1);
        if !is_unicode_whitespace_exec(c) {
            break;
        }
        assert(s@.subrange(i as int, k as int).drop_last() =~= s@.subrange(i as int, k - 1));
        k = k - 1;
    }
    s.substring_char(i, k)
}

/// Interpreter used when the configured one is blank.
pub open spec fn default_python_executable() -> Seq<char> {
    "python"@
}

pub open spec fn normalized_executable_spec(s: Seq<char>) -> Seq<char> {
    if trim_spec(s).len() == 0 {
        default_python_executable()
    } else {
        trim_spec(s)
    }
}

pub open spec fn normalized_script_path_spec(p: Option<Seq<char>>) -> Option<Seq<char>> {
    match p {
        None => None,
        Some(p) => if trim_spec(p).len() == 0 { None } else { Some(trim_spec(p)) },
    }
}

/// The configured interpreter without surrounding whitespace; a blank one
/// falls back to `python`.
pub fn normalize_python_executable(s: &str) -> (r: String)
    ensures
        r@ == normalized_executable_spec(s@),
{
    let t = str_trim(s);
    if t.is_empty() {
        "python".to_owned()
    } else {
        t.to_owned()
    }
}

pub open spec fn opt_str_view(p: Option<&str>) -> Option<Seq<char>> {
    match p {
        Some(x) => Some(x@),
        None => None,
    }
}

pub open spec fn opt_string_view(p: Option<String>) -> Option<Seq<char>> {
    match p {
        Some(x) => Some(x@),
        None => None,
    }
}

/// The tracker script path without surrounding whitespace; a blank path
/// means no script.
pub fn normalize_script_path(p: Option<&str>) -> (r: Option<String>)
    ensures
        opt_string_view(r) == normalized_script_path_spec(opt_str_view(p)),
{
    match p {
        None => None,
        Some(path) => {
            let t = str_trim(path);
            if t.is_empty() {
                None
            } else {
                Some(t.to_owned())
            }
        },
    }
}


impl Default for CameraSettings {
    /// The first camera at 1280x720, 30 frames per second.
    fn default() -> (c: Self)
        ensures
            c == (CameraSettings { camera_index: 0, camera_width: 1280, camera_height: 720, camera_fps: 30 }),
    {
        CameraSettings { camera_index: 0, camera_width: 1280, camera_height: 720, camera_fps: 30 }
    }
}

impl Default for TimingSettings {
    /// 700 ms lost timeout, 70 ms holds, 160 ms click cooldown.
    fn default() -> (t: Self)
        ensures
            t == (TimingSettings {
                lost_timeout_ms: 700,
                hold_to_control_ms: 70,
                clutch_enter_ms: 70,
                click_cooldown_ms: 160,
            }),
    {
        TimingSettings { lost_timeout_ms: 700, hold_to_control_ms: 70, clutch_enter_ms: 70, click_cooldown_ms: 160 }
    }
}

impl Default for SafetyFlags {
    /// Injection off and safe mode on, without safe-mode movement.
    fn default() -> (f: Self)
        ensures
            f == (SafetyFlags { input_injection_enabled: false, safe_mode: true, allow_safe_mode_movement: false }),
    {
        SafetyFlags { input_injection_enabled: false, safe_mode: true, allow_safe_mode_movement: false }
    }
}

/// The default camera and timing settings are already normalised, and every
/// calibration profile's timing lies within the safe ranges.
pub proof fn lemma_defaults_are_normalized(profile: CalibrationProfile)
    ensures
        (CameraSettings { camera_index: 0, camera_width: 1280, camera_height: 720, camera_fps: 30 }).in_bounds(),
        (TimingSettings { lost_timeout_ms: 700, hold_to_control_ms: 70, clutch_enter_ms: 70, click_cooldown_ms: 160 }).in_bounds(),
        ({
            let p = profile_timing_spec(profile);
            &&& 20 <= p.hold_to_control_ms <= 300
            &&& 20 <= p.clutch_enter_ms <= 300
            &&& 60 <= p.click_cooldown_ms <= 450
        }),
{
}

} // verus!
