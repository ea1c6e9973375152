//! Instance options applied to a fresh engine handle.

use vstd::prelude::*;
use crate::strutil::str_eq;

verus! {

/// The key of an instance option, as the engine numbers them.
#[derive(Debug, Clone, Copy, PartialEq, Eq, Structural)]
pub enum InstanceOptionKey {
    TouchMode,
    DeploymentWithPause,
    AdbLiteEnabled,
    KillAdbOnExit,
}

/// The numeric code the engine uses for each option key.
pub open spec fn spec_option_key_code(k: InstanceOptionKey) -> int {
    match k {
        InstanceOptionKey::TouchMode => 2,
        InstanceOptionKey::DeploymentWithPause => 3,
        InstanceOptionKey::AdbLiteEnabled => 4,
        InstanceOptionKey::KillAdbOnExit => 5,
    }
}

impl InstanceOptionKey {
    /// The numeric code of this option key, as the engine expects it.
    pub fn code(&self) -> (r: i32)
        ensures
            r as int == spec_option_key_code(*self),
    {
        match self {
            InstanceOptionKey::TouchMode => 2,
            InstanceOptionKey::DeploymentWithPause => 3,
            InstanceOptionKey::AdbLiteEnabled => 4,
            InstanceOptionKey::KillAdbOnExit => 5,
        }
    }
}

/// How the engine is asked to drive the device's touch input.
#[derive(Debug, Clone, Copy, PartialEq, Eq, Structural)]
pub enum TouchMode {
    MiniTouch,
    MAATouch,
    ADB,
}

/// The wire name of each touch mode.
pub open spec fn spec_touch_mode_name(m: TouchMode) -> Seq<char> {
    match m {
        TouchMode::MiniTouch => "minitouch"@,
        TouchMode::MAATouch => "maatouch"@,
        TouchMode::ADB => "adb"@,
    }
}

impl TouchMode {
    /// The touch mode named `s`, or `None` where `s` names no touch mode.
    pub fn from_name(s: &str) -> (r: Option<TouchMode>)
        ensures
            match r {
                Some(m) => spec_touch_mode_name(m) == s@,
                None => forall|m: TouchMode| spec_touch_mode_name(m) != s@,
            },
    {
        if str_eq(s, "minitouch") {
            Some(TouchMode::MiniTouch)
        } else if str_eq(s, "maatouch") {
            Some(TouchMode::MAATouch)
        } else if str_eq(s, "adb") {
            Some(TouchMode::ADB)
        } else {
            None
        }
    }

    /// The wire name of this touch mode.
    pub fn name(&self) -> (r: &'static str)
        ensures
            r@ == spec_touch_mode_name(*self),
    {
        match self {
            TouchMode::MiniTouch => "minitouch",
            TouchMode::MAATouch => "maatouch",
            TouchMode::ADB => "adb",
        }
    }
}

/// The instance options a connection applies to its handle, one at a time,
/// right after the handle is created.
#[derive(Debug, Clone, Copy, PartialEq, Eq, Structural)]
pub struct MAAOption {
    pub touch_mode: TouchMode,
    pub deployment_with_pause: bool,
    pub adb_lite_enabled: bool,
    pub kill_adb_on_exit: bool,
}

/// The wire value of a boolean option: `"1"` for on, `"0"` for off.
pub open spec fn spec_bool_option(b: bool) -> Seq<char> {
    if b {
        "1"@
    } else {
        "0"@
    }
}

impl Default for MAAOption {
    /// Touch by minitouch, everything else off.
    fn default() -> (r: MAAOption)
        ensures
            r.touch_mode == TouchMode::MiniTouch,
            !r.deployment_with_pause,
            !r.adb_lite_enabled,
            !r.kill_adb_on_exit,
    {
        MAAOption {
            touch_mode: TouchMode::MiniTouch,
            deployment_with_pause: false,
            adb_lite_enabled: false,
            kill_adb_on_exit: false,
        }
    }
}

impl MAAOption {
    pub fn with_touch_mode(self, touch_mode: TouchMode) -> (r: MAAOption)
        ensures
            r == (MAAOption { touch_mode, ..self }),
    {
        MAAOption { touch_mode, ..self }
    }

    pub fn with_deployment_with_pause(self, deployment_with_pause: bool) -> (r: MAAOption)
        ensures
            r == (MAAOption { deployment_with_pause, ..self }),
    {
        MAAOption { deployment_with_pause, ..self }
    }

    pub fn with_adb_lite_enabled(self, adb_lite_enabled: bool) -> (r: MAAOption)
        ensures
            r == (MAAOption { adb_lite_enabled, ..self }),
    {
        MAAOption { adb_lite_enabled, ..self }
    }

    pub fn with_kill_adb_on_exit(self, kill_adb_on_exit: bool) -> (r: MAAOption)
        ensures
            r == (MAAOption { kill_adb_on_exit, ..self }),
    {
        MAAOption { kill_adb_on_exit, ..self }
    }

    /// The option assignments to hand to the engine: each key once, paired
    /// with the wire form of its configured value.
    pub fn to_map(&self) -> (r: Vec<(InstanceOptionKey, String)>)
        ensures
            r@.len() == 4,
            r@[0].0 == InstanceOptionKey::TouchMode,
            r@[0].1@ == spec_touch_mode_name(self.touch_mode),
            r@[1].0 == InstanceOptionKey::DeploymentWithPause,
            r@[1].1@ == spec_bool_option(self.deployment_with_pause),
            r@[2].0 == InstanceOptionKey::AdbLiteEnabled,
            r@[2].1@ == spec_bool_option(self.adb_lite_enabled),
            r@[3].0 == InstanceOptionKey::KillAdbOnExit,
            r@[3].1@ == spec_bool_option(self.kill_adb_on_exit),
    {
        let mut r: Vec<(InstanceOptionKey, String)> = Vec::new();
        r.push((InstanceOptionKey::TouchMode, self.touch_mode.name().to_owned()));
        r.push(
            (
                InstanceOptionKey::DeploymentWithPause,
                if self.deployment_with_pause {
                    "1".to_owned()
                } else {
                    "0".to_owned()
                },
            ),
        );
        r.push(
            (
                InstanceOptionKey::AdbLiteEnabled,
                if self.adb_lite_enabled {
                    "1".to_owned()
                } else {
                    "0".to_owned()
                },
            ),
        );
        r.push(
            (
                InstanceOptionKey::KillAdbOnExit,
                if self.kill_adb_on_exit {
                    "1".to_owned()
                } else {
                    "0".to_owned()
                },
            ),
        );
        r
    }
}

} // verus!
