use maa_bridge::options::{InstanceOptionKey, MAAOption, TouchMode};

#[test]
fn option_keys_carry_engine_codes() {
    assert_eq!(InstanceOptionKey::TouchMode.code(), 2);
    assert_eq!(InstanceOptionKey::DeploymentWithPause.code(), 3);
    assert_eq!(InstanceOptionKey::AdbLiteEnabled.code(), 4);
    assert_eq!(InstanceOptionKey::KillAdbOnExit.code(), 5);
}

#[test]
fn touch_mode_names_round_trip() {
    assert_eq!(TouchMode::from_name("minitouch"), Some(TouchMode::MiniTouch));
    assert_eq!(TouchMode::from_name("maatouch"), Some(TouchMode::MAATouch));
    assert_eq!(TouchMode::from_name("adb"), Some(TouchMode::ADB));
    assert_eq!(TouchMode::from_name("mouse"), None);
    assert_eq!(TouchMode::MAATouch.name(), "maatouch");
}

#[test]
fn default_options_to_map() {
    let options = MAAOption::default();
    let map = options.to_map();
    assert_eq!(map.len(), 4);
    assert_eq!(map[0], (InstanceOptionKey::TouchMode, "minitouch".to_string()));
    assert_eq!(map[1], (InstanceOptionKey::DeploymentWithPause, "0".to_string()));
    assert_eq!(map[2], (InstanceOptionKey::AdbLiteEnabled, "0".to_string()));
    assert_eq!(map[3], (InstanceOptionKey::KillAdbOnExit, "0".to_string()));
}

#[test]
fn configured_options_to_map() {
    let options = MAAOption::default()
        .with_touch_mode(TouchMode::MAATouch)
        .with_deployment_with_pause(true)
        .with_adb_lite_enabled(true)
        .with_kill_adb_on_exit(true);
    let map = options.to_map();
    assert_eq!(map[0].1, "maatouch");
    assert_eq!(map[1].1, "1");
    assert_eq!(map[2].1, "1");
    assert_eq!(map[3].1, "1");
}
