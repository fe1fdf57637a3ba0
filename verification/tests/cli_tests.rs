//! Tests for the command-line interface helpers

use std::path::PathBuf;
use std::sync::{Arc, Mutex};

use panasonic_ac::cli::{parse_fan_speed, parse_mode, parse_swing_h, parse_swing_v};
use panasonic_ac::error::Result;
use panasonic_ac::types::{AcMode, FanSpeed, SwingH, SwingV};

// Mock function to store commands for testing
fn create_test_sender() -> (impl Fn(&[u8], u32, u16) -> Result<()>, Arc<Mutex<Vec<Vec<u8>>>>) {
    let commands = Arc::new(Mutex::new(Vec::new()));
    let commands_clone = commands.clone();

    let sender = move |data: &[u8], _freq: u32, _repeat: u16| -> Result<()> {
        commands.lock().unwrap().push(data.to_vec());
        Ok(())
    };

    (sender, commands_clone)
}

#[test]
fn test_parse_mode() {
    assert_eq!(parse_mode("auto").unwrap(), AcMode::Auto);
    assert_eq!(parse_mode("cool").unwrap(), AcMode::Cool);
    assert_eq!(parse_mode("heat").unwrap(), AcMode::Heat);
    assert_eq!(parse_mode("dry").unwrap(), AcMode::Dry);
    assert_eq!(parse_mode("fan").unwrap(), AcMode::Fan);

    // Test case insensitivity
    assert_eq!(parse_mode("AUTO").unwrap(), AcMode::Auto);
    assert_eq!(parse_mode("Cool").unwrap(), AcMode::Cool);

    // Test invalid modes
    assert!(parse_mode("invalid").is_err());
}

#[test]
fn test_parse_fan_speed() {
    assert_eq!(parse_fan_speed("auto").unwrap(), FanSpeed::Auto);
    assert_eq!(parse_fan_speed("min").unwrap(), FanSpeed::Min);
    assert_eq!(parse_fan_speed("lowest").unwrap(), FanSpeed::Min);
    assert_eq!(parse_fan_speed("low").unwrap(), FanSpeed::Low);
    assert_eq!(parse_fan_speed("med").unwrap(), FanSpeed::Medium);
    assert_eq!(parse_fan_speed("medium").unwrap(), FanSpeed::Medium);
    assert_eq!(parse_fan_speed("high").unwrap(), FanSpeed::High);
    assert_eq!(parse_fan_speed("max").unwrap(), FanSpeed::Max);
    assert_eq!(parse_fan_speed("highest").unwrap(), FanSpeed::Max);

    // Test invalid fan speeds
    assert!(parse_fan_speed("invalid").is_err());
}

#[test]
fn test_parse_swing_v() {
    assert_eq!(parse_swing_v("auto").unwrap(), SwingV::Auto);
    assert_eq!(parse_swing_v("highest").unwrap(), SwingV::Highest);
    assert_eq!(parse_swing_v("high").unwrap(), SwingV::High);
    assert_eq!(parse_swing_v("middle").unwrap(), SwingV::Middle);
    assert_eq!(parse_swing_v("low").unwrap(), SwingV::Low);
    assert_eq!(parse_swing_v("lowest").unwrap(), SwingV::Lowest);

    // Test invalid swing settings
    assert!(parse_swing_v("invalid").is_err());
}

#[test]
fn test_parse_swing_h() {
    assert_eq!(parse_swing_h("auto").unwrap(), SwingH::Auto);
    assert_eq!(parse_swing_h("left").unwrap(), SwingH::Left);
    // `SwingH` has no in-between positions: "left_mid" selects the middle
    // and "right_mid" the right position.
    assert_eq!(parse_swing_h("left_mid").unwrap(), SwingH::Middle);
    assert_eq!(parse_swing_h("middle").unwrap(), SwingH::Middle);
    assert_eq!(parse_swing_h("right_mid").unwrap(), SwingH::Right);
    assert_eq!(parse_swing_h("right").unwrap(), SwingH::Right);

    // Test invalid swing settings
    assert!(parse_swing_h("invalid").is_err());
}

#[test]
fn test_preset_path() {
    // Test that preset path format is as expected
    let name = "cooling";
    let presets_dir = PathBuf::from("presets");
    let preset_path = presets_dir.join(format!("{}.preset", name));

    assert_eq!(preset_path.to_str().unwrap(), "presets/cooling.preset");
}

#[test]
fn test_create_test_sender() {
    // Test our test helper
    let (sender, commands) = create_test_sender();

    // Send some test data
    sender(&[0x01, 0x02, 0x03], 36700, 0).unwrap();
    sender(&[0x04, 0x05, 0x06], 36700, 0).unwrap();

    // Verify data was captured
    let commands = commands.lock().unwrap();
    assert_eq!(commands.len(), 2);
    assert_eq!(commands[0], vec![0x01, 0x02, 0x03]);
    assert_eq!(commands[1], vec![0x04, 0x05, 0x06]);
}
