//! Tests for the AC32 device

use panasonic_ac::mock::create_mock_sender;
use panasonic_ac::{AcDevice, AcMode, Device, Error, FanSpeed, PanasonicAc32, PANASONIC_FREQ};

#[test]
fn test_ac32_defaults() {
    let ac = PanasonicAc32::new(|_, _, _| Ok(()));
    // 0x40040190: power bit 24 clear (on), mode 1 (cool), temperature field 4 (19°C)
    assert_eq!(ac.get_power(), true);
    assert_eq!(ac.get_mode().unwrap(), AcMode::Cool);
    assert_eq!(ac.get_temp(), 19);
    assert_eq!(ac.get_raw(), vec![0x40, 0x04, 0x01, 0x90]);
}

#[test]
fn test_ac32_power_mode_temp() {
    let mut ac = PanasonicAc32::new(|_, _, _| Ok(()));
    ac.set_power(false).unwrap();
    assert_eq!(ac.get_power(), false);
    assert_eq!(ac.get_power_toggle(), false);
    ac.turn_on().unwrap();
    assert_eq!(ac.get_power(), true);

    ac.set_mode(AcMode::Heat).unwrap();
    assert_eq!(ac.get_mode().unwrap(), AcMode::Heat);
    ac.set_mode(AcMode::Fan).unwrap();
    assert_eq!(ac.get_mode().unwrap(), AcMode::Fan);

    ac.set_temp(24).unwrap();
    assert_eq!(ac.get_temp(), 24);
    ac.set_temp(35).unwrap();
    assert_eq!(ac.get_temp(), 30);
    ac.set_temp(10).unwrap();
    assert_eq!(ac.get_temp(), 16);

    ac.reset();
    assert_eq!(ac.get_raw(), vec![0x40, 0x04, 0x01, 0x90]);
}

#[test]
fn test_ac32_invalid_mode() {
    let mut ac = PanasonicAc32::new(|_, _, _| Ok(()));
    // Mode field 7 is no AC32 mode
    ac.set_raw(&[0x40, 0x04, 0x07, 0x90]).unwrap();
    match ac.get_mode() {
        Err(Error::InvalidValue(msg)) => assert_eq!(msg, "Invalid mode: 7"),
        other => panic!("unexpected result: {:?}", other),
    }
}

#[test]
fn test_ac32_raw_bytes() {
    let mut ac = PanasonicAc32::new(|_, _, _| Ok(()));
    ac.set_raw(&[0x12, 0x34, 0x56, 0x78]).unwrap();
    assert_eq!(ac.get_raw(), vec![0x12, 0x34, 0x56, 0x78]);

    match ac.set_raw(&[0x01, 0x02, 0x03]) {
        Err(Error::InvalidData(msg)) => assert_eq!(msg, "Expected 4 bytes, got 3"),
        other => panic!("unexpected result: {:?}", other),
    }
    // A refused state leaves the device as it was
    assert_eq!(ac.get_raw(), vec![0x12, 0x34, 0x56, 0x78]);
}

#[test]
fn test_ac32_unsupported_features() {
    let mut ac = PanasonicAc32::new(|_, _, _| Ok(()));
    let check = |r: Result<(), Error>, name: &str| match r {
        Err(Error::UnsupportedFeature { feature, model }) => {
            assert_eq!(feature, name);
            assert_eq!(model, Some("AC32".to_string()));
        }
        other => panic!("unexpected result: {:?}", other),
    };
    check(ac.set_fan(FanSpeed::High), "Fan speed control");
    check(ac.set_swing_v(panasonic_ac::SwingV::Low), "Vertical swing");
    check(ac.set_swing_h(panasonic_ac::SwingH::Left), "Horizontal swing");
    check(ac.set_quiet(true), "Quiet mode");
    check(ac.set_powerful(true), "Powerful mode");
    check(ac.set_ion(true), "Ion filter");
    assert!(ac.get_fan().is_err());
    assert!(ac.get_swing_v().is_err());
    assert!(ac.get_swing_h().is_err());
    assert_eq!(ac.get_quiet(), false);
    assert_eq!(ac.get_powerful(), false);
    assert_eq!(ac.get_ion(), false);
    // Nothing was changed
    assert_eq!(ac.get_raw(), vec![0x40, 0x04, 0x01, 0x90]);
}

#[test]
fn test_ac32_send() {
    let (sender, transmitter) = create_mock_sender();
    let ac = PanasonicAc32::new(sender);
    ac.send().unwrap();
    assert_eq!(transmitter.get_send_count(), 1);
    assert_eq!(transmitter.get_sent_data()[0], vec![0x40, 0x04, 0x01, 0x90]);
    assert_eq!(transmitter.get_sent_freq(), vec![PANASONIC_FREQ]);
    assert_eq!(transmitter.get_sent_repeat(), vec![0]);
}
