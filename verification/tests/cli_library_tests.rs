//! Tests for the command-line names, the preset files and the command sequence

use panasonic_ac::cli::{
    answer_is_yes, captured_signal_text, hex_string, hex_string_sliceable, load_preset_contents,
    parse_fan_speed, parse_hex_string, parse_model, parse_swing_h, preset_contents, preset_lines,
    send_command,
};
use panasonic_ac::mock::create_mock_sender;
use panasonic_ac::{
    AcDevice, AcMode, Device, Error, FanSpeed, PanasonicAc, PanasonicAcModel, SwingH,
};

#[test]
fn test_parse_names() {
    assert_eq!(parse_model("DKE").unwrap(), PanasonicAcModel::Dke);
    assert_eq!(parse_model("rkr").unwrap(), PanasonicAcModel::Rkr);
    match parse_model("abc") {
        Err(Error::InvalidValue(msg)) => assert_eq!(
            msg,
            "Invalid AC model: abc. Valid models are: dke, jke, lke, nke, ckp, rkr"
        ),
        other => panic!("unexpected result: {:?}", other),
    }
    assert_eq!(parse_fan_speed("lowest").unwrap(), FanSpeed::Min);
    assert_eq!(parse_fan_speed("MEDIUM").unwrap(), FanSpeed::Medium);
    assert_eq!(parse_fan_speed("med").unwrap(), FanSpeed::Medium);
    assert_eq!(parse_fan_speed("highest").unwrap(), FanSpeed::Max);
    match parse_fan_speed("fast") {
        Err(Error::InvalidValue(msg)) => assert_eq!(
            msg,
            "Invalid fan speed: fast. Valid speeds are: auto, min, low, med, high, max"
        ),
        other => panic!("unexpected result: {:?}", other),
    }
    assert_eq!(parse_swing_h("left_mid").unwrap(), SwingH::Middle);
    assert_eq!(parse_swing_h("Right_Mid").unwrap(), SwingH::Right);
    assert_eq!(parse_swing_h("left").unwrap(), SwingH::Left);
    assert!(parse_swing_h("full_left").is_err());
}

#[test]
fn test_hex_text() {
    assert_eq!(hex_string(&[0x0A, 0xFF, 0x00]), "0AFF00");
    assert_eq!(parse_hex_string("0A1b").unwrap(), vec![0x0A, 0x1B]);
    // A sign is read as u8::from_str_radix reads it
    assert_eq!(parse_hex_string("+F0a").unwrap(), vec![0x0F, 0x0A]);
    // A last odd character is ignored
    assert_eq!(parse_hex_string("ABC").unwrap(), vec![0xAB]);
    assert_eq!(parse_hex_string("").unwrap(), Vec::<u8>::new());
    match parse_hex_string("0G") {
        Err(Error::InvalidData(msg)) => assert_eq!(msg, "Invalid hex string: 0G"),
        other => panic!("unexpected result: {:?}", other),
    }
    // A two-byte character is one piece, which is no hex byte
    assert!(hex_string_sliceable("é1"));
    assert!(parse_hex_string("é1").is_err());
    // A piece that would end inside a character cannot be cut
    assert!(!hex_string_sliceable("1é"));
    assert!(hex_string_sliceable("00FF"));
}

#[test]
fn test_preset_lines() {
    assert_eq!(preset_lines("DKE\n0A"), Some(("DKE", "0A")));
    assert_eq!(preset_lines("a\r\nb\r"), Some(("a", "b\r")));
    assert_eq!(preset_lines("a\r\nb\r\nc"), Some(("a", "b")));
    assert_eq!(preset_lines("a\n\nb"), Some(("a", "")));
    assert_eq!(preset_lines("a\n"), None);
    assert_eq!(preset_lines("a"), None);
    assert_eq!(preset_lines(""), None);
}

#[test]
fn test_preset_roundtrip() {
    let mut ac1 = PanasonicAc::new(|_, _, _| Ok(()));
    ac1.set_model(PanasonicAcModel::Dke).unwrap();
    ac1.set_power(true).unwrap();
    ac1.set_mode(AcMode::Heat).unwrap();
    ac1.set_temp(24).unwrap();
    ac1.set_fan(FanSpeed::High).unwrap();

    let text = preset_contents(&ac1);
    assert!(text.starts_with("DKE\n"));
    assert_eq!(text.len(), 4 + 2 * 27);
    assert_eq!(&text[4..], hex_string(&ac1.get_raw()));

    let mut ac2 = PanasonicAc::new(|_, _, _| Ok(()));
    load_preset_contents(&mut ac2, &text).unwrap();
    assert_eq!(ac2.get_model(), PanasonicAcModel::Dke);
    assert_eq!(ac2.get_power(), true);
    assert_eq!(ac2.get_mode().unwrap(), AcMode::Heat);
    assert_eq!(ac2.get_temp(), 24);
    assert_eq!(ac2.get_fan().unwrap(), FanSpeed::High);
}

#[test]
fn test_preset_errors() {
    // A preset saved for the unknown model names no model that loading accepts
    let ac1 = PanasonicAc::new(|_, _, _| Ok(()));
    let text = preset_contents(&ac1);
    assert!(text.starts_with("Unknown\n"));
    let mut ac2 = PanasonicAc::new(|_, _, _| Ok(()));
    let before = ac2.get_raw();
    match load_preset_contents(&mut ac2, &text) {
        Err(Error::InvalidValue(msg)) => assert_eq!(
            msg,
            "Invalid AC model: Unknown. Valid models are: dke, jke, lke, nke, ckp, rkr"
        ),
        other => panic!("unexpected result: {:?}", other),
    }
    assert_eq!(ac2.get_raw(), before);

    match load_preset_contents(&mut ac2, "dke") {
        Err(Error::InvalidData(msg)) => assert_eq!(msg, "Invalid preset file format"),
        other => panic!("unexpected result: {:?}", other),
    }
    match load_preset_contents(&mut ac2, "dke\nXY") {
        Err(Error::InvalidData(msg)) => assert_eq!(msg, "Invalid hex string: XY"),
        other => panic!("unexpected result: {:?}", other),
    }
    // The model was set before the state was read
    assert_eq!(ac2.get_model(), PanasonicAcModel::Dke);
    match load_preset_contents(&mut ac2, "jke\n0102") {
        Err(Error::InvalidData(msg)) => assert_eq!(msg, "Expected 27 bytes, got 2"),
        other => panic!("unexpected result: {:?}", other),
    }
    let mut bad = hex_string(&ac1.get_raw());
    bad.replace_range(52..54, "00");
    match load_preset_contents(&mut ac2, &format!("nke\n{}", bad)) {
        Err(Error::InvalidChecksum) => {}
        other => panic!("unexpected result: {:?}", other),
    }
}

#[test]
fn test_send_command() {
    let (sender, transmitter) = create_mock_sender();
    let mut ac = PanasonicAc::new(sender);
    ac.set_model(PanasonicAcModel::Dke).unwrap();
    send_command(
        &mut ac,
        Some(true),
        &Some("COOL".to_string()),
        Some(22),
        &Some("med".to_string()),
        &None,
        &Some("left_mid".to_string()),
        None,
        Some(true),
    )
    .unwrap();
    assert_eq!(ac.get_power(), true);
    assert_eq!(ac.get_mode().unwrap(), AcMode::Cool);
    assert_eq!(ac.get_temp(), 22);
    assert_eq!(ac.get_fan().unwrap(), FanSpeed::Medium);
    assert_eq!(ac.get_swing_h().unwrap(), SwingH::Middle);
    assert_eq!(ac.get_quiet(), true);
    assert_eq!(transmitter.get_send_count(), 1);
    assert_eq!(transmitter.get_sent_data()[0], ac.get_raw());

    // A name that cannot be read stops the command before anything is sent
    match send_command(
        &mut ac,
        Some(false),
        &Some("warm".to_string()),
        None,
        &None,
        &None,
        &None,
        None,
        None,
    ) {
        Err(Error::InvalidValue(msg)) => assert_eq!(
            msg,
            "Invalid mode: warm. Valid modes are: auto, cool, heat, dry, fan"
        ),
        other => panic!("unexpected result: {:?}", other),
    }
    // The power setting before it was written
    assert_eq!(ac.get_power(), false);
    assert_eq!(transmitter.get_send_count(), 1);

    // A horizontal swing on a model without one is refused
    ac.set_model(PanasonicAcModel::Jke).unwrap();
    match send_command(
        &mut ac,
        None,
        &None,
        None,
        &None,
        &None,
        &Some("left".to_string()),
        None,
        None,
    ) {
        Err(Error::UnsupportedFeature { feature, model }) => {
            assert_eq!(feature, "Horizontal swing");
            assert_eq!(model, Some("JKE".to_string()));
        }
        other => panic!("unexpected result: {:?}", other),
    }
    assert_eq!(transmitter.get_send_count(), 1);
}

#[test]
fn test_answers_and_captures() {
    assert!(answer_is_yes(" Y\n"));
    assert!(answer_is_yes("y"));
    assert!(answer_is_yes(" y "));
    assert!(answer_is_yes("\u{3000}y\t"));
    assert!(!answer_is_yes("yes"));
    assert!(!answer_is_yes("\n"));
    assert_eq!(captured_signal_text(&[1, 20, 3456]), "1\n20\n3456\n");
    assert_eq!(captured_signal_text(&[]), "");
}
