//! Further tests of the library: texts, errors, time round trips, change
//! sets and the capture of received signals

use panasonic_ac::hardware::{
    capture_finished, create_default_receiver, create_default_transmitter, past_timeout,
    SignalCapture,
};
use panasonic_ac::mock::{IrTransmitter, MockReceiver, MockTransmitter};
use panasonic_ac::utils::{mins_to_string, pad_string, parse_time};
use panasonic_ac::{
    AcDevice, AcMode, Decoder, Device, Error, FanSpeed, IrSendFn, IrSignal, PanasonicAc,
    PanasonicAcChanges, PanasonicAcChangesBuilder, PanasonicAcModel, PanasonicAcState, PanasonicDecoder, SwingH,
    SwingV,
};

#[test]
fn test_time_text_roundtrip() {
    for mins in [0u16, 1, 59, 60, 90, 754, 1439] {
        assert_eq!(parse_time(&mins_to_string(mins)).unwrap(), mins);
    }
    // Hours past 99 keep all their digits
    assert_eq!(mins_to_string(6000), "100:00");
    assert_eq!(mins_to_string(65535), "1092:15");
}

#[test]
fn test_parse_time_errors() {
    let message = |s: &str| match parse_time(s) {
        Err(Error::InvalidValue(msg)) => msg,
        other => panic!("unexpected result: {:?}", other),
    };
    assert_eq!(message("12"), "Invalid time format: 12, expected HH:MM");
    assert_eq!(message("1:2:3"), "Invalid time format: 1:2:3, expected HH:MM");
    assert_eq!(message("ab:00"), "Invalid hours: ab");
    assert_eq!(message(":00"), "Invalid hours: ");
    assert_eq!(message("10:xx"), "Invalid minutes: xx");
    assert_eq!(message("24:00"), "Invalid time: 24:0");
    assert_eq!(message("07:60"), "Invalid time: 7:60");
    // The numbers are read as u16::from_str reads them
    assert_eq!(parse_time("+1:05").unwrap(), 65);
    assert_eq!(parse_time("0001:5").unwrap(), 65);
    assert_eq!(message("-1:05"), "Invalid hours: -1");
    assert_eq!(message("70000:00"), "Invalid hours: 70000");
}

#[test]
fn test_pad_string_counts_bytes() {
    // 'é' takes two bytes in UTF-8
    assert_eq!(pad_string("é", '-', 3), "é-");
    assert_eq!(pad_string("", '*', 2), "**");
    assert_eq!(pad_string("abc", 'x', 0), "abc");
}

#[test]
fn test_error_messages() {
    assert_eq!(Error::InvalidChecksum.to_string(), "Invalid checksum");
    assert_eq!(
        Error::InvalidValue("x".to_string()).to_string(),
        "Invalid value: x"
    );
    assert_eq!(
        Error::UnsupportedFeature {
            feature: "Ion filter".to_string(),
            model: Some("JKE".to_string()),
        }
        .to_string(),
        "Feature 'Ion filter' not supported by model 'JKE'"
    );
    assert_eq!(
        Error::UnsupportedFeature {
            feature: "Hardware IR receiver".to_string(),
            model: None,
        }
        .to_string(),
        "Feature 'Hardware IR receiver' not supported"
    );
    assert_eq!(
        Error::GpioError("busy".to_string()).to_string(),
        "GPIO error: busy"
    );
    let io = Error::from(std::io::Error::new(std::io::ErrorKind::NotFound, "gone"));
    assert_eq!(io.to_string(), "I/O error: gone");
}

#[test]
fn test_default_hardware() {
    match create_default_transmitter() {
        Err(Error::UnsupportedFeature { feature, model }) => {
            assert_eq!(feature, "Hardware IR transmitter");
            assert_eq!(model, None);
        }
        _ => panic!("expected an unsupported feature"),
    }
    match create_default_receiver() {
        Err(Error::UnsupportedFeature { feature, .. }) => {
            assert_eq!(feature, "Hardware IR receiver")
        }
        _ => panic!("expected an unsupported feature"),
    }
    assert!(panasonic_ac::init().is_ok());
}

#[test]
fn test_signal_capture() {
    let mut capture = SignalCapture::new(false);
    assert!(!capture.record(false, 5_000));
    assert!(capture.record(true, 1_500_999));
    // 70 ms do not fit in 16 bits of microseconds: they wrap around
    assert!(capture.record(false, 70_000_000));
    assert_eq!(capture.into_timings(), vec![1500, 4464]);

    assert!(capture_finished(30_000_001, 0, 10));
    assert!(!capture_finished(30_000_000, 10_000_000, 10));
    assert!(capture_finished(0, 10_000_001, 10));
    assert!(!past_timeout(1_000_000, 1));
    assert!(past_timeout(1_000_001, 1));
}

#[test]
fn test_state_descriptions() {
    let state = PanasonicAcState::new();
    assert_eq!(
        state.to_string(),
        "Model: Unknown, Power: Off, Mode: Auto, Temp: 0°C, Fan: Unknown, Swing V: Unknown, \
         Swing H: Middle, Quiet: Off, Powerful: Off, Ion: Off, Clock: 00:00, On Timer: Off, \
         Off Timer: Off"
    );

    let mut ac = PanasonicAc::new(|_, _, _| Ok(()));
    ac.set_model(PanasonicAcModel::Dke).unwrap();
    ac.set_power(true).unwrap();
    ac.set_mode(AcMode::Cool).unwrap();
    ac.set_temp(23).unwrap();
    ac.set_fan(FanSpeed::Auto).unwrap();
    ac.set_swing_v(SwingV::Auto).unwrap();
    ac.set_quiet(true).unwrap();
    ac.set_on_timer(8, 30, true).unwrap();
    ac.set_clock(14, 5).unwrap();
    assert_eq!(
        ac.to_string(),
        "Model: DKE, Power: On, Mode: Cool, Temp: 23°C, Fan: Auto, Swing V: Auto, \
         Swing H: Middle, Quiet: On, Powerful: Off, Ion: Off, Clock: 14:05, On Timer: 08:30, \
         Off Timer: Off"
    );
}

#[test]
fn test_reapplying_changes() {
    let mut ac = PanasonicAc::new(|_, _, _| Ok(()));
    ac.set_model(PanasonicAcModel::Dke).unwrap();
    let changes = PanasonicAcChangesBuilder::new()
        .power(true)
        .mode(AcMode::Dry)
        .temp(21)
        .fan(FanSpeed::Low)
        .quiet(true)
        .ion(true)
        .build();
    assert_eq!(ac.apply_changes(&changes).unwrap(), true);
    let after_first = ac.get_raw();
    assert_eq!(ac.apply_changes(&changes).unwrap(), false);
    assert_eq!(ac.get_raw(), after_first);

    // The ion filter is refused by a model without one
    let mut jke = PanasonicAc::new(|_, _, _| Ok(()));
    jke.set_model(PanasonicAcModel::Jke).unwrap();
    match jke.apply_changes(&PanasonicAcChangesBuilder::new().ion(true).build()) {
        Err(Error::UnsupportedFeature { feature, model }) => {
            assert_eq!(feature, "Ion filter");
            assert_eq!(model, Some("JKE".to_string()));
        }
        other => panic!("unexpected result: {:?}", other),
    }
}

#[test]
fn test_code_roundtrips() {
    for mode in [AcMode::Auto, AcMode::Cool, AcMode::Heat, AcMode::Dry, AcMode::Fan] {
        assert_eq!(AcMode::try_from(u8::from(mode)).unwrap(), mode);
    }
    for speed in [
        FanSpeed::Auto,
        FanSpeed::Min,
        FanSpeed::Low,
        FanSpeed::Medium,
        FanSpeed::High,
        FanSpeed::Max,
    ] {
        assert_eq!(FanSpeed::try_from(u8::from(speed)).unwrap(), speed);
    }
    for swing in [SwingV::Auto, SwingV::Highest, SwingV::High, SwingV::Middle, SwingV::Low, SwingV::Lowest] {
        assert_eq!(SwingV::try_from(u8::from(swing)).unwrap(), swing);
    }
    for swing in [
        SwingH::Auto,
        SwingH::Middle,
        SwingH::FullLeft,
        SwingH::Left,
        SwingH::Right,
        SwingH::FullRight,
    ] {
        assert_eq!(SwingH::try_from(u8::from(swing)).unwrap(), swing);
    }
    match AcMode::try_from(7) {
        Err(Error::InvalidValue(msg)) => assert_eq!(msg, "Invalid mode: 7"),
        other => panic!("unexpected result: {:?}", other),
    }
    match SwingH::try_from(0) {
        Err(Error::InvalidValue(msg)) => assert_eq!(msg, "Invalid horizontal swing: 0"),
        other => panic!("unexpected result: {:?}", other),
    }
}

#[test]
fn test_decoder_errors() {
    let decoder = PanasonicDecoder::new();
    let bad_header = IrSignal { data: vec![], carrier_frequency: 36700, timings: Some(vec![100, 1728, 432, 5000]) };
    match decoder.decode(&bad_header) {
        Err(Error::ProtocolError(msg)) => assert_eq!(msg, "Invalid header timing"),
        other => panic!("unexpected result: {:?}", other),
    }
    // Header, one bit (mark and space), footer: one bit is no whole byte
    let one_bit = IrSignal {
        data: vec![],
        carrier_frequency: 36700,
        timings: Some(vec![3456, 1728, 432, 1296, 432, 5000]),
    };
    match decoder.decode(&one_bit) {
        Err(Error::ProtocolError(msg)) => assert_eq!(msg, "Bit count 1 is not a multiple of 8"),
        other => panic!("unexpected result: {:?}", other),
    }
    // Timings within 25% of the expected values are accepted
    let mut timings = vec![3000, 2000];
    for bit in [1, 0, 1, 0, 0, 1, 0, 1] {
        timings.push(450);
        timings.push(if bit == 1 { 1250 } else { 400 });
    }
    timings.push(432);
    timings.push(5000);
    let byte = IrSignal { data: vec![], carrier_frequency: 36700, timings: Some(timings) };
    assert_eq!(decoder.decode(&byte).unwrap(), vec![0xA5]);
    // Without timings the data is returned as it is
    let raw = IrSignal { data: vec![1, 2, 3], carrier_frequency: 36700, timings: None };
    assert_eq!(decoder.decode(&raw).unwrap(), vec![1, 2, 3]);
    match decoder.extract_command(&[1, 2, 3]) {
        Err(Error::InvalidData(msg)) => assert_eq!(msg, "Data too short to extract command"),
        other => panic!("unexpected result: {:?}", other),
    }
    assert_eq!(decoder.extract_command(&[0x12, 0x34, 0x56, 0x78, 0x9A]).unwrap(), 0x12345678);
}

#[test]
fn test_log_level_and_carrier() {
    use_log_level();
    assert_eq!(panasonic_ac::hardware::carrier_half_cycle_us(36700), 13);
    assert_eq!(panasonic_ac::hardware::carrier_half_cycle_us(38000), 13);
    assert_eq!(panasonic_ac::hardware::carrier_half_cycle_us(1), 500_000);
}

fn use_log_level() {
    assert_eq!(panasonic_ac::cli::log_level(0), panasonic_ac::cli::LogLevel::Info);
    assert_eq!(panasonic_ac::cli::log_level(1), panasonic_ac::cli::LogLevel::Debug);
    assert_eq!(panasonic_ac::cli::log_level(2), panasonic_ac::cli::LogLevel::Trace);
    assert_eq!(panasonic_ac::cli::log_level(255), panasonic_ac::cli::LogLevel::Trace);
}

#[test]
fn test_changes_with_temperature_out_of_range() {
    let mut ac = PanasonicAc::new(|_, _, _| Ok(()));
    ac.set_model(PanasonicAcModel::Dke).unwrap();
    let before = ac.get_raw();
    let changes = PanasonicAcChanges { power: Some(true), temp: Some(35), ..Default::default() };
    match ac.apply_changes(&changes) {
        Err(Error::InvalidValue(msg)) => {
            assert_eq!(msg, "Invalid temperature: 35 (valid range: 16-30)")
        }
        other => panic!("unexpected result: {:?}", other),
    }
    assert_eq!(ac.get_raw(), before);
    let cold = PanasonicAcChanges { temp: Some(15), ..Default::default() };
    assert!(matches!(ac.apply_changes_and_send(&cold), Err(Error::InvalidValue(_))));
    assert_eq!(ac.get_raw(), before);
    let edge = PanasonicAcChanges { temp: Some(30), ..Default::default() };
    assert_eq!(ac.apply_changes(&edge).unwrap(), true);
    assert_eq!(ac.get_temp(), 30);
}

#[test]
fn test_boxed_sender() {
    let sender: IrSendFn = Box::new(|data, freq, repeat| {
        assert_eq!(data.len(), 27);
        assert_eq!(freq, 36700);
        assert_eq!(repeat, 0);
        Ok(())
    });
    let mut ac: PanasonicAc<IrSendFn> = PanasonicAc::new(sender);
    ac.set_power(true).unwrap();
    ac.send().unwrap();
}

fn shareable<T: Send + Sync>(_value: &T) {}

#[test]
fn test_mocks_are_shareable() {
    let transmitter = MockTransmitter::new();
    let receiver = MockReceiver::new();
    shareable(&transmitter);
    shareable(&receiver);
    let mut other = transmitter.clone();
    other.send(&[1, 2], 38000, 1).unwrap();
    assert_eq!(transmitter.get_send_count(), 1);
    assert_eq!(transmitter.get_sent_data(), vec![vec![1u8, 2]]);
}

#[test]
fn test_raw_model_roundtrip() {
    let models = [
        PanasonicAcModel::Dke,
        PanasonicAcModel::Jke,
        PanasonicAcModel::Nke,
        PanasonicAcModel::Ckp,
        PanasonicAcModel::Rkr,
    ];
    for model in models {
        for power in [false, true] {
            let mut s = PanasonicAcState::new();
            s.set_model(model).unwrap();
            s.set_power(power).unwrap();
            s.set_mode(AcMode::Heat).unwrap();
            s.set_temp(27).unwrap();
            let mut t = PanasonicAcState::new();
            t.from_raw_data(&s.to_vec()).unwrap();
            assert_eq!(t.get_model(), model);
            assert_eq!(t.get_power(), power);
            assert_eq!(t.get_mode().unwrap(), AcMode::Heat);
            assert_eq!(t.get_temp(), 27);
        }
    }
    // The LKE model reads back as LKE with the power off
    let mut s = PanasonicAcState::new();
    s.set_model(PanasonicAcModel::Lke).unwrap();
    let mut t = PanasonicAcState::new();
    t.from_raw_data(&s.to_vec()).unwrap();
    assert_eq!(t.get_model(), PanasonicAcModel::Lke);
}

#[test]
fn test_change_report_matches_raw_bytes() {
    let mut ac = PanasonicAc::new(|_, _, _| Ok(()));
    ac.set_model(PanasonicAcModel::Dke).unwrap();
    let changes = PanasonicAcChanges { power: Some(true), temp: Some(22), ..Default::default() };
    let before = ac.get_raw();
    assert_eq!(ac.apply_changes(&changes).unwrap(), ac.get_raw() != before);
    let before = ac.get_raw();
    assert_eq!(ac.apply_changes(&changes).unwrap(), false);
    assert_eq!(ac.get_raw(), before);
}
