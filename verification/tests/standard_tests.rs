//! Tests for the standard device interface

use panasonic_ac::standard::{
    model_to_string, FanLevel, OpMode, StandardAc, State, StateBuilder, SwingHPos, SwingVPos,
};
use panasonic_ac::{
    AcDevice, AcMode, Error, FanSpeed, PanasonicAc, PanasonicAc32, PanasonicAcModel, SwingH,
    SwingV,
};

#[test]
fn test_standard_conversions() {
    assert_eq!(OpMode::from(AcMode::Heat), OpMode::Heat);
    assert_eq!(AcMode::from(OpMode::Dry), AcMode::Dry);
    assert_eq!(FanLevel::from(FanSpeed::Medium), FanLevel::Medium);
    assert_eq!(FanSpeed::from(FanLevel::Max), FanSpeed::Max);
    assert_eq!(SwingVPos::from(SwingV::Lowest), SwingVPos::Lowest);
    assert_eq!(SwingV::from(SwingVPos::Highest), SwingV::Highest);
    assert_eq!(SwingHPos::from(SwingH::FullLeft), SwingHPos::LeftMax);
    assert_eq!(SwingH::from(SwingHPos::RightMax), SwingH::FullRight);
    for mode in [AcMode::Auto, AcMode::Cool, AcMode::Heat, AcMode::Dry, AcMode::Fan] {
        assert_eq!(AcMode::from(OpMode::from(mode)), mode);
    }
}

#[test]
fn test_state_defaults_and_builder() {
    let s = State::default();
    assert_eq!(s.power, false);
    assert_eq!(s.mode, OpMode::Auto);
    assert_eq!(s.temp, 25);
    assert_eq!(s.fan, FanLevel::Auto);
    assert_eq!(s.swing_v, Some(SwingVPos::Auto));
    assert_eq!(s.swing_h, Some(SwingHPos::Auto));
    assert_eq!(s.model, None);
    assert_eq!(
        s.to_string(),
        "Power: Off, Mode: Auto, Temp: 25°C, Fan: Auto, Swing V: Auto, Swing H: Auto, \
         Quiet: Off, Powerful: Off, Ion: Off, Model: Unknown"
    );

    let b = StateBuilder::new()
        .power(true)
        .mode(OpMode::Cool)
        .temp(23)
        .fan(standard_fan())
        .swing_v(None)
        .swing_h(Some(SwingHPos::LeftMax))
        .quiet(true)
        .powerful(false)
        .ion(true)
        .build();
    assert_eq!(
        b.to_string(),
        "Power: On, Mode: Cool, Temp: 23°C, Fan: Minimum, Swing V: N/A, Swing H: Far Left, \
         Quiet: On, Powerful: Off, Ion: On, Model: Unknown"
    );
}

fn standard_fan() -> FanLevel {
    FanLevel::Min
}

#[test]
fn test_model_to_string() {
    assert_eq!(model_to_string(PanasonicAcModel::Dke), "Panasonic DKE");
    assert_eq!(model_to_string(PanasonicAcModel::Rkr), "Panasonic RKR");
    assert_eq!(model_to_string(PanasonicAcModel::Unknown), "Panasonic Unknown");
}

#[test]
fn test_standard_state_roundtrip_dke() {
    let mut ac = PanasonicAc::new(|_, _, _| Ok(()));
    ac.set_model(PanasonicAcModel::Dke).unwrap();
    let wanted = StateBuilder::new()
        .power(true)
        .mode(OpMode::Cool)
        .temp(23)
        .fan(FanLevel::High)
        .swing_v(Some(SwingVPos::Low))
        .swing_h(Some(SwingHPos::Left))
        .quiet(true)
        .ion(true)
        .build();
    ac.set_state(&wanted).unwrap();
    let got = ac.get_state().unwrap();
    assert_eq!(got.power, true);
    assert_eq!(got.mode, OpMode::Cool);
    assert_eq!(got.temp, 23);
    assert_eq!(got.fan, FanLevel::High);
    assert_eq!(got.swing_v, Some(SwingVPos::Low));
    assert_eq!(got.swing_h, Some(SwingHPos::Left));
    assert_eq!(got.quiet, true);
    assert_eq!(got.powerful, false);
    assert_eq!(got.ion, true);
    assert_eq!(got.model, Some("Panasonic DKE".to_string()));

    // The temperature is brought into range
    let hot = StateBuilder::new().temp(40).build();
    ac.set_state(&hot).unwrap();
    assert_eq!(ac.get_state().unwrap().temp, 30);
}

#[test]
fn test_standard_state_refused_on_other_models() {
    let mut ac = PanasonicAc::new(|_, _, _| Ok(()));
    ac.set_model(PanasonicAcModel::Jke).unwrap();
    // The default state asks for nothing the JKE model lacks
    ac.set_state(&State::default()).unwrap();
    let left = StateBuilder::new().swing_h(Some(SwingHPos::Left)).build();
    match ac.set_state(&left) {
        Err(Error::UnsupportedFeature { feature, model }) => {
            assert_eq!(feature, "Horizontal swing");
            assert_eq!(model, Some("JKE".to_string()));
        }
        other => panic!("unexpected result: {:?}", other),
    }
    let ion = StateBuilder::new().swing_h(None).ion(true).build();
    match ac.set_state(&ion) {
        Err(Error::UnsupportedFeature { feature, .. }) => assert_eq!(feature, "Ion filter"),
        other => panic!("unexpected result: {:?}", other),
    }
}

#[test]
fn test_standard_state_without_model() {
    let mut ac = PanasonicAc::new(|_, _, _| Ok(()));
    let cooling_state = StateBuilder::new()
        .power(true)
        .mode(OpMode::Cool)
        .temp(23)
        .fan(FanLevel::Auto)
        .swing_v(Some(SwingVPos::Auto))
        .quiet(true)
        .build();
    ac.set_state(&cooling_state).unwrap();
    panasonic_ac::Device::send(&ac).unwrap();
    let got = ac.get_state().unwrap();
    assert_eq!(got.power, true);
    assert_eq!(got.mode, OpMode::Cool);
    assert_eq!(got.temp, 23);
    assert_eq!(got.quiet, true);
}

#[test]
fn test_update_state() {
    let mut ac = PanasonicAc::new(|_, _, _| Ok(()));
    ac.set_model(PanasonicAcModel::Dke).unwrap();
    panasonic_ac::Device::set_power(&mut ac, true).unwrap();
    ac.update_state(|s| {
        s.temp = 20;
        s.mode = OpMode::Heat;
    })
    .unwrap();
    assert_eq!(ac.get_temp(), 20);
    assert_eq!(ac.get_mode().unwrap(), AcMode::Heat);
    assert_eq!(panasonic_ac::Device::get_power(&ac), true);
}

#[test]
fn test_standard_ac32() {
    let mut ac = PanasonicAc32::new(|_, _, _| Ok(()));
    let s = ac.get_state().unwrap();
    assert_eq!(s.power, true);
    assert_eq!(s.mode, OpMode::Cool);
    assert_eq!(s.temp, 19);
    assert_eq!(s.fan, FanLevel::Auto);
    assert_eq!(s.swing_v, None);
    assert_eq!(s.swing_h, None);
    assert_eq!(s.model, None);

    let wanted = StateBuilder::new().mode(OpMode::Heat).temp(22).build();
    match ac.set_state(&wanted) {
        Err(Error::UnsupportedFeature { feature, model }) => {
            assert_eq!(feature, "Fan speed control");
            assert_eq!(model, Some("AC32".to_string()));
        }
        other => panic!("unexpected result: {:?}", other),
    }
    // Power, mode and temperature were written before the refusal
    assert_eq!(ac.get_mode().unwrap(), AcMode::Heat);
    assert_eq!(ac.get_temp(), 22);
    assert_eq!(panasonic_ac::Device::get_power(&ac), false);
}
