//! Panasonic AC device implementation

use vstd::prelude::*;
use vstd::string::StringExecFns;

use crate::constants::{
    PANASONIC_AC32_KNOWN_GOOD, PANASONIC_AC_MAX_TEMP, PANASONIC_AC_MIN_TEMP,
    PANASONIC_AC_STATE_LENGTH, PANASONIC_FREQ, PANASONIC_KNOWN_GOOD_STATE,
};
use crate::error::{Error, Result};
use crate::protocol::{bit_of, with_bit, AcDevice, Device};
use crate::state::{
    ac32_mode_field, ac32_mode_from_code, ac32_power_of, ac32_temp_of, ac32_with_mode,
    ac32_with_power, ac32_with_temp, be_u32, clock_of, detect_model_of, fan_of, lemma_frame_len,
    mode_field, model_frame, off_timer_of, on_timer_of, power_of, received_frame, sent_frame,
    supports_ion, supports_swing_h, swing_h_of, swing_v_field, with_fan, with_ion, with_mode,
    with_power, with_powerful, with_quiet, with_swing_h, with_swing_v, with_temp, AcStateView,
    PanasonicAc32State, PanasonicAcState,
};
use crate::text::{decimal, prefixed_decimal};
use crate::types::{AcMode, FanSpeed, SwingH, SwingV};

verus! {

/// Represents different Panasonic AC models
#[derive(Debug, Clone, Copy, PartialEq, Eq, Structural)]
pub enum PanasonicAcModel {
    /// DKE model series
    Dke,
    /// JKE model series
    Jke,
    /// LKE model series
    Lke,
    /// NKE model series
    Nke,
    /// CKP model series
    Ckp,
    /// RKR model series
    Rkr,
    /// Unknown model
    Unknown,
}

impl PanasonicAcModel {
    /// The display name of the model.
    pub open spec fn label(self) -> Seq<char> {
        match self {
            PanasonicAcModel::Dke => "DKE"@,
            PanasonicAcModel::Jke => "JKE"@,
            PanasonicAcModel::Lke => "LKE"@,
            PanasonicAcModel::Nke => "NKE"@,
            PanasonicAcModel::Ckp => "CKP"@,
            PanasonicAcModel::Rkr => "RKR"@,
            PanasonicAcModel::Unknown => "Unknown"@,
        }
    }

    /// Display name of the model ("DKE", "JKE", "LKE", "NKE", "CKP", "RKR" or "Unknown").
    pub fn to_string(&self) -> (r: String)
        ensures
            r@ == self.label(),
    {
        match self {
            PanasonicAcModel::Dke => String::from_str("DKE"),
            PanasonicAcModel::Jke => String::from_str("JKE"),
            PanasonicAcModel::Lke => String::from_str("LKE"),
            PanasonicAcModel::Nke => String::from_str("NKE"),
            PanasonicAcModel::Ckp => String::from_str("CKP"),
            PanasonicAcModel::Rkr => String::from_str("RKR"),
            PanasonicAcModel::Unknown => String::from_str("Unknown"),
        }
    }
}


/// Whether an IR sender accepts every call: any data, frequency and repeat count.
pub open spec fn sender_total<F: Fn(&[u8], u32, u16) -> Result<()>>(f: F) -> bool {
    forall|data: &[u8], freq: u32, repeat: u16| call_requires(f, (data, freq, repeat))
}

/// Function signature for IR sender callback: a boxed sender, for a device
/// whose sender type is fixed (`PanasonicAc<IrSendFn>`).
pub type IrSendFn = Box<dyn Fn(&[u8], u32, u16) -> Result<()>>;

/// Represents a Panasonic AC device
pub struct PanasonicAc<F: Fn(&[u8], u32, u16) -> Result<()>> {
    /// Internal state
    state: PanasonicAcState,
    /// Function to send IR signals
    ir_send: F,
}

impl<F: Fn(&[u8], u32, u16) -> Result<()>> View for PanasonicAc<F> {
    type V = AcStateView;

    closed spec fn view(&self) -> AcStateView {
        self.state@
    }
}

/// The frame of a device always holds 27 bytes.
pub broadcast proof fn lemma_device_frame_len<F: Fn(&[u8], u32, u16) -> Result<()>>(
    ac: PanasonicAc<F>,
)
    ensures
        #[trigger] ac@.frame.len() == PANASONIC_AC_STATE_LENGTH,
{
    lemma_frame_len(ac.state);
}

impl<F: Fn(&[u8], u32, u16) -> Result<()>> PanasonicAc<F> {
    /// The device's IR sender can always be called.
    #[verifier::type_invariant]
    closed spec fn sender_ok(self) -> bool {
        sender_total(self.ir_send)
    }

    /// The function that sends the device's IR signals.
    pub closed spec fn sender(self) -> F {
        self.ir_send
    }

    /// Create a new `PanasonicAc` instance with the known good state
    pub fn new(ir_send_fn: F) -> (r: Self)
        requires
            sender_total(ir_send_fn),
        ensures
            r@.frame == PANASONIC_KNOWN_GOOD_STATE@,
            r@.model == PanasonicAcModel::Unknown,
            r.sender() == ir_send_fn,
    {
        // Create a new instance with default state
        Self { state: PanasonicAcState::new(), ir_send: ir_send_fn }
    }

    /// Reset the state to known good values
    pub fn reset(&mut self)
        ensures
            final(self)@.frame == PANASONIC_KNOWN_GOOD_STATE@,
            final(self)@.model == PanasonicAcModel::Unknown,
            final(self).sender() == old(self).sender(),
    {
        proof {
            use_type_invariant(&*self);
        }
        self.state = PanasonicAcState::default();
    }

    /// Set the model of the AC (refused for the unknown model, which is still recorded)
    pub fn set_model(&mut self, model: PanasonicAcModel) -> (r: Result<()>)
        ensures
            final(self)@.frame == model_frame(old(self)@.frame, model),
            final(self)@.model == model,
            final(self).sender() == old(self).sender(),
            model != PanasonicAcModel::Unknown ==> r is Ok,
            model == PanasonicAcModel::Unknown ==> (r matches Err(Error::InvalidValue(msg))
                && msg@ == "Unknown model"@),
    {
        proof {
            use_type_invariant(&*self);
        }
        let mut st = self.state;
        let r = st.set_model(model);
        self.state = st;
        r
    }

    /// Get the model of the AC
    pub fn get_model(&self) -> (r: PanasonicAcModel)
        ensures
            r == self@.model,
    {
        self.state.get_model()
    }

    /// Check if the current model supports ion filter functionality
    pub fn supports_ion(&self) -> (r: bool)
        ensures
            r == supports_ion(self@.model),
    {
        self.state.model_supports_ion()
    }

    /// Check if the current model supports horizontal swing functionality
    pub fn supports_horizontal_swing(&self) -> (r: bool)
        ensures
            r == supports_swing_h(self@.model),
    {
        self.state.model_supports_horizontal_swing()
    }

    /// Set the clock time (hours capped at 23, minutes at 59)
    pub fn set_clock(&mut self, hours: u8, minutes: u8) -> (r: Result<()>)
        ensures
            r is Ok,
            final(self)@.frame == old(self)@.frame.update(
                24,
                crate::state::capped_time(hours, minutes) as u8,
            ).update(
                25,
                crate::protocol::with_bits(
                    old(self)@.frame[25],
                    0,
                    3,
                    (crate::state::capped_time(hours, minutes) >> 8u16) as u8,
                ),
            ),
            final(self)@.model == old(self)@.model,
            final(self).sender() == old(self).sender(),
    {
        proof {
            use_type_invariant(&*self);
        }
        let mut st = self.state;
        let r = st.set_clock(hours, minutes);
        self.state = st;
        r
    }

    /// Get the clock time
    pub fn get_clock(&self) -> (r: (u8, u8))
        ensures
            r == clock_of(self@.frame),
    {
        self.state.get_clock()
    }

    /// Set the On Timer (minutes rounded down to a multiple of ten)
    pub fn set_on_timer(&mut self, hours: u8, minutes: u8, enable: bool) -> (r: Result<()>)
        ensures
            r is Ok,
            final(self)@.frame == old(self)@.frame.update(
                13,
                crate::protocol::with_bit(
                    old(self)@.frame[13],
                    crate::constants::PANASONIC_AC_ON_TIMER_OFFSET,
                    enable,
                ),
            ).update(18, crate::state::timer_time(hours, minutes) as u8).update(
                19,
                crate::protocol::with_bits(
                    old(self)@.frame[19],
                    0,
                    3,
                    (crate::state::timer_time(hours, minutes) >> 8u16) as u8,
                ),
            ),
            final(self)@.model == old(self)@.model,
            final(self).sender() == old(self).sender(),
    {
        proof {
            use_type_invariant(&*self);
        }
        let mut st = self.state;
        let r = st.set_on_timer(hours, minutes, enable);
        self.state = st;
        r
    }

    /// Cancel the On Timer
    pub fn cancel_on_timer(&mut self) -> (r: Result<()>)
        ensures
            r is Ok,
            final(self)@.frame == old(self)@.frame.update(
                13,
                crate::protocol::with_bit(
                    old(self)@.frame[13],
                    crate::constants::PANASONIC_AC_ON_TIMER_OFFSET,
                    false,
                ),
            ).update(18, 0).update(19, crate::protocol::with_bits(old(self)@.frame[19], 0, 3, 0)),
            final(self)@.model == old(self)@.model,
            final(self).sender() == old(self).sender(),
    {
        proof {
            use_type_invariant(&*self);
        }
        let mut st = self.state;
        let r = st.cancel_on_timer();
        self.state = st;
        r
    }

    /// Check if the On Timer is enabled
    pub fn is_on_timer_enabled(&self) -> (r: bool)
        ensures
            r == bit_of(self@.frame[13], crate::constants::PANASONIC_AC_ON_TIMER_OFFSET),
    {
        self.state.is_on_timer_enabled()
    }

    /// Get the On Timer time
    pub fn get_on_timer(&self) -> (r: (u8, u8))
        ensures
            r == on_timer_of(self@.frame),
    {
        self.state.get_on_timer()
    }

    /// Set the Off Timer (minutes rounded down to a multiple of ten)
    pub fn set_off_timer(&mut self, hours: u8, minutes: u8, enable: bool) -> (r: Result<()>)
        ensures
            r is Ok,
            final(self)@.frame == old(self)@.frame.update(
                13,
                crate::protocol::with_bit(
                    old(self)@.frame[13],
                    crate::constants::PANASONIC_AC_OFF_TIMER_OFFSET,
                    enable,
                ),
            ).update(
                19,
                crate::protocol::with_bits(
                    old(self)@.frame[19],
                    4,
                    4,
                    (crate::state::timer_time(hours, minutes) & 0x0F) as u8,
                ),
            ).update(
                20,
                crate::protocol::with_bits(
                    old(self)@.frame[20],
                    0,
                    7,
                    (crate::state::timer_time(hours, minutes) >> 4u16) as u8,
                ),
            ),
            final(self)@.model == old(self)@.model,
            final(self).sender() == old(self).sender(),
    {
        proof {
            use_type_invariant(&*self);
        }
        let mut st = self.state;
        let r = st.set_off_timer(hours, minutes, enable);
        self.state = st;
        r
    }

    /// Cancel the Off Timer
    pub fn cancel_off_timer(&mut self) -> (r: Result<()>)
        ensures
            r is Ok,
            final(self)@.frame == old(self)@.frame.update(
                13,
                crate::protocol::with_bit(
                    old(self)@.frame[13],
                    crate::constants::PANASONIC_AC_OFF_TIMER_OFFSET,
                    false,
                ),
            ).update(19, crate::protocol::with_bits(old(self)@.frame[19], 4, 4, 0)).update(
                20,
                crate::protocol::with_bits(old(self)@.frame[20], 0, 7, 0),
            ),
            final(self)@.model == old(self)@.model,
            final(self).sender() == old(self).sender(),
    {
        proof {
            use_type_invariant(&*self);
        }
        let mut st = self.state;
        let r = st.cancel_off_timer();
        self.state = st;
        r
    }

    /// Check if the Off Timer is enabled
    pub fn is_off_timer_enabled(&self) -> (r: bool)
        ensures
            r == bit_of(self@.frame[13], crate::constants::PANASONIC_AC_OFF_TIMER_OFFSET),
    {
        self.state.is_off_timer_enabled()
    }

    /// Get the Off Timer time
    pub fn get_off_timer(&self) -> (r: (u8, u8))
        ensures
            r == off_timer_of(self@.frame),
    {
        self.state.get_off_timer()
    }

    /// The one-line description of the device's state, as its `Display` form
    /// shows it.
    pub fn to_string(&self) -> (r: String)
        ensures
            r@ == crate::state::state_description(self@.frame, self@.model),
    {
        self.state.to_string()
    }
}

impl<F: Fn(&[u8], u32, u16) -> Result<()>> Device for PanasonicAc<F> {
    fn set_power(&mut self, on: bool) -> (r: Result<()>)
        ensures
            r is Ok,
            final(self)@.frame == with_power(old(self)@.frame, on),
            final(self)@.model == old(self)@.model,
            final(self).sender() == old(self).sender(),
    {
        proof {
            use_type_invariant(&*self);
        }
        let mut st = self.state;
        let r = st.set_power(on);
        self.state = st;
        r
    }

    fn get_power(&self) -> (r: bool)
        ensures
            r == power_of(self@.frame),
    {
        self.state.get_power()
    }

    fn turn_on(&mut self) -> (r: Result<()>)
        ensures
            r is Ok,
            final(self)@.frame == with_power(old(self)@.frame, true),
            final(self)@.model == old(self)@.model,
            final(self).sender() == old(self).sender(),
    {
        proof {
            use_type_invariant(&*self);
        }
        let mut st = self.state;
        let r = st.set_power(true);
        self.state = st;
        r
    }

    fn turn_off(&mut self) -> (r: Result<()>)
        ensures
            r is Ok,
            final(self)@.frame == with_power(old(self)@.frame, false),
            final(self)@.model == old(self)@.model,
            final(self).sender() == old(self).sender(),
    {
        proof {
            use_type_invariant(&*self);
        }
        let mut st = self.state;
        let r = st.set_power(false);
        self.state = st;
        r
    }

    /// Sends the state bytes, with their checksum fixed, at the Panasonic
    /// carrier frequency and no repeat; the result is what the sender returns.
    fn send(&self) -> (r: Result<()>)
        ensures
            exists|data: &[u8]|
                data@ == sent_frame(self@.frame) && #[trigger] call_ensures(
                    self.sender(),
                    (data, PANASONIC_FREQ, 0u16),
                    r,
                ),
    {
        proof {
            use_type_invariant(self);
        }
        // Get a copy of the state buffer with a fixed checksum
        let state = self.state.to_vec();
        let data = state.as_slice();
        // Send the IR signal
        let r = (self.ir_send)(data, PANASONIC_FREQ, 0);
        assert(call_ensures(self.sender(), (data, PANASONIC_FREQ, 0u16), r));
        r
    }

    fn get_raw(&self) -> (r: Vec<u8>)
        ensures
            r@ == sent_frame(self@.frame),
    {
        self.state.to_vec()
    }

    fn set_raw(&mut self, data: &[u8]) -> (r: Result<()>)
        ensures
            data@.len() != PANASONIC_AC_STATE_LENGTH ==> (r matches Err(Error::InvalidData(msg))
                && msg@ == "Expected "@ + decimal(PANASONIC_AC_STATE_LENGTH as nat) + " bytes, got "@
                + decimal(data@.len())),
            data@.len() == PANASONIC_AC_STATE_LENGTH && !crate::encoder::checksum_valid(
                data@,
                PANASONIC_AC_STATE_LENGTH as int,
            ) ==> r matches Err(Error::InvalidChecksum),
            !(data@.len() == PANASONIC_AC_STATE_LENGTH && crate::encoder::checksum_valid(
                data@,
                PANASONIC_AC_STATE_LENGTH as int,
            )) ==> final(self)@ == old(self)@,
            data@.len() == PANASONIC_AC_STATE_LENGTH && crate::encoder::checksum_valid(
                data@,
                PANASONIC_AC_STATE_LENGTH as int,
            ) ==> r is Ok && final(self)@.model == detect_model_of(data@) && final(self)@.frame
                == received_frame(data@),
            final(self).sender() == old(self).sender(),
    {
        proof {
            use_type_invariant(&*self);
        }
        let mut st = self.state;
        let r = st.from_raw_data(data);
        self.state = st;
        r
    }
}


impl<F: Fn(&[u8], u32, u16) -> Result<()>> AcDevice for PanasonicAc<F> {
    fn set_mode(&mut self, mode: AcMode) -> (r: Result<()>)
        ensures
            r is Ok,
            final(self)@.frame == with_mode(old(self)@.frame, mode),
            final(self)@.model == old(self)@.model,
            final(self).sender() == old(self).sender(),
    {
        proof {
            use_type_invariant(&*self);
        }
        let mut st = self.state;
        let r = st.set_mode(mode);
        self.state = st;
        r
    }

    fn get_mode(&self) -> (r: Result<AcMode>)
        ensures
            AcMode::from_code(mode_field(self@.frame)) matches Some(m) ==> r == Ok::<AcMode, Error>(m),
            AcMode::from_code(mode_field(self@.frame)) is None ==> (r matches Err(
                Error::InvalidValue(msg),
            ) && msg@ == "Invalid mode: "@ + decimal(mode_field(self@.frame) as nat)),
    {
        self.state.get_mode()
    }

    fn set_temp(&mut self, celsius: u8) -> (r: Result<()>)
        ensures
            r is Ok,
            final(self)@.frame == with_temp(old(self)@.frame, celsius),
            final(self)@.model == old(self)@.model,
            final(self).sender() == old(self).sender(),
    {
        proof {
            use_type_invariant(&*self);
        }
        let mut st = self.state;
        let r = st.set_temp(celsius);
        self.state = st;
        r
    }

    fn get_temp(&self) -> (r: u8)
        ensures
            r == self@.frame[14],
    {
        self.state.get_temp()
    }

    fn set_fan(&mut self, speed: FanSpeed) -> (r: Result<()>)
        ensures
            r is Ok,
            final(self)@.frame == with_fan(old(self)@.frame, speed),
            final(self)@.model == old(self)@.model,
            final(self).sender() == old(self).sender(),
    {
        proof {
            use_type_invariant(&*self);
        }
        let mut st = self.state;
        let r = st.set_fan(speed);
        self.state = st;
        r
    }

    fn get_fan(&self) -> (r: Result<FanSpeed>)
        ensures
            fan_of(self@.frame) matches Some(f) ==> r == Ok::<FanSpeed, Error>(f),
            fan_of(self@.frame) is None ==> (r matches Err(Error::InvalidValue(msg)) && msg@
                == "Invalid fan value after adjustment: "@ + decimal(
                vstd::wrapping::u8_specs::wrapping_sub(
                    crate::state::fan_field(self@.frame),
                    crate::constants::PANASONIC_AC_FAN_DELTA,
                ) as nat,
            ) + " (original: "@ + decimal(crate::state::fan_field(self@.frame) as nat) + ")"@),
    {
        self.state.get_fan()
    }

    fn set_swing_v(&mut self, position: SwingV) -> (r: Result<()>)
        ensures
            r is Ok,
            final(self)@.frame == with_swing_v(old(self)@.frame, position),
            final(self)@.model == old(self)@.model,
            final(self).sender() == old(self).sender(),
    {
        proof {
            use_type_invariant(&*self);
        }
        let mut st = self.state;
        let r = st.set_swing_v(position);
        self.state = st;
        r
    }

    fn get_swing_v(&self) -> (r: Result<SwingV>)
        ensures
            SwingV::from_code(swing_v_field(self@.frame)) matches Some(x) ==> r == Ok::<SwingV, Error>(x),
            SwingV::from_code(swing_v_field(self@.frame)) is None ==> (r matches Err(
                Error::InvalidValue(msg),
            ) && msg@ == "Invalid vertical swing: "@ + decimal(swing_v_field(self@.frame) as nat)),
    {
        self.state.get_swing_v()
    }

    fn set_swing_h(&mut self, position: SwingH) -> (r: Result<()>)
        ensures
            with_swing_h(old(self)@.frame, old(self)@.model, position) matches Some(b) ==> r is Ok
                && final(self)@.frame == b,
            with_swing_h(old(self)@.frame, old(self)@.model, position) is None ==> (r matches Err(
                Error::UnsupportedFeature { feature, model: Some(m) },
            ) && feature@ == "Horizontal swing"@ && m@ == old(self)@.model.label()
                && final(self)@.frame == old(self)@.frame),
            final(self)@.model == old(self)@.model,
            final(self).sender() == old(self).sender(),
    {
        proof {
            use_type_invariant(&*self);
        }
        let mut st = self.state;
        let r = st.set_swing_h(position);
        self.state = st;
        r
    }

    fn get_swing_h(&self) -> (r: Result<SwingH>)
        ensures
            r == Ok::<SwingH, Error>(swing_h_of(self@.frame, self@.model)),
    {
        self.state.get_swing_h()
    }

    fn set_quiet(&mut self, on: bool) -> (r: Result<()>)
        ensures
            r is Ok,
            final(self)@.frame == with_quiet(old(self)@.frame, old(self)@.model, on),
            final(self)@.model == old(self)@.model,
            final(self).sender() == old(self).sender(),
    {
        proof {
            use_type_invariant(&*self);
        }
        let mut st = self.state;
        let r = st.set_quiet(on);
        self.state = st;
        r
    }

    fn get_quiet(&self) -> (r: bool)
        ensures
            r == bit_of(self@.frame[21], crate::state::quiet_offset(self@.model)),
    {
        self.state.get_quiet()
    }

    fn set_powerful(&mut self, on: bool) -> (r: Result<()>)
        ensures
            r is Ok,
            final(self)@.frame == with_powerful(old(self)@.frame, old(self)@.model, on),
            final(self)@.model == old(self)@.model,
            final(self).sender() == old(self).sender(),
    {
        proof {
            use_type_invariant(&*self);
        }
        let mut st = self.state;
        let r = st.set_powerful(on);
        self.state = st;
        r
    }

    fn get_powerful(&self) -> (r: bool)
        ensures
            r == bit_of(self@.frame[21], crate::state::powerful_offset(self@.model)),
    {
        self.state.get_powerful()
    }

    fn set_ion(&mut self, on: bool) -> (r: Result<()>)
        ensures
            with_ion(old(self)@.frame, old(self)@.model, on) matches Some(b) ==> r is Ok
                && final(self)@.frame == b,
            with_ion(old(self)@.frame, old(self)@.model, on) is None ==> (r matches Err(
                Error::UnsupportedFeature { feature, model: Some(m) },
            ) && feature@ == "Ion filter"@ && m@ == old(self)@.model.label() && final(self)@.frame
                == old(self)@.frame),
            final(self)@.model == old(self)@.model,
            final(self).sender() == old(self).sender(),
    {
        proof {
            use_type_invariant(&*self);
        }
        let mut st = self.state;
        let r = st.set_ion(on);
        self.state = st;
        r
    }

    fn get_ion(&self) -> (r: bool)
        ensures
            r == (supports_ion(self@.model) && bit_of(self@.frame[22], 0)),
    {
        self.state.get_ion()
    }
}


/// Changes to apply to a PanasonicAc instance
#[derive(Debug, Clone, Copy)]
pub struct PanasonicAcChanges {
    /// Power state change (on/off)
    pub power: Option<bool>,
    /// Operating mode change
    pub mode: Option<AcMode>,
    /// Temperature change in Celsius
    pub temp: Option<u8>,
    /// Fan speed change
    pub fan: Option<FanSpeed>,
    /// Vertical swing position change
    pub swing_v: Option<SwingV>,
    /// Horizontal swing position change
    pub swing_h: Option<SwingH>,
    /// Quiet mode change
    pub quiet: Option<bool>,
    /// Powerful mode change
    pub powerful: Option<bool>,
    /// Ion filter change
    pub ion: Option<bool>,
}

/// A set of changes that changes nothing.
pub open spec fn no_changes() -> PanasonicAcChanges {
    PanasonicAcChanges {
        power: None,
        mode: None,
        temp: None,
        fan: None,
        swing_v: None,
        swing_h: None,
        quiet: None,
        powerful: None,
        ion: None,
    }
}

impl Default for PanasonicAcChanges {
    fn default() -> (r: Self)
        ensures
            r == no_changes(),
    {
        PanasonicAcChanges {
            power: None,
            mode: None,
            temp: None,
            fan: None,
            swing_v: None,
            swing_h: None,
            quiet: None,
            powerful: None,
            ion: None,
        }
    }
}

impl PanasonicAcChanges {
    /// Create a new empty changes set
    pub fn new() -> (r: Self)
        ensures
            r == no_changes(),
    {
        Self::default()
    }

    /// Create a builder for changes
    pub fn builder() -> (r: PanasonicAcChangesBuilder)
        ensures
            r@ == no_changes(),
    {
        PanasonicAcChangesBuilder::new()
    }

    /// Check if there are any changes
    pub fn has_changes(&self) -> (r: bool)
        ensures
            r == (self.power is Some || self.mode is Some || self.temp is Some || self.fan is Some
                || self.swing_v is Some || self.swing_h is Some || self.quiet is Some
                || self.powerful is Some || self.ion is Some),
    {
        self.power.is_some() || self.mode.is_some() || self.temp.is_some() || self.fan.is_some()
            || self.swing_v.is_some() || self.swing_h.is_some() || self.quiet.is_some()
            || self.powerful.is_some() || self.ion.is_some()
    }
}

/// Builder for creating PanasonicAcChanges
#[derive(Debug)]
pub struct PanasonicAcChangesBuilder {
    changes: PanasonicAcChanges,
}

impl View for PanasonicAcChangesBuilder {
    type V = PanasonicAcChanges;

    closed spec fn view(&self) -> PanasonicAcChanges {
        self.changes
    }
}

impl Default for PanasonicAcChangesBuilder {
    fn default() -> (r: Self)
        ensures
            r@ == no_changes(),
    {
        PanasonicAcChangesBuilder { changes: PanasonicAcChanges::default() }
    }
}

impl PanasonicAcChangesBuilder {
    /// Create a new builder
    pub fn new() -> (r: Self)
        ensures
            r@ == no_changes(),
    {
        Self::default()
    }

    /// Set power state change
    pub fn power(self, on: bool) -> (r: Self)
        ensures
            r@ == (PanasonicAcChanges { power: Some(on), ..self@ }),
    {
        let mut b = self;
        b.changes.power = Some(on);
        b
    }

    /// Set mode change
    pub fn mode(self, mode: AcMode) -> (r: Self)
        ensures
            r@ == (PanasonicAcChanges { mode: Some(mode), ..self@ }),
    {
        let mut b = self;
        b.changes.mode = Some(mode);
        b
    }

    /// Set temperature change
    pub fn temp(self, temp: u8) -> (r: Self)
        ensures
            r@ == (PanasonicAcChanges { temp: Some(temp), ..self@ }),
    {
        let mut b = self;
        b.changes.temp = Some(temp);
        b
    }

    /// Set fan speed change
    pub fn fan(self, fan: FanSpeed) -> (r: Self)
        ensures
            r@ == (PanasonicAcChanges { fan: Some(fan), ..self@ }),
    {
        let mut b = self;
        b.changes.fan = Some(fan);
        b
    }

    /// Set vertical swing change
    pub fn swing_v(self, swing_v: SwingV) -> (r: Self)
        ensures
            r@ == (PanasonicAcChanges { swing_v: Some(swing_v), ..self@ }),
    {
        let mut b = self;
        b.changes.swing_v = Some(swing_v);
        b
    }

    /// Set horizontal swing change
    pub fn swing_h(self, swing_h: SwingH) -> (r: Self)
        ensures
            r@ == (PanasonicAcChanges { swing_h: Some(swing_h), ..self@ }),
    {
        let mut b = self;
        b.changes.swing_h = Some(swing_h);
        b
    }

    /// Set quiet mode change
    pub fn quiet(self, on: bool) -> (r: Self)
        ensures
            r@ == (PanasonicAcChanges { quiet: Some(on), ..self@ }),
    {
        let mut b = self;
        b.changes.quiet = Some(on);
        b
    }

    /// Set powerful mode change
    pub fn powerful(self, on: bool) -> (r: Self)
        ensures
            r@ == (PanasonicAcChanges { powerful: Some(on), ..self@ }),
    {
        let mut b = self;
        b.changes.powerful = Some(on);
        b
    }

    /// Set ion filter change
    pub fn ion(self, on: bool) -> (r: Self)
        ensures
            r@ == (PanasonicAcChanges { ion: Some(on), ..self@ }),
    {
        let mut b = self;
        b.changes.ion = Some(on);
        b
    }

    /// Build the changes
    pub fn build(self) -> (r: PanasonicAcChanges)
        ensures
            r == self@,
    {
        self.changes
    }
}

/// How a set of changes ended: all applied, refused before any change for a
/// temperature out of range, or stopped at the horizontal swing or at the ion
/// filter, which the model refuses.
pub enum ChangeOutcome {
    Applied,
    TempInvalid,
    SwingHRefused,
    IonRefused,
}

/// Whether a temperature lies in the range the AC accepts (16 to 30 °C).
pub open spec fn temp_in_range(t: u8) -> bool {
    PANASONIC_AC_MIN_TEMP <= t <= PANASONIC_AC_MAX_TEMP
}

/// Whether a set of changes asks for a temperature out of range.
pub open spec fn temp_change_invalid(c: PanasonicAcChanges) -> bool {
    c.temp matches Some(t) && !temp_in_range(t)
}

/// The message of the error for a temperature out of range.
pub open spec fn temp_error_text(t: u8) -> Seq<char> {
    "Invalid temperature: "@ + decimal(t as nat) + " (valid range: 16-30)"@
}

/// The changes to power, mode, temperature, fan and vertical swing, each
/// written only where the state reports a different value.
pub open spec fn changes_head(b: Seq<u8>, c: PanasonicAcChanges) -> Seq<u8> {
    let b1 = match c.power {
        Some(p) => if power_of(b) != p { with_power(b, p) } else { b },
        None => b,
    };
    let b2 = match c.mode {
        Some(x) => if AcMode::from_code(mode_field(b1)) != Some(x) { with_mode(b1, x) } else { b1 },
        None => b1,
    };
    let b3 = match c.temp {
        Some(t) => if b2[14] != t { with_temp(b2, t) } else { b2 },
        None => b2,
    };
    let b4 = match c.fan {
        Some(f) => if fan_of(b3) != Some(f) { with_fan(b3, f) } else { b3 },
        None => b3,
    };
    match c.swing_v {
        Some(v) => if SwingV::from_code(swing_v_field(b4)) != Some(v) {
            with_swing_v(b4, v)
        } else {
            b4
        },
        None => b4,
    }
}

/// The changes to quiet mode, powerful mode and the ion filter, each written
/// only where the state reports a different value.
pub open spec fn changes_tail(b: Seq<u8>, m: PanasonicAcModel, c: PanasonicAcChanges) -> (
    Seq<u8>,
    ChangeOutcome,
) {
    let b1 = match c.quiet {
        Some(q) => if bit_of(b[21], crate::state::quiet_offset(m)) != q {
            with_quiet(b, m, q)
        } else {
            b
        },
        None => b,
    };
    let b2 = match c.powerful {
        Some(p) => if bit_of(b1[21], crate::state::powerful_offset(m)) != p {
            with_powerful(b1, m, p)
        } else {
            b1
        },
        None => b1,
    };
    match c.ion {
        Some(i) => if (supports_ion(m) && bit_of(b2[22], 0)) != i {
            match with_ion(b2, m, i) {
                Some(b3) => (b3, ChangeOutcome::Applied),
                None => (b2, ChangeOutcome::IonRefused),
            }
        } else {
            (b2, ChangeOutcome::Applied)
        },
        None => (b2, ChangeOutcome::Applied),
    }
}

/// The frame that `apply_changes` leaves for a state with frame `b` and model
/// `m`, and how it ended: a temperature out of range refuses the whole set;
/// otherwise every change is written in turn where the state reports a
/// different value, stopping at the first one that the model refuses.
pub open spec fn changes_applied(b: Seq<u8>, m: PanasonicAcModel, c: PanasonicAcChanges) -> (
    Seq<u8>,
    ChangeOutcome,
) {
    if temp_change_invalid(c) {
        (b, ChangeOutcome::TempInvalid)
    } else {
        changes_written(b, m, c)
    }
}

/// The frame that a set of changes with a valid temperature leaves, and how it
/// ended (see `changes_applied`).
pub open spec fn changes_written(b: Seq<u8>, m: PanasonicAcModel, c: PanasonicAcChanges) -> (
    Seq<u8>,
    ChangeOutcome,
) {
    let b5 = changes_head(b, c);
    match c.swing_h {
        Some(h) => if swing_h_of(b5, m) != h {
            match with_swing_h(b5, m, h) {
                Some(b6) => changes_tail(b6, m, c),
                None => (b5, ChangeOutcome::SwingHRefused),
            }
        } else {
            changes_tail(b5, m, c)
        },
        None => changes_tail(b5, m, c),
    }
}

/// Whether two frames differ in some byte.
fn frames_differ(a: &[u8; PANASONIC_AC_STATE_LENGTH], b: &[u8; PANASONIC_AC_STATE_LENGTH]) -> (r:
    bool)
    ensures
        r == (a@ != b@),
{
    let mut i: usize = 0;
    while i < PANASONIC_AC_STATE_LENGTH
        invariant
            i <= PANASONIC_AC_STATE_LENGTH,
            a@.len() == PANASONIC_AC_STATE_LENGTH,
            b@.len() == PANASONIC_AC_STATE_LENGTH,
            forall|j: int| 0 <= j < i ==> a@[j] == b@[j],
        decreases PANASONIC_AC_STATE_LENGTH - i,
    {
        if a[i] != b[i] {
            return true;
        }
        i = i + 1;
    }
    assert(a@ =~= b@);
    false
}

impl<F: Fn(&[u8], u32, u16) -> Result<()>> PanasonicAc<F> {
    /// Writes the power, mode, temperature, fan and vertical swing changes
    /// that differ from what the AC reports.
    fn apply_head_changes(&mut self, changes: &PanasonicAcChanges)
        ensures
            final(self)@.frame == changes_head(old(self)@.frame, *changes),
            final(self)@.model == old(self)@.model,
            final(self).sender() == old(self).sender(),
    {
        if let Some(power) = changes.power {
            if self.get_power() != power {
                let _ = self.set_power(power);
            }
        }
        if let Some(mode) = changes.mode {
            let differs = match self.get_mode() {
                Ok(current) => current != mode,
                Err(_) => true,
            };
            if differs {
                let _ = self.set_mode(mode);
            }
        }
        if let Some(temp) = changes.temp {
            if self.get_temp() != temp {
                let _ = self.set_temp(temp);
            }
        }
        if let Some(fan) = changes.fan {
            let differs = match self.get_fan() {
                Ok(current) => current != fan,
                Err(_) => true,
            };
            if differs {
                let _ = self.set_fan(fan);
            }
        }
        if let Some(swing_v) = changes.swing_v {
            let differs = match self.get_swing_v() {
                Ok(current) => current != swing_v,
                Err(_) => true,
            };
            if differs {
                let _ = self.set_swing_v(swing_v);
            }
        }
    }

    /// Writes the quiet, powerful and ion changes that differ from what the AC
    /// reports; the ion change fails on a model without an ion filter.
    fn apply_tail_changes(&mut self, changes: &PanasonicAcChanges) -> (r: Result<()>)
        ensures
            final(self)@.frame == changes_tail(old(self)@.frame, old(self)@.model, *changes).0,
            final(self)@.model == old(self)@.model,
            final(self).sender() == old(self).sender(),
            changes_tail(old(self)@.frame, old(self)@.model, *changes).1 is Applied ==> r is Ok,
            changes_tail(old(self)@.frame, old(self)@.model, *changes).1 is IonRefused ==> (r matches Err(
                Error::UnsupportedFeature { feature, model: Some(m) },
            ) && feature@ == "Ion filter"@ && m@ == old(self)@.model.label()),
            !(changes_tail(old(self)@.frame, old(self)@.model, *changes).1 is SwingHRefused),
    {
        if let Some(quiet) = changes.quiet {
            if self.get_quiet() != quiet {
                let _ = self.set_quiet(quiet);
            }
        }
        if let Some(powerful) = changes.powerful {
            if self.get_powerful() != powerful {
                let _ = self.set_powerful(powerful);
            }
        }
        if let Some(ion) = changes.ion {
            if self.get_ion() != ion {
                self.set_ion(ion)?;
            }
        }
        Ok(())
    }

    /// Apply changes to the AC and return whether any changes were made:
    /// a temperature out of range (16 to 30 °C) fails with `InvalidValue`
    /// before anything changes; otherwise each setting that is given and
    /// differs from what the AC reports is set in turn, and a setting that the
    /// model refuses stops the update with its error.
    pub fn apply_changes(&mut self, changes: &PanasonicAcChanges) -> (r: Result<bool>)
        ensures
            final(self)@.frame == changes_applied(old(self)@.frame, old(self)@.model, *changes).0,
            final(self)@.model == old(self)@.model,
            final(self).sender() == old(self).sender(),
            changes_applied(old(self)@.frame, old(self)@.model, *changes).1 is Applied ==> r
                == Ok::<bool, Error>(final(self)@.frame != old(self)@.frame),
            changes_applied(old(self)@.frame, old(self)@.model, *changes).1 is TempInvalid ==> (r matches Err(
                Error::InvalidValue(msg),
            ) && msg@ == temp_error_text(changes.temp->0)),
            changes_applied(old(self)@.frame, old(self)@.model, *changes).1 is SwingHRefused ==> (r matches Err(
                Error::UnsupportedFeature { feature, model: Some(m) },
            ) && feature@ == "Horizontal swing"@ && m@ == old(self)@.model.label()),
            changes_applied(old(self)@.frame, old(self)@.model, *changes).1 is IonRefused ==> (r matches Err(
                Error::UnsupportedFeature { feature, model: Some(m) },
            ) && feature@ == "Ion filter"@ && m@ == old(self)@.model.label()),
    {
        // Refuse a temperature out of range before changing anything
        if let Some(temp) = changes.temp {
            if temp < PANASONIC_AC_MIN_TEMP || temp > PANASONIC_AC_MAX_TEMP {
                let mut msg = prefixed_decimal("Invalid temperature: ", temp as u64);
                msg.append(" (valid range: 16-30)");
                return Err(Error::InvalidValue(msg));
            }
        }

        // Save original state to compare later
        let original: [u8; PANASONIC_AC_STATE_LENGTH] = *self.state.get_buffer();

        // Apply changes only if the corresponding field is Some
        self.apply_head_changes(changes);
        if let Some(swing_h) = changes.swing_h {
            let differs = match self.get_swing_h() {
                Ok(current) => current != swing_h,
                Err(_) => true,
            };
            if differs {
                self.set_swing_h(swing_h)?;
            }
        }
        self.apply_tail_changes(changes)?;

        // Check if any changes were made by comparing buffer contents
        let changed = frames_differ(&original, self.state.get_buffer());
        Ok(changed)
    }

    /// Apply changes and send the IR command if any changes were made
    pub fn apply_changes_and_send(&mut self, changes: &PanasonicAcChanges) -> (r: Result<bool>)
        ensures
            final(self)@.frame == changes_applied(old(self)@.frame, old(self)@.model, *changes).0,
            final(self)@.model == old(self)@.model,
            final(self).sender() == old(self).sender(),
            changes_applied(old(self)@.frame, old(self)@.model, *changes).1 is Applied ==> {
                let changed = final(self)@.frame != old(self)@.frame;
                &&& !changed ==> r == Ok::<bool, Error>(false)
                &&& changed ==> exists|data: &[u8], sent: Result<()>|
                    data@ == sent_frame(final(self)@.frame) && #[trigger] call_ensures(
                        final(self).sender(),
                        (data, PANASONIC_FREQ, 0u16),
                        sent,
                    ) && (sent is Ok ==> r == Ok::<bool, Error>(true)) && (sent matches Err(e) ==> r
                        == Err::<bool, Error>(e))
            },
            changes_applied(old(self)@.frame, old(self)@.model, *changes).1 is TempInvalid ==> (r matches Err(
                Error::InvalidValue(msg),
            ) && msg@ == temp_error_text(changes.temp->0)),
            changes_applied(old(self)@.frame, old(self)@.model, *changes).1 is SwingHRefused ==> (r matches Err(
                Error::UnsupportedFeature { feature, model: Some(m) },
            ) && feature@ == "Horizontal swing"@ && m@ == old(self)@.model.label()),
            changes_applied(old(self)@.frame, old(self)@.model, *changes).1 is IonRefused ==> (r matches Err(
                Error::UnsupportedFeature { feature, model: Some(m) },
            ) && feature@ == "Ion filter"@ && m@ == old(self)@.model.label()),
    {
        let changed = self.apply_changes(changes)?;
        if changed {
            self.send()?;
        }
        Ok(changed)
    }
}


/// Builder for creating and configuring a PanasonicAc instance
#[derive(Debug)]
pub struct PanasonicAcBuilder {
    /// The model of the AC unit
    model: Option<PanasonicAcModel>,
    /// Power state (on/off)
    power: Option<bool>,
    /// Operating mode
    mode: Option<AcMode>,
    /// Temperature in Celsius
    temp: Option<u8>,
    /// Fan speed
    fan: Option<FanSpeed>,
    /// Vertical swing position
    swing_v: Option<SwingV>,
    /// Horizontal swing position
    swing_h: Option<SwingH>,
    /// Quiet mode
    quiet: Option<bool>,
    /// Powerful mode
    powerful: Option<bool>,
    /// Ion filter (only available on some models)
    ion: Option<bool>,
}

/// What a builder holds: the model, and the settings as a set of changes.
pub struct BuilderSettings {
    pub model: Option<PanasonicAcModel>,
    pub settings: PanasonicAcChanges,
}

impl View for PanasonicAcBuilder {
    type V = BuilderSettings;

    closed spec fn view(&self) -> BuilderSettings {
        BuilderSettings {
            model: self.model,
            settings: PanasonicAcChanges {
                power: self.power,
                mode: self.mode,
                temp: self.temp,
                fan: self.fan,
                swing_v: self.swing_v,
                swing_h: self.swing_h,
                quiet: self.quiet,
                powerful: self.powerful,
                ion: self.ion,
            },
        }
    }
}

/// How a build ended: built, or refused at the model, the horizontal swing or
/// the ion filter.
pub enum BuildOutcome {
    Built,
    UnknownModel,
    SwingHRefused,
    IonRefused,
}

/// The power, mode, temperature, fan and vertical swing settings written in turn.
pub open spec fn settings_head(b: Seq<u8>, c: PanasonicAcChanges) -> Seq<u8> {
    let b1 = match c.power {
        Some(p) => with_power(b, p),
        None => b,
    };
    let b2 = match c.mode {
        Some(x) => with_mode(b1, x),
        None => b1,
    };
    let b3 = match c.temp {
        Some(t) => with_temp(b2, t),
        None => b2,
    };
    let b4 = match c.fan {
        Some(f) => with_fan(b3, f),
        None => b3,
    };
    match c.swing_v {
        Some(v) => with_swing_v(b4, v),
        None => b4,
    }
}

/// The quiet, powerful and ion settings written in turn; the ion filter is
/// refused by models without one.
pub open spec fn settings_tail(b: Seq<u8>, m: PanasonicAcModel, c: PanasonicAcChanges) -> (
    Seq<u8>,
    bool,
) {
    let b1 = match c.quiet {
        Some(q) => with_quiet(b, m, q),
        None => b,
    };
    let b2 = match c.powerful {
        Some(p) => with_powerful(b1, m, p),
        None => b1,
    };
    match c.ion {
        Some(i) => match with_ion(b2, m, i) {
            Some(b3) => (b3, true),
            None => (b2, false),
        },
        None => (b2, true),
    }
}

/// The frame and model that `build` produces from the builder's settings,
/// and how the build ended: starting from the known good state, the model is
/// set (the unknown model is refused), then every given setting in turn.
pub open spec fn built_state(s: BuilderSettings) -> (Seq<u8>, PanasonicAcModel, BuildOutcome) {
    let m = match s.model {
        Some(md) => md,
        None => PanasonicAcModel::Unknown,
    };
    let b0 = match s.model {
        Some(md) => model_frame(PANASONIC_KNOWN_GOOD_STATE@, md),
        None => PANASONIC_KNOWN_GOOD_STATE@,
    };
    if s.model == Some(PanasonicAcModel::Unknown) {
        (b0, m, BuildOutcome::UnknownModel)
    } else {
        let b5 = settings_head(b0, s.settings);
        match s.settings.swing_h {
            Some(h) => match with_swing_h(b5, m, h) {
                Some(b6) => {
                    let (f, ok) = settings_tail(b6, m, s.settings);
                    (f, m, if ok { BuildOutcome::Built } else { BuildOutcome::IonRefused })
                },
                None => (b5, m, BuildOutcome::SwingHRefused),
            },
            None => {
                let (f, ok) = settings_tail(b5, m, s.settings);
                (f, m, if ok { BuildOutcome::Built } else { BuildOutcome::IonRefused })
            },
        }
    }
}

/// What `build` returns for the builder's settings and the sender.
pub open spec fn build_result<F: Fn(&[u8], u32, u16) -> Result<()>>(
    s: BuilderSettings,
    ir_send_fn: F,
    r: Result<PanasonicAc<F>>,
) -> bool {
    match built_state(s).2 {
        BuildOutcome::Built => r matches Ok(ac) && ac@.frame == built_state(s).0 && ac@.model
            == built_state(s).1 && ac.sender() == ir_send_fn,
        BuildOutcome::UnknownModel => r matches Err(Error::InvalidValue(msg)) && msg@
            == "Unknown model"@,
        BuildOutcome::SwingHRefused => r matches Err(Error::UnsupportedFeature { feature, model: Some(m) })
            && feature@ == "Horizontal swing"@ && m@ == built_state(s).1.label(),
        BuildOutcome::IonRefused => r matches Err(Error::UnsupportedFeature { feature, model: Some(m) })
            && feature@ == "Ion filter"@ && m@ == built_state(s).1.label(),
    }
}

impl Default for PanasonicAcBuilder {
    fn default() -> (r: Self)
        ensures
            r@ == (BuilderSettings { model: None, settings: no_changes() }),
    {
        PanasonicAcBuilder {
            model: None,
            power: None,
            mode: None,
            temp: None,
            fan: None,
            swing_v: None,
            swing_h: None,
            quiet: None,
            powerful: None,
            ion: None,
        }
    }
}

impl PanasonicAcBuilder {
    /// Create a new builder with default values
    pub fn new() -> (r: Self)
        ensures
            r@ == (BuilderSettings { model: None, settings: no_changes() }),
    {
        Self::default()
    }

    /// Set the AC model
    pub fn model(self, model: PanasonicAcModel) -> (r: Self)
        ensures
            r@ == (BuilderSettings { model: Some(model), ..self@ }),
    {
        let mut b = self;
        b.model = Some(model);
        b
    }

    /// Set the power state
    pub fn power(self, on: bool) -> (r: Self)
        ensures
            r@ == (BuilderSettings {
                settings: PanasonicAcChanges { power: Some(on), ..self@.settings },
                ..self@
            }),
    {
        let mut b = self;
        b.power = Some(on);
        b
    }

    /// Set the operating mode
    pub fn mode(self, mode: AcMode) -> (r: Self)
        ensures
            r@ == (BuilderSettings {
                settings: PanasonicAcChanges { mode: Some(mode), ..self@.settings },
                ..self@
            }),
    {
        let mut b = self;
        b.mode = Some(mode);
        b
    }

    /// Set the temperature in Celsius
    pub fn temp(self, celsius: u8) -> (r: Self)
        ensures
            r@ == (BuilderSettings {
                settings: PanasonicAcChanges { temp: Some(celsius), ..self@.settings },
                ..self@
            }),
    {
        let mut b = self;
        b.temp = Some(celsius);
        b
    }

    /// Set the fan speed
    pub fn fan(self, speed: FanSpeed) -> (r: Self)
        ensures
            r@ == (BuilderSettings {
                settings: PanasonicAcChanges { fan: Some(speed), ..self@.settings },
                ..self@
            }),
    {
        let mut b = self;
        b.fan = Some(speed);
        b
    }

    /// Set the vertical swing position
    pub fn swing_v(self, position: SwingV) -> (r: Self)
        ensures
            r@ == (BuilderSettings {
                settings: PanasonicAcChanges { swing_v: Some(position), ..self@.settings },
                ..self@
            }),
    {
        let mut b = self;
        b.swing_v = Some(position);
        b
    }

    /// Set the horizontal swing position
    pub fn swing_h(self, position: SwingH) -> (r: Self)
        ensures
            r@ == (BuilderSettings {
                settings: PanasonicAcChanges { swing_h: Some(position), ..self@.settings },
                ..self@
            }),
    {
        let mut b = self;
        b.swing_h = Some(position);
        b
    }

    /// Set quiet mode
    pub fn quiet(self, on: bool) -> (r: Self)
        ensures
            r@ == (BuilderSettings {
                settings: PanasonicAcChanges { quiet: Some(on), ..self@.settings },
                ..self@
            }),
    {
        let mut b = self;
        b.quiet = Some(on);
        b
    }

    /// Set powerful mode
    pub fn powerful(self, on: bool) -> (r: Self)
        ensures
            r@ == (BuilderSettings {
                settings: PanasonicAcChanges { powerful: Some(on), ..self@.settings },
                ..self@
            }),
    {
        let mut b = self;
        b.powerful = Some(on);
        b
    }

    /// Set ion filter mode
    pub fn ion(self, on: bool) -> (r: Self)
        ensures
            r@ == (BuilderSettings {
                settings: PanasonicAcChanges { ion: Some(on), ..self@.settings },
                ..self@
            }),
    {
        let mut b = self;
        b.ion = Some(on);
        b
    }

    /// Build the PanasonicAc instance with the configured settings
    pub fn build<F: Fn(&[u8], u32, u16) -> Result<()>>(self, ir_send_fn: F) -> (r: Result<
        PanasonicAc<F>,
    >)
        requires
            sender_total(ir_send_fn),
        ensures
            build_result(self@, ir_send_fn, r),
    {
        let mut ac = PanasonicAc::new(ir_send_fn);

        // Apply settings if provided
        if let Some(model) = self.model {
            ac.set_model(model)?;
        }
        ac.apply_head_settings(&self);
        if let Some(swing_h) = self.swing_h {
            ac.set_swing_h(swing_h)?;
        }
        ac.apply_tail_settings(&self)?;
        Ok(ac)
    }

    /// Build the PanasonicAc instance and turn it on with the configured settings
    pub fn build_and_turn_on<F: Fn(&[u8], u32, u16) -> Result<()>>(self, ir_send_fn: F) -> (r:
        Result<PanasonicAc<F>>)
        requires
            sender_total(ir_send_fn),
        ensures
            build_result(
                BuilderSettings {
                    settings: PanasonicAcChanges { power: Some(true), ..self@.settings },
                    ..self@
                },
                ir_send_fn,
                r,
            ),
    {
        let mut builder = self;
        builder.power = Some(true);
        builder.build(ir_send_fn)
    }
}

impl PanasonicAc<fn(&[u8], u32, u16) -> Result<()>> {
    /// Create a new builder for configuring a `PanasonicAc` instance (the
    /// builder's `build` then takes the send function, of any type)
    pub fn builder() -> (r: PanasonicAcBuilder)
        ensures
            r@ == (BuilderSettings { model: None, settings: no_changes() }),
    {
        PanasonicAcBuilder::new()
    }
}

impl<F: Fn(&[u8], u32, u16) -> Result<()>> PanasonicAc<F> {

    /// Writes the builder's power, mode, temperature, fan and vertical swing settings.
    fn apply_head_settings(&mut self, builder: &PanasonicAcBuilder)
        ensures
            final(self)@.frame == settings_head(old(self)@.frame, builder@.settings),
            final(self)@.model == old(self)@.model,
            final(self).sender() == old(self).sender(),
    {
        if let Some(power) = builder.power {
            let _ = self.set_power(power);
        }
        if let Some(mode) = builder.mode {
            let _ = self.set_mode(mode);
        }
        if let Some(temp) = builder.temp {
            let _ = self.set_temp(temp);
        }
        if let Some(fan) = builder.fan {
            let _ = self.set_fan(fan);
        }
        if let Some(swing_v) = builder.swing_v {
            let _ = self.set_swing_v(swing_v);
        }
    }

    /// Writes the builder's quiet, powerful and ion settings.
    fn apply_tail_settings(&mut self, builder: &PanasonicAcBuilder) -> (r: Result<()>)
        ensures
            final(self)@.frame == settings_tail(old(self)@.frame, old(self)@.model, builder@.settings).0,
            final(self)@.model == old(self)@.model,
            final(self).sender() == old(self).sender(),
            settings_tail(old(self)@.frame, old(self)@.model, builder@.settings).1 ==> r is Ok,
            !settings_tail(old(self)@.frame, old(self)@.model, builder@.settings).1 ==> (r matches Err(
                Error::UnsupportedFeature { feature, model: Some(m) },
            ) && feature@ == "Ion filter"@ && m@ == old(self)@.model.label()),
    {
        if let Some(quiet) = builder.quiet {
            let _ = self.set_quiet(quiet);
        }
        if let Some(powerful) = builder.powerful {
            let _ = self.set_powerful(powerful);
        }
        if let Some(ion) = builder.ion {
            self.set_ion(ion)?;
        }
        Ok(())
    }
}

/// The byte-level facts behind re-applying changes: writing a field leaves the
/// other fields of its byte as they were, and writing a nibble with the value
/// it holds changes nothing.
pub(crate) proof fn lemma_field_independence(x: u8, c: u8)
    requires
        c < 16,
    ensures
        bit_of((x & 0x0F) | (c << 4u8), 0) == bit_of(x, 0),
        crate::protocol::bits_of((x & 0xF0) | c, 4, 4) == crate::protocol::bits_of(x, 4, 4),
        ((((x & 0xF0) | c) & 0xF0) | c) == (x & 0xF0) | c,
        ((((x & 0x0F) | (c << 4u8)) & 0x0F) | (c << 4u8)) == (x & 0x0F) | (c << 4u8),
{
    assert(bit_of((x & 0x0F) | (c << 4u8), 0) == bit_of(x, 0)) by (bit_vector)
        requires
            c < 16,
    ;
    assert(crate::protocol::bits_of((x & 0xF0) | c, 4, 4) == crate::protocol::bits_of(x, 4, 4))
        by (bit_vector)
        requires
            c < 16,
    ;
    assert(((((x & 0xF0) | c) & 0xF0) | c) == (x & 0xF0) | c) by (bit_vector);
    assert(((((x & 0x0F) | (c << 4u8)) & 0x0F) | (c << 4u8)) == (x & 0x0F) | (c << 4u8))
        by (bit_vector);
}

/// Writing quiet (or powerful) mode off leaves the other bit as it was, and
/// writing a bit with the value it holds changes nothing.
pub(crate) proof fn lemma_mode_bits(x: u8, q: u8, p: u8, on: bool)
    requires
        q < 8,
        p < 8,
        q != p,
    ensures
        bit_of(with_bit(x, q, on), p) == bit_of(x, p),
        bit_of(x, q) == on ==> with_bit(x, q, on) == x,
        bit_of(with_bit(x, q, on), q) == on,
{
    assert(bit_of(with_bit(x, q, on), p) == bit_of(x, p)) by (bit_vector)
        requires
            q < 8,
            p < 8,
            q != p,
    ;
    assert(bit_of(x, q) == on ==> with_bit(x, q, on) == x) by (bit_vector)
        requires
            q < 8,
    ;
    assert(bit_of(with_bit(x, q, on), q) == on) by (bit_vector)
        requires
            q < 8,
    ;
}

/// The head changes find nothing to write in `x`.
spec fn head_settled(x: Seq<u8>, c: PanasonicAcChanges) -> bool {
    &&& c.power matches Some(p) ==> power_of(x) == p
    &&& c.mode matches Some(md) ==> AcMode::from_code(mode_field(x)) == Some(md)
    &&& c.temp matches Some(t) ==> (x[14] == t || x[14] == crate::state::clamp_temp(t))
    &&& c.fan matches Some(fa) ==> fan_of(x) == Some(fa)
    &&& c.swing_v matches Some(v) ==> SwingV::from_code(swing_v_field(x)) == Some(v)
}

/// The horizontal swing change finds nothing to write in `x`.
spec fn swing_h_settled(x: Seq<u8>, m: PanasonicAcModel, c: PanasonicAcChanges) -> bool {
    c.swing_h matches Some(h) ==> (swing_h_of(x, m) == h || with_swing_h(x, m, h) == Some(x))
}

/// The tail changes find nothing to write in `x`.
spec fn tail_settled(x: Seq<u8>, m: PanasonicAcModel, c: PanasonicAcChanges) -> bool {
    &&& c.quiet matches Some(q) ==> bit_of(x[21], crate::state::quiet_offset(m)) == q
    &&& c.powerful matches Some(p) ==> bit_of(x[21], crate::state::powerful_offset(m)) == p
    &&& c.ion matches Some(i) ==> (supports_ion(m) && bit_of(x[22], 0)) == i
}

proof fn lemma_head_settles(b: Seq<u8>, c: PanasonicAcChanges)
    requires
        b.len() == PANASONIC_AC_STATE_LENGTH,
    ensures
        head_settled(changes_head(b, c), c),
        changes_head(b, c).len() == PANASONIC_AC_STATE_LENGTH,
        forall|k: int| 0 <= k < b.len() && k != 13 && k != 14 && k != 16 ==> #[trigger] changes_head(b, c)[k] == b[k],
{
    let b1 = match c.power {
        Some(p) => if power_of(b) != p { with_power(b, p) } else { b },
        None => b,
    };
    let b2 = match c.mode {
        Some(x) => if AcMode::from_code(mode_field(b1)) != Some(x) { with_mode(b1, x) } else { b1 },
        None => b1,
    };
    let b3 = match c.temp {
        Some(t) => if b2[14] != t { with_temp(b2, t) } else { b2 },
        None => b2,
    };
    let b4 = match c.fan {
        Some(f) => if fan_of(b3) != Some(f) { with_fan(b3, f) } else { b3 },
        None => b3,
    };
    let b5 = changes_head(b, c);
    if let Some(p) = c.power {
        crate::state::law_power_roundtrip(b, p);
    }
    if let Some(x) = c.mode {
        crate::state::law_mode_roundtrip(b1, x);
        lemma_field_independence(b1[13], x.code());
    }
    assert(b5[13] == b2[13]);
    assert(b5[14] == b3[14]);
    if let Some(x) = c.fan {
        crate::state::law_fan_roundtrip(b3, x);
    }
    if let Some(v) = c.swing_v {
        crate::state::law_swing_v_roundtrip(b4, v);
        lemma_field_independence(b4[16], v.code());
    }
}

proof fn lemma_head_settled_stays(x: Seq<u8>, c: PanasonicAcChanges)
    requires
        x.len() == PANASONIC_AC_STATE_LENGTH,
        head_settled(x, c),
    ensures
        changes_head(x, c) == x,
{
    if let Some(t) = c.temp {
        if x[14] != t {
            assert(with_temp(x, t) =~= x);
        }
    }
    assert(changes_head(x, c) =~= x);
}

proof fn lemma_tail_settles(b: Seq<u8>, m: PanasonicAcModel, c: PanasonicAcChanges)
    requires
        b.len() == PANASONIC_AC_STATE_LENGTH,
        changes_tail(b, m, c).1 is Applied,
        !(c.quiet == Some(true) && c.powerful == Some(true)),
    ensures
        tail_settled(changes_tail(b, m, c).0, m, c),
        changes_tail(b, m, c).0.len() == PANASONIC_AC_STATE_LENGTH,
        forall|k: int| 0 <= k < b.len() && k != 21 && k != 22 ==> #[trigger] changes_tail(b, m, c).0[k] == b[k],
{
    let qo = crate::state::quiet_offset(m);
    let po = crate::state::powerful_offset(m);
    let t1 = match c.quiet {
        Some(q) => if bit_of(b[21], qo) != q { with_quiet(b, m, q) } else { b },
        None => b,
    };
    let t2 = match c.powerful {
        Some(p) => if bit_of(t1[21], po) != p { with_powerful(t1, m, p) } else { t1 },
        None => t1,
    };
    let f = changes_tail(b, m, c).0;
    lemma_mode_bits(b[21], qo, po, false);
    lemma_mode_bits(b[21], po, qo, false);
    lemma_mode_bits(b[21], qo, po, true);
    lemma_mode_bits(with_bit(b[21], po, false), qo, po, true);
    lemma_mode_bits(t1[21], po, qo, false);
    lemma_mode_bits(t1[21], po, qo, true);
    lemma_mode_bits(with_bit(t1[21], qo, false), po, qo, true);
    lemma_mode_bits(t1[21], qo, po, false);
    lemma_mode_bits(t2[22], 0, 1, true);
    lemma_mode_bits(t2[22], 0, 1, false);
    assert(f[21] == t2[21]);
    if let Some(q) = c.quiet {
        assert(bit_of(t1[21], qo) == q);
        assert(bit_of(f[21], qo) == q);
    }
    if let Some(p) = c.powerful {
        assert(bit_of(f[21], po) == p);
    }
    if let Some(i) = c.ion {
        assert((supports_ion(m) && bit_of(f[22], 0)) == i);
    }
}

proof fn lemma_tail_settled_stays(x: Seq<u8>, m: PanasonicAcModel, c: PanasonicAcChanges)
    requires
        x.len() == PANASONIC_AC_STATE_LENGTH,
        tail_settled(x, m, c),
    ensures
        changes_tail(x, m, c).0 == x,
        changes_tail(x, m, c).1 is Applied,
{
}

/// Applying changes touches no byte past the settings: the frame keeps its
/// length and its last (checksum) byte.
proof fn lemma_changes_keep_checksum_byte(b: Seq<u8>, m: PanasonicAcModel, c: PanasonicAcChanges)
    requires
        b.len() == PANASONIC_AC_STATE_LENGTH,
    ensures
        changes_applied(b, m, c).0.len() == b.len(),
        changes_applied(b, m, c).0[26] == b[26],
{
    let h = changes_head(b, c);
    assert(h.len() == b.len() && h[26] == b[26]);
    let h2 = match c.swing_h {
        Some(p) => match with_swing_h(h, m, p) {
            Some(b6) => b6,
            None => h,
        },
        None => h,
    };
    assert(h2.len() == b.len() && h2[26] == b[26]);
    let t = changes_tail(h2, m, c).0;
    assert(t.len() == b.len() && t[26] == b[26]);
}

/// Whether changes were made shows in the raw bytes: when `apply_changes`
/// applies a set of changes, the bytes that `get_raw` gives afterwards differ
/// from those it gave before exactly when the state changed, which is when
/// `apply_changes` reports `Ok(true)`.
pub proof fn law_apply_changes_reports_raw_change(
    b: Seq<u8>,
    m: PanasonicAcModel,
    c: PanasonicAcChanges,
)
    requires
        b.len() == PANASONIC_AC_STATE_LENGTH,
    ensures
        changes_applied(b, m, c).1 is Applied ==> ((sent_frame(changes_applied(b, m, c).0)
            != sent_frame(b)) <==> (changes_applied(b, m, c).0 != b)),
{
    lemma_changes_keep_checksum_byte(b, m, c);
    let x = changes_applied(b, m, c).0;
    if x != b {
        assert(!(x =~= b));
        let i = choose|i: int| 0 <= i < x.len() && x[i] != b[i];
        assert(i != 26);
        assert(sent_frame(x)[i] == x[i]);
        assert(sent_frame(b)[i] == b[i]);
    }
}

/// Re-applying changes: when a set of changes was fully applied, applying it
/// again leaves the state as it is and reports that nothing changed. This fails
/// only for changes that turn on both quiet and powerful mode, which undo each
/// other; those are left out.
pub proof fn law_apply_changes_idempotent(b: Seq<u8>, m: PanasonicAcModel, c: PanasonicAcChanges)
    requires
        b.len() == PANASONIC_AC_STATE_LENGTH,
        changes_applied(b, m, c).1 is Applied,
        !(c.quiet == Some(true) && c.powerful == Some(true)),
    ensures
        changes_applied(changes_applied(b, m, c).0, m, c).0 == changes_applied(b, m, c).0,
        changes_applied(changes_applied(b, m, c).0, m, c).1 is Applied,
{
    let b5 = changes_head(b, c);
    lemma_head_settles(b, c);
    let b6 = match c.swing_h {
        Some(h) => if swing_h_of(b5, m) != h { with_swing_h(b5, m, h).unwrap() } else { b5 },
        None => b5,
    };
    if let Some(h) = c.swing_h {
        crate::state::law_swing_h_roundtrip(b5, m, h);
        lemma_field_independence(b5[17], h.code());
        lemma_field_independence(b5[17], SwingH::Middle.code());
    }
    assert(changes_tail(b6, m, c) == changes_applied(b, m, c));
    let f = changes_applied(b, m, c).0;
    lemma_tail_settles(b6, m, c);
    assert(f[13] == b5[13] && f[14] == b5[14] && f[16] == b5[16] && f[17] == b6[17]);
    assert(head_settled(f, c));
    lemma_head_settled_stays(f, c);
    assert(swing_h_settled(f, m, c)) by {
        if let Some(h) = c.swing_h {
            if swing_h_of(f, m) != h {
                assert(with_swing_h(f, m, h).unwrap() =~= f);
            }
        }
    }
    lemma_tail_settled_stays(f, m, c);
}

/// The head settings, written in turn, read back.
proof fn lemma_settings_head(b0: Seq<u8>, c: PanasonicAcChanges)
    requires
        b0.len() == PANASONIC_AC_STATE_LENGTH,
    ensures
        settings_head(b0, c).len() == PANASONIC_AC_STATE_LENGTH,
        c.power matches Some(p) ==> power_of(settings_head(b0, c)) == p,
        c.mode matches Some(md) ==> AcMode::from_code(mode_field(settings_head(b0, c))) == Some(md),
        c.temp matches Some(t) ==> settings_head(b0, c)[14] == crate::state::clamp_temp(t),
        c.fan matches Some(f) ==> fan_of(settings_head(b0, c)) == Some(f),
        c.swing_v matches Some(v) ==> SwingV::from_code(swing_v_field(settings_head(b0, c)))
            == Some(v),
{
    let b1 = match c.power {
        Some(p) => with_power(b0, p),
        None => b0,
    };
    let b2 = match c.mode {
        Some(x) => with_mode(b1, x),
        None => b1,
    };
    let b3 = match c.temp {
        Some(t) => with_temp(b2, t),
        None => b2,
    };
    let b4 = match c.fan {
        Some(f) => with_fan(b3, f),
        None => b3,
    };
    let b5 = settings_head(b0, c);
    if let Some(p) = c.power {
        crate::state::law_power_roundtrip(b0, p);
    }
    if let Some(md) = c.mode {
        crate::state::law_mode_roundtrip(b1, md);
        let bm = if md == AcMode::Fan {
            b1.update(14, crate::constants::PANASONIC_AC_FAN_MODE_TEMP)
        } else {
            b1
        };
        lemma_field_independence(bm[13], md.code());
    }
    assert(b5[13] == b2[13]);
    assert(b5[14] == b3[14]);
    if let Some(f) = c.fan {
        crate::state::law_fan_roundtrip(b3, f);
    }
    if let Some(v) = c.swing_v {
        crate::state::law_swing_v_roundtrip(b4, v);
        lemma_field_independence(b4[16], v.code());
        assert(crate::state::fan_field(b5) == crate::state::fan_field(b4));
    }
}

/// The tail settings, written in turn, read back, and leave the bytes before
/// byte 21 as they were.
proof fn lemma_settings_tail(b6: Seq<u8>, m: PanasonicAcModel, c: PanasonicAcChanges)
    requires
        b6.len() == PANASONIC_AC_STATE_LENGTH,
        c.ion is Some ==> supports_ion(m),
    ensures
        settings_tail(b6, m, c).1,
        forall|k: int| 0 <= k < 21 ==> #[trigger] settings_tail(b6, m, c).0[k] == b6[k],
        c.quiet matches Some(q) ==> (c.powerful != Some(true) ==> bit_of(
            settings_tail(b6, m, c).0[21],
            crate::state::quiet_offset(m),
        ) == q),
        c.powerful matches Some(p) ==> bit_of(
            settings_tail(b6, m, c).0[21],
            crate::state::powerful_offset(m),
        ) == p,
        c.ion matches Some(i) ==> bit_of(settings_tail(b6, m, c).0[22], 0) == i,
{
    let b7 = match c.quiet {
        Some(q) => with_quiet(b6, m, q),
        None => b6,
    };
    let b8 = match c.powerful {
        Some(p) => with_powerful(b7, m, p),
        None => b7,
    };
    let q = crate::state::quiet_offset(m);
    let p = crate::state::powerful_offset(m);
    let y = b6[21];
    if let Some(qv) = c.quiet {
        if qv {
            lemma_mode_bits(y, p, q, false);
            lemma_mode_bits(with_bit(y, p, false), q, p, true);
        } else {
            lemma_mode_bits(y, q, p, false);
        }
    }
    let y7 = b7[21];
    if let Some(pv) = c.powerful {
        if pv {
            lemma_mode_bits(y7, q, p, false);
            lemma_mode_bits(with_bit(y7, q, false), p, q, true);
        } else {
            lemma_mode_bits(y7, p, q, false);
        }
    }
    if let Some(i) = c.ion {
        crate::state::law_ion_roundtrip(b8, m, i);
    }
}

/// Builder round trip: building a device for a known model succeeds when the
/// model has the horizontal swing and the ion filter that the builder asks
/// for, and the device reports every setting the builder was given (the
/// temperature brought into 16–30 °C); quiet mode reads as given unless
/// powerful mode is also turned on, which turns it off.
pub proof fn law_builder_roundtrip(s: BuilderSettings, m: PanasonicAcModel)
    requires
        s.model == Some(m),
        m != PanasonicAcModel::Unknown,
        s.settings.swing_h is Some ==> supports_swing_h(m),
        s.settings.ion is Some ==> supports_ion(m),
    ensures
        built_state(s).2 is Built,
        built_state(s).1 == m,
        s.settings.power matches Some(p) ==> power_of(built_state(s).0) == p,
        s.settings.mode matches Some(md) ==> AcMode::from_code(mode_field(built_state(s).0))
            == Some(md),
        s.settings.temp matches Some(t) ==> built_state(s).0[14] == crate::state::clamp_temp(t),
        s.settings.fan matches Some(f) ==> fan_of(built_state(s).0) == Some(f),
        s.settings.swing_v matches Some(v) ==> SwingV::from_code(swing_v_field(built_state(s).0))
            == Some(v),
        s.settings.swing_h matches Some(h) ==> swing_h_of(built_state(s).0, m) == h,
        s.settings.quiet matches Some(q) ==> (s.settings.powerful != Some(true) ==> bit_of(
            built_state(s).0[21],
            crate::state::quiet_offset(m),
        ) == q),
        s.settings.powerful matches Some(p) ==> bit_of(
            built_state(s).0[21],
            crate::state::powerful_offset(m),
        ) == p,
        s.settings.ion matches Some(i) ==> bit_of(built_state(s).0[22], 0) == i,
{
    let c = s.settings;
    let b0 = model_frame(PANASONIC_KNOWN_GOOD_STATE@, m);
    let b5 = settings_head(b0, c);
    lemma_settings_head(b0, c);
    let b6 = match c.swing_h {
        Some(h) => with_swing_h(b5, m, h)->0,
        None => b5,
    };
    if let Some(h) = c.swing_h {
        crate::state::law_swing_h_roundtrip(b5, m, h);
    }
    lemma_settings_tail(b6, m, c);
    let f = settings_tail(b6, m, c).0;
    assert(built_state(s) == (f, m, BuildOutcome::Built));
    assert(f[13] == b5[13] && f[14] == b5[14] && f[16] == b5[16] && f[17] == b6[17]);
}

/// The error that AC32 models give for a feature they do not have.
fn ac32_unsupported(feature: &str) -> (r: Error)
    ensures
        r matches Error::UnsupportedFeature { feature: f, model: Some(m) } && f@ == feature@ && m@
            == "AC32"@,
{
    Error::UnsupportedFeature {
        feature: String::from_str(feature),
        model: Some(String::from_str("AC32")),
    }
}

/// For AC32 models (simplified implementation)
pub struct PanasonicAc32<F: Fn(&[u8], u32, u16) -> Result<()>> {
    /// Internal state
    state: PanasonicAc32State,
    /// Function to send IR signals
    ir_send: F,
}

impl<F: Fn(&[u8], u32, u16) -> Result<()>> View for PanasonicAc32<F> {
    type V = u32;

    closed spec fn view(&self) -> u32 {
        self.state@
    }
}

impl<F: Fn(&[u8], u32, u16) -> Result<()>> PanasonicAc32<F> {
    /// The device's IR sender can always be called.
    #[verifier::type_invariant]
    closed spec fn sender_ok(self) -> bool {
        sender_total(self.ir_send)
    }

    /// The function that sends the device's IR signals.
    pub closed spec fn sender(self) -> F {
        self.ir_send
    }

    /// Create a new `PanasonicAc32` instance
    pub fn new(ir_send_fn: F) -> (r: Self)
        requires
            sender_total(ir_send_fn),
        ensures
            r@ == PANASONIC_AC32_KNOWN_GOOD,
            r.sender() == ir_send_fn,
    {
        Self { state: PanasonicAc32State::new(), ir_send: ir_send_fn }
    }

    /// Reset state to defaults
    pub fn reset(&mut self)
        ensures
            final(self)@ == PANASONIC_AC32_KNOWN_GOOD,
            final(self).sender() == old(self).sender(),
    {
        proof {
            use_type_invariant(&*self);
        }
        self.state = PanasonicAc32State::default();
    }

    /// Set power toggle state
    pub fn set_power_toggle(&mut self, on: bool) -> (r: Result<()>)
        ensures
            r is Ok,
            final(self)@ == ac32_with_power(old(self)@, on),
            final(self).sender() == old(self).sender(),
    {
        proof {
            use_type_invariant(&*self);
        }
        let mut st = self.state;
        let r = st.set_power_toggle(on);
        self.state = st;
        r
    }

    /// Get power toggle state
    pub fn get_power_toggle(&self) -> (r: bool)
        ensures
            r == ac32_power_of(self@),
    {
        self.state.get_power_toggle()
    }
}

impl<F: Fn(&[u8], u32, u16) -> Result<()>> Device for PanasonicAc32<F> {
    /// Sets the power toggle (AC32 models toggle power rather than set it).
    fn set_power(&mut self, on: bool) -> (r: Result<()>)
        ensures
            r is Ok,
            final(self)@ == ac32_with_power(old(self)@, on),
            final(self).sender() == old(self).sender(),
    {
        self.set_power_toggle(on)
    }

    fn get_power(&self) -> (r: bool)
        ensures
            r == ac32_power_of(self@),
    {
        self.get_power_toggle()
    }

    fn turn_on(&mut self) -> (r: Result<()>)
        ensures
            r is Ok,
            final(self)@ == ac32_with_power(old(self)@, true),
            final(self).sender() == old(self).sender(),
    {
        self.set_power_toggle(true)
    }

    fn turn_off(&mut self) -> (r: Result<()>)
        ensures
            r is Ok,
            final(self)@ == ac32_with_power(old(self)@, false),
            final(self).sender() == old(self).sender(),
    {
        self.set_power_toggle(false)
    }

    /// Sends the four state bytes, most significant first, at the Panasonic
    /// carrier frequency and no repeat; the result is what the sender returns.
    fn send(&self) -> (r: Result<()>)
        ensures
            exists|data: &[u8]|
                data@ == crate::encoder::command_bytes(self@) && #[trigger] call_ensures(
                    self.sender(),
                    (data, PANASONIC_FREQ, 0u16),
                    r,
                ),
    {
        proof {
            use_type_invariant(self);
        }
        // Convert u32 to bytes
        let bytes = self.state.get_bytes();
        let data = bytes.as_slice();
        // Send the IR signal
        let r = (self.ir_send)(data, PANASONIC_FREQ, 0);
        assert(call_ensures(self.sender(), (data, PANASONIC_FREQ, 0u16), r));
        r
    }

    fn get_raw(&self) -> (r: Vec<u8>)
        ensures
            r@ == crate::encoder::command_bytes(self@),
    {
        let bytes = self.state.get_bytes();
        vstd::slice::slice_to_vec(bytes.as_slice())
    }

    fn set_raw(&mut self, data: &[u8]) -> (r: Result<()>)
        ensures
            data@.len() != 4 ==> (r matches Err(Error::InvalidData(msg)) && msg@
                == "Expected 4 bytes, got "@ + decimal(data@.len()) && final(self)@ == old(self)@),
            data@.len() == 4 ==> r is Ok && final(self)@ == be_u32(data@),
            final(self).sender() == old(self).sender(),
    {
        proof {
            use_type_invariant(&*self);
        }
        let mut st = self.state;
        let r = st.set_from_bytes(data);
        self.state = st;
        r
    }
}

impl<F: Fn(&[u8], u32, u16) -> Result<()>> AcDevice for PanasonicAc32<F> {
    fn set_mode(&mut self, mode: AcMode) -> (r: Result<()>)
        ensures
            r is Ok,
            final(self)@ == ac32_with_mode(old(self)@, mode),
            final(self).sender() == old(self).sender(),
    {
        proof {
            use_type_invariant(&*self);
        }
        let mut st = self.state;
        let r = st.set_mode(mode);
        self.state = st;
        r
    }

    fn get_mode(&self) -> (r: Result<AcMode>)
        ensures
            ac32_mode_from_code(ac32_mode_field(self@)) matches Some(m) ==> r == Ok::<AcMode, Error>(m),
            ac32_mode_from_code(ac32_mode_field(self@)) is None ==> (r matches Err(
                Error::InvalidValue(msg),
            ) && msg@ == "Invalid mode: "@ + decimal(ac32_mode_field(self@) as nat)),
    {
        self.state.get_mode()
    }

    fn set_temp(&mut self, celsius: u8) -> (r: Result<()>)
        ensures
            r is Ok,
            final(self)@ == ac32_with_temp(old(self)@, celsius),
            final(self).sender() == old(self).sender(),
    {
        proof {
            use_type_invariant(&*self);
        }
        let mut st = self.state;
        let r = st.set_temp(celsius);
        self.state = st;
        r
    }

    fn get_temp(&self) -> (r: u8)
        ensures
            r == ac32_temp_of(self@),
    {
        self.state.get_temp()
    }

    // Default implementations for unsupported functions

    fn set_fan(&mut self, _speed: FanSpeed) -> (r: Result<()>)
        ensures
            r matches Err(Error::UnsupportedFeature { feature, model: Some(m) }) && feature@
                == "Fan speed control"@ && m@ == "AC32"@,
            *final(self) == *old(self),
    {
        Err(ac32_unsupported("Fan speed control"))
    }

    fn get_fan(&self) -> (r: Result<FanSpeed>)
        ensures
            r matches Err(Error::UnsupportedFeature { feature, model: Some(m) }) && feature@
                == "Fan speed control"@ && m@ == "AC32"@,
    {
        Err(ac32_unsupported("Fan speed control"))
    }

    fn set_swing_v(&mut self, _position: SwingV) -> (r: Result<()>)
        ensures
            r matches Err(Error::UnsupportedFeature { feature, model: Some(m) }) && feature@
                == "Vertical swing"@ && m@ == "AC32"@,
            *final(self) == *old(self),
    {
        Err(ac32_unsupported("Vertical swing"))
    }

    fn get_swing_v(&self) -> (r: Result<SwingV>)
        ensures
            r matches Err(Error::UnsupportedFeature { feature, model: Some(m) }) && feature@
                == "Vertical swing"@ && m@ == "AC32"@,
    {
        Err(ac32_unsupported("Vertical swing"))
    }

    fn set_swing_h(&mut self, _position: SwingH) -> (r: Result<()>)
        ensures
            r matches Err(Error::UnsupportedFeature { feature, model: Some(m) }) && feature@
                == "Horizontal swing"@ && m@ == "AC32"@,
            *final(self) == *old(self),
    {
        Err(ac32_unsupported("Horizontal swing"))
    }

    fn get_swing_h(&self) -> (r: Result<SwingH>)
        ensures
            r matches Err(Error::UnsupportedFeature { feature, model: Some(m) }) && feature@
                == "Horizontal swing"@ && m@ == "AC32"@,
    {
        Err(ac32_unsupported("Horizontal swing"))
    }

    fn set_quiet(&mut self, _on: bool) -> (r: Result<()>)
        ensures
            r matches Err(Error::UnsupportedFeature { feature, model: Some(m) }) && feature@
                == "Quiet mode"@ && m@ == "AC32"@,
            *final(self) == *old(self),
    {
        Err(ac32_unsupported("Quiet mode"))
    }

    fn get_quiet(&self) -> (r: bool)
        ensures
            r == false,
    {
        false
    }

    fn set_powerful(&mut self, _on: bool) -> (r: Result<()>)
        ensures
            r matches Err(Error::UnsupportedFeature { feature, model: Some(m) }) && feature@
                == "Powerful mode"@ && m@ == "AC32"@,
            *final(self) == *old(self),
    {
        Err(ac32_unsupported("Powerful mode"))
    }

    fn get_powerful(&self) -> (r: bool)
        ensures
            r == false,
    {
        false
    }

    fn set_ion(&mut self, _on: bool) -> (r: Result<()>)
        ensures
            r matches Err(Error::UnsupportedFeature { feature, model: Some(m) }) && feature@
                == "Ion filter"@ && m@ == "AC32"@,
            *final(self) == *old(self),
    {
        Err(ac32_unsupported("Ion filter"))
    }

    fn get_ion(&self) -> (r: bool)
        ensures
            r == false,
    {
        false
    }
}

} // verus!
