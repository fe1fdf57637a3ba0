//! State management implementation for Panasonic AC devices

use vstd::prelude::*;
use vstd::string::StringExecFns;

use crate::constants::{
    PANASONIC_AC32_AUTO, PANASONIC_AC32_COOL, PANASONIC_AC32_DRY, PANASONIC_AC32_FAN,
    PANASONIC_AC32_HEAT, PANASONIC_AC32_KNOWN_GOOD, PANASONIC_AC32_MAX_TEMP,
    PANASONIC_AC32_MIN_TEMP, PANASONIC_AC_FAN_DELTA, PANASONIC_AC_FAN_MODE_TEMP,
    PANASONIC_AC_FAN_OFFSET, PANASONIC_AC_FAN_SIZE, PANASONIC_AC_ION_FILTER_BYTE,
    PANASONIC_AC_ION_FILTER_OFFSET, PANASONIC_AC_MAX_TEMP, PANASONIC_AC_MIN_TEMP,
    PANASONIC_AC_MODE_OFFSET, PANASONIC_AC_MODE_SIZE, PANASONIC_AC_OFF_TIMER_OFFSET,
    PANASONIC_AC_ON_TIMER_OFFSET, PANASONIC_AC_POWERFUL_CKP_OFFSET, PANASONIC_AC_POWERFUL_OFFSET,
    PANASONIC_AC_POWER_OFFSET, PANASONIC_AC_QUIET_CKP_OFFSET, PANASONIC_AC_QUIET_OFFSET,
    PANASONIC_AC_STATE_LENGTH, PANASONIC_AC_SWINGH_OFFSET, PANASONIC_AC_SWINGH_SIZE,
    PANASONIC_AC_SWINGV_OFFSET, PANASONIC_AC_SWINGV_SIZE, PANASONIC_AC_SWING_H_MIDDLE,
    PANASONIC_AC_TIME_SPECIAL, PANASONIC_KNOWN_GOOD_STATE,
};
use crate::device::PanasonicAcModel;
use crate::encoder::{checksum_valid, frame_checksum, PanasonicEncoder};
use crate::error::{Error, Result};
use crate::protocol::{bit_of, bits_of, with_bit, with_bits, BitOps};
use crate::text::{
    decimal, decimal_padded, decimal_string_padded, prefixed_decimal, push_char, u64_to_decimal,
};
use crate::types::{AcMode, FanSpeed, SwingH, SwingV};
use crate::utils::{bool_to_onoff, on_off_text};

verus! {

/// What a `PanasonicAcState` holds: the 27 bytes of its frame and its model.
pub struct AcStateView {
    pub frame: Seq<u8>,
    pub model: PanasonicAcModel,
}

/// Whether the power bit of the frame is set.
pub open spec fn power_of(b: Seq<u8>) -> bool {
    bit_of(b[13], PANASONIC_AC_POWER_OFFSET)
}

/// The mode field of the frame (high nibble of byte 13).
pub open spec fn mode_field(b: Seq<u8>) -> u8 {
    bits_of(b[13], PANASONIC_AC_MODE_OFFSET, PANASONIC_AC_MODE_SIZE)
}

/// The fan field of the frame (high nibble of byte 16).
pub open spec fn fan_field(b: Seq<u8>) -> u8 {
    bits_of(b[16], PANASONIC_AC_FAN_OFFSET, PANASONIC_AC_FAN_SIZE)
}

/// The fan speed that the frame encodes: the fan field minus the fan delta
/// (wrapping), when that is a speed code.
pub open spec fn fan_of(b: Seq<u8>) -> Option<FanSpeed> {
    let v = vstd::wrapping::u8_specs::wrapping_sub(fan_field(b), PANASONIC_AC_FAN_DELTA);
    if v > 5 {
        None
    } else {
        FanSpeed::from_code(v)
    }
}

/// The vertical swing field of the frame (low nibble of byte 16).
pub open spec fn swing_v_field(b: Seq<u8>) -> u8 {
    bits_of(b[16], PANASONIC_AC_SWINGV_OFFSET, PANASONIC_AC_SWINGV_SIZE)
}

/// The horizontal swing field of the frame (low nibble of byte 17).
pub open spec fn swing_h_field(b: Seq<u8>) -> u8 {
    bits_of(b[17], PANASONIC_AC_SWINGH_OFFSET, PANASONIC_AC_SWINGH_SIZE)
}

/// The horizontal swing that a state reports: the decoded field for the DKE
/// and RKR models (Middle when it does not decode), Middle for every other model.
pub open spec fn swing_h_of(b: Seq<u8>, model: PanasonicAcModel) -> SwingH {
    match model {
        PanasonicAcModel::Dke | PanasonicAcModel::Rkr => match SwingH::from_code(swing_h_field(b)) {
            Some(s) => s,
            None => SwingH::Middle,
        },
        _ => SwingH::Middle,
    }
}

/// The clamped temperature: `celsius` brought into `[16, 30]`.
pub open spec fn clamp_temp(celsius: u8) -> u8 {
    if celsius < PANASONIC_AC_MIN_TEMP {
        PANASONIC_AC_MIN_TEMP
    } else if celsius > PANASONIC_AC_MAX_TEMP {
        PANASONIC_AC_MAX_TEMP
    } else {
        celsius
    }
}

/// Whether the model keeps its quiet and powerful bits at the CKP offsets.
pub open spec fn uses_ckp_offsets(model: PanasonicAcModel) -> bool {
    model == PanasonicAcModel::Rkr || model == PanasonicAcModel::Ckp
}

/// The bit of byte 21 that holds quiet mode for the model.
pub open spec fn quiet_offset(model: PanasonicAcModel) -> u8 {
    if uses_ckp_offsets(model) {
        PANASONIC_AC_QUIET_CKP_OFFSET
    } else {
        PANASONIC_AC_QUIET_OFFSET
    }
}

/// The bit of byte 21 that holds powerful mode for the model.
pub open spec fn powerful_offset(model: PanasonicAcModel) -> u8 {
    if uses_ckp_offsets(model) {
        PANASONIC_AC_POWERFUL_CKP_OFFSET
    } else {
        PANASONIC_AC_POWERFUL_OFFSET
    }
}

/// Whether the model has an ion filter.
pub open spec fn supports_ion(model: PanasonicAcModel) -> bool {
    model == PanasonicAcModel::Dke
}

/// Whether the model swings horizontally.
pub open spec fn supports_swing_h(model: PanasonicAcModel) -> bool {
    model == PanasonicAcModel::Dke || model == PanasonicAcModel::Rkr
}

/// The frame with the power bit set to `on` (what `set_power` writes).
pub open spec fn with_power(b: Seq<u8>, on: bool) -> Seq<u8> {
    b.update(13, with_bit(b[13], PANASONIC_AC_POWER_OFFSET, on))
}

/// The frame with the clamped temperature (what `set_temp` writes).
pub open spec fn with_temp(b: Seq<u8>, celsius: u8) -> Seq<u8> {
    b.update(14, clamp_temp(celsius))
}

/// The frame with the mode written into the high nibble of byte 13; the Fan
/// mode also writes the fan-mode temperature (what `set_mode` writes).
pub open spec fn with_mode(b: Seq<u8>, mode: AcMode) -> Seq<u8> {
    let b = if mode == AcMode::Fan {
        b.update(14, PANASONIC_AC_FAN_MODE_TEMP)
    } else {
        b
    };
    b.update(13, (b[13] & 0x0F) | (mode.code() << 4u8))
}

/// The frame with the fan speed (plus the fan delta) in the high nibble of
/// byte 16 (what `set_fan` writes).
pub open spec fn with_fan(b: Seq<u8>, speed: FanSpeed) -> Seq<u8> {
    b.update(16, (b[16] & 0x0F) | ((speed.code() + PANASONIC_AC_FAN_DELTA) as u8) << 4u8)
}

/// The frame with the vertical swing in the low nibble of byte 16 (what
/// `set_swing_v` writes).
pub open spec fn with_swing_v(b: Seq<u8>, position: SwingV) -> Seq<u8> {
    b.update(16, (b[16] & 0xF0) | position.code())
}

/// What `set_swing_h` writes for the model: the position on the DKE and RKR
/// models, Middle on the NKE and LKE models, nothing (an error) otherwise.
pub open spec fn with_swing_h(b: Seq<u8>, model: PanasonicAcModel, position: SwingH) -> Option<
    Seq<u8>,
> {
    if supports_swing_h(model) {
        Some(b.update(17, (b[17] & 0xF0) | position.code()))
    } else if model == PanasonicAcModel::Nke || model == PanasonicAcModel::Lke {
        Some(b.update(17, (b[17] & 0xF0) | SwingH::Middle.code()))
    } else {
        None
    }
}

/// The frame with quiet mode set to `on`; turning it on clears powerful mode
/// (what `set_quiet` writes).
pub open spec fn with_quiet(b: Seq<u8>, model: PanasonicAcModel, on: bool) -> Seq<u8> {
    let b21 = if on {
        with_bit(b[21], powerful_offset(model), false)
    } else {
        b[21]
    };
    b.update(21, with_bit(b21, quiet_offset(model), on))
}

/// The frame with powerful mode set to `on`; turning it on clears quiet mode
/// (what `set_powerful` writes).
pub open spec fn with_powerful(b: Seq<u8>, model: PanasonicAcModel, on: bool) -> Seq<u8> {
    let b21 = if on {
        with_bit(b[21], quiet_offset(model), false)
    } else {
        b[21]
    };
    b.update(21, with_bit(b21, powerful_offset(model), on))
}

/// What `set_ion` writes for the model: the ion bit on the DKE model, nothing
/// (an error) otherwise.
pub open spec fn with_ion(b: Seq<u8>, model: PanasonicAcModel, on: bool) -> Option<Seq<u8>> {
    if supports_ion(model) {
        Some(b.update(22, with_bit(b[22], PANASONIC_AC_ION_FILTER_OFFSET, on)))
    } else {
        None
    }
}

/// The model that a frame reveals, by the bytes that the models set.
pub open spec fn detect_model_of(b: Seq<u8>) -> PanasonicAcModel {
    if b[23] == 0x89 {
        PanasonicAcModel::Rkr
    } else if b[17] == 0x00 && b[21] & 0x10 != 0 && b[23] & 0x01 != 0 {
        PanasonicAcModel::Ckp
    } else if b[17] == 0x00 && b[23] & 0x80 != 0 {
        PanasonicAcModel::Jke
    } else if b[17] == 0x06 && (b[13] & 0x0F) == 0x02 {
        PanasonicAcModel::Lke
    } else if b[23] == 0x01 {
        PanasonicAcModel::Dke
    } else if b[17] == 0x06 {
        PanasonicAcModel::Nke
    } else {
        PanasonicAcModel::Unknown
    }
}

/// The frame after the model-specific bytes of `model` are written: byte 13
/// keeps its mode nibble and power bit and takes the model bits, bytes 17, 23
/// and 25 take the model's values, and bit 4 of byte 21 marks the CKP model.
/// An unknown model writes the same bytes as the JKE model.
pub open spec fn model_frame(b: Seq<u8>, model: PanasonicAcModel) -> Seq<u8> {
    let b13 = match model {
        PanasonicAcModel::Lke => (b[13] & 0xF1) | 0x02,
        PanasonicAcModel::Rkr => (b[13] & 0xF1) | 0x08,
        _ => b[13] & 0xF1,
    };
    let b17 = match model {
        PanasonicAcModel::Lke | PanasonicAcModel::Dke | PanasonicAcModel::Nke
        | PanasonicAcModel::Rkr => 0x06u8,
        _ => 0x00u8,
    };
    let b21 = if model == PanasonicAcModel::Ckp {
        (b[21] & 0xEF) | 0x10
    } else {
        b[21] & 0xEF
    };
    let b23 = match model {
        PanasonicAcModel::Dke | PanasonicAcModel::Ckp => 0x01u8,
        PanasonicAcModel::Rkr => 0x89u8,
        _ => 0x81u8,
    };
    let b25 = if model == PanasonicAcModel::Dke {
        0x06u8
    } else {
        0x00u8
    };
    b.update(13, b13).update(17, b17).update(21, b21).update(23, b23).update(25, b25)
}

/// The time (in minutes) held by a low byte and a high byte of which the low
/// three bits count.
pub open spec fn split_time(low: u8, high: u8) -> u16 {
    ((low as u16) | (((high & 0x07) as u16) << 8u16)) as u16
}

/// Hours and minutes of a stored time; the special value reads as 00:00.
pub open spec fn hours_minutes(time: u16) -> (u8, u8) {
    if time == PANASONIC_AC_TIME_SPECIAL {
        (0, 0)
    } else {
        ((time / 60) as u8, (time % 60) as u8)
    }
}

/// The clock time stored in bytes 24 and 25.
pub open spec fn clock_of(b: Seq<u8>) -> (u8, u8) {
    hours_minutes(split_time(b[24], b[25]))
}

/// The on-timer time stored in bytes 18 and 19.
pub open spec fn on_timer_of(b: Seq<u8>) -> (u8, u8) {
    hours_minutes(split_time(b[18], b[19]))
}

/// The off-timer time stored in the high nibble of byte 19 and the low seven
/// bits of byte 20.
pub open spec fn off_timer_time(b: Seq<u8>) -> u16 {
    (((b[19] >> 4u8) as u16) | (((b[20] & 0x7F) as u16) << 4u16)) as u16
}

/// The off-timer time of the frame as hours and minutes.
pub open spec fn off_timer_of(b: Seq<u8>) -> (u8, u8) {
    hours_minutes(off_timer_time(b))
}

/// Minutes since midnight of `hours:minutes`, each capped at 23 and 59.
pub open spec fn capped_time(hours: u8, minutes: u8) -> u16 {
    let h = if hours > 23 { 23u8 } else { hours };
    let m = if minutes > 59 { 59u8 } else { minutes };
    (h * 60 + m) as u16
}

/// Like `capped_time`, with the minutes rounded down to a multiple of ten.
pub open spec fn timer_time(hours: u8, minutes: u8) -> u16 {
    let h = if hours > 23 { 23u8 } else { hours };
    let m = if minutes > 59 { 59u8 } else { minutes };
    (h * 60 + (m - m % 10)) as u16
}

/// Writing a bit with the value it already has leaves the byte unchanged.
proof fn lemma_with_own_bit(b: u8, q: u8)
    requires
        q < 8,
    ensures
        with_bit(b, q, bit_of(b, q)) == b,
{
    assert(with_bit(b, q, bit_of(b, q)) == b) by (bit_vector)
        requires
            q < 8,
    ;
}

/// The byte-13 and byte-17 arithmetic of `set_model`: the power bit survives
/// the clearing of the model bits, and the middle horizontal swing over a
/// cleared byte is the byte 0x06.
proof fn lemma_model_bytes(b13: u8, power_bit: u8, power_state: bool)
    requires
        power_bit == b13 & 1u8,
        power_state == bit_of(b13, 0),
    ensures
        with_bit(b13 & 0xF1, 0, power_state) == b13 & 0xF1,
        with_bit((b13 & 0xF1) | 0x02, 0, power_state) == (b13 & 0xF1) | 0x02,
        with_bit(((b13 & 0xF1) | (0x08 | power_bit)), 0, power_state) == (b13 & 0xF1) | 0x08,
        with_bits(0u8, 0, 4, 6) == 0x06u8,
        bit_of((b13 & 0xF1) | 0x08, 0) == power_state,
{
    assert(with_bit(b13 & 0xF1, 0, power_state) == b13 & 0xF1) by (bit_vector)
        requires
            power_state == bit_of(b13, 0),
    ;
    assert(with_bit((b13 & 0xF1) | 0x02, 0, power_state) == (b13 & 0xF1) | 0x02) by (bit_vector)
        requires
            power_state == bit_of(b13, 0),
    ;
    assert(with_bit(((b13 & 0xF1) | (0x08 | power_bit)), 0, power_state) == (b13 & 0xF1) | 0x08)
        by (bit_vector)
        requires
            power_bit == b13 & 1u8,
            power_state == bit_of(b13, 0),
    ;
    assert(with_bits(0u8, 0, 4, 6) == 0x06u8) by (bit_vector);
    assert(bit_of((b13 & 0xF1) | 0x08, 0) == power_state) by (bit_vector)
        requires
            power_state == bit_of(b13, 0),
    ;
}

/// The model-specific bytes leave the power bit as it was.
proof fn lemma_model_frame_keeps_power(b: Seq<u8>, model: PanasonicAcModel)
    requires
        b.len() == PANASONIC_AC_STATE_LENGTH,
    ensures
        power_of(model_frame(b, model)) == power_of(b),
{
    let x = b[13];
    assert(bit_of(x & 0xF1, 0) == bit_of(x, 0) && bit_of((x & 0xF1) | 0x02, 0) == bit_of(x, 0)
        && bit_of((x & 0xF1) | 0x08, 0) == bit_of(x, 0)) by (bit_vector);
}

/// Copies a 27-byte slice into a frame, byte by byte.
fn copy_into_frame(dst: &mut [u8; PANASONIC_AC_STATE_LENGTH], src: &[u8])
    requires
        src@.len() == PANASONIC_AC_STATE_LENGTH,
    ensures
        final(dst)@ == src@,
{
    let mut i: usize = 0;
    while i < PANASONIC_AC_STATE_LENGTH
        invariant
            i <= PANASONIC_AC_STATE_LENGTH,
            src@.len() == PANASONIC_AC_STATE_LENGTH,
            dst@.len() == PANASONIC_AC_STATE_LENGTH,
            forall|j: int| 0 <= j < i ==> dst@[j] == src@[j],
        decreases PANASONIC_AC_STATE_LENGTH - i,
    {
        dst[i] = src[i];
        i = i + 1;
    }
    assert(dst@ =~= src@);
}

/// The core state representation for a Panasonic AC
#[derive(Clone, Copy, Debug)]
pub struct PanasonicAcState {
    /// Raw state buffer
    buffer: [u8; PANASONIC_AC_STATE_LENGTH],
    /// Model configuration
    model: PanasonicAcModel,
}

impl View for PanasonicAcState {
    type V = AcStateView;

    closed spec fn view(&self) -> AcStateView {
        AcStateView { frame: self.buffer@, model: self.model }
    }
}

/// The frame of a state always holds 27 bytes.
pub broadcast proof fn lemma_frame_len(s: PanasonicAcState)
    ensures
        #[trigger] s@.frame.len() == PANASONIC_AC_STATE_LENGTH,
{
}

impl Default for PanasonicAcState {
    fn default() -> (r: Self)
        ensures
            r@.frame == PANASONIC_KNOWN_GOOD_STATE@,
            r@.model == PanasonicAcModel::Unknown,
    {
        Self { buffer: PANASONIC_KNOWN_GOOD_STATE, model: PanasonicAcModel::Unknown }
    }
}

impl PanasonicAcState {
    /// Create a new state object with known good defaults
    pub fn new() -> (r: Self)
        ensures
            r@.frame == PANASONIC_KNOWN_GOOD_STATE@,
            r@.model == PanasonicAcModel::Unknown,
    {
        Self::default()
    }

    /// Get the model of the AC
    pub fn get_model(&self) -> (r: PanasonicAcModel)
        ensures
            r == self@.model,
    {
        self.model
    }

    /// Check if a model supports ion filter functionality
    pub fn model_supports_ion(&self) -> (r: bool)
        ensures
            r == supports_ion(self@.model),
    {
        matches!(self.model, PanasonicAcModel::Dke)
    }

    /// Check if a model supports horizontal swing functionality
    pub fn model_supports_horizontal_swing(&self) -> (r: bool)
        ensures
            r == supports_swing_h(self@.model),
    {
        matches!(self.model, PanasonicAcModel::Dke | PanasonicAcModel::Rkr)
    }

    /// Get the buffer for IR transmission
    pub fn get_buffer(&self) -> (r: &[u8; PANASONIC_AC_STATE_LENGTH])
        ensures
            r@ == self@.frame,
    {
        &self.buffer
    }

    /// Set the power state (on/off)
    pub fn set_power(&mut self, on: bool) -> (r: Result<()>)
        ensures
            r is Ok,
            final(self)@.frame == with_power(old(self)@.frame, on),
            final(self)@.model == old(self)@.model,
    {
        // Directly set or clear the power bit
        if on {
            self.buffer[13] |= 1u8 << PANASONIC_AC_POWER_OFFSET;
        } else {
            self.buffer[13] &= !(1u8 << PANASONIC_AC_POWER_OFFSET);
        }
        Ok(())
    }

    /// Get the power state
    pub fn get_power(&self) -> (r: bool)
        ensures
            r == power_of(self@.frame),
    {
        let b: u8 = self.buffer[13];
        assert(((b & (1u8 << 0u8)) != 0) == bit_of(b, 0)) by (bit_vector);
        (self.buffer[13] & (1u8 << PANASONIC_AC_POWER_OFFSET)) != 0
    }

    /// Set the temperature in Celsius (clamped to the 16-30 range)
    pub fn set_temp(&mut self, celsius: u8) -> (r: Result<()>)
        ensures
            r is Ok,
            final(self)@.frame == with_temp(old(self)@.frame, celsius),
            final(self)@.model == old(self)@.model,
    {
        // Constrain temperature to valid range
        let temp: u8 = if celsius > PANASONIC_AC_MIN_TEMP {
            celsius
        } else {
            PANASONIC_AC_MIN_TEMP
        };
        let temp: u8 = if temp < PANASONIC_AC_MAX_TEMP {
            temp
        } else {
            PANASONIC_AC_MAX_TEMP
        };
        self.buffer[14] = temp;
        Ok(())
    }

    /// Get the current temperature setting in Celsius
    pub fn get_temp(&self) -> (r: u8)
        ensures
            r == self@.frame[14],
    {
        self.buffer[14]
    }

    /// Set the operating mode (the Fan mode also sets the fan-mode temperature)
    pub fn set_mode(&mut self, mode: AcMode) -> (r: Result<()>)
        ensures
            r is Ok,
            final(self)@.frame == with_mode(old(self)@.frame, mode),
            final(self)@.model == old(self)@.model,
    {
        let mode_value: u8 = mode.into();

        // If switching to Fan mode, set a special temperature
        if mode == AcMode::Fan {
            let _ = self.set_temp(PANASONIC_AC_FAN_MODE_TEMP);
        }
        // Clear the previous mode bits and set the new mode
        let b: u8 = self.buffer[13];
        self.buffer[13] &= 0x0F;
        self.buffer.set_bits(13, PANASONIC_AC_MODE_OFFSET, PANASONIC_AC_MODE_SIZE, mode_value);
        assert(mode_value == mode.code());
        assert(with_bits(b & 0x0F, 4, 4, mode_value) == (b & 0x0F) | (mode_value << 4u8))
            by (bit_vector)
            requires
                mode_value < 16,
        ;
        Ok(())
    }

    /// Get the current operating mode
    pub fn get_mode(&self) -> (r: Result<AcMode>)
        ensures
            AcMode::from_code(mode_field(self@.frame)) matches Some(m) ==> r == Ok::<AcMode, Error>(m),
            AcMode::from_code(mode_field(self@.frame)) is None ==> (r matches Err(
                Error::InvalidValue(msg),
            ) && msg@ == "Invalid mode: "@ + decimal(mode_field(self@.frame) as nat)),
    {
        let mode_value = self.buffer.get_bits(13, PANASONIC_AC_MODE_OFFSET, PANASONIC_AC_MODE_SIZE);
        AcMode::try_from(mode_value)
    }

    /// Set the fan speed
    pub fn set_fan(&mut self, speed: FanSpeed) -> (r: Result<()>)
        ensures
            r is Ok,
            final(self)@.frame == with_fan(old(self)@.frame, speed),
            final(self)@.model == old(self)@.model,
    {
        let speed_value: u8 = speed.into();
        let b: u8 = self.buffer[16];
        let v: u8 = speed_value + PANASONIC_AC_FAN_DELTA;
        self.buffer.set_bits(16, PANASONIC_AC_FAN_OFFSET, PANASONIC_AC_FAN_SIZE, v);
        assert(with_bits(b, 4, 4, v) == (b & 0x0F) | (v << 4u8)) by (bit_vector)
            requires
                v < 16,
        ;
        Ok(())
    }

    /// Get the current fan speed
    pub fn get_fan(&self) -> (r: Result<FanSpeed>)
        ensures
            fan_of(self@.frame) matches Some(f) ==> r == Ok::<FanSpeed, Error>(f),
            fan_of(self@.frame) is None ==> (r matches Err(Error::InvalidValue(msg)) && msg@
                == "Invalid fan value after adjustment: "@ + decimal(
                vstd::wrapping::u8_specs::wrapping_sub(fan_field(self@.frame), PANASONIC_AC_FAN_DELTA)
                    as nat,
            ) + " (original: "@ + decimal(fan_field(self@.frame) as nat) + ")"@),
    {
        let raw_value = self.buffer.get_bits(16, PANASONIC_AC_FAN_OFFSET, PANASONIC_AC_FAN_SIZE);

        // Use wrapping_sub to avoid panic, then check if result is valid
        let fan_value = raw_value.wrapping_sub(PANASONIC_AC_FAN_DELTA);

        // If fan_value is too large (wrap around occurred), return an error
        if fan_value > 5 {
            let mut msg = prefixed_decimal("Invalid fan value after adjustment: ", fan_value as u64);
            let original = prefixed_decimal(" (original: ", raw_value as u64);
            msg.append(original.as_str());
            msg.append(")");
            return Err(Error::InvalidValue(msg));
        }
        FanSpeed::try_from(fan_value)
    }

    /// Set the vertical swing position
    pub fn set_swing_v(&mut self, position: SwingV) -> (r: Result<()>)
        ensures
            r is Ok,
            final(self)@.frame == with_swing_v(old(self)@.frame, position),
            final(self)@.model == old(self)@.model,
    {
        let position_value: u8 = position.into();
        let b: u8 = self.buffer[16];
        self.buffer.set_bits(16, PANASONIC_AC_SWINGV_OFFSET, PANASONIC_AC_SWINGV_SIZE, position_value);
        assert(with_bits(b, 0, 4, position_value) == (b & 0xF0) | position_value) by (bit_vector)
            requires
                position_value < 16,
        ;
        Ok(())
    }

    /// Get the current vertical swing position
    pub fn get_swing_v(&self) -> (r: Result<SwingV>)
        ensures
            SwingV::from_code(swing_v_field(self@.frame)) matches Some(s) ==> r == Ok::<SwingV, Error>(s),
            SwingV::from_code(swing_v_field(self@.frame)) is None ==> (r matches Err(
                Error::InvalidValue(msg),
            ) && msg@ == "Invalid vertical swing: "@ + decimal(swing_v_field(self@.frame) as nat)),
    {
        let value = self.buffer.get_bits(16, PANASONIC_AC_SWINGV_OFFSET, PANASONIC_AC_SWINGV_SIZE);
        SwingV::try_from(value)
    }

    /// Set the horizontal swing position. The DKE and RKR models take any
    /// position, the NKE and LKE models only the middle one (any request
    /// writes Middle), and the other models refuse it.
    pub fn set_swing_h(&mut self, position: SwingH) -> (r: Result<()>)
        ensures
            with_swing_h(old(self)@.frame, old(self)@.model, position) matches Some(b) ==> r is Ok
                && final(self)@.frame == b,
            with_swing_h(old(self)@.frame, old(self)@.model, position) is None ==> (r matches Err(
                Error::UnsupportedFeature { feature, model: Some(m) },
            ) && feature@ == "Horizontal swing"@ && m@ == old(self)@.model.label()
                && final(self)@.frame == old(self)@.frame),
            final(self)@.model == old(self)@.model,
    {
        let position_value: u8 = position.into();

        // Different models support different horizontal swing settings
        let direction: u8 = match self.model {
            PanasonicAcModel::Dke | PanasonicAcModel::Rkr => position_value,
            PanasonicAcModel::Nke | PanasonicAcModel::Lke => {
                // These models only support middle position
                SwingH::Middle.into()
            },
            _ => {
                return Err(
                    Error::UnsupportedFeature {
                        feature: String::from_str("Horizontal swing"),
                        model: Some(self.model.to_string()),
                    },
                );
            },
        };
        let b: u8 = self.buffer[17];
        self.buffer.set_bits(17, PANASONIC_AC_SWINGH_OFFSET, PANASONIC_AC_SWINGH_SIZE, direction);
        assert(with_bits(b, 0, 4, direction) == (b & 0xF0) | direction) by (bit_vector)
            requires
                direction < 16,
        ;
        Ok(())
    }

    /// Get the current horizontal swing position
    pub fn get_swing_h(&self) -> (r: Result<SwingH>)
        ensures
            r == Ok::<SwingH, Error>(swing_h_of(self@.frame, self@.model)),
    {
        let value = self.buffer.get_bits(17, PANASONIC_AC_SWINGH_OFFSET, PANASONIC_AC_SWINGH_SIZE);

        // For models that don't support horizontal swing, return Middle as default
        match self.model {
            PanasonicAcModel::Dke | PanasonicAcModel::Rkr => {
                // If the value is 0 (uninitialized) or otherwise invalid, return Middle as the default
                match SwingH::try_from(value) {
                    Ok(s) => Ok(s),
                    Err(_) => Ok(SwingH::Middle),
                }
            },
            _ => {
                // For models that don't support horizontal swing, always return Middle
                Ok(SwingH::Middle)
            },
        }
    }

    /// Set quiet mode (turning it on turns powerful mode off)
    pub fn set_quiet(&mut self, on: bool) -> (r: Result<()>)
        ensures
            r is Ok,
            final(self)@.frame == with_quiet(old(self)@.frame, old(self)@.model, on),
            final(self)@.model == old(self)@.model,
        decreases (if on { 1int } else { 0int }),
    {
        // Quiet and Powerful are mutually exclusive
        if on {
            let _ = self.set_powerful(false);
        }
        let offset: u8 = match self.model {
            PanasonicAcModel::Rkr | PanasonicAcModel::Ckp => PANASONIC_AC_QUIET_CKP_OFFSET,
            _ => PANASONIC_AC_QUIET_OFFSET,
        };
        self.buffer.set_bit(21, offset, on);
        Ok(())
    }

    /// Get quiet mode status
    pub fn get_quiet(&self) -> (r: bool)
        ensures
            r == bit_of(self@.frame[21], quiet_offset(self@.model)),
    {
        let offset: u8 = match self.model {
            PanasonicAcModel::Rkr | PanasonicAcModel::Ckp => PANASONIC_AC_QUIET_CKP_OFFSET,
            _ => PANASONIC_AC_QUIET_OFFSET,
        };
        self.buffer.get_bit(21, offset)
    }

    /// Set powerful mode (turning it on turns quiet mode off)
    pub fn set_powerful(&mut self, on: bool) -> (r: Result<()>)
        ensures
            r is Ok,
            final(self)@.frame == with_powerful(old(self)@.frame, old(self)@.model, on),
            final(self)@.model == old(self)@.model,
        decreases (if on { 1int } else { 0int }),
    {
        // Quiet and Powerful are mutually exclusive
        if on {
            let _ = self.set_quiet(false);
        }
        let offset: u8 = match self.model {
            PanasonicAcModel::Rkr | PanasonicAcModel::Ckp => PANASONIC_AC_POWERFUL_CKP_OFFSET,
            _ => PANASONIC_AC_POWERFUL_OFFSET,
        };
        self.buffer.set_bit(21, offset, on);
        Ok(())
    }

    /// Get powerful mode status
    pub fn get_powerful(&self) -> (r: bool)
        ensures
            r == bit_of(self@.frame[21], powerful_offset(self@.model)),
    {
        let offset: u8 = match self.model {
            PanasonicAcModel::Rkr | PanasonicAcModel::Ckp => PANASONIC_AC_POWERFUL_CKP_OFFSET,
            _ => PANASONIC_AC_POWERFUL_OFFSET,
        };
        self.buffer.get_bit(21, offset)
    }

    /// Set ion filter mode (only the DKE model has one)
    pub fn set_ion(&mut self, on: bool) -> (r: Result<()>)
        ensures
            with_ion(old(self)@.frame, old(self)@.model, on) matches Some(b) ==> r is Ok
                && final(self)@.frame == b,
            with_ion(old(self)@.frame, old(self)@.model, on) is None ==> (r matches Err(
                Error::UnsupportedFeature { feature, model: Some(m) },
            ) && feature@ == "Ion filter"@ && m@ == old(self)@.model.label() && final(self)@.frame
                == old(self)@.frame),
            final(self)@.model == old(self)@.model,
    {
        if !self.model_supports_ion() {
            return Err(
                Error::UnsupportedFeature {
                    feature: String::from_str("Ion filter"),
                    model: Some(self.model.to_string()),
                },
            );
        }
        // Only DKE model supports ion

        self.buffer.set_bit(PANASONIC_AC_ION_FILTER_BYTE, PANASONIC_AC_ION_FILTER_OFFSET, on);
        Ok(())
    }

    /// Get ion filter status (always off for models without one)
    pub fn get_ion(&self) -> (r: bool)
        ensures
            r == (supports_ion(self@.model) && bit_of(
                self@.frame[22],
                PANASONIC_AC_ION_FILTER_OFFSET,
            )),
    {
        if !self.model_supports_ion() {
            return false;
        }
        self.buffer.get_bit(PANASONIC_AC_ION_FILTER_BYTE, PANASONIC_AC_ION_FILTER_OFFSET)
    }

    /// Set the clock time (hours capped at 23, minutes at 59)
    pub fn set_clock(&mut self, hours: u8, minutes: u8) -> (r: Result<()>)
        ensures
            r is Ok,
            final(self)@.frame == old(self)@.frame.update(24, capped_time(hours, minutes) as u8).update(
                25,
                with_bits(old(self)@.frame[25], 0, 3, (capped_time(hours, minutes) >> 8u16) as u8),
            ),
            final(self)@.model == old(self)@.model,
    {
        let hours: u8 = if hours < 23 {
            hours
        } else {
            23
        };
        let minutes: u8 = if minutes < 59 {
            minutes
        } else {
            59
        };
        let time: u16 = hours as u16 * 60 + minutes as u16;

        self.buffer[24] = time as u8;
        self.buffer.set_bits(25, 0, 3, (time >> 8u16) as u8);
        Ok(())
    }

    /// Get the clock time
    pub fn get_clock(&self) -> (r: (u8, u8))
        ensures
            r == clock_of(self@.frame),
    {
        let time: u16 = self.buffer[24] as u16 | ((self.buffer[25] & 0x07) as u16) << 8u16;
        Self::split_hours_minutes(time)
    }

    /// Hours and minutes of a stored time (the special value reads as 00:00)
    fn split_hours_minutes(time: u16) -> (r: (u8, u8))
        ensures
            r == hours_minutes(time),
    {
        if time == PANASONIC_AC_TIME_SPECIAL {
            return (0, 0);
        }
        let hours: u8 = (time / 60) as u8;
        let minutes: u8 = (time % 60) as u8;
        (hours, minutes)
    }

    /// Set the On Timer (minutes rounded down to a multiple of ten)
    pub fn set_on_timer(&mut self, hours: u8, minutes: u8, enable: bool) -> (r: Result<()>)
        ensures
            r is Ok,
            final(self)@.frame == old(self)@.frame.update(
                13,
                with_bit(old(self)@.frame[13], PANASONIC_AC_ON_TIMER_OFFSET, enable),
            ).update(18, timer_time(hours, minutes) as u8).update(
                19,
                with_bits(old(self)@.frame[19], 0, 3, (timer_time(hours, minutes) >> 8u16) as u8),
            ),
            final(self)@.model == old(self)@.model,
    {
        let hours: u8 = if hours < 23 {
            hours
        } else {
            23
        };
        let minutes: u8 = if minutes < 59 {
            minutes
        } else {
            59
        };
        // Round down to nearest 10 minutes
        let minutes: u8 = minutes - (minutes % 10);
        let time: u16 = hours as u16 * 60 + minutes as u16;

        // Set the timer flag
        self.buffer.set_bit(13, PANASONIC_AC_ON_TIMER_OFFSET, enable);

        // Store the time
        self.buffer[18] = time as u8;
        self.buffer.set_bits(19, 0, 3, (time >> 8u16) as u8);
        Ok(())
    }

    /// Cancel the On Timer
    pub fn cancel_on_timer(&mut self) -> (r: Result<()>)
        ensures
            r is Ok,
            final(self)@.frame == old(self)@.frame.update(
                13,
                with_bit(old(self)@.frame[13], PANASONIC_AC_ON_TIMER_OFFSET, false),
            ).update(18, 0).update(19, with_bits(old(self)@.frame[19], 0, 3, 0)),
            final(self)@.model == old(self)@.model,
    {
        assert(timer_time(0, 0) == 0);
        assert((0u16 >> 8u16) as u8 == 0) by (bit_vector);
        self.set_on_timer(0, 0, false)
    }

    /// Check if the On Timer is enabled
    pub fn is_on_timer_enabled(&self) -> (r: bool)
        ensures
            r == bit_of(self@.frame[13], PANASONIC_AC_ON_TIMER_OFFSET),
    {
        self.buffer.get_bit(13, PANASONIC_AC_ON_TIMER_OFFSET)
    }

    /// Get the On Timer time
    pub fn get_on_timer(&self) -> (r: (u8, u8))
        ensures
            r == on_timer_of(self@.frame),
    {
        let time: u16 = self.buffer[18] as u16 | ((self.buffer[19] & 0x07) as u16) << 8u16;
        Self::split_hours_minutes(time)
    }

    /// Set the Off Timer (minutes rounded down to a multiple of ten)
    pub fn set_off_timer(&mut self, hours: u8, minutes: u8, enable: bool) -> (r: Result<()>)
        ensures
            r is Ok,
            final(self)@.frame == old(self)@.frame.update(
                13,
                with_bit(old(self)@.frame[13], PANASONIC_AC_OFF_TIMER_OFFSET, enable),
            ).update(
                19,
                with_bits(old(self)@.frame[19], 4, 4, (timer_time(hours, minutes) & 0x0F) as u8),
            ).update(
                20,
                with_bits(old(self)@.frame[20], 0, 7, (timer_time(hours, minutes) >> 4u16) as u8),
            ),
            final(self)@.model == old(self)@.model,
    {
        let hours: u8 = if hours < 23 {
            hours
        } else {
            23
        };
        let minutes: u8 = if minutes < 59 {
            minutes
        } else {
            59
        };
        // Round down to nearest 10 minutes
        let minutes: u8 = minutes - (minutes % 10);
        let time: u16 = hours as u16 * 60 + minutes as u16;

        // Set the timer flag
        self.buffer.set_bit(13, PANASONIC_AC_OFF_TIMER_OFFSET, enable);

        // Store the time (different format than On Timer)
        self.buffer.set_bits(19, 4, 4, (time & 0x0F) as u8);
        self.buffer.set_bits(20, 0, 7, (time >> 4u16) as u8);
        Ok(())
    }

    /// Cancel the Off Timer
    pub fn cancel_off_timer(&mut self) -> (r: Result<()>)
        ensures
            r is Ok,
            final(self)@.frame == old(self)@.frame.update(
                13,
                with_bit(old(self)@.frame[13], PANASONIC_AC_OFF_TIMER_OFFSET, false),
            ).update(19, with_bits(old(self)@.frame[19], 4, 4, 0)).update(
                20,
                with_bits(old(self)@.frame[20], 0, 7, 0),
            ),
            final(self)@.model == old(self)@.model,
    {
        assert(timer_time(0, 0) == 0);
        assert((0u16 & 0x0Fu16) as u8 == 0 && (0u16 >> 4u16) as u8 == 0) by (bit_vector);
        self.set_off_timer(0, 0, false)
    }

    /// Check if the Off Timer is enabled
    pub fn is_off_timer_enabled(&self) -> (r: bool)
        ensures
            r == bit_of(self@.frame[13], PANASONIC_AC_OFF_TIMER_OFFSET),
    {
        self.buffer.get_bit(13, PANASONIC_AC_OFF_TIMER_OFFSET)
    }

    /// Get the Off Timer time
    pub fn get_off_timer(&self) -> (r: (u8, u8))
        ensures
            r == off_timer_of(self@.frame),
    {
        let time: u16 = ((self.buffer[19] >> 4u8) as u16) | ((self.buffer[20] & 0x7F) as u16) << 4u16;
        Self::split_hours_minutes(time)
    }

    /// Get a mutable reference to the buffer
    pub fn get_buffer_mut(&mut self) -> (r: &mut [u8; PANASONIC_AC_STATE_LENGTH])
        ensures
            r@ == old(self)@.frame,
            final(self)@ == (AcStateView { frame: final(r)@, model: old(self)@.model }),
    {
        &mut self.buffer
    }

    /// Calculate and fix the checksum for the current state
    pub fn fix_checksum(&mut self)
        ensures
            final(self)@.frame == old(self)@.frame.update(
                26,
                frame_checksum(old(self)@.frame, PANASONIC_AC_STATE_LENGTH as int),
            ),
            final(self)@.model == old(self)@.model,
    {
        let c = PanasonicEncoder::calculate_checksum(&self.buffer, PANASONIC_AC_STATE_LENGTH);
        self.buffer[PANASONIC_AC_STATE_LENGTH - 1] = c;
    }

    /// Verify the checksum for the state
    pub fn verify_checksum(&self) -> (r: bool)
        ensures
            r == checksum_valid(self@.frame, PANASONIC_AC_STATE_LENGTH as int),
    {
        PanasonicEncoder::verify_checksum(&self.buffer, PANASONIC_AC_STATE_LENGTH)
    }

    /// The state bytes with a correct checksum in the last byte
    pub fn to_vec(&self) -> (r: Vec<u8>)
        ensures
            r@ == self@.frame.update(
                26,
                frame_checksum(self@.frame, PANASONIC_AC_STATE_LENGTH as int),
            ),
    {
        let mut state = vstd::slice::slice_to_vec(&self.buffer);
        let c = PanasonicEncoder::calculate_checksum(state.as_slice(), PANASONIC_AC_STATE_LENGTH);
        state.set(PANASONIC_AC_STATE_LENGTH - 1, c);
        state
    }

    /// Detect model based on state buffer contents
    fn detect_model(&self) -> (r: PanasonicAcModel)
        ensures
            r == detect_model_of(self@.frame),
    {
        if self.buffer[23] == 0x89 {
            return PanasonicAcModel::Rkr;
        }
        if self.buffer[17] == 0x00 {
            if (self.buffer[21] & 0x10 != 0) && (self.buffer[23] & 0x01 != 0) {
                return PanasonicAcModel::Ckp;
            }
            if self.buffer[23] & 0x80 != 0 {
                return PanasonicAcModel::Jke;
            }
        }
        if self.buffer[17] == 0x06 && (self.buffer[13] & 0x0F) == 0x02 {
            return PanasonicAcModel::Lke;
        }
        if self.buffer[23] == 0x01 {
            return PanasonicAcModel::Dke;
        }
        if self.buffer[17] == 0x06 {
            return PanasonicAcModel::Nke;
        }
        PanasonicAcModel::Unknown
    }

    /// Set the model of the AC: writes the model-specific bytes (keeping the
    /// power bit) and records the model. The unknown model is recorded and its
    /// bytes written too, and then refused.
    pub fn set_model(&mut self, model: PanasonicAcModel) -> (r: Result<()>)
        ensures
            final(self)@.frame == model_frame(old(self)@.frame, model),
            final(self)@.model == model,
            model != PanasonicAcModel::Unknown ==> r is Ok,
            model == PanasonicAcModel::Unknown ==> (r matches Err(Error::InvalidValue(msg))
                && msg@ == "Unknown model"@),
    {
        self.model = model;
        let ghost b = self.buffer@;

        // Save the current power state before modifying the buffer
        let power_state = self.get_power();

        // Clear & set various bits and bytes according to the model, but preserve the power bit
        let power_mask: u8 = 1u8 << PANASONIC_AC_POWER_OFFSET;
        assert(power_mask == 1u8 && (0xF0u8 | power_mask) == 0xF1u8) by (bit_vector)
            requires
                power_mask == 1u8 << 0u8,
        ;
        let power_bit: u8 = self.buffer[13] & power_mask;
        let b13: u8 = self.buffer[13];

        self.buffer[13] &= 0xF0 | power_mask;
        self.buffer[17] = 0x00;
        self.buffer[21] &= 0b1110_1111;
        self.buffer[23] = 0x81;
        self.buffer[25] = 0x00;

        match model {
            PanasonicAcModel::Lke => {
                self.buffer[13] |= 0x02;
                self.buffer[17] = 0x06;
            },
            PanasonicAcModel::Dke => {
                self.buffer[23] = 0x01;
                self.buffer[25] = 0x06;
                // Set swing_h to Middle as default for DKE models
                self.buffer.set_bits(
                    17,
                    PANASONIC_AC_SWINGH_OFFSET,
                    PANASONIC_AC_SWINGH_SIZE,
                    PANASONIC_AC_SWING_H_MIDDLE,
                );
            },
            PanasonicAcModel::Nke => {
                self.buffer[17] = 0x06;
            },
            PanasonicAcModel::Jke => {},
            PanasonicAcModel::Ckp => {
                self.buffer[21] |= 0x10;
                self.buffer[23] = 0x01;
            },
            PanasonicAcModel::Rkr => {
                self.buffer[13] |= 0x08 | power_bit;  // Preserve power bit when setting model bits
                self.buffer[23] = 0x89;
                // Set swing_h to Middle as default for RKR models
                self.buffer.set_bits(
                    17,
                    PANASONIC_AC_SWINGH_OFFSET,
                    PANASONIC_AC_SWINGH_SIZE,
                    PANASONIC_AC_SWING_H_MIDDLE,
                );
            },
            PanasonicAcModel::Unknown => {
                assert(self.buffer@ =~= model_frame(b, model));
                return Err(Error::InvalidValue(String::from_str("Unknown model")));
            },
        }
        proof {
            lemma_model_bytes(b13, power_bit, power_state);
        }

        // Reset ion filter
        if self.model_supports_ion() {
            let ion = self.get_ion();
            proof {
                lemma_with_own_bit(self.buffer@[22], PANASONIC_AC_ION_FILTER_OFFSET);
            }
            self.set_ion(ion)?;
        }
        // Explicitly restore the power state

        self.set_power(power_state)?;
        assert(self.buffer@ =~= model_frame(b, model));
        Ok(())
    }

    /// Set the state from raw data: a frame of 27 bytes with a valid checksum,
    /// from which the model is detected. A known model is then set (which
    /// rewrites its model-specific bytes, keeping the power bit); an unknown
    /// one is only recorded.
    pub fn from_raw_data(&mut self, data: &[u8]) -> (r: Result<()>)
        ensures
            data@.len() != PANASONIC_AC_STATE_LENGTH ==> (r matches Err(Error::InvalidData(msg))
                && msg@ == "Expected "@ + decimal(PANASONIC_AC_STATE_LENGTH as nat) + " bytes, got "@
                + decimal(data@.len())),
            data@.len() == PANASONIC_AC_STATE_LENGTH && !checksum_valid(
                data@,
                PANASONIC_AC_STATE_LENGTH as int,
            ) ==> r matches Err(Error::InvalidChecksum),
            !(data@.len() == PANASONIC_AC_STATE_LENGTH && checksum_valid(
                data@,
                PANASONIC_AC_STATE_LENGTH as int,
            )) ==> final(self)@ == old(self)@,
            data@.len() == PANASONIC_AC_STATE_LENGTH && checksum_valid(
                data@,
                PANASONIC_AC_STATE_LENGTH as int,
            ) ==> {
                &&& r is Ok
                &&& final(self)@.model == detect_model_of(data@)
                &&& final(self)@.frame == if detect_model_of(data@) == PanasonicAcModel::Unknown {
                    data@
                } else {
                    model_frame(data@, detect_model_of(data@))
                }
            },
    {
        if data.len() != PANASONIC_AC_STATE_LENGTH {
            let mut msg = prefixed_decimal("Expected ", PANASONIC_AC_STATE_LENGTH as u64);
            let got = prefixed_decimal(" bytes, got ", data.len() as u64);
            msg.append(got.as_str());
            return Err(Error::InvalidData(msg));
        }
        // Verify checksum

        if !PanasonicEncoder::verify_checksum(data, PANASONIC_AC_STATE_LENGTH) {
            return Err(Error::InvalidChecksum);
        }
        // Extract power state from the incoming data before copying

        let power_bit: bool = data[13] & (1u8 << PANASONIC_AC_POWER_OFFSET) != 0;
        let d13: u8 = data[13];
        assert(((d13 & (1u8 << 0u8)) != 0) == bit_of(d13, 0)) by (bit_vector);

        // Copy the state
        copy_into_frame(&mut self.buffer, data);

        // Detect the model
        let detected_model = self.detect_model();

        // If we have a known model, set it (which will initialize model-specific fields)
        if detected_model != PanasonicAcModel::Unknown {
            // Set the model, which might reset some fields
            self.set_model(detected_model)?;
            proof {
                lemma_model_frame_keeps_power(data@, detected_model);
                lemma_with_own_bit(self.buffer@[13], PANASONIC_AC_POWER_OFFSET);
            }
            // Explicitly restore the power state from the incoming data
            self.set_power(power_bit)?;
            assert(self.buffer@ =~= model_frame(data@, detected_model));
        } else {
            self.model = detected_model;
        }
        Ok(())
    }
}


/// A time of day as two-digit hours and minutes separated by `':'`.
pub open spec fn hh_mm_text(t: (u8, u8)) -> Seq<char> {
    decimal_padded(t.0 as nat, 2) + ":"@ + decimal_padded(t.1 as nat, 2)
}

/// The one-line description of a state with frame `f` and model `m`: model,
/// power, mode, temperature, fan, swings, extra modes, clock and timers, with
/// `"Unknown"` for a setting that cannot be decoded and `"Off"` for a timer
/// that is not enabled.
pub open spec fn state_description(f: Seq<u8>, m: PanasonicAcModel) -> Seq<char> {
    "Model: "@ + m.label() + ", Power: "@ + on_off_text(power_of(f)) + ", Mode: "@ + (
    match AcMode::from_code(mode_field(f)) {
        Some(x) => x.label(),
        None => "Unknown"@,
    }) + ", Temp: "@ + decimal(f[14] as nat) + "°C, Fan: "@ + (match fan_of(f) {
        Some(x) => x.label(),
        None => "Unknown"@,
    }) + ", Swing V: "@ + (match SwingV::from_code(swing_v_field(f)) {
        Some(x) => x.label(),
        None => "Unknown"@,
    }) + ", Swing H: "@ + swing_h_of(f, m).label() + ", Quiet: "@ + on_off_text(
        bit_of(f[21], quiet_offset(m)),
    ) + ", Powerful: "@ + on_off_text(bit_of(f[21], powerful_offset(m))) + ", Ion: "@
        + on_off_text(supports_ion(m) && bit_of(f[22], 0)) + ", Clock: "@ + hh_mm_text(
        clock_of(f),
    ) + ", On Timer: "@ + (if bit_of(f[13], PANASONIC_AC_ON_TIMER_OFFSET) {
        hh_mm_text(on_timer_of(f))
    } else {
        "Off"@
    }) + ", Off Timer: "@ + (if bit_of(f[13], PANASONIC_AC_OFF_TIMER_OFFSET) {
        hh_mm_text(off_timer_of(f))
    } else {
        "Off"@
    })
}

/// A time of day as two-digit hours and minutes.
fn hh_mm(t: (u8, u8)) -> (r: String)
    ensures
        r@ == hh_mm_text(t),
{
    let mut r = decimal_string_padded(t.0 as u64, 2);
    push_char(&mut r, ':');
    let m = decimal_string_padded(t.1 as u64, 2);
    r.append(m.as_str());
    proof {
        reveal_strlit(":");
    }
    assert(r@ =~= hh_mm_text(t));
    r
}

impl PanasonicAcState {
    /// The one-line description of the state, as its `Display` form shows it.
    pub fn to_string(&self) -> (r: String)
        ensures
            r@ == state_description(self@.frame, self@.model),
    {
        let model = self.get_model().to_string();
        let mode = match self.get_mode() {
            Ok(mode) => mode.to_string(),
            Err(_) => String::from_str("Unknown"),
        };
        let temp = u64_to_decimal(self.get_temp() as u64);
        let fan = match self.get_fan() {
            Ok(fan) => fan.to_string(),
            Err(_) => String::from_str("Unknown"),
        };
        let swing_v = match self.get_swing_v() {
            Ok(swing) => swing.to_string(),
            Err(_) => String::from_str("Unknown"),
        };
        let swing_h = match self.get_swing_h() {
            Ok(swing) => swing.to_string(),
            Err(_) => String::from_str("Unknown"),
        };
        let clock = hh_mm(self.get_clock());
        let on_timer_status = if self.is_on_timer_enabled() {
            hh_mm(self.get_on_timer())
        } else {
            String::from_str("Off")
        };
        let off_timer_status = if self.is_off_timer_enabled() {
            hh_mm(self.get_off_timer())
        } else {
            String::from_str("Off")
        };

        let mut r = String::from_str("Model: ");
        r.append(model.as_str());
        r.append(", Power: ");
        r.append(bool_to_onoff(self.get_power()));
        r.append(", Mode: ");
        r.append(mode.as_str());
        r.append(", Temp: ");
        r.append(temp.as_str());
        r.append("°C, Fan: ");
        r.append(fan.as_str());
        r.append(", Swing V: ");
        r.append(swing_v.as_str());
        r.append(", Swing H: ");
        r.append(swing_h.as_str());
        r.append(", Quiet: ");
        r.append(bool_to_onoff(self.get_quiet()));
        r.append(", Powerful: ");
        r.append(bool_to_onoff(self.get_powerful()));
        r.append(", Ion: ");
        r.append(bool_to_onoff(self.get_ion()));
        r.append(", Clock: ");
        r.append(clock.as_str());
        r.append(", On Timer: ");
        r.append(on_timer_status.as_str());
        r.append(", Off Timer: ");
        r.append(off_timer_status.as_str());
        r
    }
}

/// The protocol value of a mode on AC32 models.
pub open spec fn ac32_mode_code(mode: AcMode) -> u8 {
    match mode {
        AcMode::Auto => PANASONIC_AC32_AUTO,
        AcMode::Cool => PANASONIC_AC32_COOL,
        AcMode::Heat => PANASONIC_AC32_HEAT,
        AcMode::Dry => PANASONIC_AC32_DRY,
        AcMode::Fan => PANASONIC_AC32_FAN,
    }
}

/// The AC32 mode whose protocol value is `v`, if any.
pub open spec fn ac32_mode_from_code(v: u8) -> Option<AcMode> {
    if v == PANASONIC_AC32_AUTO {
        Some(AcMode::Auto)
    } else if v == PANASONIC_AC32_COOL {
        Some(AcMode::Cool)
    } else if v == PANASONIC_AC32_HEAT {
        Some(AcMode::Heat)
    } else if v == PANASONIC_AC32_DRY {
        Some(AcMode::Dry)
    } else if v == PANASONIC_AC32_FAN {
        Some(AcMode::Fan)
    } else {
        None
    }
}

/// An AC32 state with its power toggle set: bit 24 clear means on.
pub open spec fn ac32_with_power(state: u32, on: bool) -> u32 {
    if on {
        state & !(1u32 << 24u32)
    } else {
        state | (1u32 << 24u32)
    }
}

/// The power toggle of an AC32 state: on when bit 24 is clear.
pub open spec fn ac32_power_of(state: u32) -> bool {
    (state & (1u32 << 24u32)) == 0
}

/// An AC32 state with its mode field (bits 8 to 10) set to the code of `mode`.
pub open spec fn ac32_with_mode(state: u32, mode: AcMode) -> u32 {
    (state & !(0x7u32 << 8u32)) | ((ac32_mode_code(mode) as u32) << 8u32)
}

/// An AC32 state with its temperature field (bits 16 to 20) set for `celsius`,
/// clamped to the AC32 range and stored as an offset from 15.
pub open spec fn ac32_with_temp(state: u32, celsius: u8) -> u32 {
    (state & !(0x1Fu32 << 16u32)) | (((ac32_clamp_temp(celsius) - (PANASONIC_AC32_MIN_TEMP - 1))
        as u32) << 16u32)
}

/// The mode field of an AC32 state (bits 8 to 10).
pub open spec fn ac32_mode_field(state: u32) -> u8 {
    ((state >> 8u32) & 0x7) as u8
}

/// The temperature of an AC32 state: bits 16 to 20 plus 15.
pub open spec fn ac32_temp_of(state: u32) -> u8 {
    (((state >> 16u32) & 0x1F) as u8 + (PANASONIC_AC32_MIN_TEMP - 1)) as u8
}

/// The AC32 temperature clamp, `celsius` brought into `[16, 30]`.
pub open spec fn ac32_clamp_temp(celsius: u8) -> u8 {
    if celsius < PANASONIC_AC32_MIN_TEMP {
        PANASONIC_AC32_MIN_TEMP
    } else if celsius > PANASONIC_AC32_MAX_TEMP {
        PANASONIC_AC32_MAX_TEMP
    } else {
        celsius
    }
}

/// The big-endian value of four bytes.
pub open spec fn be_u32(d: Seq<u8>) -> u32 {
    ((d[0] as u32) << 24u32) | ((d[1] as u32) << 16u32) | ((d[2] as u32) << 8u32) | (d[3] as u32)
}

/// State for AC32 models (simplified implementation)
#[derive(Clone, Copy, Debug)]
pub struct PanasonicAc32State {
    /// Raw state as a 32-bit value
    buffer: u32,
}

impl View for PanasonicAc32State {
    type V = u32;

    closed spec fn view(&self) -> u32 {
        self.buffer
    }
}

impl Default for PanasonicAc32State {
    fn default() -> (r: Self)
        ensures
            r@ == PANASONIC_AC32_KNOWN_GOOD,
    {
        Self { buffer: PANASONIC_AC32_KNOWN_GOOD }
    }
}

impl PanasonicAc32State {
    /// Create a new AC32 state with default values
    pub fn new() -> (r: Self)
        ensures
            r@ == PANASONIC_AC32_KNOWN_GOOD,
    {
        Self::default()
    }

    /// Get the raw buffer value
    pub fn get_buffer(&self) -> (r: u32)
        ensures
            r == self@,
    {
        self.buffer
    }

    /// Get the buffer as a byte array (big-endian)
    pub fn get_bytes(&self) -> (r: [u8; 4])
        ensures
            r@ == crate::encoder::command_bytes(self@),
    {
        let b = self.buffer;
        let r: [u8; 4] = [(b >> 24u32) as u8, (b >> 16u32) as u8, (b >> 8u32) as u8, b as u8];
        assert(r@ =~= crate::encoder::command_bytes(self@));
        r
    }

    /// Set the buffer from a byte array (four bytes, big-endian)
    pub fn set_from_bytes(&mut self, data: &[u8]) -> (r: Result<()>)
        ensures
            data@.len() != 4 ==> (r matches Err(Error::InvalidData(msg)) && msg@ == "Expected 4 bytes, got "@
                + decimal(data@.len()) && final(self)@ == old(self)@),
            data@.len() == 4 ==> r is Ok && final(self)@ == be_u32(data@),
    {
        if data.len() != 4 {
            return Err(Error::InvalidData(prefixed_decimal("Expected 4 bytes, got ", data.len() as u64)));
        }
        // Convert bytes to u32, most significant first

        let buffer: u32 = ((data[0] as u32) << 24u32) | ((data[1] as u32) << 16u32) | ((
        data[2] as u32) << 8u32) | (data[3] as u32);
        self.buffer = buffer;
        Ok(())
    }

    /// Set power toggle state (bit 24 clear means on)
    pub fn set_power_toggle(&mut self, on: bool) -> (r: Result<()>)
        ensures
            r is Ok,
            final(self)@ == ac32_with_power(old(self)@, on),
    {
        if on {
            self.buffer &= !(1u32 << 24u32);
        } else {
            self.buffer |= 1u32 << 24u32;
        }
        Ok(())
    }

    /// Get power toggle state
    pub fn get_power_toggle(&self) -> (r: bool)
        ensures
            r == ac32_power_of(self@),
    {
        (self.buffer & (1u32 << 24u32)) == 0
    }

    /// Set the operating mode
    pub fn set_mode(&mut self, mode: AcMode) -> (r: Result<()>)
        ensures
            r is Ok,
            final(self)@ == ac32_with_mode(old(self)@, mode),
    {
        // AC32 uses different mode values
        let mode_value: u8 = match mode {
            AcMode::Auto => PANASONIC_AC32_AUTO,
            AcMode::Cool => PANASONIC_AC32_COOL,
            AcMode::Heat => PANASONIC_AC32_HEAT,
            AcMode::Dry => PANASONIC_AC32_DRY,
            AcMode::Fan => PANASONIC_AC32_FAN,
        };

        // Clear bits 8-10 and set new mode
        self.buffer &= !(0x7u32 << 8u32);
        self.buffer |= (mode_value as u32) << 8u32;
        Ok(())
    }

    /// Get the current operating mode
    pub fn get_mode(&self) -> (r: Result<AcMode>)
        ensures
            ac32_mode_from_code(ac32_mode_field(self@)) matches Some(m) ==> r == Ok::<AcMode, Error>(m),
            ac32_mode_from_code(ac32_mode_field(self@)) is None ==> (r matches Err(
                Error::InvalidValue(msg),
            ) && msg@ == "Invalid mode: "@ + decimal(ac32_mode_field(self@) as nat)),
    {
        let mode: u8 = ((self.buffer >> 8u32) & 0x7) as u8;
        match mode {
            PANASONIC_AC32_AUTO => Ok(AcMode::Auto),
            PANASONIC_AC32_COOL => Ok(AcMode::Cool),
            PANASONIC_AC32_HEAT => Ok(AcMode::Heat),
            PANASONIC_AC32_DRY => Ok(AcMode::Dry),
            PANASONIC_AC32_FAN => Ok(AcMode::Fan),
            _ => Err(Error::InvalidValue(prefixed_decimal("Invalid mode: ", mode as u64))),
        }
    }

    /// Set the temperature in Celsius (clamped to the 16-30 range)
    pub fn set_temp(&mut self, celsius: u8) -> (r: Result<()>)
        ensures
            r is Ok,
            final(self)@ == ac32_with_temp(old(self)@, celsius),
    {
        let temp: u8 = if celsius > PANASONIC_AC32_MIN_TEMP {
            celsius
        } else {
            PANASONIC_AC32_MIN_TEMP
        };
        let temp: u8 = if temp < PANASONIC_AC32_MAX_TEMP {
            temp
        } else {
            PANASONIC_AC32_MAX_TEMP
        };

        // Clear bits 16-20 and set new temperature
        self.buffer &= !(0x1Fu32 << 16u32);
        self.buffer |= ((temp - (PANASONIC_AC32_MIN_TEMP - 1)) as u32) << 16u32;
        Ok(())
    }

    /// Get the current temperature setting in Celsius
    pub fn get_temp(&self) -> (r: u8)
        ensures
            r == ac32_temp_of(self@),
    {
        let buffer: u32 = self.buffer;
        let field: u8 = ((buffer >> 16u32) & 0x1F) as u8;
        assert(field <= 31) by (bit_vector)
            requires
                field == ((buffer >> 16u32) & 0x1F) as u8,
        ;
        field + (PANASONIC_AC32_MIN_TEMP - 1)
    }
}


/// The frame that is sent for a state's frame: the frame with its checksum
/// fixed in the last byte (what `to_vec` returns).
pub open spec fn sent_frame(frame: Seq<u8>) -> Seq<u8> {
    frame.update(26, frame_checksum(frame, PANASONIC_AC_STATE_LENGTH as int))
}

/// The frame that a state holds after `from_raw_data` accepts `data`.
pub open spec fn received_frame(data: Seq<u8>) -> Seq<u8> {
    if detect_model_of(data) == PanasonicAcModel::Unknown {
        data
    } else {
        model_frame(data, detect_model_of(data))
    }
}

/// A frame with its checksum fixed passes the checksum test.
pub proof fn law_sent_frame_checksum(frame: Seq<u8>)
    requires
        frame.len() == PANASONIC_AC_STATE_LENGTH,
    ensures
        checksum_valid(sent_frame(frame), PANASONIC_AC_STATE_LENGTH as int),
{
    let v = sent_frame(frame);
    assert(v.take(26) =~= frame.take(26));
}

/// Setting the model keeps the settings: after `set_model` the state reports
/// the power, mode, temperature, fan speed and vertical swing it had.
pub proof fn law_model_keeps_settings(frame: Seq<u8>, model: PanasonicAcModel)
    requires
        frame.len() == PANASONIC_AC_STATE_LENGTH,
    ensures
        power_of(model_frame(frame, model)) == power_of(frame),
        mode_field(model_frame(frame, model)) == mode_field(frame),
        model_frame(frame, model)[14] == frame[14],
        fan_of(model_frame(frame, model)) == fan_of(frame),
        swing_v_field(model_frame(frame, model)) == swing_v_field(frame),
{
    lemma_model_frame_keeps_power(frame, model);
    let x = frame[13];
    assert(bits_of(x & 0xF1, 4, 4) == bits_of(x, 4, 4) && bits_of((x & 0xF1) | 0x02, 4, 4)
        == bits_of(x, 4, 4) && bits_of((x & 0xF1) | 0x08, 4, 4) == bits_of(x, 4, 4))
        by (bit_vector);
}

/// Raw-state round trip: the bytes that one state sends are accepted by
/// another state (their checksum is valid), and the receiving state reports
/// the same power, mode, temperature, fan speed and vertical swing.
pub proof fn law_raw_state_roundtrip(frame: Seq<u8>)
    requires
        frame.len() == PANASONIC_AC_STATE_LENGTH,
    ensures
        checksum_valid(sent_frame(frame), PANASONIC_AC_STATE_LENGTH as int),
        power_of(received_frame(sent_frame(frame))) == power_of(frame),
        mode_field(received_frame(sent_frame(frame))) == mode_field(frame),
        received_frame(sent_frame(frame))[14] == frame[14],
        fan_field(received_frame(sent_frame(frame))) == fan_field(frame),
        fan_of(received_frame(sent_frame(frame))) == fan_of(frame),
        swing_v_field(received_frame(sent_frame(frame))) == swing_v_field(frame),
{
    law_sent_frame_checksum(frame);
    let v = sent_frame(frame);
    let r = received_frame(v);
    let x = frame[13];
    if detect_model_of(v) != PanasonicAcModel::Unknown {
        lemma_model_frame_keeps_power(v, detect_model_of(v));
        assert(bits_of(x & 0xF1, 4, 4) == bits_of(x, 4, 4) && bits_of((x & 0xF1) | 0x02, 4, 4)
            == bits_of(x, 4, 4) && bits_of((x & 0xF1) | 0x08, 4, 4) == bits_of(x, 4, 4))
            by (bit_vector);
    }
    assert(r[16] == frame[16]);
}

/// Model round trip through raw bytes: after `set_model(m)` and then
/// `set_power`, `set_mode` and `set_temp`, the bytes the state sends pass the
/// checksum test and a state that takes them reads back the model `m`, the
/// power, the mode and the (clamped) temperature. It fails for the LKE model
/// with the power on, whose bytes read as NKE; that case is left out.
pub proof fn law_raw_model_roundtrip(
    frame: Seq<u8>,
    m: PanasonicAcModel,
    on: bool,
    mode: AcMode,
    celsius: u8,
)
    requires
        frame.len() == PANASONIC_AC_STATE_LENGTH,
        m != PanasonicAcModel::Unknown,
        m == PanasonicAcModel::Lke ==> !on,
    ensures
        ({
            let f = with_temp(with_mode(with_power(model_frame(frame, m), on), mode), celsius);
            &&& checksum_valid(sent_frame(f), PANASONIC_AC_STATE_LENGTH as int)
            &&& detect_model_of(sent_frame(f)) == m
            &&& power_of(received_frame(sent_frame(f))) == on
            &&& AcMode::from_code(mode_field(received_frame(sent_frame(f)))) == Some(mode)
            &&& received_frame(sent_frame(f))[14] == clamp_temp(celsius)
        }),
{
    let f0 = model_frame(frame, m);
    let f1 = with_power(f0, on);
    let f2 = with_mode(f1, mode);
    let f = with_temp(f2, celsius);
    let v = sent_frame(f);
    law_power_roundtrip(f0, on);
    law_mode_roundtrip(f1, mode);
    law_raw_state_roundtrip(f);
    // Byte 13: the power bit and the mode nibble leave the model bits alone
    let x = frame[13];
    let y = f0[13];
    let code = mode.code();
    assert(f[13] == (with_bit(y, 0, on) & 0x0F) | (code << 4u8));
    let z = frame[21];
    assert({
        &&& (((with_bit(x & 0xF1, 0, on) & 0x0F) | (code << 4u8)) & 0x0F) <= 1u8
        &&& ((with_bit((x & 0xF1) | 0x02, 0, false) & 0x0F) | (code << 4u8)) & 0x0F == 0x02u8
        &&& (z & 0xEF) & 0x10 == 0u8
        &&& ((z & 0xEF) | 0x10) & 0x10 != 0u8
        &&& 0x81u8 & 0x80 != 0u8
        &&& 0x01u8 & 0x01 != 0u8
        &&& bit_of((with_bit(y, 0, on) & 0x0F) | (code << 4u8), 0) == on
    }) by (bit_vector);
    assert(f[17] == f0[17] && f[21] == f0[21] && f[23] == f0[23]);
    assert(v[13] == f[13] && v[17] == f[17] && v[21] == f[21] && v[23] == f[23]);
    assert(detect_model_of(v) == m);
    // Power and mode survive the model bytes that the receiving state writes
    assert(power_of(f) == on);
    assert(mode_field(f) == mode_field(f2));
}

/// Power round trip: after `set_power(on)` the state reports `on`.
pub proof fn law_power_roundtrip(frame: Seq<u8>, on: bool)
    requires
        frame.len() == PANASONIC_AC_STATE_LENGTH,
    ensures
        power_of(with_power(frame, on)) == on,
{
    let b = frame[13];
    assert(bit_of(with_bit(b, 0, on), 0) == on) by (bit_vector);
}

/// Mode round trip: after `set_mode(mode)` the state reports `mode`.
pub proof fn law_mode_roundtrip(frame: Seq<u8>, mode: AcMode)
    requires
        frame.len() == PANASONIC_AC_STATE_LENGTH,
    ensures
        AcMode::from_code(mode_field(with_mode(frame, mode))) == Some(mode),
        mode_field(with_mode(frame, mode)) == mode.code(),
{
    let b = if mode == AcMode::Fan {
        frame.update(14, PANASONIC_AC_FAN_MODE_TEMP)
    } else {
        frame
    };
    let x = b[13];
    let c = mode.code();
    assert(bits_of((x & 0x0F) | (c << 4u8), 4, 4) == c) by (bit_vector)
        requires
            c < 16,
    ;
}

/// Temperature round trip: after `set_temp(celsius)` the state reports the
/// temperature clamped to `[16, 30]`.
pub proof fn law_temp_roundtrip(frame: Seq<u8>, celsius: u8)
    requires
        frame.len() == PANASONIC_AC_STATE_LENGTH,
    ensures
        with_temp(frame, celsius)[14] == clamp_temp(celsius),
        PANASONIC_AC_MIN_TEMP <= with_temp(frame, celsius)[14] <= PANASONIC_AC_MAX_TEMP,
{
}

/// Fan round trip: after `set_fan(speed)` the state reports `speed`.
pub proof fn law_fan_roundtrip(frame: Seq<u8>, speed: FanSpeed)
    requires
        frame.len() == PANASONIC_AC_STATE_LENGTH,
    ensures
        fan_of(with_fan(frame, speed)) == Some(speed),
        fan_field(with_fan(frame, speed)) == speed.code() + PANASONIC_AC_FAN_DELTA,
{
    let b = frame[16];
    let v = (speed.code() + PANASONIC_AC_FAN_DELTA) as u8;
    assert(bits_of((b & 0x0F) | (v << 4u8), 4, 4) == v) by (bit_vector)
        requires
            v < 16,
    ;
}

/// Vertical swing round trip: after `set_swing_v(position)` the state reports `position`.
pub proof fn law_swing_v_roundtrip(frame: Seq<u8>, position: SwingV)
    requires
        frame.len() == PANASONIC_AC_STATE_LENGTH,
    ensures
        SwingV::from_code(swing_v_field(with_swing_v(frame, position))) == Some(position),
        swing_v_field(with_swing_v(frame, position)) == position.code(),
{
    let b = frame[16];
    let c = position.code();
    assert(bits_of((b & 0xF0) | c, 0, 4) == c) by (bit_vector)
        requires
            c < 16,
    ;
}

/// Horizontal swing round trip: on a model that swings horizontally, after
/// `set_swing_h(position)` the state reports `position`; on the NKE and LKE
/// models it reports Middle whatever was asked.
pub proof fn law_swing_h_roundtrip(frame: Seq<u8>, model: PanasonicAcModel, position: SwingH)
    requires
        frame.len() == PANASONIC_AC_STATE_LENGTH,
    ensures
        with_swing_h(frame, model, position) matches Some(b) ==> swing_h_of(b, model) == if supports_swing_h(
            model,
        ) {
            position
        } else {
            SwingH::Middle
        },
        with_swing_h(frame, model, position) is None <==> !(supports_swing_h(model) || model
            == PanasonicAcModel::Nke || model == PanasonicAcModel::Lke),
        with_swing_h(frame, model, position) matches Some(b) ==> swing_h_field(b) == if supports_swing_h(
            model,
        ) {
            position.code()
        } else {
            SwingH::Middle.code()
        },
{
    let b = frame[17];
    let c = if supports_swing_h(model) {
        position.code()
    } else {
        SwingH::Middle.code()
    };
    assert(bits_of((b & 0xF0) | c, 0, 4) == c) by (bit_vector)
        requires
            c < 16,
    ;
}

/// The protocol values of the modes: `set_mode` writes into the mode field of
/// byte 13 the constant named for the mode (Auto 0, Cool 2, Dry 3, Heat 4,
/// Fan 6), and a mode field holding one of them reads back as that mode.
pub proof fn law_mode_codes(frame: Seq<u8>)
    requires
        frame.len() == PANASONIC_AC_STATE_LENGTH,
    ensures
        mode_field(with_mode(frame, AcMode::Auto)) == crate::constants::PANASONIC_AC_AUTO,
        mode_field(with_mode(frame, AcMode::Cool)) == crate::constants::PANASONIC_AC_COOL,
        mode_field(with_mode(frame, AcMode::Heat)) == crate::constants::PANASONIC_AC_HEAT,
        mode_field(with_mode(frame, AcMode::Dry)) == crate::constants::PANASONIC_AC_DRY,
        mode_field(with_mode(frame, AcMode::Fan)) == crate::constants::PANASONIC_AC_FAN,
        AcMode::from_code(crate::constants::PANASONIC_AC_AUTO) == Some(AcMode::Auto),
        AcMode::from_code(crate::constants::PANASONIC_AC_COOL) == Some(AcMode::Cool),
        AcMode::from_code(crate::constants::PANASONIC_AC_HEAT) == Some(AcMode::Heat),
        AcMode::from_code(crate::constants::PANASONIC_AC_DRY) == Some(AcMode::Dry),
        AcMode::from_code(crate::constants::PANASONIC_AC_FAN) == Some(AcMode::Fan),
{
    law_mode_roundtrip(frame, AcMode::Auto);
    law_mode_roundtrip(frame, AcMode::Cool);
    law_mode_roundtrip(frame, AcMode::Heat);
    law_mode_roundtrip(frame, AcMode::Dry);
    law_mode_roundtrip(frame, AcMode::Fan);
}

/// The protocol values of the fan speeds: `set_fan` writes into the fan field
/// of byte 16 the constant named for the speed (Auto 0 to Max 5) plus the fan
/// delta 3.
pub proof fn law_fan_codes(frame: Seq<u8>)
    requires
        frame.len() == PANASONIC_AC_STATE_LENGTH,
    ensures
        fan_field(with_fan(frame, FanSpeed::Auto)) == crate::constants::PANASONIC_AC_FAN_AUTO + 3,
        fan_field(with_fan(frame, FanSpeed::Min)) == crate::constants::PANASONIC_AC_FAN_MIN + 3,
        fan_field(with_fan(frame, FanSpeed::Low)) == crate::constants::PANASONIC_AC_FAN_LOW + 3,
        fan_field(with_fan(frame, FanSpeed::Medium)) == crate::constants::PANASONIC_AC_FAN_MED + 3,
        fan_field(with_fan(frame, FanSpeed::High)) == crate::constants::PANASONIC_AC_FAN_HIGH + 3,
        fan_field(with_fan(frame, FanSpeed::Max)) == crate::constants::PANASONIC_AC_FAN_MAX + 3,
{
    law_fan_roundtrip(frame, FanSpeed::Auto);
    law_fan_roundtrip(frame, FanSpeed::Min);
    law_fan_roundtrip(frame, FanSpeed::Low);
    law_fan_roundtrip(frame, FanSpeed::Medium);
    law_fan_roundtrip(frame, FanSpeed::High);
    law_fan_roundtrip(frame, FanSpeed::Max);
}

/// The protocol values of the vertical swing: `set_swing_v` writes into the
/// low nibble of byte 16 the constant named for the position (Auto 0xF,
/// Highest 1, High 2, Middle 3, Low 4, Lowest 5), and a field holding one of
/// them reads back as that position.
pub proof fn law_swing_v_codes(frame: Seq<u8>)
    requires
        frame.len() == PANASONIC_AC_STATE_LENGTH,
    ensures
        swing_v_field(with_swing_v(frame, SwingV::Auto)) == crate::constants::PANASONIC_AC_SWING_V_AUTO,
        swing_v_field(with_swing_v(frame, SwingV::Highest))
            == crate::constants::PANASONIC_AC_SWING_V_HIGHEST,
        swing_v_field(with_swing_v(frame, SwingV::High)) == crate::constants::PANASONIC_AC_SWING_V_HIGH,
        swing_v_field(with_swing_v(frame, SwingV::Middle))
            == crate::constants::PANASONIC_AC_SWING_V_MIDDLE,
        swing_v_field(with_swing_v(frame, SwingV::Low)) == crate::constants::PANASONIC_AC_SWING_V_LOW,
        swing_v_field(with_swing_v(frame, SwingV::Lowest))
            == crate::constants::PANASONIC_AC_SWING_V_LOWEST,
        SwingV::from_code(crate::constants::PANASONIC_AC_SWING_V_AUTO) == Some(SwingV::Auto),
        SwingV::from_code(crate::constants::PANASONIC_AC_SWING_V_HIGHEST) == Some(SwingV::Highest),
        SwingV::from_code(crate::constants::PANASONIC_AC_SWING_V_HIGH) == Some(SwingV::High),
        SwingV::from_code(crate::constants::PANASONIC_AC_SWING_V_MIDDLE) == Some(SwingV::Middle),
        SwingV::from_code(crate::constants::PANASONIC_AC_SWING_V_LOW) == Some(SwingV::Low),
        SwingV::from_code(crate::constants::PANASONIC_AC_SWING_V_LOWEST) == Some(SwingV::Lowest),
{
    law_swing_v_roundtrip(frame, SwingV::Auto);
    law_swing_v_roundtrip(frame, SwingV::Highest);
    law_swing_v_roundtrip(frame, SwingV::High);
    law_swing_v_roundtrip(frame, SwingV::Middle);
    law_swing_v_roundtrip(frame, SwingV::Low);
    law_swing_v_roundtrip(frame, SwingV::Lowest);
}

/// The protocol values of the horizontal swing: on the DKE and RKR models
/// `set_swing_h` writes into the low nibble of byte 17 the constant named for
/// the position (Auto 0xD, Middle 6, Full left 9, Left 0xA, Right 0xB, Full
/// right 0xC); the NKE and LKE models write the Middle value whatever is asked.
pub proof fn law_swing_h_codes(frame: Seq<u8>, model: PanasonicAcModel)
    requires
        frame.len() == PANASONIC_AC_STATE_LENGTH,
        supports_swing_h(model),
    ensures
        swing_h_field(with_swing_h(frame, model, SwingH::Auto)->0)
            == crate::constants::PANASONIC_AC_SWING_H_AUTO,
        swing_h_field(with_swing_h(frame, model, SwingH::Middle)->0)
            == crate::constants::PANASONIC_AC_SWING_H_MIDDLE,
        swing_h_field(with_swing_h(frame, model, SwingH::FullLeft)->0)
            == crate::constants::PANASONIC_AC_SWING_H_FULL_LEFT,
        swing_h_field(with_swing_h(frame, model, SwingH::Left)->0)
            == crate::constants::PANASONIC_AC_SWING_H_LEFT,
        swing_h_field(with_swing_h(frame, model, SwingH::Right)->0)
            == crate::constants::PANASONIC_AC_SWING_H_RIGHT,
        swing_h_field(with_swing_h(frame, model, SwingH::FullRight)->0)
            == crate::constants::PANASONIC_AC_SWING_H_FULL_RIGHT,
        swing_h_field(with_swing_h(frame, PanasonicAcModel::Nke, SwingH::Left)->0)
            == crate::constants::PANASONIC_AC_SWING_H_MIDDLE,
{
    law_swing_h_roundtrip(frame, model, SwingH::Auto);
    law_swing_h_roundtrip(frame, model, SwingH::Middle);
    law_swing_h_roundtrip(frame, model, SwingH::FullLeft);
    law_swing_h_roundtrip(frame, model, SwingH::Left);
    law_swing_h_roundtrip(frame, model, SwingH::Right);
    law_swing_h_roundtrip(frame, model, SwingH::FullRight);
    law_swing_h_roundtrip(frame, PanasonicAcModel::Nke, SwingH::Left);
}

/// The bits of the special modes: on the CKP and RKR models quiet mode is bit
/// 3 and powerful mode bit 7 of byte 21; on the other models quiet mode is
/// bit 0 and powerful mode bit 5; the DKE model's ion filter is bit 0 of byte
/// 22. Each setter writes its own bit.
pub proof fn law_special_mode_bits(frame: Seq<u8>, model: PanasonicAcModel, on: bool)
    requires
        frame.len() == PANASONIC_AC_STATE_LENGTH,
    ensures
        model == PanasonicAcModel::Ckp || model == PanasonicAcModel::Rkr ==> {
            &&& bit_of(with_quiet(frame, model, on)[21], 3) == on
            &&& bit_of(with_powerful(frame, model, on)[21], 7) == on
            &&& quiet_offset(model) == crate::constants::PANASONIC_AC_QUIET_CKP_OFFSET
            &&& powerful_offset(model) == crate::constants::PANASONIC_AC_POWERFUL_CKP_OFFSET
        },
        !(model == PanasonicAcModel::Ckp || model == PanasonicAcModel::Rkr) ==> {
            &&& bit_of(with_quiet(frame, model, on)[21], 0) == on
            &&& bit_of(with_powerful(frame, model, on)[21], 5) == on
            &&& quiet_offset(model) == crate::constants::PANASONIC_AC_QUIET_OFFSET
            &&& powerful_offset(model) == crate::constants::PANASONIC_AC_POWERFUL_OFFSET
        },
        bit_of(with_ion(frame, PanasonicAcModel::Dke, on)->0[22], 0) == on,
{
    let q = quiet_offset(model);
    let p = powerful_offset(model);
    let y = frame[21];
    if on {
        crate::device::lemma_mode_bits(with_bit(y, p, false), q, p, true);
        crate::device::lemma_mode_bits(with_bit(y, q, false), p, q, true);
    } else {
        crate::device::lemma_mode_bits(y, q, p, false);
        crate::device::lemma_mode_bits(y, p, q, false);
    }
    crate::device::lemma_mode_bits(frame[22], 0, 1, on);
}

/// The protocol values of the AC32 modes: the mode field of the 32-bit state
/// holds the constant named for the mode.
pub proof fn law_ac32_mode_codes(state: u32)
    ensures
        ac32_mode_field(ac32_with_mode(state, AcMode::Auto)) == PANASONIC_AC32_AUTO,
        ac32_mode_field(ac32_with_mode(state, AcMode::Cool)) == PANASONIC_AC32_COOL,
        ac32_mode_field(ac32_with_mode(state, AcMode::Heat)) == PANASONIC_AC32_HEAT,
        ac32_mode_field(ac32_with_mode(state, AcMode::Dry)) == PANASONIC_AC32_DRY,
        ac32_mode_field(ac32_with_mode(state, AcMode::Fan)) == PANASONIC_AC32_FAN,
{
    law_ac32_roundtrip(state, AcMode::Auto, 0, true);
    law_ac32_roundtrip(state, AcMode::Cool, 0, true);
    law_ac32_roundtrip(state, AcMode::Heat, 0, true);
    law_ac32_roundtrip(state, AcMode::Dry, 0, true);
    law_ac32_roundtrip(state, AcMode::Fan, 0, true);
}

/// Quiet and powerful modes exclude each other: turning one on turns the other
/// off (their bits differ on every model).
pub proof fn law_quiet_powerful_exclusive(frame: Seq<u8>, model: PanasonicAcModel)
    requires
        frame.len() == PANASONIC_AC_STATE_LENGTH,
    ensures
        bit_of(with_quiet(frame, model, true)[21], quiet_offset(model)),
        !bit_of(with_quiet(frame, model, true)[21], powerful_offset(model)),
        bit_of(with_powerful(frame, model, true)[21], powerful_offset(model)),
        !bit_of(with_powerful(frame, model, true)[21], quiet_offset(model)),
        !bit_of(with_quiet(frame, model, false)[21], quiet_offset(model)),
        !bit_of(with_powerful(frame, model, false)[21], powerful_offset(model)),
{
    let b = frame[21];
    let q = quiet_offset(model);
    let p = powerful_offset(model);
    assert(bit_of(with_bit(with_bit(b, p, false), q, true), q) && !bit_of(
        with_bit(with_bit(b, p, false), q, true),
        p,
    ) && bit_of(with_bit(with_bit(b, q, false), p, true), p) && !bit_of(
        with_bit(with_bit(b, q, false), p, true),
        q,
    ) && !bit_of(with_bit(b, q, false), q) && !bit_of(with_bit(b, p, false), p)) by (bit_vector)
        requires
            q < 8,
            p < 8,
            q != p,
    ;
}

/// Ion filter round trip: on the DKE model, after `set_ion(on)` the state
/// reports `on`; the other models refuse it.
pub proof fn law_ion_roundtrip(frame: Seq<u8>, model: PanasonicAcModel, on: bool)
    requires
        frame.len() == PANASONIC_AC_STATE_LENGTH,
    ensures
        with_ion(frame, model, on) matches Some(b) ==> (supports_ion(model) && bit_of(
            b[22],
            PANASONIC_AC_ION_FILTER_OFFSET,
        )) == on,
        with_ion(frame, model, on) is None <==> !supports_ion(model),
{
    let b = frame[22];
    assert(bit_of(with_bit(b, 0, on), 0) == on) by (bit_vector);
}

/// A bit written with `with_bit` reads back.
pub proof fn law_bit_roundtrip(b: u8, q: u8, on: bool)
    requires
        q < 8,
    ensures
        bit_of(with_bit(b, q, on), q) == on,
{
    assert(bit_of(with_bit(b, q, on), q) == on) by (bit_vector)
        requires
            q < 8,
    ;
}

/// A time below 2048 stored in a low byte and the low three bits of a high
/// byte reads back.
proof fn lemma_split_time_roundtrip(t: u16, high: u8)
    requires
        t < 2048,
    ensures
        split_time(t as u8, with_bits(high, 0, 3, (t >> 8u16) as u8)) == t,
{
    assert(split_time(t as u8, with_bits(high, 0, 3, (t >> 8u16) as u8)) == t) by (bit_vector)
        requires
            t < 2048,
    ;
}

/// Hours and minutes of `60 * h + m` for `h <= 23`, `m <= 59`.
proof fn lemma_hours_minutes(h: u8, m: u8)
    requires
        h <= 23,
        m <= 59,
    ensures
        hours_minutes((h * 60 + m) as u16) == (h, m),
{
    let t = (h * 60 + m) as u16;
    assert(t as int == 60 * h + m);
    assert(t / 60 == h && t % 60 == m) by (nonlinear_arith)
        requires
            t as int == 60 * h + m,
            m < 60,
    ;
}

/// Clock round trip: after `set_clock(hours, minutes)` the state reports the
/// time with hours capped at 23 and minutes at 59.
pub proof fn law_clock_roundtrip(frame: Seq<u8>, hours: u8, minutes: u8)
    requires
        frame.len() == PANASONIC_AC_STATE_LENGTH,
    ensures
        clock_of(
            frame.update(24, capped_time(hours, minutes) as u8).update(
                25,
                with_bits(frame[25], 0, 3, (capped_time(hours, minutes) >> 8u16) as u8),
            ),
        ) == (if hours > 23 { 23u8 } else { hours }, if minutes > 59 { 59u8 } else { minutes }),
{
    let h = if hours > 23 { 23u8 } else { hours };
    let m = if minutes > 59 { 59u8 } else { minutes };
    lemma_split_time_roundtrip(capped_time(hours, minutes), frame[25]);
    lemma_hours_minutes(h, m);
}

/// On-timer round trip: after `set_on_timer(hours, minutes, enable)` the timer
/// flag is `enable` and the state reports the capped time, minutes rounded
/// down to a multiple of ten.
pub proof fn law_on_timer_roundtrip(frame: Seq<u8>, hours: u8, minutes: u8, enable: bool)
    requires
        frame.len() == PANASONIC_AC_STATE_LENGTH,
    ensures
        ({
            let after = frame.update(
                13,
                with_bit(frame[13], PANASONIC_AC_ON_TIMER_OFFSET, enable),
            ).update(18, timer_time(hours, minutes) as u8).update(
                19,
                with_bits(frame[19], 0, 3, (timer_time(hours, minutes) >> 8u16) as u8),
            );
            let m = if minutes > 59 { 59u8 } else { minutes };
            &&& bit_of(after[13], PANASONIC_AC_ON_TIMER_OFFSET) == enable
            &&& on_timer_of(after) == (if hours > 23 { 23u8 } else { hours }, (m - m % 10) as u8)
        }),
{
    let h = if hours > 23 { 23u8 } else { hours };
    let m = if minutes > 59 { 59u8 } else { minutes };
    law_bit_roundtrip(frame[13], PANASONIC_AC_ON_TIMER_OFFSET, enable);
    lemma_split_time_roundtrip(timer_time(hours, minutes), frame[19]);
    lemma_hours_minutes(h, (m - m % 10) as u8);
}

/// Off-timer round trip: after `set_off_timer(hours, minutes, enable)` the
/// timer flag is `enable` and the state reports the capped time, minutes
/// rounded down to a multiple of ten.
pub proof fn law_off_timer_roundtrip(frame: Seq<u8>, hours: u8, minutes: u8, enable: bool)
    requires
        frame.len() == PANASONIC_AC_STATE_LENGTH,
    ensures
        ({
            let after = frame.update(
                13,
                with_bit(frame[13], PANASONIC_AC_OFF_TIMER_OFFSET, enable),
            ).update(
                19,
                with_bits(frame[19], 4, 4, (timer_time(hours, minutes) & 0x0F) as u8),
            ).update(20, with_bits(frame[20], 0, 7, (timer_time(hours, minutes) >> 4u16) as u8));
            let m = if minutes > 59 { 59u8 } else { minutes };
            &&& bit_of(after[13], PANASONIC_AC_OFF_TIMER_OFFSET) == enable
            &&& off_timer_of(after) == (if hours > 23 { 23u8 } else { hours }, (m - m % 10) as u8)
        }),
{
    let h = if hours > 23 { 23u8 } else { hours };
    let m = if minutes > 59 { 59u8 } else { minutes };
    let t = timer_time(hours, minutes);
    let b19 = frame[19];
    let b20 = frame[20];
    law_bit_roundtrip(frame[13], PANASONIC_AC_OFF_TIMER_OFFSET, enable);
    assert(((with_bits(b19, 4, 4, (t & 0x0F) as u8) >> 4u8) as u16 | (((with_bits(
        b20,
        0,
        7,
        (t >> 4u16) as u8,
    ) & 0x7F) as u16) << 4u16)) == t) by (bit_vector)
        requires
            t < 2048,
    ;
    lemma_hours_minutes(h, (m - m % 10) as u8);
}

/// AC32 round trips: the mode, temperature and power toggle written read back,
/// and the bytes of a state set another state to the same value.
pub proof fn law_ac32_roundtrip(state: u32, mode: AcMode, celsius: u8, on: bool)
    ensures
        ac32_mode_from_code(ac32_mode_field(ac32_with_mode(state, mode))) == Some(mode),
        ac32_mode_field(ac32_with_mode(state, mode)) == ac32_mode_code(mode),
        ac32_temp_of(ac32_with_temp(state, celsius)) == ac32_clamp_temp(celsius),
        ac32_power_of(ac32_with_power(state, on)) == on,
        be_u32(crate::encoder::command_bytes(state)) == state,
{
    let c = ac32_mode_code(mode) as u32;
    assert(((((state & !(0x7u32 << 8u32)) | (c << 8u32)) >> 8u32) & 0x7) == c) by (bit_vector)
        requires
            c < 8,
    ;
    let t = (ac32_clamp_temp(celsius) - (PANASONIC_AC32_MIN_TEMP - 1)) as u32;
    assert(((((state & !(0x1Fu32 << 16u32)) | (t << 16u32)) >> 16u32) & 0x1F) == t) by (bit_vector)
        requires
            t < 32,
    ;
    assert(((state & !(1u32 << 24u32)) & (1u32 << 24u32) == 0) && ((state | (1u32 << 24u32)) & (1u32
        << 24u32) != 0)) by (bit_vector);
    assert(((((state >> 24u32) as u8) as u32) << 24u32) | ((((state >> 16u32) as u8) as u32) << 16u32)
        | ((((state >> 8u32) as u8) as u32) << 8u32) | ((state as u8) as u32) == state) by (bit_vector);
}

} // verus!
