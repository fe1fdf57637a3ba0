//! Panasonic heat pump controller library
//!
//! Builds, checks and interprets the infrared state frames understood by
//! Panasonic heat pumps and air conditioners: the device state and its
//! setters, the IR encoder and decoder, a standard device interface, mock
//! hardware for tests, and what the command-line controller reads and writes.

pub mod cli;
pub mod constants;
mod device;
pub mod encoder;
pub mod error;
pub mod hardware;
pub mod mock;
pub mod prelude;
pub mod protocol;
mod state;
mod text;
pub mod types;
pub mod utils;

pub use constants::{
    PANASONIC_HDR_MARK, PANASONIC_HDR_SPACE, PANASONIC_BIT_MARK, PANASONIC_ONE_SPACE,
    PANASONIC_ZERO_SPACE, PANASONIC_MIN_COMMAND_LENGTH, PANASONIC_END_GAP, PANASONIC_MIN_GAP,
    PANASONIC_AC_SECTION_GAP, PANASONIC_AC_SECTION1_LENGTH, PANASONIC_AC_MESSAGE_GAP,
    PANASONIC_AC32_HDR_MARK, PANASONIC_AC32_BIT_MARK, PANASONIC_AC32_HDR_SPACE,
    PANASONIC_AC32_ONE_SPACE, PANASONIC_AC32_ZERO_SPACE, PANASONIC_AC32_SECTION_GAP,
    PANASONIC_AC32_SECTIONS, PANASONIC_AC32_BLOCKS_PER_SECTION, PANASONIC_FREQ,
    PANASONIC_AC_STATE_LENGTH, PANASONIC_AC_CHECKSUM_INIT, PANASONIC_AC_POWER_OFFSET,
    PANASONIC_AC_MODE_OFFSET, PANASONIC_AC_MODE_SIZE, PANASONIC_AC_TEMP_OFFSET,
    PANASONIC_AC_TEMP_SIZE, PANASONIC_AC_SWINGV_OFFSET, PANASONIC_AC_SWINGV_SIZE,
    PANASONIC_AC_SWINGH_OFFSET, PANASONIC_AC_SWINGH_SIZE, PANASONIC_AC_FAN_OFFSET,
    PANASONIC_AC_FAN_SIZE, PANASONIC_AC_MIN_TEMP, PANASONIC_AC_MAX_TEMP,
    PANASONIC_AC_FAN_MODE_TEMP, PANASONIC_AC_AUTO, PANASONIC_AC_COOL, PANASONIC_AC_DRY,
    PANASONIC_AC_HEAT, PANASONIC_AC_FAN, PANASONIC_AC_FAN_AUTO, PANASONIC_AC_FAN_MIN,
    PANASONIC_AC_FAN_LOW, PANASONIC_AC_FAN_MED, PANASONIC_AC_FAN_HIGH, PANASONIC_AC_FAN_MAX,
    PANASONIC_AC_FAN_DELTA, PANASONIC_AC_SWING_V_AUTO, PANASONIC_AC_SWING_V_HIGHEST,
    PANASONIC_AC_SWING_V_HIGH, PANASONIC_AC_SWING_V_MIDDLE, PANASONIC_AC_SWING_V_LOW,
    PANASONIC_AC_SWING_V_LOWEST, PANASONIC_AC_SWING_H_AUTO, PANASONIC_AC_SWING_H_MIDDLE,
    PANASONIC_AC_SWING_H_FULL_LEFT, PANASONIC_AC_SWING_H_LEFT, PANASONIC_AC_SWING_H_RIGHT,
    PANASONIC_AC_SWING_H_FULL_RIGHT, PANASONIC_AC_QUIET_OFFSET, PANASONIC_AC_QUIET_CKP_OFFSET,
    PANASONIC_AC_POWERFUL_OFFSET, PANASONIC_AC_POWERFUL_CKP_OFFSET, PANASONIC_AC_ION_FILTER_BYTE,
    PANASONIC_AC_ION_FILTER_OFFSET, PANASONIC_AC_ON_TIMER_OFFSET, PANASONIC_AC_OFF_TIMER_OFFSET,
    PANASONIC_AC_TIME_SIZE, PANASONIC_AC_TIME_OVERFLOW_SIZE, PANASONIC_AC_TIME_SPECIAL,
    PANASONIC_AC_TIME_MAX, PANASONIC_KNOWN_GOOD_STATE, PANASONIC_AC32_KNOWN_GOOD,
    PANASONIC_AC32_MIN_TEMP, PANASONIC_AC32_MAX_TEMP, PANASONIC_AC32_AUTO, PANASONIC_AC32_COOL,
    PANASONIC_AC32_DRY, PANASONIC_AC32_HEAT, PANASONIC_AC32_FAN, PANASONIC_AC32_FAN_AUTO,
    PANASONIC_AC32_FAN_MIN, PANASONIC_AC32_FAN_LOW, PANASONIC_AC32_FAN_MED,
    PANASONIC_AC32_FAN_HIGH, PANASONIC_AC32_FAN_MAX, PANASONIC_AC32_SWING_V_AUTO,
};
pub use device::{
    IrSendFn, PanasonicAc, PanasonicAc32, PanasonicAcBuilder, PanasonicAcChanges,
    PanasonicAcChangesBuilder, PanasonicAcModel,
};
pub use encoder::{Decoder, Encoder, IrSignal, PanasonicDecoder, PanasonicEncoder};
pub use error::{Error, Result};
pub use protocol::{AcDevice, Device};
pub use state::{PanasonicAc32State, PanasonicAcState};
pub use types::{AcMode, FanSpeed, SwingH, SwingV};
pub use utils::standard;

use vstd::prelude::*;

verus! {

/// Configure the library with default settings (there is nothing to set up:
/// this always succeeds)
pub fn init() -> (r: Result<()>)
    ensures
        r is Ok,
{
    Ok(())
}

} // verus!
