//! Common types used throughout the Panasonic AC library

use vstd::prelude::*;
use vstd::string::StringExecFns;

use crate::constants::{
    PANASONIC_AC_AUTO, PANASONIC_AC_COOL, PANASONIC_AC_DRY, PANASONIC_AC_FAN,
    PANASONIC_AC_FAN_AUTO, PANASONIC_AC_FAN_HIGH, PANASONIC_AC_FAN_LOW, PANASONIC_AC_FAN_MAX,
    PANASONIC_AC_FAN_MED, PANASONIC_AC_FAN_MIN, PANASONIC_AC_HEAT, PANASONIC_AC_SWING_H_AUTO,
    PANASONIC_AC_SWING_H_FULL_LEFT, PANASONIC_AC_SWING_H_FULL_RIGHT, PANASONIC_AC_SWING_H_LEFT,
    PANASONIC_AC_SWING_H_MIDDLE, PANASONIC_AC_SWING_H_RIGHT, PANASONIC_AC_SWING_V_AUTO,
    PANASONIC_AC_SWING_V_HIGH, PANASONIC_AC_SWING_V_HIGHEST, PANASONIC_AC_SWING_V_LOW,
    PANASONIC_AC_SWING_V_LOWEST, PANASONIC_AC_SWING_V_MIDDLE,
};
use crate::error::{Error, Result};
use crate::text::{decimal, prefixed_decimal};

verus! {

/// Represents operation modes for AC units
#[derive(Debug, Clone, Copy, PartialEq, Eq, Structural)]
pub enum AcMode {
    /// Automatic mode selection based on conditions
    Auto,
    /// Cooling mode
    Cool,
    /// Heating mode
    Heat,
    /// Dehumidification mode
    Dry,
    /// Fan only mode (no temperature control)
    Fan,
}

impl AcMode {
    /// The protocol value of the setting.
    pub open spec fn code(self) -> u8 {
        match self {
            AcMode::Auto => PANASONIC_AC_AUTO,
            AcMode::Cool => PANASONIC_AC_COOL,
            AcMode::Heat => PANASONIC_AC_HEAT,
            AcMode::Dry => PANASONIC_AC_DRY,
            AcMode::Fan => PANASONIC_AC_FAN,
        }
    }

    /// The setting whose protocol value is `v`, if any.
    pub open spec fn from_code(v: u8) -> Option<AcMode> {
        if v == PANASONIC_AC_AUTO {
            Some(AcMode::Auto)
        } else if v == PANASONIC_AC_COOL {
            Some(AcMode::Cool)
        } else if v == PANASONIC_AC_HEAT {
            Some(AcMode::Heat)
        } else if v == PANASONIC_AC_DRY {
            Some(AcMode::Dry)
        } else if v == PANASONIC_AC_FAN {
            Some(AcMode::Fan)
        } else {
            None
        }
    }

    /// The display name of the setting.
    pub open spec fn label(self) -> Seq<char> {
        match self {
            AcMode::Auto => "Auto"@,
            AcMode::Cool => "Cool"@,
            AcMode::Heat => "Heat"@,
            AcMode::Dry => "Dry"@,
            AcMode::Fan => "Fan"@,
        }
    }

    /// Display name of the setting ("Auto", "Cool", "Heat", "Dry", "Fan").
    pub fn to_string(&self) -> (r: String)
        ensures
            r@ == self.label(),
    {
        match self {
            AcMode::Auto => String::from_str("Auto"),
            AcMode::Cool => String::from_str("Cool"),
            AcMode::Heat => String::from_str("Heat"),
            AcMode::Dry => String::from_str("Dry"),
            AcMode::Fan => String::from_str("Fan"),
        }
    }
}

/// Code round trip: converting a setting to its protocol value (`u8::from`)
/// and back (`try_from`) gives the setting, and every value that converts
/// back is the value of the setting it converts to.
pub proof fn law_mode_code_roundtrip(x: AcMode, v: u8)
    ensures
        AcMode::from_code(x.code()) == Some(x),
        AcMode::from_code(v) matches Some(y) ==> y.code() == v,
{
}

impl From<AcMode> for u8 {
    fn from(mode: AcMode) -> (r: u8) {
        match mode {
            AcMode::Auto => PANASONIC_AC_AUTO,
            AcMode::Cool => PANASONIC_AC_COOL,
            AcMode::Heat => PANASONIC_AC_HEAT,
            AcMode::Dry => PANASONIC_AC_DRY,
            AcMode::Fan => PANASONIC_AC_FAN,
        }
    }
}

impl vstd::std_specs::convert::FromSpecImpl<AcMode> for u8 {
    open spec fn obeys_from_spec() -> bool {
        true
    }

    open spec fn from_spec(v: AcMode) -> u8 {
        v.code()
    }
}

impl TryFrom<u8> for AcMode {
    type Error = Error;

    fn try_from(value: u8) -> (r: Result<Self>)
        ensures
            AcMode::from_code(value) matches Some(x) ==> r == Ok::<AcMode, Error>(x),
            AcMode::from_code(value) is None ==> (r matches Err(Error::InvalidValue(msg))
                && msg@ == "Invalid mode: "@ + decimal(value as nat)),
    {
        match value {
            PANASONIC_AC_AUTO => Ok(AcMode::Auto),
            PANASONIC_AC_COOL => Ok(AcMode::Cool),
            PANASONIC_AC_HEAT => Ok(AcMode::Heat),
            PANASONIC_AC_DRY => Ok(AcMode::Dry),
            PANASONIC_AC_FAN => Ok(AcMode::Fan),
            _ => Err(Error::InvalidValue(prefixed_decimal("Invalid mode: ", value as u64))),
        }
    }
}

/// The contract of `try_from` above states its result; its error carries a
/// message, so only successful decodings have a spec value here.
impl vstd::std_specs::convert::TryFromSpecImpl<u8> for AcMode {
    open spec fn obeys_try_from_spec() -> bool {
        false
    }

    open spec fn try_from_spec(v: u8) -> Result<Self> {
        match AcMode::from_code(v) {
            Some(x) => Ok(x),
            None => Err(arbitrary()),
        }
    }
}

/// Represents fan speed settings
#[derive(Debug, Clone, Copy, PartialEq, Eq, Structural)]
pub enum FanSpeed {
    /// Automatic fan speed selection
    Auto,
    /// Minimum fan speed
    Min,
    /// Low fan speed
    Low,
    /// Medium fan speed
    Medium,
    /// High fan speed
    High,
    /// Maximum fan speed
    Max,
}

impl FanSpeed {
    /// The protocol value of the setting.
    pub open spec fn code(self) -> u8 {
        match self {
            FanSpeed::Auto => PANASONIC_AC_FAN_AUTO,
            FanSpeed::Min => PANASONIC_AC_FAN_MIN,
            FanSpeed::Low => PANASONIC_AC_FAN_LOW,
            FanSpeed::Medium => PANASONIC_AC_FAN_MED,
            FanSpeed::High => PANASONIC_AC_FAN_HIGH,
            FanSpeed::Max => PANASONIC_AC_FAN_MAX,
        }
    }

    /// The setting whose protocol value is `v`, if any.
    pub open spec fn from_code(v: u8) -> Option<FanSpeed> {
        if v == PANASONIC_AC_FAN_AUTO {
            Some(FanSpeed::Auto)
        } else if v == PANASONIC_AC_FAN_MIN {
            Some(FanSpeed::Min)
        } else if v == PANASONIC_AC_FAN_LOW {
            Some(FanSpeed::Low)
        } else if v == PANASONIC_AC_FAN_MED {
            Some(FanSpeed::Medium)
        } else if v == PANASONIC_AC_FAN_HIGH {
            Some(FanSpeed::High)
        } else if v == PANASONIC_AC_FAN_MAX {
            Some(FanSpeed::Max)
        } else {
            None
        }
    }

    /// The display name of the setting.
    pub open spec fn label(self) -> Seq<char> {
        match self {
            FanSpeed::Auto => "Auto"@,
            FanSpeed::Min => "Minimum"@,
            FanSpeed::Low => "Low"@,
            FanSpeed::Medium => "Medium"@,
            FanSpeed::High => "High"@,
            FanSpeed::Max => "Maximum"@,
        }
    }

    /// Display name of the setting ("Auto", "Minimum", "Low", "Medium", "High", "Maximum").
    pub fn to_string(&self) -> (r: String)
        ensures
            r@ == self.label(),
    {
        match self {
            FanSpeed::Auto => String::from_str("Auto"),
            FanSpeed::Min => String::from_str("Minimum"),
            FanSpeed::Low => String::from_str("Low"),
            FanSpeed::Medium => String::from_str("Medium"),
            FanSpeed::High => String::from_str("High"),
            FanSpeed::Max => String::from_str("Maximum"),
        }
    }
}

/// Code round trip: converting a setting to its protocol value (`u8::from`)
/// and back (`try_from`) gives the setting, and every value that converts
/// back is the value of the setting it converts to.
pub proof fn law_fan_speed_code_roundtrip(x: FanSpeed, v: u8)
    ensures
        FanSpeed::from_code(x.code()) == Some(x),
        FanSpeed::from_code(v) matches Some(y) ==> y.code() == v,
{
}

impl From<FanSpeed> for u8 {
    fn from(speed: FanSpeed) -> (r: u8) {
        match speed {
            FanSpeed::Auto => PANASONIC_AC_FAN_AUTO,
            FanSpeed::Min => PANASONIC_AC_FAN_MIN,
            FanSpeed::Low => PANASONIC_AC_FAN_LOW,
            FanSpeed::Medium => PANASONIC_AC_FAN_MED,
            FanSpeed::High => PANASONIC_AC_FAN_HIGH,
            FanSpeed::Max => PANASONIC_AC_FAN_MAX,
        }
    }
}

impl vstd::std_specs::convert::FromSpecImpl<FanSpeed> for u8 {
    open spec fn obeys_from_spec() -> bool {
        true
    }

    open spec fn from_spec(v: FanSpeed) -> u8 {
        v.code()
    }
}

impl TryFrom<u8> for FanSpeed {
    type Error = Error;

    fn try_from(value: u8) -> (r: Result<Self>)
        ensures
            FanSpeed::from_code(value) matches Some(x) ==> r == Ok::<FanSpeed, Error>(x),
            FanSpeed::from_code(value) is None ==> (r matches Err(Error::InvalidValue(msg))
                && msg@ == "Invalid fan speed: "@ + decimal(value as nat)),
    {
        match value {
            PANASONIC_AC_FAN_AUTO => Ok(FanSpeed::Auto),
            PANASONIC_AC_FAN_MIN => Ok(FanSpeed::Min),
            PANASONIC_AC_FAN_LOW => Ok(FanSpeed::Low),
            PANASONIC_AC_FAN_MED => Ok(FanSpeed::Medium),
            PANASONIC_AC_FAN_HIGH => Ok(FanSpeed::High),
            PANASONIC_AC_FAN_MAX => Ok(FanSpeed::Max),
            _ => Err(Error::InvalidValue(prefixed_decimal("Invalid fan speed: ", value as u64))),
        }
    }
}

/// The contract of `try_from` above states its result; its error carries a
/// message, so only successful decodings have a spec value here.
impl vstd::std_specs::convert::TryFromSpecImpl<u8> for FanSpeed {
    open spec fn obeys_try_from_spec() -> bool {
        false
    }

    open spec fn try_from_spec(v: u8) -> Result<Self> {
        match FanSpeed::from_code(v) {
            Some(x) => Ok(x),
            None => Err(arbitrary()),
        }
    }
}

/// Represents vertical swing positions
#[derive(Debug, Clone, Copy, PartialEq, Eq, Structural)]
pub enum SwingV {
    /// Automatic swing
    Auto,
    /// Highest position
    Highest,
    /// High position
    High,
    /// Middle position
    Middle,
    /// Low position
    Low,
    /// Lowest position
    Lowest,
}

impl SwingV {
    /// The protocol value of the setting.
    pub open spec fn code(self) -> u8 {
        match self {
            SwingV::Auto => PANASONIC_AC_SWING_V_AUTO,
            SwingV::Highest => PANASONIC_AC_SWING_V_HIGHEST,
            SwingV::High => PANASONIC_AC_SWING_V_HIGH,
            SwingV::Middle => PANASONIC_AC_SWING_V_MIDDLE,
            SwingV::Low => PANASONIC_AC_SWING_V_LOW,
            SwingV::Lowest => PANASONIC_AC_SWING_V_LOWEST,
        }
    }

    /// The setting whose protocol value is `v`, if any.
    pub open spec fn from_code(v: u8) -> Option<SwingV> {
        if v == PANASONIC_AC_SWING_V_AUTO {
            Some(SwingV::Auto)
        } else if v == PANASONIC_AC_SWING_V_HIGHEST {
            Some(SwingV::Highest)
        } else if v == PANASONIC_AC_SWING_V_HIGH {
            Some(SwingV::High)
        } else if v == PANASONIC_AC_SWING_V_MIDDLE {
            Some(SwingV::Middle)
        } else if v == PANASONIC_AC_SWING_V_LOW {
            Some(SwingV::Low)
        } else if v == PANASONIC_AC_SWING_V_LOWEST {
            Some(SwingV::Lowest)
        } else {
            None
        }
    }

    /// The display name of the setting.
    pub open spec fn label(self) -> Seq<char> {
        match self {
            SwingV::Auto => "Auto"@,
            SwingV::Highest => "Highest"@,
            SwingV::High => "High"@,
            SwingV::Middle => "Middle"@,
            SwingV::Low => "Low"@,
            SwingV::Lowest => "Lowest"@,
        }
    }

    /// Display name of the setting ("Auto", "Highest", "High", "Middle", "Low", "Lowest").
    pub fn to_string(&self) -> (r: String)
        ensures
            r@ == self.label(),
    {
        match self {
            SwingV::Auto => String::from_str("Auto"),
            SwingV::Highest => String::from_str("Highest"),
            SwingV::High => String::from_str("High"),
            SwingV::Middle => String::from_str("Middle"),
            SwingV::Low => String::from_str("Low"),
            SwingV::Lowest => String::from_str("Lowest"),
        }
    }
}

/// Code round trip: converting a setting to its protocol value (`u8::from`)
/// and back (`try_from`) gives the setting, and every value that converts
/// back is the value of the setting it converts to.
pub proof fn law_swing_v_code_roundtrip(x: SwingV, v: u8)
    ensures
        SwingV::from_code(x.code()) == Some(x),
        SwingV::from_code(v) matches Some(y) ==> y.code() == v,
{
}

impl From<SwingV> for u8 {
    fn from(swing: SwingV) -> (r: u8) {
        match swing {
            SwingV::Auto => PANASONIC_AC_SWING_V_AUTO,
            SwingV::Highest => PANASONIC_AC_SWING_V_HIGHEST,
            SwingV::High => PANASONIC_AC_SWING_V_HIGH,
            SwingV::Middle => PANASONIC_AC_SWING_V_MIDDLE,
            SwingV::Low => PANASONIC_AC_SWING_V_LOW,
            SwingV::Lowest => PANASONIC_AC_SWING_V_LOWEST,
        }
    }
}

impl vstd::std_specs::convert::FromSpecImpl<SwingV> for u8 {
    open spec fn obeys_from_spec() -> bool {
        true
    }

    open spec fn from_spec(v: SwingV) -> u8 {
        v.code()
    }
}

impl TryFrom<u8> for SwingV {
    type Error = Error;

    fn try_from(value: u8) -> (r: Result<Self>)
        ensures
            SwingV::from_code(value) matches Some(x) ==> r == Ok::<SwingV, Error>(x),
            SwingV::from_code(value) is None ==> (r matches Err(Error::InvalidValue(msg))
                && msg@ == "Invalid vertical swing: "@ + decimal(value as nat)),
    {
        match value {
            PANASONIC_AC_SWING_V_AUTO => Ok(SwingV::Auto),
            PANASONIC_AC_SWING_V_HIGHEST => Ok(SwingV::Highest),
            PANASONIC_AC_SWING_V_HIGH => Ok(SwingV::High),
            PANASONIC_AC_SWING_V_MIDDLE => Ok(SwingV::Middle),
            PANASONIC_AC_SWING_V_LOW => Ok(SwingV::Low),
            PANASONIC_AC_SWING_V_LOWEST => Ok(SwingV::Lowest),
            _ => Err(Error::InvalidValue(prefixed_decimal("Invalid vertical swing: ", value as u64))),
        }
    }
}

/// The contract of `try_from` above states its result; its error carries a
/// message, so only successful decodings have a spec value here.
impl vstd::std_specs::convert::TryFromSpecImpl<u8> for SwingV {
    open spec fn obeys_try_from_spec() -> bool {
        false
    }

    open spec fn try_from_spec(v: u8) -> Result<Self> {
        match SwingV::from_code(v) {
            Some(x) => Ok(x),
            None => Err(arbitrary()),
        }
    }
}

/// Represents horizontal swing positions
#[derive(Debug, Clone, Copy, PartialEq, Eq, Structural)]
pub enum SwingH {
    /// Automatic swing
    Auto,
    /// Middle position
    Middle,
    /// Full left position
    FullLeft,
    /// Left position
    Left,
    /// Right position
    Right,
    /// Full right position
    FullRight,
}

impl SwingH {
    /// The protocol value of the setting.
    pub open spec fn code(self) -> u8 {
        match self {
            SwingH::Auto => PANASONIC_AC_SWING_H_AUTO,
            SwingH::Middle => PANASONIC_AC_SWING_H_MIDDLE,
            SwingH::FullLeft => PANASONIC_AC_SWING_H_FULL_LEFT,
            SwingH::Left => PANASONIC_AC_SWING_H_LEFT,
            SwingH::Right => PANASONIC_AC_SWING_H_RIGHT,
            SwingH::FullRight => PANASONIC_AC_SWING_H_FULL_RIGHT,
        }
    }

    /// The setting whose protocol value is `v`, if any.
    pub open spec fn from_code(v: u8) -> Option<SwingH> {
        if v == PANASONIC_AC_SWING_H_AUTO {
            Some(SwingH::Auto)
        } else if v == PANASONIC_AC_SWING_H_MIDDLE {
            Some(SwingH::Middle)
        } else if v == PANASONIC_AC_SWING_H_FULL_LEFT {
            Some(SwingH::FullLeft)
        } else if v == PANASONIC_AC_SWING_H_LEFT {
            Some(SwingH::Left)
        } else if v == PANASONIC_AC_SWING_H_RIGHT {
            Some(SwingH::Right)
        } else if v == PANASONIC_AC_SWING_H_FULL_RIGHT {
            Some(SwingH::FullRight)
        } else {
            None
        }
    }

    /// The display name of the setting.
    pub open spec fn label(self) -> Seq<char> {
        match self {
            SwingH::Auto => "Auto"@,
            SwingH::Middle => "Middle"@,
            SwingH::FullLeft => "Full Left"@,
            SwingH::Left => "Left"@,
            SwingH::Right => "Right"@,
            SwingH::FullRight => "Full Right"@,
        }
    }

    /// Display name of the setting ("Auto", "Middle", "Full Left", "Left", "Right", "Full Right").
    pub fn to_string(&self) -> (r: String)
        ensures
            r@ == self.label(),
    {
        match self {
            SwingH::Auto => String::from_str("Auto"),
            SwingH::Middle => String::from_str("Middle"),
            SwingH::FullLeft => String::from_str("Full Left"),
            SwingH::Left => String::from_str("Left"),
            SwingH::Right => String::from_str("Right"),
            SwingH::FullRight => String::from_str("Full Right"),
        }
    }
}

/// Code round trip: converting a setting to its protocol value (`u8::from`)
/// and back (`try_from`) gives the setting, and every value that converts
/// back is the value of the setting it converts to.
pub proof fn law_swing_h_code_roundtrip(x: SwingH, v: u8)
    ensures
        SwingH::from_code(x.code()) == Some(x),
        SwingH::from_code(v) matches Some(y) ==> y.code() == v,
{
}

impl From<SwingH> for u8 {
    fn from(swing: SwingH) -> (r: u8) {
        match swing {
            SwingH::Auto => PANASONIC_AC_SWING_H_AUTO,
            SwingH::Middle => PANASONIC_AC_SWING_H_MIDDLE,
            SwingH::FullLeft => PANASONIC_AC_SWING_H_FULL_LEFT,
            SwingH::Left => PANASONIC_AC_SWING_H_LEFT,
            SwingH::Right => PANASONIC_AC_SWING_H_RIGHT,
            SwingH::FullRight => PANASONIC_AC_SWING_H_FULL_RIGHT,
        }
    }
}

impl vstd::std_specs::convert::FromSpecImpl<SwingH> for u8 {
    open spec fn obeys_from_spec() -> bool {
        true
    }

    open spec fn from_spec(v: SwingH) -> u8 {
        v.code()
    }
}

impl TryFrom<u8> for SwingH {
    type Error = Error;

    fn try_from(value: u8) -> (r: Result<Self>)
        ensures
            SwingH::from_code(value) matches Some(x) ==> r == Ok::<SwingH, Error>(x),
            SwingH::from_code(value) is None ==> (r matches Err(Error::InvalidValue(msg))
                && msg@ == "Invalid horizontal swing: "@ + decimal(value as nat)),
    {
        match value {
            PANASONIC_AC_SWING_H_AUTO => Ok(SwingH::Auto),
            PANASONIC_AC_SWING_H_MIDDLE => Ok(SwingH::Middle),
            PANASONIC_AC_SWING_H_FULL_LEFT => Ok(SwingH::FullLeft),
            PANASONIC_AC_SWING_H_LEFT => Ok(SwingH::Left),
            PANASONIC_AC_SWING_H_RIGHT => Ok(SwingH::Right),
            PANASONIC_AC_SWING_H_FULL_RIGHT => Ok(SwingH::FullRight),
            _ => Err(Error::InvalidValue(prefixed_decimal("Invalid horizontal swing: ", value as u64))),
        }
    }
}

/// The contract of `try_from` above states its result; its error carries a
/// message, so only successful decodings have a spec value here.
impl vstd::std_specs::convert::TryFromSpecImpl<u8> for SwingH {
    open spec fn obeys_try_from_spec() -> bool {
        false
    }

    open spec fn try_from_spec(v: u8) -> Result<Self> {
        match SwingH::from_code(v) {
            Some(x) => Ok(x),
            None => Err(arbitrary()),
        }
    }
}

} // verus!
