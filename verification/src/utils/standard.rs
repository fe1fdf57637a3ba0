//! Standard device interface and utilities

use vstd::prelude::*;
use vstd::string::StringExecFns;

use crate::constants::PANASONIC_FREQ;
use crate::device::{sender_total, PanasonicAc, PanasonicAc32, PanasonicAcModel};
use crate::error::{Error, Result};
use crate::protocol::{bit_of, bits_of, with_bit, AcDevice, Device};
use crate::state::{
    ac32_mode_field, ac32_mode_from_code, ac32_power_of, ac32_temp_of, ac32_with_mode,
    ac32_with_power, ac32_with_temp, clamp_temp, fan_field, fan_of, mode_field, power_of,
    powerful_offset, quiet_offset, sent_frame, supports_ion, supports_swing_h, swing_h_of,
    swing_v_field, with_fan, with_ion, with_mode, with_power, with_powerful, with_quiet,
    with_swing_h, with_swing_v, with_temp,
};
use crate::text::{decimal, u64_to_decimal};
use crate::types::{AcMode, FanSpeed, SwingH, SwingV};
use crate::utils::{bool_to_onoff, on_off_text};

verus! {

/// Standard operation mode types that map to common AC control systems
#[derive(Debug, Clone, Copy, PartialEq, Eq, Structural)]
pub enum OpMode {
    /// Automatic mode
    Auto,
    /// Cooling mode
    Cool,
    /// Heating mode
    Heat,
    /// Dehumidification (dry) mode
    Dry,
    /// Fan only mode
    Fan,
}

impl OpMode {
    /// The standard mode for a device mode (same name).
    pub open spec fn of_mode(mode: AcMode) -> OpMode {
        match mode {
            AcMode::Auto => OpMode::Auto,
            AcMode::Cool => OpMode::Cool,
            AcMode::Heat => OpMode::Heat,
            AcMode::Dry => OpMode::Dry,
            AcMode::Fan => OpMode::Fan,
        }
    }

    /// The device mode for this standard mode (same name).
    pub open spec fn mode(self) -> AcMode {
        match self {
            OpMode::Auto => AcMode::Auto,
            OpMode::Cool => AcMode::Cool,
            OpMode::Heat => AcMode::Heat,
            OpMode::Dry => AcMode::Dry,
            OpMode::Fan => AcMode::Fan,
        }
    }

    /// The name shown for the mode.
    pub open spec fn label(self) -> Seq<char> {
        match self {
            OpMode::Auto => "Auto"@,
            OpMode::Cool => "Cool"@,
            OpMode::Heat => "Heat"@,
            OpMode::Dry => "Dry"@,
            OpMode::Fan => "Fan"@,
        }
    }
}

impl From<AcMode> for OpMode {
    fn from(mode: AcMode) -> (r: OpMode) {
        match mode {
            AcMode::Auto => OpMode::Auto,
            AcMode::Cool => OpMode::Cool,
            AcMode::Heat => OpMode::Heat,
            AcMode::Dry => OpMode::Dry,
            AcMode::Fan => OpMode::Fan,
        }
    }
}

impl vstd::std_specs::convert::FromSpecImpl<AcMode> for OpMode {
    open spec fn obeys_from_spec() -> bool {
        true
    }

    open spec fn from_spec(v: AcMode) -> OpMode {
        OpMode::of_mode(v)
    }
}

impl From<OpMode> for AcMode {
    fn from(mode: OpMode) -> (r: AcMode) {
        match mode {
            OpMode::Auto => AcMode::Auto,
            OpMode::Cool => AcMode::Cool,
            OpMode::Heat => AcMode::Heat,
            OpMode::Dry => AcMode::Dry,
            OpMode::Fan => AcMode::Fan,
        }
    }
}

impl vstd::std_specs::convert::FromSpecImpl<OpMode> for AcMode {
    open spec fn obeys_from_spec() -> bool {
        true
    }

    open spec fn from_spec(v: OpMode) -> AcMode {
        v.mode()
    }
}

/// Fan speed levels that map to common AC control systems
#[derive(Debug, Clone, Copy, PartialEq, Eq, Structural)]
pub enum FanLevel {
    /// Automatic fan speed
    Auto,
    /// Minimum fan speed
    Min,
    /// Low fan speed
    Low,
    /// Medium fan speed
    Medium,
    /// High fan speed
    High,
    /// Maximum fan speed
    Max,
}

impl FanLevel {
    /// The standard level for a device fan speed (same name).
    pub open spec fn of_speed(speed: FanSpeed) -> FanLevel {
        match speed {
            FanSpeed::Auto => FanLevel::Auto,
            FanSpeed::Min => FanLevel::Min,
            FanSpeed::Low => FanLevel::Low,
            FanSpeed::Medium => FanLevel::Medium,
            FanSpeed::High => FanLevel::High,
            FanSpeed::Max => FanLevel::Max,
        }
    }

    /// The device fan speed for this level (same name).
    pub open spec fn speed(self) -> FanSpeed {
        match self {
            FanLevel::Auto => FanSpeed::Auto,
            FanLevel::Min => FanSpeed::Min,
            FanLevel::Low => FanSpeed::Low,
            FanLevel::Medium => FanSpeed::Medium,
            FanLevel::High => FanSpeed::High,
            FanLevel::Max => FanSpeed::Max,
        }
    }

    /// The position of the level in declaration order, from 0 (`Auto`) to 5
    /// (`Max`): its value as a `u8`.
    pub open spec fn index(self) -> u8 {
        match self {
            FanLevel::Auto => 0,
            FanLevel::Min => 1,
            FanLevel::Low => 2,
            FanLevel::Medium => 3,
            FanLevel::High => 4,
            FanLevel::Max => 5,
        }
    }

    /// The value of the level as a `u8`: its position in declaration order.
    pub(crate) fn as_u8(self) -> (r: u8)
        ensures
            r == self.index(),
    {
        match self {
            FanLevel::Auto => 0,
            FanLevel::Min => 1,
            FanLevel::Low => 2,
            FanLevel::Medium => 3,
            FanLevel::High => 4,
            FanLevel::Max => 5,
        }
    }

    /// The name shown for the level.
    pub open spec fn label(self) -> Seq<char> {
        match self {
            FanLevel::Auto => "Auto"@,
            FanLevel::Min => "Minimum"@,
            FanLevel::Low => "Low"@,
            FanLevel::Medium => "Medium"@,
            FanLevel::High => "High"@,
            FanLevel::Max => "Maximum"@,
        }
    }
}

impl From<FanSpeed> for FanLevel {
    fn from(speed: FanSpeed) -> (r: FanLevel) {
        match speed {
            FanSpeed::Auto => FanLevel::Auto,
            FanSpeed::Min => FanLevel::Min,
            FanSpeed::Low => FanLevel::Low,
            FanSpeed::Medium => FanLevel::Medium,
            FanSpeed::High => FanLevel::High,
            FanSpeed::Max => FanLevel::Max,
        }
    }
}

impl vstd::std_specs::convert::FromSpecImpl<FanSpeed> for FanLevel {
    open spec fn obeys_from_spec() -> bool {
        true
    }

    open spec fn from_spec(v: FanSpeed) -> FanLevel {
        FanLevel::of_speed(v)
    }
}

impl From<FanLevel> for FanSpeed {
    fn from(level: FanLevel) -> (r: FanSpeed) {
        match level {
            FanLevel::Auto => FanSpeed::Auto,
            FanLevel::Min => FanSpeed::Min,
            FanLevel::Low => FanSpeed::Low,
            FanLevel::Medium => FanSpeed::Medium,
            FanLevel::High => FanSpeed::High,
            FanLevel::Max => FanSpeed::Max,
        }
    }
}

impl vstd::std_specs::convert::FromSpecImpl<FanLevel> for FanSpeed {
    open spec fn obeys_from_spec() -> bool {
        true
    }

    open spec fn from_spec(v: FanLevel) -> FanSpeed {
        v.speed()
    }
}

/// Vertical swing positions that map to common AC control systems
#[derive(Debug, Clone, Copy, PartialEq, Eq, Structural)]
pub enum SwingVPos {
    /// Automatic swing
    Auto,
    /// Highest position
    Highest,
    /// High position
    High,
    /// Middle position
    Middle,
    /// Low position
    Low,
    /// Lowest position
    Lowest,
}

impl SwingVPos {
    /// The standard position for a device vertical swing (same name).
    pub open spec fn of_swing(swing: SwingV) -> SwingVPos {
        match swing {
            SwingV::Auto => SwingVPos::Auto,
            SwingV::Highest => SwingVPos::Highest,
            SwingV::High => SwingVPos::High,
            SwingV::Middle => SwingVPos::Middle,
            SwingV::Low => SwingVPos::Low,
            SwingV::Lowest => SwingVPos::Lowest,
        }
    }

    /// The device vertical swing for this position (same name).
    pub open spec fn swing(self) -> SwingV {
        match self {
            SwingVPos::Auto => SwingV::Auto,
            SwingVPos::Highest => SwingV::Highest,
            SwingVPos::High => SwingV::High,
            SwingVPos::Middle => SwingV::Middle,
            SwingVPos::Low => SwingV::Low,
            SwingVPos::Lowest => SwingV::Lowest,
        }
    }

    /// The name shown for the position.
    pub open spec fn label(self) -> Seq<char> {
        match self {
            SwingVPos::Auto => "Auto"@,
            SwingVPos::Highest => "Highest"@,
            SwingVPos::High => "High"@,
            SwingVPos::Middle => "Middle"@,
            SwingVPos::Low => "Low"@,
            SwingVPos::Lowest => "Lowest"@,
        }
    }
}

impl From<SwingV> for SwingVPos {
    fn from(swing: SwingV) -> (r: SwingVPos) {
        match swing {
            SwingV::Auto => SwingVPos::Auto,
            SwingV::Highest => SwingVPos::Highest,
            SwingV::High => SwingVPos::High,
            SwingV::Middle => SwingVPos::Middle,
            SwingV::Low => SwingVPos::Low,
            SwingV::Lowest => SwingVPos::Lowest,
        }
    }
}

impl vstd::std_specs::convert::FromSpecImpl<SwingV> for SwingVPos {
    open spec fn obeys_from_spec() -> bool {
        true
    }

    open spec fn from_spec(v: SwingV) -> SwingVPos {
        SwingVPos::of_swing(v)
    }
}

impl From<SwingVPos> for SwingV {
    fn from(pos: SwingVPos) -> (r: SwingV) {
        match pos {
            SwingVPos::Auto => SwingV::Auto,
            SwingVPos::Highest => SwingV::Highest,
            SwingVPos::High => SwingV::High,
            SwingVPos::Middle => SwingV::Middle,
            SwingVPos::Low => SwingV::Low,
            SwingVPos::Lowest => SwingV::Lowest,
        }
    }
}

impl vstd::std_specs::convert::FromSpecImpl<SwingVPos> for SwingV {
    open spec fn obeys_from_spec() -> bool {
        true
    }

    open spec fn from_spec(v: SwingVPos) -> SwingV {
        v.swing()
    }
}

/// Horizontal swing positions that map to common AC control systems
#[derive(Debug, Clone, Copy, PartialEq, Eq, Structural)]
pub enum SwingHPos {
    /// Automatic swing
    Auto,
    /// Far left position
    LeftMax,
    /// Left position
    Left,
    /// Middle position
    Middle,
    /// Right position
    Right,
    /// Far right position
    RightMax,
}

impl SwingHPos {
    /// The standard position for a device horizontal swing (the far positions
    /// are `LeftMax` and `RightMax`).
    pub open spec fn of_swing(swing: SwingH) -> SwingHPos {
        match swing {
            SwingH::Auto => SwingHPos::Auto,
            SwingH::FullLeft => SwingHPos::LeftMax,
            SwingH::Left => SwingHPos::Left,
            SwingH::Middle => SwingHPos::Middle,
            SwingH::Right => SwingHPos::Right,
            SwingH::FullRight => SwingHPos::RightMax,
        }
    }

    /// The device horizontal swing for this position.
    pub open spec fn swing(self) -> SwingH {
        match self {
            SwingHPos::Auto => SwingH::Auto,
            SwingHPos::LeftMax => SwingH::FullLeft,
            SwingHPos::Left => SwingH::Left,
            SwingHPos::Middle => SwingH::Middle,
            SwingHPos::Right => SwingH::Right,
            SwingHPos::RightMax => SwingH::FullRight,
        }
    }

    /// The name shown for the position.
    pub open spec fn label(self) -> Seq<char> {
        match self {
            SwingHPos::Auto => "Auto"@,
            SwingHPos::LeftMax => "Far Left"@,
            SwingHPos::Left => "Left"@,
            SwingHPos::Middle => "Middle"@,
            SwingHPos::Right => "Right"@,
            SwingHPos::RightMax => "Far Right"@,
        }
    }
}

impl From<SwingH> for SwingHPos {
    fn from(swing: SwingH) -> (r: SwingHPos) {
        match swing {
            SwingH::Auto => SwingHPos::Auto,
            SwingH::FullLeft => SwingHPos::LeftMax,
            SwingH::Left => SwingHPos::Left,
            SwingH::Middle => SwingHPos::Middle,
            SwingH::Right => SwingHPos::Right,
            SwingH::FullRight => SwingHPos::RightMax,
        }
    }
}

impl vstd::std_specs::convert::FromSpecImpl<SwingH> for SwingHPos {
    open spec fn obeys_from_spec() -> bool {
        true
    }

    open spec fn from_spec(v: SwingH) -> SwingHPos {
        SwingHPos::of_swing(v)
    }
}

impl From<SwingHPos> for SwingH {
    fn from(pos: SwingHPos) -> (r: SwingH) {
        match pos {
            SwingHPos::Auto => SwingH::Auto,
            SwingHPos::LeftMax => SwingH::FullLeft,
            SwingHPos::Left => SwingH::Left,
            SwingHPos::Middle => SwingH::Middle,
            SwingHPos::Right => SwingH::Right,
            SwingHPos::RightMax => SwingH::FullRight,
        }
    }
}

impl vstd::std_specs::convert::FromSpecImpl<SwingHPos> for SwingH {
    open spec fn obeys_from_spec() -> bool {
        true
    }

    open spec fn from_spec(v: SwingHPos) -> SwingH {
        v.swing()
    }
}

/// Mapping a device setting to its standard value and back gives the setting
/// back, and the other way round.
pub proof fn law_standard_conversions_roundtrip(
    mode: AcMode,
    op: OpMode,
    speed: FanSpeed,
    level: FanLevel,
    sv: SwingV,
    sv_pos: SwingVPos,
    sh: SwingH,
    sh_pos: SwingHPos,
)
    ensures
        OpMode::of_mode(mode).mode() == mode,
        OpMode::of_mode(op.mode()) == op,
        FanLevel::of_speed(speed).speed() == speed,
        FanLevel::of_speed(level.speed()) == level,
        SwingVPos::of_swing(sv).swing() == sv,
        SwingVPos::of_swing(sv_pos.swing()) == sv_pos,
        SwingHPos::of_swing(sh).swing() == sh,
        SwingHPos::of_swing(sh_pos.swing()) == sh_pos,
{
}

/// The values of a [`State`], with the model name as a character sequence.
pub struct StateView {
    pub power: bool,
    pub mode: OpMode,
    pub temp: u8,
    pub fan: FanLevel,
    pub swing_v: Option<SwingVPos>,
    pub swing_h: Option<SwingHPos>,
    pub quiet: bool,
    pub powerful: bool,
    pub ion: bool,
    pub model: Option<Seq<char>>,
}

/// Standard state representation for any AC device
#[derive(Debug, Clone)]
pub struct State {
    /// Power status (on/off)
    pub power: bool,
    /// Operation mode
    pub mode: OpMode,
    /// Temperature in Celsius
    pub temp: u8,
    /// Fan speed
    pub fan: FanLevel,
    /// Vertical swing position
    pub swing_v: Option<SwingVPos>,
    /// Horizontal swing position
    pub swing_h: Option<SwingHPos>,
    /// Quiet mode
    pub quiet: bool,
    /// Powerful/turbo mode
    pub powerful: bool,
    /// Ion/filter mode
    pub ion: bool,
    /// Model type (if known)
    pub model: Option<String>,
}

impl View for State {
    type V = StateView;

    open spec fn view(&self) -> StateView {
        StateView {
            power: self.power,
            mode: self.mode,
            temp: self.temp,
            fan: self.fan,
            swing_v: self.swing_v,
            swing_h: self.swing_h,
            quiet: self.quiet,
            powerful: self.powerful,
            ion: self.ion,
            model: match self.model {
                Some(s) => Some(s@),
                None => None,
            },
        }
    }
}

/// The default standard state: off, automatic mode at 25°C, automatic fan and
/// swings, every extra mode off, no model.
pub open spec fn default_state() -> StateView {
    StateView {
        power: false,
        mode: OpMode::Auto,
        temp: 25,
        fan: FanLevel::Auto,
        swing_v: Some(SwingVPos::Auto),
        swing_h: Some(SwingHPos::Auto),
        quiet: false,
        powerful: false,
        ion: false,
        model: None,
    }
}

impl Default for State {
    fn default() -> (r: Self)
        ensures
            r@ == default_state(),
    {
        Self {
            power: false,
            mode: OpMode::Auto,
            temp: 25,
            fan: FanLevel::Auto,
            swing_v: Some(SwingVPos::Auto),
            swing_h: Some(SwingHPos::Auto),
            quiet: false,
            powerful: false,
            ion: false,
            model: None,
        }
    }
}

/// The one-line description of a standard state.
pub open spec fn state_text(s: StateView) -> Seq<char> {
    "Power: "@ + on_off_text(s.power) + ", Mode: "@ + s.mode.label() + ", Temp: "@ + decimal(
        s.temp as nat,
    ) + "°C, Fan: "@ + s.fan.label() + ", Swing V: "@ + (match s.swing_v {
        Some(p) => p.label(),
        None => "N/A"@,
    }) + ", Swing H: "@ + (match s.swing_h {
        Some(p) => p.label(),
        None => "N/A"@,
    }) + ", Quiet: "@ + on_off_text(s.quiet) + ", Powerful: "@ + on_off_text(s.powerful)
        + ", Ion: "@ + on_off_text(s.ion) + ", Model: "@ + (match s.model {
        Some(m) => m,
        None => "Unknown"@,
    })
}

impl OpMode {
    /// The name shown for the mode.
    pub fn name(&self) -> (r: &'static str)
        ensures
            r@ == self.label(),
    {
        match self {
            OpMode::Auto => "Auto",
            OpMode::Cool => "Cool",
            OpMode::Heat => "Heat",
            OpMode::Dry => "Dry",
            OpMode::Fan => "Fan",
        }
    }
}

impl FanLevel {
    /// The name shown for the level.
    pub fn name(&self) -> (r: &'static str)
        ensures
            r@ == self.label(),
    {
        match self {
            FanLevel::Auto => "Auto",
            FanLevel::Min => "Minimum",
            FanLevel::Low => "Low",
            FanLevel::Medium => "Medium",
            FanLevel::High => "High",
            FanLevel::Max => "Maximum",
        }
    }
}

impl SwingVPos {
    /// The name shown for the position.
    pub fn name(&self) -> (r: &'static str)
        ensures
            r@ == self.label(),
    {
        match self {
            SwingVPos::Auto => "Auto",
            SwingVPos::Highest => "Highest",
            SwingVPos::High => "High",
            SwingVPos::Middle => "Middle",
            SwingVPos::Low => "Low",
            SwingVPos::Lowest => "Lowest",
        }
    }
}

impl SwingHPos {
    /// The name shown for the position.
    pub fn name(&self) -> (r: &'static str)
        ensures
            r@ == self.label(),
    {
        match self {
            SwingHPos::Auto => "Auto",
            SwingHPos::LeftMax => "Far Left",
            SwingHPos::Left => "Left",
            SwingHPos::Middle => "Middle",
            SwingHPos::Right => "Right",
            SwingHPos::RightMax => "Far Right",
        }
    }
}

impl State {
    /// The one-line description of the state, as its `Display` form shows it:
    /// power, mode, temperature, fan, swings, extra modes and model.
    pub fn to_string(&self) -> (r: String)
        ensures
            r@ == state_text(self@),
    {
        let swing_v: &str = match self.swing_v {
            Some(p) => p.name(),
            None => "N/A",
        };
        let swing_h: &str = match self.swing_h {
            Some(p) => p.name(),
            None => "N/A",
        };
        let mut r = String::from_str("Power: ");
        r.append(bool_to_onoff(self.power));
        r.append(", Mode: ");
        r.append(self.mode.name());
        r.append(", Temp: ");
        let t = u64_to_decimal(self.temp as u64);
        r.append(t.as_str());
        r.append("°C, Fan: ");
        r.append(self.fan.name());
        r.append(", Swing V: ");
        r.append(swing_v);
        r.append(", Swing H: ");
        r.append(swing_h);
        r.append(", Quiet: ");
        r.append(bool_to_onoff(self.quiet));
        r.append(", Powerful: ");
        r.append(bool_to_onoff(self.powerful));
        r.append(", Ion: ");
        r.append(bool_to_onoff(self.ion));
        r.append(", Model: ");
        match &self.model {
            Some(m) => r.append(m.as_str()),
            None => r.append("Unknown"),
        }
        r
    }
}

/// The standard name of a model: `"Panasonic "` followed by the model's name.
pub open spec fn model_text(model: PanasonicAcModel) -> Seq<char> {
    "Panasonic "@ + model.label()
}

/// Convert a Panasonic model to a string
pub fn model_to_string(model: PanasonicAcModel) -> (r: String)
    ensures
        r@ == model_text(model),
{
    let r = match model {
        PanasonicAcModel::Dke => String::from_str("Panasonic DKE"),
        PanasonicAcModel::Jke => String::from_str("Panasonic JKE"),
        PanasonicAcModel::Lke => String::from_str("Panasonic LKE"),
        PanasonicAcModel::Nke => String::from_str("Panasonic NKE"),
        PanasonicAcModel::Ckp => String::from_str("Panasonic CKP"),
        PanasonicAcModel::Rkr => String::from_str("Panasonic RKR"),
        PanasonicAcModel::Unknown => String::from_str("Panasonic Unknown"),
    };
    proof {
        reveal_strlit("Panasonic ");
        reveal_strlit("Panasonic DKE");
        reveal_strlit("Panasonic JKE");
        reveal_strlit("Panasonic LKE");
        reveal_strlit("Panasonic NKE");
        reveal_strlit("Panasonic CKP");
        reveal_strlit("Panasonic RKR");
        reveal_strlit("Panasonic Unknown");
        reveal_strlit("DKE");
        reveal_strlit("JKE");
        reveal_strlit("LKE");
        reveal_strlit("NKE");
        reveal_strlit("CKP");
        reveal_strlit("RKR");
        reveal_strlit("Unknown");
        assert(r@ =~= model_text(model));
    }
    r
}

/// Builder for creating state objects
#[derive(Debug)]
pub struct StateBuilder {
    state: State,
}

impl View for StateBuilder {
    type V = StateView;

    closed spec fn view(&self) -> StateView {
        self.state@
    }
}

impl Default for StateBuilder {
    fn default() -> (r: Self)
        ensures
            r@ == default_state(),
    {
        StateBuilder { state: State::default() }
    }
}

impl StateBuilder {
    /// Create a new StateBuilder with default values
    pub fn new() -> (r: Self)
        ensures
            r@ == default_state(),
    {
        Self::default()
    }

    /// Set the power state
    pub fn power(self, on: bool) -> (r: Self)
        ensures
            r@ == (StateView { power: on, ..self@ }),
    {
        let mut b = self;
        b.state.power = on;
        b
    }

    /// Set the operation mode
    pub fn mode(self, mode: OpMode) -> (r: Self)
        ensures
            r@ == (StateView { mode: mode, ..self@ }),
    {
        let mut b = self;
        b.state.mode = mode;
        b
    }

    /// Set the temperature
    pub fn temp(self, celsius: u8) -> (r: Self)
        ensures
            r@ == (StateView { temp: celsius, ..self@ }),
    {
        let mut b = self;
        b.state.temp = celsius;
        b
    }

    /// Set the fan speed
    pub fn fan(self, fan: FanLevel) -> (r: Self)
        ensures
            r@ == (StateView { fan: fan, ..self@ }),
    {
        let mut b = self;
        b.state.fan = fan;
        b
    }

    /// Set the vertical swing position
    pub fn swing_v(self, pos: Option<SwingVPos>) -> (r: Self)
        ensures
            r@ == (StateView { swing_v: pos, ..self@ }),
    {
        let mut b = self;
        b.state.swing_v = pos;
        b
    }

    /// Set the horizontal swing position
    pub fn swing_h(self, pos: Option<SwingHPos>) -> (r: Self)
        ensures
            r@ == (StateView { swing_h: pos, ..self@ }),
    {
        let mut b = self;
        b.state.swing_h = pos;
        b
    }

    /// Set quiet mode
    pub fn quiet(self, on: bool) -> (r: Self)
        ensures
            r@ == (StateView { quiet: on, ..self@ }),
    {
        let mut b = self;
        b.state.quiet = on;
        b
    }

    /// Set powerful mode
    pub fn powerful(self, on: bool) -> (r: Self)
        ensures
            r@ == (StateView { powerful: on, ..self@ }),
    {
        let mut b = self;
        b.state.powerful = on;
        b
    }

    /// Set ion filter mode
    pub fn ion(self, on: bool) -> (r: Self)
        ensures
            r@ == (StateView { ion: on, ..self@ }),
    {
        let mut b = self;
        b.state.ion = on;
        b
    }

    /// Build the state
    pub fn build(self) -> (r: State)
        ensures
            r@ == self@,
    {
        self.state
    }
}

/// Trait representing a standardized AC device interface
pub trait StandardAc {
    /// Get the current state of the device
    fn get_state(&self) -> Result<State>;

    /// Set the state of the device
    fn set_state(&mut self, state: &State) -> Result<()>;

    /// Apply changes to the current state
    ///
    /// This method allows partial state updates, only modifying the fields
    /// that are specified in the provided closure.
    ///
    /// # Arguments
    /// * `updater` - A closure that takes a mutable reference to the current state
    ///   and modifies it as needed
    ///
    /// # Returns
    /// * `Ok(())` if the update was successful, `Err` otherwise
    fn update_state<U>(&mut self, updater: U) -> Result<()> where U: FnOnce(&mut State)
        requires
            forall|x: &mut State| #[trigger] call_requires(updater, (x,)),
    ;

    /// What holds of a result that `send` returned: it is what the device's
    /// sender answered for the device's bytes.
    spec fn sent(&self, r: Result<()>) -> bool;

    /// Send the current state to the device
    fn send(&self) -> (r: Result<()>)
        ensures
            self.sent(r),
    ;
}

/// How a refused step shows in a result: `Ok` when no step was refused, else
/// the unsupported-feature error for the refused feature on the named model.
pub open spec fn refusal_result(r: Result<()>, refused: Option<Seq<char>>, model: Seq<char>) -> bool {
    match refused {
        None => r is Ok,
        Some(f) => r matches Err(Error::UnsupportedFeature { feature, model: Some(m) })
            && feature@ == f && m@ == model,
    }
}

/// The standard state that a Panasonic AC with frame `f` and model `m` reports:
/// settings it cannot decode keep their defaults (mode and fan `Auto`, no
/// vertical swing), and the model is named.
pub open spec fn standard_view(f: Seq<u8>, m: PanasonicAcModel) -> StateView {
    StateView {
        power: power_of(f),
        mode: match AcMode::from_code(mode_field(f)) {
            Some(x) => OpMode::of_mode(x),
            None => OpMode::Auto,
        },
        temp: f[14],
        fan: match fan_of(f) {
            Some(x) => FanLevel::of_speed(x),
            None => FanLevel::Auto,
        },
        swing_v: match SwingV::from_code(swing_v_field(f)) {
            Some(x) => Some(SwingVPos::of_swing(x)),
            None => None,
        },
        swing_h: Some(SwingHPos::of_swing(swing_h_of(f, m))),
        quiet: bit_of(f[21], quiet_offset(m)),
        powerful: bit_of(f[21], powerful_offset(m)),
        ion: supports_ion(m) && bit_of(f[22], 0),
        model: Some(model_text(m)),
    }
}

/// Whether a horizontal swing position asks for nothing that a model without
/// a horizontal swing lacks: the default (`Auto`) or the fixed middle position
/// such a model reports.
pub open spec fn swing_h_passable(p: SwingHPos) -> bool {
    p == SwingHPos::Auto || p == SwingHPos::Middle
}

/// Setting a standard state on a Panasonic AC with frame `f` and model `m`:
/// power off, then mode, temperature, fan, the swings, quiet, powerful, ion
/// and finally the power, stopping at the first refused step. A model without
/// the feature passes over a horizontal swing left at `Auto` or `Middle` and
/// an ion filter left off; it refuses any other horizontal swing and turning
/// the ion filter on. Gives the frame reached and the feature refused, if any.
pub open spec fn standard_applied(f: Seq<u8>, m: PanasonicAcModel, s: StateView) -> (
    Seq<u8>,
    Option<Seq<char>>,
) {
    let f1 = with_temp(with_mode(with_power(f, false), s.mode.mode()), s.temp);
    let f2 = match FanSpeed::from_code(s.fan.index()) {
        Some(x) => with_fan(f1, x),
        None => f1,
    };
    let f3 = match s.swing_v {
        Some(p) => with_swing_v(f2, p.swing()),
        None => f2,
    };
    let h = match s.swing_h {
        Some(p) => match with_swing_h(f3, m, p.swing()) {
            Some(f4) => Some(f4),
            None => if swing_h_passable(p) {
                Some(f3)
            } else {
                None
            },
        },
        None => Some(f3),
    };
    match h {
        None => (f3, Some("Horizontal swing"@)),
        Some(f4) => {
            let f5 = with_powerful(with_quiet(f4, m, s.quiet), m, s.powerful);
            match with_ion(f5, m, s.ion) {
                None => if s.ion {
                    (f5, Some("Ion filter"@))
                } else {
                    (with_power(f5, s.power), None)
                },
                Some(f6) => (with_power(f6, s.power), None),
            }
        },
    }
}

impl<F: Fn(&[u8], u32, u16) -> Result<()>> StandardAc for PanasonicAc<F> {
    fn get_state(&self) -> (r: Result<State>)
        ensures
            r matches Ok(s) && s@ == standard_view(self@.frame, self@.model),
    {
        let mut state = State { power: self.get_power(), ..State::default() };

        // Handle potential errors for each property
        if let Ok(mode) = self.get_mode() {
            state.mode = mode.into();
        }

        state.temp = self.get_temp();

        if let Ok(fan) = self.get_fan() {
            state.fan = fan.into();
        }

        if let Ok(swing_v) = self.get_swing_v() {
            state.swing_v = Some(swing_v.into());
        } else {
            state.swing_v = None;
        }

        if let Ok(swing_h) = self.get_swing_h() {
            state.swing_h = Some(swing_h.into());
        } else {
            state.swing_h = None;
        }

        state.quiet = self.get_quiet();
        state.powerful = self.get_powerful();
        state.ion = self.get_ion();

        // Include model information
        state.model = Some(model_to_string(self.get_model()));

        Ok(state)
    }

    fn set_state(&mut self, state: &State) -> (r: Result<()>)
        ensures
            final(self)@.frame == standard_applied(old(self)@.frame, old(self)@.model, state@).0,
            final(self)@.model == old(self)@.model,
            refusal_result(
                r,
                standard_applied(old(self)@.frame, old(self)@.model, state@).1,
                old(self)@.model.label(),
            ),
            final(self).sender() == old(self).sender(),
    {
        // Start with power off to avoid sending unnecessary commands
        self.set_power(false)?;

        // Configure all settings
        self.set_mode(state.mode.into())?;

        // Ensure temperature is set correctly
        // Important: set_temp after set_mode since set_mode might reset temp
        self.set_temp(state.temp)?;

        if let Ok(fan) = FanSpeed::try_from(state.fan.as_u8()) {
            self.set_fan(fan)?;
        }

        if let Some(swing_v) = state.swing_v {
            self.set_swing_v(swing_v.into())?;
        }

        // A model without the feature passes over a horizontal swing that asks
        // for nothing it lacks, and over an ion filter left off
        if let Some(swing_h) = state.swing_h {
            if let Err(e) = self.set_swing_h(swing_h.into()) {
                let passable = match swing_h {
                    SwingHPos::Auto | SwingHPos::Middle => true,
                    _ => false,
                };
                if !passable {
                    return Err(e);
                }
            }
        }

        self.set_quiet(state.quiet)?;
        self.set_powerful(state.powerful)?;
        if let Err(e) = self.set_ion(state.ion) {
            if state.ion {
                return Err(e);
            }
        }

        // Finally, set the power state
        self.set_power(state.power)?;

        Ok(())
    }

    fn update_state<U>(&mut self, updater: U) -> (r: Result<()>) where U: FnOnce(&mut State)
        ensures
            exists|m: &mut State|
                {
                    &&& (*m)@ == standard_view(old(self)@.frame, old(self)@.model)
                    &&& #[trigger] call_ensures(updater, (m,), ())
                    &&& final(self)@.frame == standard_applied(
                        old(self)@.frame,
                        old(self)@.model,
                        (*final(m))@,
                    ).0
                    &&& refusal_result(
                        r,
                        standard_applied(old(self)@.frame, old(self)@.model, (*final(m))@).1,
                        old(self)@.model.label(),
                    )
                },
            final(self)@.model == old(self)@.model,
            final(self).sender() == old(self).sender(),
    {
        let mut current = self.get_state()?;
        updater(&mut current);
        self.set_state(&current)
    }

    /// Sends the state bytes, with their checksum fixed, at the Panasonic
    /// carrier frequency and no repeat; the result is what the sender returns.
    open spec fn sent(&self, r: Result<()>) -> bool {
        exists|data: &[u8]|
            data@ == sent_frame(self@.frame) && #[trigger] call_ensures(
                self.sender(),
                (data, PANASONIC_FREQ, 0u16),
                r,
            )
    }

    fn send(&self) -> (r: Result<()>) {
        Device::send(self)
    }
}

/// The standard state that an AC32 device with state `v` reports: power, mode
/// (`Auto` when it cannot be decoded) and temperature; the features the model
/// lacks keep their defaults or are absent, and no model is named.
pub open spec fn ac32_standard_view(v: u32) -> StateView {
    StateView {
        power: ac32_power_of(v),
        mode: match ac32_mode_from_code(ac32_mode_field(v)) {
            Some(x) => OpMode::of_mode(x),
            None => OpMode::Auto,
        },
        temp: ac32_temp_of(v),
        fan: FanLevel::Auto,
        swing_v: None,
        swing_h: None,
        quiet: false,
        powerful: false,
        ion: false,
        model: None,
    }
}

/// Setting a standard state on an AC32 device with state `v`: power off, mode
/// and temperature are written, then the first feature the model lacks is
/// refused (fan, a swing that is given, or else quiet mode). Gives the state
/// reached and the feature refused.
pub open spec fn ac32_standard_applied(v: u32, s: StateView) -> (u32, Option<Seq<char>>) {
    let v1 = ac32_with_temp(ac32_with_mode(ac32_with_power(v, false), s.mode.mode()), s.temp);
    let refused = if FanSpeed::from_code(s.fan.index()) is Some {
        "Fan speed control"@
    } else if s.swing_v is Some {
        "Vertical swing"@
    } else if s.swing_h is Some {
        "Horizontal swing"@
    } else {
        "Quiet mode"@
    };
    (v1, Some(refused))
}

impl<F: Fn(&[u8], u32, u16) -> Result<()>> StandardAc for PanasonicAc32<F> {
    fn get_state(&self) -> (r: Result<State>)
        ensures
            r matches Ok(s) && s@ == ac32_standard_view(self@),
    {
        let mut state = State { power: self.get_power(), ..State::default() };

        // Handle potential errors for each property
        if let Ok(mode) = self.get_mode() {
            state.mode = mode.into();
        }

        state.temp = self.get_temp();

        if let Ok(fan) = self.get_fan() {
            state.fan = fan.into();
        }

        if let Ok(swing_v) = self.get_swing_v() {
            state.swing_v = Some(swing_v.into());
        } else {
            state.swing_v = None;
        }

        if let Ok(swing_h) = self.get_swing_h() {
            state.swing_h = Some(swing_h.into());
        } else {
            state.swing_h = None;
        }

        state.quiet = self.get_quiet();
        state.powerful = self.get_powerful();
        state.ion = self.get_ion();

        // AC32 devices report no model
        Ok(state)
    }

    fn set_state(&mut self, state: &State) -> (r: Result<()>)
        ensures
            final(self)@ == ac32_standard_applied(old(self)@, state@).0,
            refusal_result(r, ac32_standard_applied(old(self)@, state@).1, "AC32"@),
            final(self).sender() == old(self).sender(),
    {
        // Start with power off to avoid sending unnecessary commands
        self.set_power(false)?;

        // Configure all settings
        self.set_mode(state.mode.into())?;
        self.set_temp(state.temp)?;

        if let Ok(fan) = FanSpeed::try_from(state.fan.as_u8()) {
            if let Err(e) = self.set_fan(fan) {
                return Err(e);
            }
        }

        if let Some(swing_v) = state.swing_v {
            if let Err(e) = self.set_swing_v(swing_v.into()) {
                return Err(e);
            }
        }

        if let Some(swing_h) = state.swing_h {
            if let Err(e) = self.set_swing_h(swing_h.into()) {
                return Err(e);
            }
        }

        if let Err(e) = self.set_quiet(state.quiet) {
            return Err(e);
        }
        if let Err(e) = self.set_powerful(state.powerful) {
            return Err(e);
        }
        if let Err(e) = self.set_ion(state.ion) {
            return Err(e);
        }

        // Finally, set the power state
        self.set_power(state.power)?;

        Ok(())
    }

    fn update_state<U>(&mut self, updater: U) -> (r: Result<()>) where U: FnOnce(&mut State)
        ensures
            exists|m: &mut State|
                {
                    &&& (*m)@ == ac32_standard_view(old(self)@)
                    &&& #[trigger] call_ensures(updater, (m,), ())
                    &&& final(self)@ == ac32_standard_applied(old(self)@, (*final(m))@).0
                    &&& refusal_result(
                        r,
                        ac32_standard_applied(old(self)@, (*final(m))@).1,
                        "AC32"@,
                    )
                },
            final(self).sender() == old(self).sender(),
    {
        let mut current = self.get_state()?;
        updater(&mut current);
        self.set_state(&current)
    }

    open spec fn sent(&self, r: Result<()>) -> bool {
        exists|data: &[u8]|
            data@ == crate::encoder::command_bytes(self@) && #[trigger] call_ensures(
                self.sender(),
                (data, PANASONIC_FREQ, 0u16),
                r,
            )
    }

    fn send(&self) -> (r: Result<()>) {
        Device::send(self)
    }
}

/// Standard state read back, on every model: when `set_state` goes through,
/// `get_state` reports the power, the mode, the temperature brought into
/// 16–30 °C and the fan level of the state set; the vertical swing when one
/// was given; the horizontal swing given, on a model that swings
/// horizontally; powerful mode as given and quiet mode as given unless
/// powerful mode, set after it, turns it off; and the ion filter, on the model
/// that has one.
#[verifier::rlimit(60)]
#[verifier::spinoff_prover]
pub proof fn law_standard_state_read_back(f: Seq<u8>, m: PanasonicAcModel, s: StateView)
    requires
        f.len() == crate::constants::PANASONIC_AC_STATE_LENGTH,
    ensures
        standard_applied(f, m, s).1 is None ==> {
            let g = standard_applied(f, m, s).0;
            &&& standard_view(g, m).power == s.power
            &&& standard_view(g, m).mode == s.mode
            &&& standard_view(g, m).temp == clamp_temp(s.temp)
            &&& fan_of(g) == Some(s.fan.speed())
            &&& standard_view(g, m).fan == s.fan
            &&& s.swing_v is Some ==> standard_view(g, m).swing_v == s.swing_v
            &&& s.swing_h is Some && supports_swing_h(m) ==> standard_view(g, m).swing_h
                == s.swing_h
            &&& standard_view(g, m).powerful == s.powerful
            &&& standard_view(g, m).quiet == (s.quiet && !s.powerful)
            &&& supports_ion(m) ==> standard_view(g, m).ion == s.ion
        },
{
    if standard_applied(f, m, s).1 is None {
        let md = s.mode.mode();
        let fs = s.fan.speed();
        let f1 = with_power(f, false);
        let f2 = with_mode(f1, md);
        let f3 = with_temp(f2, s.temp);
        assert(FanSpeed::from_code(s.fan.index()) == Some(fs));
        let f4 = with_fan(f3, fs);
        let f5 = match s.swing_v {
            Some(p) => with_swing_v(f4, p.swing()),
            None => f4,
        };
        let f6 = match s.swing_h {
            Some(p) => match with_swing_h(f5, m, p.swing()) {
                Some(b) => b,
                None => f5,
            },
            None => f5,
        };
        let f7 = with_quiet(f6, m, s.quiet);
        let f8 = with_powerful(f7, m, s.powerful);
        let f9 = match with_ion(f8, m, s.ion) {
            Some(b) => b,
            None => f8,
        };
        let f10 = with_power(f9, s.power);
        assert(standard_applied(f, m, s).0 == f10);

        // Power, then mode (byte 13: the power bit does not touch the mode nibble)
        crate::state::law_power_roundtrip(f9, s.power);
        crate::state::law_mode_roundtrip(f1, md);
        let x = f9[13];
        let pw = s.power;
        assert(bits_of(with_bit(x, 0, pw), 4, 4) == bits_of(x, 4, 4)) by (bit_vector);
        assert(f9[13] == f2[13]);
        assert(mode_field(f10) == mode_field(f2));
        assert(OpMode::of_mode(md) == s.mode);

        // Temperature (byte 14)
        assert(f10[14] == clamp_temp(s.temp));

        // Fan and vertical swing (byte 16: the swing nibble leaves the fan nibble)
        crate::state::law_fan_roundtrip(f3, fs);
        if let Some(p) = s.swing_v {
            crate::device::lemma_field_independence(f4[16], p.swing().code());
            crate::state::law_swing_v_roundtrip(f4, p.swing());
        }
        assert(fan_field(f5) == fan_field(f4));
        assert(fan_of(f10) == Some(fs));
        assert(FanLevel::of_speed(fs) == s.fan);
        assert(swing_v_field(f10) == swing_v_field(f5));

        // Horizontal swing (byte 17)
        if let Some(p) = s.swing_h {
            crate::state::law_swing_h_roundtrip(f5, m, p.swing());
        }
        assert(f10[17] == f6[17]);
        assert(swing_h_of(f10, m) == swing_h_of(f6, m));

        // Quiet and powerful (byte 21)
        let q = quiet_offset(m);
        let p = powerful_offset(m);
        let y = f6[21];
        let y7 = f7[21];
        let y8 = f8[21];
        if s.quiet {
            crate::device::lemma_mode_bits(y, p, q, false);
            crate::device::lemma_mode_bits(with_bit(y, p, false), q, p, true);
        } else {
            crate::device::lemma_mode_bits(y, q, p, false);
        }
        if s.powerful {
            crate::device::lemma_mode_bits(y7, q, p, false);
            crate::device::lemma_mode_bits(with_bit(y7, q, false), p, q, true);
        } else {
            crate::device::lemma_mode_bits(y7, p, q, false);
        }
        assert(bit_of(y8, q) == (s.quiet && !s.powerful));
        assert(bit_of(y8, p) == s.powerful);
        assert(f10[21] == y8);

        // Ion filter (byte 22)
        if supports_ion(m) {
            crate::state::law_ion_roundtrip(f8, m, s.ion);
        }
        assert(f10[22] == f9[22]);
    }
}

/// Standard state round trip: on a DKE unit, setting a standard state that
/// gives both swings and does not ask for quiet and powerful mode together,
/// then reading the state back, gives that state, with the temperature brought
/// into 16–30 °C and the model named. Any other model sets a state exactly
/// when the state leaves the ion filter off and, on a model with no horizontal
/// swing setting at all (unknown, JKE, CKP), asks for no horizontal swing
/// other than `Auto` or `Middle`.
pub proof fn law_standard_state_roundtrip(f: Seq<u8>, m: PanasonicAcModel, s: StateView)
    requires
        f.len() == crate::constants::PANASONIC_AC_STATE_LENGTH,
    ensures
        m != PanasonicAcModel::Dke ==> (standard_applied(f, m, s).1 is None <==> (!s.ion && !(
        s.swing_h matches Some(p) && !swing_h_passable(p) && !(supports_swing_h(m) || m
            == PanasonicAcModel::Nke || m == PanasonicAcModel::Lke)))),
        m == PanasonicAcModel::Dke && s.swing_v is Some && s.swing_h is Some && !(s.quiet
            && s.powerful) ==> {
            &&& standard_applied(f, m, s).1 is None
            &&& standard_view(standard_applied(f, m, s).0, m) == (StateView {
                temp: clamp_temp(s.temp),
                model: Some(model_text(m)),
                ..s
            })
        },
{
    law_standard_state_read_back(f, m, s);
    if m == PanasonicAcModel::Dke && s.swing_v is Some && s.swing_h is Some && !(s.quiet
        && s.powerful) {
        let g = standard_applied(f, m, s).0;
        assert(standard_view(g, m) =~= (StateView {
            temp: clamp_temp(s.temp),
            model: Some(model_text(m)),
            ..s
        }));
    }
}

} // verus!
