use vstd::prelude::*;

use crate::fulfillment::execute::ColorValue;
use crate::fulfillment::execute::Command;
use crate::fulfillment::execute::CommandType;
use crate::fulfillment::execute::CommandBatchV;
use crate::fulfillment::execute::CommandV;
use crate::fulfillment::execute::Execute;
use crate::strutil::str_eq;
use crate::traits::input_selector::AvailableInput;
use crate::traits::input_selector::InputSelector;
use crate::traits::input_selector::InputSelectorError;

verus! {

/// One device capability, the unit of dispatch: a command is served by
/// exactly one capability, and a device implements any set of them.
#[derive(Clone, Copy, PartialEq, Eq, Structural, Debug)]
pub enum Capability {
    OnOff,
    Brightness,
    ColorSetting,
    Cook,
    Dispense,
    Dock,
    EnergyStorage,
    FanSpeed,
    Fill,
    HumiditySetting,
    InputSelector,
    LightEffects,
    Locator,
    LockUnlock,
    ArmDisarm,
}

/// The capability a command needs on its target device.
pub open spec fn spec_required_capability(c: CommandV) -> Capability {
    match c {
        CommandV::ArmDisarm { .. } => Capability::ArmDisarm,
        CommandV::BrightnessAbsolute { .. } => Capability::Brightness,
        CommandV::BrightnessRelative { .. } => Capability::Brightness,
        CommandV::ColorAbsolute { .. } => Capability::ColorSetting,
        CommandV::Cook { .. } => Capability::Cook,
        CommandV::Dispense { .. } => Capability::Dispense,
        CommandV::Dock => Capability::Dock,
        CommandV::Charge { .. } => Capability::EnergyStorage,
        CommandV::SetFanSpeed { .. } => Capability::FanSpeed,
        CommandV::SetFanSpeedRelative { .. } => Capability::FanSpeed,
        CommandV::Fill { .. } => Capability::Fill,
        CommandV::SetHumidity { .. } => Capability::HumiditySetting,
        CommandV::HumidityRelative { .. } => Capability::HumiditySetting,
        CommandV::SetInput { .. } => Capability::InputSelector,
        CommandV::NextInput => Capability::InputSelector,
        CommandV::PreviousInput => Capability::InputSelector,
        CommandV::ColorLoop { .. } => Capability::LightEffects,
        CommandV::Sleep { .. } => Capability::LightEffects,
        CommandV::StopEffect => Capability::LightEffects,
        CommandV::Wake { .. } => Capability::LightEffects,
        CommandV::Locate { .. } => Capability::Locator,
        CommandV::LockUnlock { .. } => Capability::LockUnlock,
        CommandV::OnOff { .. } => Capability::OnOff,
    }
}

/// The capability a command needs on its target device.
pub fn required_capability(c: &CommandType) -> (r: Capability)
    ensures
        r == spec_required_capability(c@),
{
    match c {
        CommandType::ArmDisarm { .. } => Capability::ArmDisarm,
        CommandType::BrightnessAbsolute { .. } => Capability::Brightness,
        CommandType::BrightnessRelative { .. } => Capability::Brightness,
        CommandType::ColorAbsolute { .. } => Capability::ColorSetting,
        CommandType::Cook { .. } => Capability::Cook,
        CommandType::Dispense { .. } => Capability::Dispense,
        CommandType::Dock => Capability::Dock,
        CommandType::Charge { .. } => Capability::EnergyStorage,
        CommandType::SetFanSpeed { .. } => Capability::FanSpeed,
        CommandType::SetFanSpeedRelative { .. } => Capability::FanSpeed,
        CommandType::Fill { .. } => Capability::Fill,
        CommandType::SetHumidity { .. } => Capability::HumiditySetting,
        CommandType::HumidityRelative { .. } => Capability::HumiditySetting,
        CommandType::SetInput { .. } => Capability::InputSelector,
        CommandType::NextInput => Capability::InputSelector,
        CommandType::PreviousInput => Capability::InputSelector,
        CommandType::ColorLoop { .. } => Capability::LightEffects,
        CommandType::Sleep { .. } => Capability::LightEffects,
        CommandType::StopEffect => Capability::LightEffects,
        CommandType::Wake { .. } => Capability::LightEffects,
        CommandType::Locate { .. } => Capability::Locator,
        CommandType::LockUnlock { .. } => Capability::LockUnlock,
        CommandType::OnOff { .. } => Capability::OnOff,
    }
}

/// Why one (device, command) application failed. Dispatch is total: every
/// failure is recorded here, never thrown past the engine.
#[derive(Clone, Copy, PartialEq, Eq, Structural, Debug)]
pub enum DispatchError {
    /// The device identifier is not registered.
    DeviceNotFound,
    /// The device does not implement the command's capability, or the
    /// capability cannot serve this command in its current configuration.
    UnsupportedCommand,
    /// A decoded parameter is outside the capability's accepted range.
    InvalidParameter,
    /// The requested input is not among the device's available inputs.
    UnsupportedInput,
}

impl DispatchError {
    /// The single string token this error serializes to.
    pub open spec fn spec_token(&self) -> Seq<char> {
        match self {
            DispatchError::DeviceNotFound => "DeviceNotFound"@,
            DispatchError::UnsupportedCommand => "UnsupportedCommand"@,
            DispatchError::InvalidParameter => "InvalidParameter"@,
            DispatchError::UnsupportedInput => "UnsupportedInput"@,
        }
    }

    /// Render this error to its single string token.
    pub fn error_token(&self) -> (r: String)
        ensures
            r@ == self.spec_token(),
    {
        match self {
            DispatchError::DeviceNotFound => "DeviceNotFound".to_owned(),
            DispatchError::UnsupportedCommand => "UnsupportedCommand".to_owned(),
            DispatchError::InvalidParameter => "InvalidParameter".to_owned(),
            DispatchError::UnsupportedInput => "UnsupportedInput".to_owned(),
        }
    }
}

/// The mutable state a registered device carries across commands.
#[derive(Debug, PartialEq, Eq)]
pub struct DeviceState {
    /// Whether the device is on.
    pub on: bool,
    /// Brightness percentage, 0 to 100.
    pub brightness: i32,
    /// Whether the device is locked.
    pub locked: bool,
    /// Humidity setpoint percentage, 0 to 100.
    pub humidity: i32,
    /// Keys of the available media inputs.
    pub inputs: Vec<String>,
    /// Index of the input currently in use; 0 when there are no inputs.
    pub current_input: usize,
    /// Whether the input list is ordered, enabling next and previous.
    pub ordered_inputs: bool,
}

/// Abstract form of a `DeviceState`.
pub struct StateV {
    pub on: bool,
    pub brightness: int,
    pub locked: bool,
    pub humidity: int,
    pub inputs: Seq<Seq<char>>,
    pub current_input: int,
    pub ordered_inputs: bool,
}

impl View for DeviceState {
    type V = StateV;

    open spec fn view(&self) -> StateV {
        StateV {
            on: self.on,
            brightness: self.brightness as int,
            locked: self.locked,
            humidity: self.humidity as int,
            inputs: self.inputs@.map_values(|s: String| s@),
            current_input: self.current_input as int,
            ordered_inputs: self.ordered_inputs,
        }
    }
}

/// Well-formedness of a device state: percentages in range, and the current
/// input index inside the input list (or zero when the list is empty).
pub open spec fn state_wf(s: StateV) -> bool {
    &&& 0 <= s.brightness <= 100
    &&& 0 <= s.humidity <= 100
    &&& if s.inputs.len() == 0 {
        s.current_input == 0
    } else {
        0 <= s.current_input < s.inputs.len()
    }
}

impl DeviceState {
    /// A fresh device state: off, unlocked, full brightness, mid humidity,
    /// no inputs.
    pub fn new() -> (s: DeviceState)
        ensures
            s@.on == false,
            s@.brightness == 100,
            s@.locked == false,
            s@.humidity == 50,
            s@.inputs.len() == 0,
            s@.current_input == 0,
            s@.ordered_inputs == false,
            state_wf(s@),
    {
        DeviceState {
            on: false,
            brightness: 100,
            locked: false,
            humidity: 50,
            inputs: Vec::new(),
            current_input: 0,
            ordered_inputs: false,
        }
    }

    /// Whether this state is well formed.
    pub fn is_wf(&self) -> (r: bool)
        ensures
            r == state_wf(self@),
    {
        0 <= self.brightness && self.brightness <= 100 && 0 <= self.humidity && self.humidity
            <= 100 && (if self.inputs.len() == 0 {
            self.current_input == 0
        } else {
            self.current_input < self.inputs.len()
        })
    }
}

/// A percentage clamped to 0 to 100.
pub open spec fn clamp_pct(n: int) -> int {
    if n < 0 {
        0
    } else if n > 100 {
        100
    } else {
        n
    }
}

fn clamp_pct_i64(n: i64) -> (r: i32)
    ensures
        r as int == clamp_pct(n as int),
{
    if n < 0 {
        0
    } else if n > 100 {
        100
    } else {
        n as i32
    }
}

/// The first index of `key` among the input keys, if any.
pub open spec fn spec_find_input(inputs: Seq<Seq<char>>, key: Seq<char>) -> Option<int>
    decreases inputs.len(),
{
    if inputs.len() == 0 {
        None
    } else if inputs[0] == key {
        Some(0)
    } else {
        match spec_find_input(inputs.drop_first(), key) {
            Some(k) => Some(k + 1),
            None => None,
        }
    }
}

/// Apply one command to one device state, assuming the device implements the
/// command's capability. Pure: the result is the new state and the outcome.
/// Parameters the decoder cannot reject statically are validated here and
/// answered with a typed error, never a panic.
pub open spec fn spec_apply(s: StateV, c: CommandV) -> (StateV, Result<(), DispatchError>) {
    match c {
        CommandV::OnOff { on } => (StateV { on, ..s }, Ok(())),
        CommandV::BrightnessAbsolute { brightness } => if 0 <= brightness <= 100 {
            (StateV { brightness, ..s }, Ok(()))
        } else {
            (s, Err(DispatchError::InvalidParameter))
        },
        CommandV::BrightnessRelative {
            brightness_relative_percent,
            brightness_relative_weight,
        } => match brightness_relative_percent {
            Some(p) => (StateV { brightness: clamp_pct(s.brightness + p), ..s }, Ok(())),
            None => match brightness_relative_weight {
                Some(w) => (StateV { brightness: clamp_pct(s.brightness + w * 20), ..s }, Ok(())),
                None => (s, Err(DispatchError::InvalidParameter)),
            },
        },
        CommandV::ColorAbsolute { color } => match color.value {
            ColorValue::Temperature(t) => if 1000 <= t <= 10000 {
                (s, Ok(()))
            } else {
                (s, Err(DispatchError::InvalidParameter))
            },
            ColorValue::SpectrumRgb(v) => if 0 <= v <= 0xFFFFFF {
                (s, Ok(()))
            } else {
                (s, Err(DispatchError::InvalidParameter))
            },
        },
        CommandV::Cook { quantity, .. } => match quantity {
            Some(q) => if q >= 0 {
                (s, Ok(()))
            } else {
                (s, Err(DispatchError::InvalidParameter))
            },
            None => (s, Ok(())),
        },
        CommandV::Dispense { amount, .. } => match amount {
            Some(a) => if a >= 0 {
                (s, Ok(()))
            } else {
                (s, Err(DispatchError::InvalidParameter))
            },
            None => (s, Ok(())),
        },
        CommandV::Dock => (s, Ok(())),
        CommandV::Charge { .. } => (s, Ok(())),
        CommandV::SetFanSpeed { fan_speed, fan_speed_percent } => match fan_speed {
            Some(_) => (s, Ok(())),
            None => match fan_speed_percent {
                Some(p) => if 0 <= p <= 100 {
                    (s, Ok(()))
                } else {
                    (s, Err(DispatchError::InvalidParameter))
                },
                None => (s, Err(DispatchError::InvalidParameter)),
            },
        },
        CommandV::SetFanSpeedRelative {
            fan_speed_relative_weight,
            fan_speed_relative_percent,
        } => if fan_speed_relative_weight is Some || fan_speed_relative_percent is Some {
            (s, Ok(()))
        } else {
            (s, Err(DispatchError::InvalidParameter))
        },
        CommandV::Fill { fill_percent, .. } => match fill_percent {
            Some(p) => if 0 <= p <= 100 {
                (s, Ok(()))
            } else {
                (s, Err(DispatchError::InvalidParameter))
            },
            None => (s, Ok(())),
        },
        CommandV::SetHumidity { humidity } => if 0 <= humidity <= 100 {
            (StateV { humidity, ..s }, Ok(()))
        } else {
            (s, Err(DispatchError::InvalidParameter))
        },
        CommandV::HumidityRelative {
            humidity_relative_percent,
            humidity_relative_weight,
        } => match humidity_relative_percent {
            Some(p) => (StateV { humidity: clamp_pct(s.humidity + p), ..s }, Ok(())),
            None => match humidity_relative_weight {
                Some(w) => (StateV { humidity: clamp_pct(s.humidity + w * 10), ..s }, Ok(())),
                None => (s, Err(DispatchError::InvalidParameter)),
            },
        },
        CommandV::SetInput { new_input } => match spec_find_input(s.inputs, new_input) {
            Some(ix) => (StateV { current_input: ix, ..s }, Ok(())),
            None => (s, Err(DispatchError::UnsupportedInput)),
        },
        CommandV::NextInput => if !s.ordered_inputs {
            (s, Err(DispatchError::UnsupportedCommand))
        } else if s.inputs.len() == 0 {
            (s, Err(DispatchError::UnsupportedInput))
        } else {
            (
                StateV {
                    current_input: if s.current_input + 1 == s.inputs.len() {
                        0
                    } else {
                        s.current_input + 1
                    },
                    ..s
                },
                Ok(()),
            )
        },
        CommandV::PreviousInput => if !s.ordered_inputs {
            (s, Err(DispatchError::UnsupportedCommand))
        } else if s.inputs.len() == 0 {
            (s, Err(DispatchError::UnsupportedInput))
        } else {
            (
                StateV {
                    current_input: if s.current_input == 0 {
                        s.inputs.len() - 1
                    } else {
                        s.current_input - 1
                    },
                    ..s
                },
                Ok(()),
            )
        },
        CommandV::ColorLoop { duration } => if duration >= 0 {
            (s, Ok(()))
        } else {
            (s, Err(DispatchError::InvalidParameter))
        },
        CommandV::Sleep { duration } => if duration >= 0 {
            (s, Ok(()))
        } else {
            (s, Err(DispatchError::InvalidParameter))
        },
        CommandV::StopEffect => (s, Ok(())),
        CommandV::Wake { duration } => if duration >= 0 {
            (s, Ok(()))
        } else {
            (s, Err(DispatchError::InvalidParameter))
        },
        CommandV::Locate { .. } => (s, Ok(())),
        CommandV::LockUnlock { lock, .. } => (StateV { locked: lock, ..s }, Ok(())),
        CommandV::ArmDisarm { .. } => (s, Ok(())),
    }
}

/// A found input index lies inside the input list.
pub proof fn lemma_find_input_bounds(inputs: Seq<Seq<char>>, key: Seq<char>)
    ensures
        match spec_find_input(inputs, key) {
            Some(ix) => 0 <= ix < inputs.len(),
            None => true,
        },
    decreases inputs.len(),
{
    if inputs.len() > 0 && inputs[0] != key {
        lemma_find_input_bounds(inputs.drop_first(), key);
    }
}

/// Applying a command keeps the state well formed.
pub proof fn lemma_apply_preserves_wf(s: StateV, c: CommandV)
    requires
        state_wf(s),
    ensures
        state_wf(spec_apply(s, c).0),
{
    match c {
        CommandV::SetInput { new_input } => {
            lemma_find_input_bounds(s.inputs, new_input);
        },
        _ => {},
    }
}

fn find_input(inputs: &Vec<String>, key: &str) -> (r: Option<usize>)
    ensures
        match r {
            Some(ix) => spec_find_input(
                inputs@.map_values(|s: String| s@),
                key@,
            ) == Some(ix as int) && ix < inputs.len(),
            None => spec_find_input(inputs@.map_values(|s: String| s@), key@) is None,
        },
{
    let ghost iv = inputs@.map_values(|s: String| s@);
    proof {
        assert(iv.skip(0) =~= iv);
    }
    let mut i: usize = 0;
    while i < inputs.len()
        invariant
            0 <= i <= inputs.len(),
            iv == inputs@.map_values(|s: String| s@),
            iv.len() == inputs.len(),
            spec_find_input(iv, key@) == (match spec_find_input(iv.skip(i as int), key@) {
                Some(k) => Some(k + i),
                None => None::<int>,
            }),
        decreases inputs.len() - i,
    {
        proof {
            assert(iv.skip(i as int)[0] == iv[i as int]);
            assert(iv[i as int] == inputs@[i as int]@);
            assert(iv.skip(i as int).drop_first() =~= iv.skip(i as int + 1));
        }
        if str_eq(inputs[i].as_str(), key) {
            return Some(i);
        }
        i = i + 1;
    }
    proof {
        assert(iv.skip(inputs.len() as int).len() == 0);
    }
    None
}

/// Apply one command to one device state. The state is consumed and the new
/// state returned together with the outcome; the result is exactly
/// `spec_apply` on the abstract state.
pub fn apply_command(state: DeviceState, c: &CommandType) -> (r: (
    DeviceState,
    Result<(), DispatchError>,
))
    requires
        state_wf(state@),
    ensures
        r.0@ == spec_apply(state@, c@).0,
        r.1 == spec_apply(state@, c@).1,
        state_wf(r.0@),
{
    proof {
        lemma_apply_preserves_wf(state@, c@);
    }
    match c {
        CommandType::OnOff { on } => {
            let new_state = DeviceState { on: *on, ..state };
            (new_state, Ok(()))
        },
        CommandType::BrightnessAbsolute { brightness } => {
            if 0 <= *brightness && *brightness <= 100 {
                let b = *brightness;
                (DeviceState { brightness: b, ..state }, Ok(()))
            } else {
                (state, Err(DispatchError::InvalidParameter))
            }
        },
        CommandType::BrightnessRelative {
            brightness_relative_percent,
            brightness_relative_weight,
        } => {
            match brightness_relative_percent {
                Some(p) => {
                    let nb = clamp_pct_i64(state.brightness as i64 + *p as i64);
                    (DeviceState { brightness: nb, ..state }, Ok(()))
                },
                None => match brightness_relative_weight {
                    Some(w) => {
                        let nb = clamp_pct_i64(state.brightness as i64 + (*w as i64) * 20);
                        (DeviceState { brightness: nb, ..state }, Ok(()))
                    },
                    None => (state, Err(DispatchError::InvalidParameter)),
                },
            }
        },
        CommandType::ColorAbsolute { color } => {
            match &color.value {
                ColorValue::Temperature(t) => {
                    if 1000 <= *t && *t <= 10000 {
                        (state, Ok(()))
                    } else {
                        (state, Err(DispatchError::InvalidParameter))
                    }
                },
                ColorValue::SpectrumRgb(v) => {
                    if 0 <= *v && *v <= 0xFFFFFF {
                        (state, Ok(()))
                    } else {
                        (state, Err(DispatchError::InvalidParameter))
                    }
                },
            }
        },
        CommandType::Cook { quantity, .. } => {
            match quantity {
                Some(q) => {
                    if *q >= 0 {
                        (state, Ok(()))
                    } else {
                        (state, Err(DispatchError::InvalidParameter))
                    }
                },
                None => (state, Ok(())),
            }
        },
        CommandType::Dispense { amount, .. } => {
            match amount {
                Some(a) => {
                    if *a >= 0 {
                        (state, Ok(()))
                    } else {
                        (state, Err(DispatchError::InvalidParameter))
                    }
                },
                None => (state, Ok(())),
            }
        },
        CommandType::Dock => (state, Ok(())),
        CommandType::Charge { .. } => (state, Ok(())),
        CommandType::SetFanSpeed { fan_speed, fan_speed_percent } => {
            match fan_speed {
                Some(_) => (state, Ok(())),
                None => match fan_speed_percent {
                    Some(p) => {
                        if 0 <= *p && *p <= 100 {
                            (state, Ok(()))
                        } else {
                            (state, Err(DispatchError::InvalidParameter))
                        }
                    },
                    None => (state, Err(DispatchError::InvalidParameter)),
                },
            }
        },
        CommandType::SetFanSpeedRelative {
            fan_speed_relative_weight,
            fan_speed_relative_percent,
        } => {
            if fan_speed_relative_weight.is_some() || fan_speed_relative_percent.is_some() {
                (state, Ok(()))
            } else {
                (state, Err(DispatchError::InvalidParameter))
            }
        },
        CommandType::Fill { fill_percent, .. } => {
            match fill_percent {
                Some(p) => {
                    if 0 <= *p && *p <= 100 {
                        (state, Ok(()))
                    } else {
                        (state, Err(DispatchError::InvalidParameter))
                    }
                },
                None => (state, Ok(())),
            }
        },
        CommandType::SetHumidity { humidity } => {
            if 0 <= *humidity && *humidity <= 100 {
                let h = *humidity;
                (DeviceState { humidity: h, ..state }, Ok(()))
            } else {
                (state, Err(DispatchError::InvalidParameter))
            }
        },
        CommandType::HumidityRelative {
            humidity_relative_percent,
            humidity_relative_weight,
        } => {
            match humidity_relative_percent {
                Some(p) => {
                    let nh = clamp_pct_i64(state.humidity as i64 + *p as i64);
                    (DeviceState { humidity: nh, ..state }, Ok(()))
                },
                None => match humidity_relative_weight {
                    Some(w) => {
                        let nh = clamp_pct_i64(state.humidity as i64 + (*w as i64) * 10);
                        (DeviceState { humidity: nh, ..state }, Ok(()))
                    },
                    None => (state, Err(DispatchError::InvalidParameter)),
                },
            }
        },
        CommandType::SetInput { new_input } => {
            match find_input(&state.inputs, new_input.as_str()) {
                Some(ix) => (DeviceState { current_input: ix, ..state }, Ok(())),
                None => (state, Err(DispatchError::UnsupportedInput)),
            }
        },
        CommandType::NextInput => {
            if !state.ordered_inputs {
                (state, Err(DispatchError::UnsupportedCommand))
            } else if state.inputs.len() == 0 {
                (state, Err(DispatchError::UnsupportedInput))
            } else {
                let ni = if state.current_input + 1 == state.inputs.len() {
                    0
                } else {
                    state.current_input + 1
                };
                (DeviceState { current_input: ni, ..state }, Ok(()))
            }
        },
        CommandType::PreviousInput => {
            if !state.ordered_inputs {
                (state, Err(DispatchError::UnsupportedCommand))
            } else if state.inputs.len() == 0 {
                (state, Err(DispatchError::UnsupportedInput))
            } else {
                let ni = if state.current_input == 0 {
                    state.inputs.len() - 1
                } else {
                    state.current_input - 1
                };
                (DeviceState { current_input: ni, ..state }, Ok(()))
            }
        },
        CommandType::ColorLoop { duration } => {
            if *duration >= 0 {
                (state, Ok(()))
            } else {
                (state, Err(DispatchError::InvalidParameter))
            }
        },
        CommandType::Sleep { duration } => {
            if *duration >= 0 {
                (state, Ok(()))
            } else {
                (state, Err(DispatchError::InvalidParameter))
            }
        },
        CommandType::StopEffect => (state, Ok(())),
        CommandType::Wake { duration } => {
            if *duration >= 0 {
                (state, Ok(()))
            } else {
                (state, Err(DispatchError::InvalidParameter))
            }
        },
        CommandType::Locate { .. } => (state, Ok(())),
        CommandType::LockUnlock { lock, .. } => {
            let l = *lock;
            (DeviceState { locked: l, ..state }, Ok(()))
        },
        CommandType::ArmDisarm { .. } => (state, Ok(())),
    }
}

/// One registered device: its identifier, the capabilities it implements,
/// and its mutable state.
#[derive(Debug, PartialEq, Eq)]
pub struct RegisteredDevice {
    pub id: String,
    pub caps: Vec<Capability>,
    pub state: DeviceState,
}

/// Abstract form of a `RegisteredDevice`.
pub struct DevV {
    pub id: Seq<char>,
    pub caps: Seq<Capability>,
    pub state: StateV,
}

impl View for RegisteredDevice {
    type V = DevV;

    open spec fn view(&self) -> DevV {
        DevV { id: self.id@, caps: self.caps@, state: self.state@ }
    }
}

/// A registry mapping device identifiers to devices. Long-lived: it outlives
/// any single request, and dispatch mutates only device states in it.
pub struct SimpleRegistry {
    pub devices: Vec<RegisteredDevice>,
}

impl View for SimpleRegistry {
    type V = Seq<DevV>;

    open spec fn view(&self) -> Seq<DevV> {
        self.devices@.map_values(|d: RegisteredDevice| d@)
    }
}

/// Well-formedness of a registry: identifiers unique, every state well formed.
pub open spec fn registry_wf(devs: Seq<DevV>) -> bool {
    &&& forall|i: int, j: int| 0 <= i < j < devs.len() ==> devs[i].id != devs[j].id
    &&& forall|i: int| 0 <= i < devs.len() ==> state_wf(#[trigger] devs[i].state)
}

/// The index of the device registered under `id`, if any.
pub open spec fn spec_find(devs: Seq<DevV>, id: Seq<char>) -> Option<int>
    decreases devs.len(),
{
    if devs.len() == 0 {
        None
    } else if devs[0].id == id {
        Some(0)
    } else {
        match spec_find(devs.drop_first(), id) {
            Some(k) => Some(k + 1),
            None => None,
        }
    }
}

/// A found device index lies inside the registry and names the device.
pub proof fn lemma_find_some(devs: Seq<DevV>, id: Seq<char>)
    ensures
        match spec_find(devs, id) {
            Some(ix) => 0 <= ix < devs.len() && devs[ix].id == id,
            None => forall|k: int| 0 <= k < devs.len() ==> devs[k].id != id,
        },
    decreases devs.len(),
{
    if devs.len() > 0 && devs[0].id != id {
        lemma_find_some(devs.drop_first(), id);
        assert forall|k: int| spec_find(devs, id) is None && 0 <= k < devs.len() implies devs[k].id
            != id by {
            if k > 0 {
                assert(devs.drop_first()[k - 1] == devs[k]);
            }
        }
    }
}

/// Where a device is found depends on the identifiers alone.
pub proof fn lemma_find_same_ids(devs1: Seq<DevV>, devs2: Seq<DevV>, id: Seq<char>)
    requires
        devs1.len() == devs2.len(),
        forall|k: int| 0 <= k < devs1.len() ==> devs1[k].id == devs2[k].id,
    ensures
        spec_find(devs1, id) == spec_find(devs2, id),
    decreases devs1.len(),
{
    if devs1.len() > 0 {
        assert(devs1.drop_first().len() == devs2.drop_first().len());
        assert forall|k: int| 0 <= k < devs1.drop_first().len() implies devs1.drop_first()[k].id
            == devs2.drop_first()[k].id by {
            assert(devs1.drop_first()[k] == devs1[k + 1]);
            assert(devs2.drop_first()[k] == devs2[k + 1]);
        }
        lemma_find_same_ids(devs1.drop_first(), devs2.drop_first(), id);
    }
}

fn find_device(registry: &SimpleRegistry, id: &str) -> (r: Option<usize>)
    ensures
        match r {
            Some(ix) => spec_find(registry@, id@) == Some(ix as int) && ix
                < registry.devices@.len(),
            None => spec_find(registry@, id@) is None,
        },
{
    let ghost dv = registry@;
    proof {
        assert(dv.skip(0) =~= dv);
    }
    let mut i: usize = 0;
    while i < registry.devices.len()
        invariant
            0 <= i <= registry.devices.len(),
            dv == registry@,
            dv.len() == registry.devices.len(),
            spec_find(dv, id@) == (match spec_find(dv.skip(i as int), id@) {
                Some(k) => Some(k + i),
                None => None::<int>,
            }),
        decreases registry.devices.len() - i,
    {
        proof {
            assert(dv.skip(i as int)[0] == dv[i as int]);
            assert(dv[i as int] == registry.devices@[i as int]@);
            assert(dv.skip(i as int).drop_first() =~= dv.skip(i as int + 1));
        }
        if str_eq(registry.devices[i].id.as_str(), id) {
            return Some(i);
        }
        i = i + 1;
    }
    proof {
        assert(dv.skip(registry.devices.len() as int).len() == 0);
    }
    None
}

fn caps_contain(caps: &Vec<Capability>, c: Capability) -> (r: bool)
    ensures
        r == caps@.contains(c),
{
    let mut i: usize = 0;
    while i < caps.len()
        invariant
            0 <= i <= caps.len(),
            forall|k: int| 0 <= k < i ==> caps@[k] != c,
        decreases caps.len() - i,
    {
        if caps[i] == c {
            return true;
        }
        i = i + 1;
    }
    proof {
        assert(!caps@.contains(c)) by {
            if caps@.contains(c) {
                let k = choose|k: int| 0 <= k < caps@.len() && caps@[k] == c;
                assert(caps@[k] != c);
            }
        }
    }
    false
}

impl SimpleRegistry {
    /// An empty registry.
    pub fn new() -> (r: SimpleRegistry)
        ensures
            r@ =~= Seq::<DevV>::empty(),
            registry_wf(r@),
    {
        let r = SimpleRegistry { devices: Vec::new() };
        proof {
            assert(r@ =~= Seq::<DevV>::empty());
        }
        r
    }

    /// Register a device. Returns false, changing nothing, when the
    /// identifier is already taken or the state is not well formed;
    /// otherwise appends the device and returns true.
    pub fn register(&mut self, id: String, caps: Vec<Capability>, state: DeviceState) -> (r: bool)
        requires
            registry_wf(old(self)@),
        ensures
            registry_wf(final(self)@),
            r == (spec_find(old(self)@, id@) is None && state_wf(state@)),
            r ==> final(self)@ =~= old(self)@.push(DevV { id: id@, caps: caps@, state: state@ }),
            !r ==> final(self)@ == old(self)@,
    {
        if !state.is_wf() {
            return false;
        }
        match find_device(self, id.as_str()) {
            Some(_) => false,
            None => {
                proof {
                    lemma_find_some(self@, id@);
                }
                let ghost old_model = self@;
                let dev = RegisteredDevice { id, caps, state };
                self.devices.push(dev);
                proof {
                    assert(self@ =~= old_model.push(dev@));
                }
                true
            },
        }
    }

    /// Whether a device is registered under `id`.
    pub fn is_registered(&self, id: &str) -> (r: bool)
        ensures
            r == (spec_find(self@, id@) is Some),
    {
        match find_device(self, id) {
            Some(_) => true,
            None => false,
        }
    }

    /// The state of the device registered under `id`, if any.
    pub fn device_state(&self, id: &str) -> (r: Option<&DeviceState>)
        ensures
            match r {
                Some(s) => spec_find(self@, id@) matches Some(ix) && s@ == self@[ix].state,
                None => spec_find(self@, id@) is None,
            },
    {
        match find_device(self, id) {
            Some(ix) => {
                proof {
                    assert(self@[ix as int] == self.devices@[ix as int]@);
                }
                Some(&self.devices[ix].state)
            },
            None => None,
        }
    }

    /// The number of registered devices.
    pub fn len(&self) -> (r: usize)
        ensures
            r == self@.len(),
    {
        self.devices.len()
    }
}

impl InputSelector for DeviceState {
    /// Each input key, with no localized names on record.
    fn get_available_inputs(&self) -> Result<Vec<AvailableInput>, InputSelectorError> {
        let mut out: Vec<AvailableInput> = Vec::new();
        let mut i: usize = 0;
        while i < self.inputs.len()
            decreases self.inputs.len() - i,
        {
            out.push(AvailableInput { key: self.inputs[i].clone(), names: Vec::new() });
            i = i + 1;
        }
        Ok(out)
    }

    fn has_ordered_inputs(&self) -> Result<Option<bool>, InputSelectorError> {
        Ok(Some(self.ordered_inputs))
    }

    fn get_current_input(&self) -> Result<String, InputSelectorError> {
        if self.current_input < self.inputs.len() {
            Ok(self.inputs[self.current_input].clone())
        } else {
            Err(InputSelectorError::Device(
                crate::traits::input_selector::DeviceError::UnsupportedInput,
            ))
        }
    }

    fn set_input(&mut self, input: String) -> Result<(), InputSelectorError> {
        match find_input(&self.inputs, input.as_str()) {
            Some(ix) => {
                self.current_input = ix;
                Ok(())
            },
            None => Err(InputSelectorError::Device(
                crate::traits::input_selector::DeviceError::UnsupportedInput,
            )),
        }
    }

    fn set_next_input(&mut self) -> Result<(), InputSelectorError> {
        if !self.ordered_inputs || self.current_input >= self.inputs.len() {
            Err(InputSelectorError::Device(
                crate::traits::input_selector::DeviceError::UnsupportedInput,
            ))
        } else {
            let ni = if self.current_input + 1 == self.inputs.len() {
                0
            } else {
                self.current_input + 1
            };
            self.current_input = ni;
            Ok(())
        }
    }

    fn set_previous_input(&mut self) -> Result<(), InputSelectorError> {
        if !self.ordered_inputs || self.current_input >= self.inputs.len() {
            Err(InputSelectorError::Device(
                crate::traits::input_selector::DeviceError::UnsupportedInput,
            ))
        } else {
            let ni = if self.current_input == 0 {
                self.inputs.len() - 1
            } else {
                self.current_input - 1
            };
            self.current_input = ni;
            Ok(())
        }
    }
}

/// The outcome of applying one command to one addressed device.
#[derive(Debug, PartialEq, Eq)]
pub struct Outcome {
    /// The addressed device's identifier, as given in the batch.
    pub device_id: String,
    /// Success, or the typed failure.
    pub result: Result<(), DispatchError>,
}

/// Abstract form of an `Outcome`.
pub struct OutcomeV {
    pub device_id: Seq<char>,
    pub result: Result<(), DispatchError>,
}

impl View for Outcome {
    type V = OutcomeV;

    open spec fn view(&self) -> OutcomeV {
        OutcomeV { device_id: self.device_id@, result: self.result }
    }
}

impl Outcome {
    /// The single string token this outcome serializes to: "SUCCESS" on
    /// success, the error's own token otherwise, whichever capability it
    /// came from.
    pub fn status_token(&self) -> (r: String)
        ensures
            self.result is Ok ==> r@ == "SUCCESS"@,
            self.result matches Err(e) ==> r@ == e.spec_token(),
    {
        match &self.result {
            Ok(_) => "SUCCESS".to_owned(),
            Err(e) => e.error_token(),
        }
    }
}

/// The abstract form of an outcome list.
pub open spec fn outcome_seq_model(v: Seq<Outcome>) -> Seq<OutcomeV> {
    v.map_values(|o: Outcome| o@)
}

/// Apply one command to one device, checking its capability first.
pub open spec fn spec_exec_one(d: DevV, c: CommandV) -> (DevV, Result<(), DispatchError>) {
    if !d.caps.contains(spec_required_capability(c)) {
        (d, Err(DispatchError::UnsupportedCommand))
    } else {
        let r = spec_apply(d.state, c);
        (DevV { state: r.0, ..d }, r.1)
    }
}

/// Apply a command list to one device in order, collecting one outcome per
/// command; no failure stops the rest.
pub open spec fn spec_run_commands(d: DevV, cmds: Seq<CommandV>) -> (
    DevV,
    Seq<Result<(), DispatchError>>,
)
    decreases cmds.len(),
{
    if cmds.len() == 0 {
        (d, Seq::empty())
    } else {
        let first = spec_exec_one(d, cmds[0]);
        let rest = spec_run_commands(first.0, cmds.drop_first());
        (rest.0, seq![first.1] + rest.1)
    }
}

/// Dispatch a command list to one addressed device: an unregistered
/// identifier yields one not-found outcome per command and changes nothing.
pub open spec fn spec_dispatch_one(devs: Seq<DevV>, id: Seq<char>, cmds: Seq<CommandV>) -> (
    Seq<DevV>,
    Seq<OutcomeV>,
) {
    match spec_find(devs, id) {
        None => (
            devs,
            Seq::new(
                cmds.len(),
                |j: int| OutcomeV { device_id: id, result: Err(DispatchError::DeviceNotFound) },
            ),
        ),
        Some(ix) => {
            let run = spec_run_commands(devs[ix], cmds);
            (
                devs.update(ix, run.0),
                Seq::new(cmds.len(), |j: int| OutcomeV { device_id: id, result: run.1[j] }),
            )
        },
    }
}

/// Dispatch a whole batch: each command applied to each addressed device,
/// devices in batch order, commands in execution order within a device.
pub open spec fn spec_dispatch(devs: Seq<DevV>, targets: Seq<Seq<char>>, cmds: Seq<CommandV>) -> (
    Seq<DevV>,
    Seq<OutcomeV>,
)
    decreases targets.len(),
{
    if targets.len() == 0 {
        (devs, Seq::empty())
    } else {
        let step = spec_dispatch_one(devs, targets[0], cmds);
        let rest = spec_dispatch(step.0, targets.drop_first(), cmds);
        (rest.0, step.1 + rest.1)
    }
}

/// Dispatch a command list to one addressed device of the registry.
fn dispatch_device(registry: &mut SimpleRegistry, id: &String, cmds: &Vec<CommandType>) -> (outs:
    Vec<Outcome>)
    requires
        registry_wf(old(registry)@),
    ensures
        registry_wf(final(registry)@),
        final(registry)@ == spec_dispatch_one(
            old(registry)@,
            id@,
            crate::decode::cmd_seq_model(cmds@),
        ).0,
        outcome_seq_model(outs@) == spec_dispatch_one(
            old(registry)@,
            id@,
            crate::decode::cmd_seq_model(cmds@),
        ).1,
{
    let ghost devs0 = registry@;
    let ghost cseq = crate::decode::cmd_seq_model(cmds@);
    match find_device(registry, id.as_str()) {
        None => {
            let mut outs: Vec<Outcome> = Vec::new();
            let mut j: usize = 0;
            while j < cmds.len()
                invariant
                    0 <= j <= cmds.len(),
                    outs@.len() == j,
                    forall|k: int|
                        0 <= k < j ==> (#[trigger] outs@[k]).device_id@ == id@ && outs@[k].result
                            == Err::<(), DispatchError>(DispatchError::DeviceNotFound),
                decreases cmds.len() - j,
            {
                outs.push(
                    Outcome { device_id: id.clone(), result: Err(DispatchError::DeviceNotFound) },
                );
                j = j + 1;
            }
            proof {
                assert(outcome_seq_model(outs@) =~= spec_dispatch_one(devs0, id@, cseq).1);
            }
            outs
        },
        Some(ix) => {
            proof {
                lemma_find_some(devs0, id@);
                assert(devs0[ix as int] == registry.devices@[ix as int]@);
            }
            let ghost pre_remove = registry.devices@;
            let dev = registry.devices.remove(ix);
            let ghost dev0 = dev@;
            let RegisteredDevice { id: did, caps, state } = dev;
            let mut state = state;
            let mut outs: Vec<Outcome> = Vec::new();
            proof {
                assert(cseq.skip(0) =~= cseq);
                assert(outs@.map_values(|o: Outcome| o.result) =~= Seq::<
                    Result<(), DispatchError>,
                >::empty());
                assert(Seq::<Result<(), DispatchError>>::empty() + spec_run_commands(
                    dev0,
                    cseq,
                ).1 =~= spec_run_commands(dev0, cseq).1);
            }
            let mut j: usize = 0;
            while j < cmds.len()
                invariant
                    0 <= j <= cmds.len(),
                    cseq == crate::decode::cmd_seq_model(cmds@),
                    cseq.len() == cmds.len(),
                    state_wf(state@),
                    did@ == dev0.id,
                    caps@ == dev0.caps,
                    outs@.len() == j,
                    forall|k: int| 0 <= k < j ==> (#[trigger] outs@[k]).device_id@ == id@,
                    spec_run_commands(dev0, cseq) == ({
                        let rest = spec_run_commands(
                            DevV { id: dev0.id, caps: dev0.caps, state: state@ },
                            cseq.skip(j as int),
                        );
                        (rest.0, outs@.map_values(|o: Outcome| o.result) + rest.1)
                    }),
                decreases cmds.len() - j,
            {
                proof {
                    assert(cseq.skip(j as int)[0] == cseq[j as int]);
                    assert(cseq[j as int] == cmds@[j as int]@);
                    assert(cseq.skip(j as int).drop_first() =~= cseq.skip(j as int + 1));
                }
                let rc = required_capability(&cmds[j]);
                let ghost pre_results = outs@.map_values(|o: Outcome| o.result);
                let ghost cur_dev = DevV { id: dev0.id, caps: dev0.caps, state: state@ };
                if !caps_contain(&caps, rc) {
                    outs.push(
                        Outcome {
                            device_id: id.clone(),
                            result: Err(DispatchError::UnsupportedCommand),
                        },
                    );
                    proof {
                        let stepr = spec_exec_one(cur_dev, cseq[j as int]);
                        let rest = spec_run_commands(cur_dev, cseq.skip(j as int + 1));
                        assert(outs@.map_values(|o: Outcome| o.result) =~= pre_results.push(
                            Err::<(), DispatchError>(DispatchError::UnsupportedCommand),
                        ));
                        assert(pre_results + (seq![stepr.1] + rest.1) =~= outs@.map_values(
                            |o: Outcome| o.result,
                        ) + rest.1);
                    }
                } else {
                    let app = apply_command(state, &cmds[j]);
                    state = app.0;
                    outs.push(Outcome { device_id: id.clone(), result: app.1 });
                    proof {
                        let stepr = spec_exec_one(cur_dev, cseq[j as int]);
                        let rest = spec_run_commands(stepr.0, cseq.skip(j as int + 1));
                        assert(outs@.map_values(|o: Outcome| o.result) =~= pre_results.push(
                            app.1,
                        ));
                        assert(pre_results + (seq![stepr.1] + rest.1) =~= outs@.map_values(
                            |o: Outcome| o.result,
                        ) + rest.1);
                    }
                }
                j = j + 1;
            }
            let ghost runres = spec_run_commands(dev0, cseq);
            proof {
                assert(cseq.skip(cmds.len() as int).len() == 0);
                assert(outs@.map_values(|o: Outcome| o.result) + Seq::<
                    Result<(), DispatchError>,
                >::empty() =~= outs@.map_values(|o: Outcome| o.result));
                assert(runres.0 == DevV { id: dev0.id, caps: dev0.caps, state: state@ });
                assert(runres.1 == outs@.map_values(|o: Outcome| o.result));
            }
            let new_dev = RegisteredDevice { id: did, caps, state };
            registry.devices.insert(ix, new_dev);
            proof {
                assert(new_dev@ == runres.0);
                assert(registry@ =~= devs0.update(ix as int, runres.0));
                assert(outcome_seq_model(outs@) =~= spec_dispatch_one(devs0, id@, cseq).1);
                assert forall|k: int| 0 <= k < registry@.len() implies (#[trigger] registry@[k]).id
                    == devs0[k].id by {}
                assert(registry_wf(registry@));
            }
            outs
        },
    }
}

/// Dispatch one decoded batch against the registry: every command in its
/// execution list is applied to every addressed device, and exactly one
/// outcome per (device, command) pair comes back, devices in batch order and
/// commands in execution order within each device. The engine is total:
/// failures are recorded as outcomes, never thrown.
pub fn dispatch_batch(registry: &mut SimpleRegistry, batch: &Command) -> (outcomes: Vec<Outcome>)
    requires
        registry_wf(old(registry)@),
    ensures
        registry_wf(final(registry)@),
        final(registry)@ == spec_dispatch(old(registry)@, batch@.devices, batch@.execution).0,
        outcome_seq_model(outcomes@) == spec_dispatch(
            old(registry)@,
            batch@.devices,
            batch@.execution,
        ).1,
{
    let ghost devs0 = registry@;
    let ghost targets = batch@.devices;
    let ghost cseq = batch@.execution;
    let mut outcomes: Vec<Outcome> = Vec::new();
    proof {
        assert(targets.skip(0) =~= targets);
        assert(outcome_seq_model(outcomes@) =~= Seq::<OutcomeV>::empty());
        assert(Seq::<OutcomeV>::empty() + spec_dispatch(devs0, targets, cseq).1 =~= spec_dispatch(
            devs0,
            targets,
            cseq,
        ).1);
    }
    let mut i: usize = 0;
    while i < batch.devices.len()
        invariant
            0 <= i <= batch.devices.len(),
            targets == batch@.devices,
            cseq == batch@.execution,
            targets.len() == batch.devices.len(),
            registry_wf(registry@),
            spec_dispatch(devs0, targets, cseq).0 == spec_dispatch(
                registry@,
                targets.skip(i as int),
                cseq,
            ).0,
            spec_dispatch(devs0, targets, cseq).1 == outcome_seq_model(outcomes@) + spec_dispatch(
                registry@,
                targets.skip(i as int),
                cseq,
            ).1,
        decreases batch.devices.len() - i,
    {
        proof {
            assert(targets.skip(i as int)[0] == targets[i as int]);
            assert(targets[i as int] == batch.devices@[i as int]@);
            assert(targets.skip(i as int).drop_first() =~= targets.skip(i as int + 1));
            assert(crate::decode::cmd_seq_model(batch.execution@) =~= cseq);
        }
        let ghost reg_pre = registry@;
        let ghost outcomes_pre = outcomes@;
        let mut dev_outs = dispatch_device(registry, &batch.devices[i].id, &batch.execution);
        proof {
            let step = spec_dispatch_one(reg_pre, targets[i as int], cseq);
            let rest = spec_dispatch(registry@, targets.skip(i as int + 1), cseq);
            assert(outcome_seq_model(outcomes_pre + dev_outs@) =~= outcome_seq_model(outcomes_pre)
                + outcome_seq_model(dev_outs@));
            assert(outcome_seq_model(outcomes_pre) + (step.1 + rest.1) =~= (outcome_seq_model(
                outcomes_pre,
            ) + step.1) + rest.1);
        }
        outcomes.append(&mut dev_outs);
        i = i + 1;
    }
    proof {
        assert(targets.skip(batch.devices.len() as int).len() == 0);
        assert(outcome_seq_model(outcomes@) + Seq::<OutcomeV>::empty() =~= outcome_seq_model(
            outcomes@,
        ));
    }
    outcomes
}

/// Dispatch every batch of an EXECUTE payload in order, batch after batch.
pub open spec fn spec_dispatch_execute(devs: Seq<DevV>, batches: Seq<CommandBatchV>) -> (
    Seq<DevV>,
    Seq<OutcomeV>,
)
    decreases batches.len(),
{
    if batches.len() == 0 {
        (devs, Seq::empty())
    } else {
        let step = spec_dispatch(devs, batches[0].devices, batches[0].execution);
        let rest = spec_dispatch_execute(step.0, batches.drop_first());
        (rest.0, step.1 + rest.1)
    }
}

/// Dispatch a whole EXECUTE payload: its batches in order, the outcomes of
/// each batch in the cross-product order dispatch gives them. Total: a
/// structurally valid payload always yields one outcome per (device, command)
/// pair of each batch, even if every one of them is an error.
pub fn dispatch_execute(registry: &mut SimpleRegistry, e: &Execute) -> (outcomes: Vec<Outcome>)
    requires
        registry_wf(old(registry)@),
    ensures
        registry_wf(final(registry)@),
        final(registry)@ == spec_dispatch_execute(old(registry)@, e@).0,
        outcome_seq_model(outcomes@) == spec_dispatch_execute(old(registry)@, e@).1,
{
    let ghost devs0 = registry@;
    let ghost batches = e@;
    let mut outcomes: Vec<Outcome> = Vec::new();
    proof {
        assert(batches.skip(0) =~= batches);
        assert(outcome_seq_model(outcomes@) =~= Seq::<OutcomeV>::empty());
        assert(Seq::<OutcomeV>::empty() + spec_dispatch_execute(devs0, batches).1
            =~= spec_dispatch_execute(devs0, batches).1);
    }
    let mut i: usize = 0;
    while i < e.commands.len()
        invariant
            0 <= i <= e.commands.len(),
            batches == e@,
            batches.len() == e.commands.len(),
            registry_wf(registry@),
            spec_dispatch_execute(devs0, batches).0 == spec_dispatch_execute(
                registry@,
                batches.skip(i as int),
            ).0,
            spec_dispatch_execute(devs0, batches).1 == outcome_seq_model(outcomes@)
                + spec_dispatch_execute(registry@, batches.skip(i as int)).1,
        decreases e.commands.len() - i,
    {
        proof {
            assert(batches.skip(i as int)[0] == batches[i as int]);
            assert(batches[i as int] == e.commands@[i as int]@);
            assert(batches.skip(i as int).drop_first() =~= batches.skip(i as int + 1));
        }
        let ghost reg_pre = registry@;
        let ghost outcomes_pre = outcomes@;
        let mut batch_outs = dispatch_batch(registry, &e.commands[i]);
        proof {
            let step = spec_dispatch(reg_pre, batches[i as int].devices, batches[i as int].execution);
            let rest = spec_dispatch_execute(registry@, batches.skip(i as int + 1));
            assert(outcome_seq_model(outcomes_pre + batch_outs@) =~= outcome_seq_model(
                outcomes_pre,
            ) + outcome_seq_model(batch_outs@));
            assert(outcome_seq_model(outcomes_pre) + (step.1 + rest.1) =~= (outcome_seq_model(
                outcomes_pre,
            ) + step.1) + rest.1);
        }
        outcomes.append(&mut batch_outs);
        i = i + 1;
    }
    proof {
        assert(batches.skip(e.commands.len() as int).len() == 0);
        assert(outcome_seq_model(outcomes@) + Seq::<OutcomeV>::empty() =~= outcome_seq_model(
            outcomes@,
        ));
    }
    outcomes
}

/// The position of the outcome for device `i` and command `j` in a batch
/// whose execution list has `m` commands.
pub open spec fn outcome_index(m: int, i: int, j: int) -> int {
    i * m + j
}

/// Running commands changes only a device's state, never its identifier or
/// its capability set.
pub proof fn lemma_run_preserves_identity(d: DevV, cmds: Seq<CommandV>)
    ensures
        spec_run_commands(d, cmds).0.id == d.id,
        spec_run_commands(d, cmds).0.caps == d.caps,
    decreases cmds.len(),
{
    if cmds.len() > 0 {
        lemma_run_preserves_identity(spec_exec_one(d, cmds[0]).0, cmds.drop_first());
    }
}

/// Dispatch changes only device states: the registry keeps the same devices,
/// identifiers and capability sets, in the same order.
pub proof fn lemma_dispatch_preserves_devices(
    devs: Seq<DevV>,
    targets: Seq<Seq<char>>,
    cmds: Seq<CommandV>,
)
    ensures
        spec_dispatch(devs, targets, cmds).0.len() == devs.len(),
        forall|k: int|
            0 <= k < devs.len() ==> (#[trigger] spec_dispatch(devs, targets, cmds).0[k]).id
                == devs[k].id && spec_dispatch(devs, targets, cmds).0[k].caps == devs[k].caps,
    decreases targets.len(),
{
    if targets.len() > 0 {
        let step = spec_dispatch_one(devs, targets[0], cmds);
        match spec_find(devs, targets[0]) {
            None => {},
            Some(ix) => {
                lemma_find_some(devs, targets[0]);
                lemma_run_preserves_identity(devs[ix], cmds);
            },
        }
        lemma_dispatch_preserves_devices(step.0, targets.drop_first(), cmds);
    }
}

/// A batch of N devices and M commands yields exactly N times M outcomes,
/// in device order first and command order within each device: the outcome
/// for device `i` and command `j` sits at index `i * M + j` and names that
/// device.
pub proof fn lemma_dispatch_shape(devs: Seq<DevV>, targets: Seq<Seq<char>>, cmds: Seq<CommandV>)
    ensures
        spec_dispatch(devs, targets, cmds).1.len() == targets.len() * cmds.len(),
        forall|i: int, j: int|
            #![trigger outcome_index(cmds.len() as int, i, j)]
            0 <= i < targets.len() && 0 <= j < cmds.len() ==> spec_dispatch(
                devs,
                targets,
                cmds,
            ).1[outcome_index(cmds.len() as int, i, j)].device_id == targets[i],
    decreases targets.len(),
{
    let m = cmds.len() as int;
    if targets.len() == 0 {
        assert(targets.len() * cmds.len() == 0) by (nonlinear_arith)
            requires targets.len() == 0;
    } else {
        let step = spec_dispatch_one(devs, targets[0], cmds);
        let o1 = step.1;
        let o2 = spec_dispatch(step.0, targets.drop_first(), cmds).1;
        lemma_dispatch_shape(step.0, targets.drop_first(), cmds);
        assert(o1.len() == m);
        assert(o2.len() == (targets.len() - 1) * m);
        assert((targets.len() - 1) * m + m == targets.len() * m) by (nonlinear_arith);
        assert forall|i: int, j: int|
            #![trigger outcome_index(m, i, j)]
            0 <= i < targets.len() && 0 <= j < m implies spec_dispatch(
            devs,
            targets,
            cmds,
        ).1[outcome_index(m, i, j)].device_id == targets[i] by {
            if i == 0 {
                assert(outcome_index(m, 0, j) == j) by (nonlinear_arith);
                assert((o1 + o2)[j] == o1[j]);
            } else {
                assert(outcome_index(m, i, j) == m + outcome_index(m, i - 1, j))
                    by (nonlinear_arith);
                assert(0 <= outcome_index(m, i - 1, j) < o2.len()) by (nonlinear_arith)
                    requires 1 <= i < targets.len(), 0 <= j < m, o2.len() == (targets.len() - 1) * m;
                assert((o1 + o2)[m + outcome_index(m, i - 1, j)] == o2[outcome_index(m, i - 1, j)]);
                assert(targets.drop_first()[i - 1] == targets[i]);
            }
        }
    }
}

/// One unregistered device never blocks the rest: every outcome of an
/// unregistered target is a not-found error, and the batch still covers
/// every other device.
pub proof fn lemma_dispatch_not_found(
    devs: Seq<DevV>,
    targets: Seq<Seq<char>>,
    cmds: Seq<CommandV>,
    i: int,
)
    requires
        0 <= i < targets.len(),
        spec_find(devs, targets[i]) is None,
    ensures
        forall|j: int|
            #![trigger outcome_index(cmds.len() as int, i, j)]
            0 <= j < cmds.len() ==> spec_dispatch(
                devs,
                targets,
                cmds,
            ).1[outcome_index(cmds.len() as int, i, j)].result == Err::<(), DispatchError>(
                DispatchError::DeviceNotFound,
            ),
    decreases targets.len(),
{
    let m = cmds.len() as int;
    let step = spec_dispatch_one(devs, targets[0], cmds);
    let o1 = step.1;
    let o2 = spec_dispatch(step.0, targets.drop_first(), cmds).1;
    if i == 0 {
        assert forall|j: int| #![trigger outcome_index(m, 0, j)] 0 <= j < m implies spec_dispatch(
            devs,
            targets,
            cmds,
        ).1[outcome_index(m, 0, j)].result == Err::<(), DispatchError>(
            DispatchError::DeviceNotFound,
        ) by {
            assert(outcome_index(m, 0, j) == j) by (nonlinear_arith);
            assert((o1 + o2)[j] == o1[j]);
        }
    } else {
        assert(step.0.len() == devs.len() && forall|k: int|
            0 <= k < devs.len() ==> (#[trigger] step.0[k]).id == devs[k].id) by {
            match spec_find(devs, targets[0]) {
                None => {},
                Some(ix) => {
                    lemma_find_some(devs, targets[0]);
                    lemma_run_preserves_identity(devs[ix], cmds);
                },
            }
        }
        lemma_find_same_ids(devs, step.0, targets[i]);
        assert(targets.drop_first()[i - 1] == targets[i]);
        lemma_dispatch_not_found(step.0, targets.drop_first(), cmds, i - 1);
        lemma_dispatch_shape(step.0, targets.drop_first(), cmds);
        assert forall|j: int| #![trigger outcome_index(m, i, j)] 0 <= j < m implies spec_dispatch(
            devs,
            targets,
            cmds,
        ).1[outcome_index(m, i, j)].result == Err::<(), DispatchError>(
            DispatchError::DeviceNotFound,
        ) by {
            assert(outcome_index(m, i, j) == m + outcome_index(m, i - 1, j)) by (nonlinear_arith);
            assert(0 <= outcome_index(m, i - 1, j) < o2.len()) by (nonlinear_arith)
                requires 1 <= i < targets.len(), 0 <= j < m, o2.len() == (targets.len() - 1) * m;
            assert((o1 + o2)[m + outcome_index(m, i - 1, j)] == o2[outcome_index(m, i - 1, j)]);
        }
    }
}

/// Running a command list yields exactly one result per command.
pub proof fn lemma_run_len(d: DevV, cmds: Seq<CommandV>)
    ensures
        spec_run_commands(d, cmds).1.len() == cmds.len(),
    decreases cmds.len(),
{
    if cmds.len() > 0 {
        lemma_run_len(spec_exec_one(d, cmds[0]).0, cmds.drop_first());
    }
}

/// A command whose capability a device does not implement answers with an
/// unsupported-command error, whatever state the device is in.
pub proof fn lemma_run_unsupported(d: DevV, cmds: Seq<CommandV>, j: int)
    requires
        0 <= j < cmds.len(),
        !d.caps.contains(spec_required_capability(cmds[j])),
    ensures
        spec_run_commands(d, cmds).1[j] == Err::<(), DispatchError>(
            DispatchError::UnsupportedCommand,
        ),
    decreases cmds.len(),
{
    let first = spec_exec_one(d, cmds[0]);
    if j == 0 {
        assert(spec_run_commands(d, cmds).1[0] == first.1);
    } else {
        assert(first.0.caps == d.caps);
        assert(cmds.drop_first()[j - 1] == cmds[j]);
        lemma_run_unsupported(first.0, cmds.drop_first(), j - 1);
        lemma_run_len(first.0, cmds.drop_first());
        let rest = spec_run_commands(first.0, cmds.drop_first());
        assert((seq![first.1] + rest.1)[j] == rest.1[j - 1]);
    }
}

/// A registered device that does not implement a command's capability yields
/// an unsupported-command error for that command, distinct from not-found.
pub proof fn lemma_dispatch_unsupported(
    devs: Seq<DevV>,
    targets: Seq<Seq<char>>,
    cmds: Seq<CommandV>,
    i: int,
    j: int,
)
    requires
        0 <= i < targets.len(),
        0 <= j < cmds.len(),
        spec_find(devs, targets[i]) matches Some(ix) && !devs[ix].caps.contains(
            spec_required_capability(cmds[j]),
        ),
    ensures
        spec_dispatch(devs, targets, cmds).1[outcome_index(cmds.len() as int, i, j)].result
            == Err::<(), DispatchError>(DispatchError::UnsupportedCommand),
    decreases targets.len(),
{
    let m = cmds.len() as int;
    let step = spec_dispatch_one(devs, targets[0], cmds);
    let o1 = step.1;
    let o2 = spec_dispatch(step.0, targets.drop_first(), cmds).1;
    assert(step.0.len() == devs.len() && forall|k: int|
        0 <= k < devs.len() ==> (#[trigger] step.0[k]).id == devs[k].id && step.0[k].caps
            == devs[k].caps) by {
        match spec_find(devs, targets[0]) {
            None => {},
            Some(ix0) => {
                lemma_find_some(devs, targets[0]);
                lemma_run_preserves_identity(devs[ix0], cmds);
            },
        }
    }
    if i == 0 {
        let ix = spec_find(devs, targets[0]).unwrap();
        lemma_find_some(devs, targets[0]);
        lemma_run_unsupported(devs[ix], cmds, j);
        assert(outcome_index(m, 0, j) == j) by (nonlinear_arith);
        assert((o1 + o2)[j] == o1[j]);
    } else {
        lemma_find_same_ids(devs, step.0, targets[i]);
        assert(targets.drop_first()[i - 1] == targets[i]);
        let ix = spec_find(devs, targets[i]).unwrap();
        lemma_find_some(devs, targets[i]);
        lemma_dispatch_unsupported(step.0, targets.drop_first(), cmds, i - 1, j);
        lemma_dispatch_shape(step.0, targets.drop_first(), cmds);
        assert(outcome_index(m, i, j) == m + outcome_index(m, i - 1, j)) by (nonlinear_arith);
        assert(0 <= outcome_index(m, i - 1, j) < o2.len()) by (nonlinear_arith)
            requires 1 <= i < targets.len(), 0 <= j < m, o2.len() == (targets.len() - 1) * m;
        assert((o1 + o2)[m + outcome_index(m, i - 1, j)] == o2[outcome_index(m, i - 1, j)]);
    }
}

/// Turning a device on twice is idempotent at the dispatch level: both
/// applications succeed independently, the device ends on, and nothing else
/// in the registry changes.
pub proof fn lemma_on_off_twice(devs: Seq<DevV>, id: Seq<char>, on: bool)
    requires
        spec_find(devs, id) matches Some(ix) && devs[ix].caps.contains(Capability::OnOff),
    ensures
        ({
            let cmds = seq![CommandV::OnOff { on }, CommandV::OnOff { on }];
            let r = spec_dispatch(devs, seq![id], cmds);
            let ix = spec_find(devs, id).unwrap();
            &&& r.1 =~= seq![
                OutcomeV { device_id: id, result: Ok(()) },
                OutcomeV { device_id: id, result: Ok(()) },
            ]
            &&& r.0 =~= devs.update(
                ix,
                DevV { state: StateV { on, ..devs[ix].state }, ..devs[ix] },
            )
        }),
{
    reveal_with_fuel(spec_run_commands, 4);
    reveal_with_fuel(spec_dispatch, 3);
    let cmds = seq![CommandV::OnOff { on }, CommandV::OnOff { on }];
    let targets = seq![id];
    let ix = spec_find(devs, id).unwrap();
    lemma_find_some(devs, id);
    let d = devs[ix];
    let first = spec_exec_one(d, cmds[0]);
    assert(first.1 == Ok::<(), DispatchError>(()));
    let d1 = first.0;
    assert(cmds.drop_first() =~= seq![CommandV::OnOff { on }]);
    let second = spec_exec_one(d1, cmds.drop_first()[0]);
    assert(second.1 == Ok::<(), DispatchError>(()));
    assert(cmds.drop_first().drop_first() =~= Seq::<CommandV>::empty());
    let run = spec_run_commands(d, cmds);
    assert(run.0 == second.0);
    assert(run.1 =~= seq![first.1] + (seq![second.1] + Seq::<Result<(), DispatchError>>::empty()));
    assert(run.1[0] == Ok::<(), DispatchError>(()));
    assert(run.1[1] == Ok::<(), DispatchError>(()));
    assert(second.0 == DevV { state: StateV { on, ..d.state }, ..d });
    let step = spec_dispatch_one(devs, id, cmds);
    assert(targets.drop_first() =~= Seq::<Seq<char>>::empty());
    assert(spec_dispatch(step.0, targets.drop_first(), cmds).1 =~= Seq::<OutcomeV>::empty());
    assert(spec_dispatch(devs, targets, cmds).1 =~= step.1);
    assert(step.1.len() == 2);
    assert(step.1[0] == OutcomeV { device_id: id, result: run.1[0] });
    assert(step.1[1] == OutcomeV { device_id: id, result: run.1[1] });
}

} // verus!
