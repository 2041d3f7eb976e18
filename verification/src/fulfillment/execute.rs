use vstd::prelude::*;

use crate::strutil::str_eq;
use crate::traits::SizeUnit;

verus! {

/// A cooking mode a cook command may request, from the device's supported modes.
#[derive(Clone, Copy, PartialEq, Eq, Structural, Debug)]
pub enum CookingMode {
    Bake,
    Boil,
    Brew,
    Broil,
    Cook,
    Defrost,
    Fry,
    Grill,
    Microwave,
    Roast,
    Steam,
    Warm,
}

/// The wire code of a cooking mode.
pub open spec fn spec_mode_code(m: CookingMode) -> Seq<char> {
    match m {
        CookingMode::Bake => "BAKE"@,
        CookingMode::Boil => "BOIL"@,
        CookingMode::Brew => "BREW"@,
        CookingMode::Broil => "BROIL"@,
        CookingMode::Cook => "COOK"@,
        CookingMode::Defrost => "DEFROST"@,
        CookingMode::Fry => "FRY"@,
        CookingMode::Grill => "GRILL"@,
        CookingMode::Microwave => "MICROWAVE"@,
        CookingMode::Roast => "ROAST"@,
        CookingMode::Steam => "STEAM"@,
        CookingMode::Warm => "WARM"@,
    }
}

/// The cooking mode a wire code stands for, if any.
pub open spec fn spec_mode_from_code(t: Seq<char>) -> Option<CookingMode> {
    if t == spec_mode_code(CookingMode::Bake) { Some(CookingMode::Bake) }
    else if t == spec_mode_code(CookingMode::Boil) { Some(CookingMode::Boil) }
    else if t == spec_mode_code(CookingMode::Brew) { Some(CookingMode::Brew) }
    else if t == spec_mode_code(CookingMode::Broil) { Some(CookingMode::Broil) }
    else if t == spec_mode_code(CookingMode::Cook) { Some(CookingMode::Cook) }
    else if t == spec_mode_code(CookingMode::Defrost) { Some(CookingMode::Defrost) }
    else if t == spec_mode_code(CookingMode::Fry) { Some(CookingMode::Fry) }
    else if t == spec_mode_code(CookingMode::Grill) { Some(CookingMode::Grill) }
    else if t == spec_mode_code(CookingMode::Microwave) { Some(CookingMode::Microwave) }
    else if t == spec_mode_code(CookingMode::Roast) { Some(CookingMode::Roast) }
    else if t == spec_mode_code(CookingMode::Steam) { Some(CookingMode::Steam) }
    else if t == spec_mode_code(CookingMode::Warm) { Some(CookingMode::Warm) }
    else { None }
}

/// The wire code of a cooking mode.
pub fn mode_code(m: CookingMode) -> (r: String)
    ensures
        r@ == spec_mode_code(m),
{
    match m {
        CookingMode::Bake => "BAKE".to_owned(),
        CookingMode::Boil => "BOIL".to_owned(),
        CookingMode::Brew => "BREW".to_owned(),
        CookingMode::Broil => "BROIL".to_owned(),
        CookingMode::Cook => "COOK".to_owned(),
        CookingMode::Defrost => "DEFROST".to_owned(),
        CookingMode::Fry => "FRY".to_owned(),
        CookingMode::Grill => "GRILL".to_owned(),
        CookingMode::Microwave => "MICROWAVE".to_owned(),
        CookingMode::Roast => "ROAST".to_owned(),
        CookingMode::Steam => "STEAM".to_owned(),
        CookingMode::Warm => "WARM".to_owned(),
    }
}

/// Decode a cooking-mode wire code.
pub fn mode_from_code(t: &str) -> (r: Option<CookingMode>)
    ensures
        r == spec_mode_from_code(t@),
{
    if str_eq(t, "BAKE") { Some(CookingMode::Bake) }
    else if str_eq(t, "BOIL") { Some(CookingMode::Boil) }
    else if str_eq(t, "BREW") { Some(CookingMode::Brew) }
    else if str_eq(t, "BROIL") { Some(CookingMode::Broil) }
    else if str_eq(t, "COOK") { Some(CookingMode::Cook) }
    else if str_eq(t, "DEFROST") { Some(CookingMode::Defrost) }
    else if str_eq(t, "FRY") { Some(CookingMode::Fry) }
    else if str_eq(t, "GRILL") { Some(CookingMode::Grill) }
    else if str_eq(t, "MICROWAVE") { Some(CookingMode::Microwave) }
    else if str_eq(t, "ROAST") { Some(CookingMode::Roast) }
    else if str_eq(t, "STEAM") { Some(CookingMode::Steam) }
    else if str_eq(t, "WARM") { Some(CookingMode::Warm) }
    else { None }
}

/// The color carried by an absolute color command: either a color temperature
/// in Kelvin or a packed RGB value.
#[derive(Clone, Copy, PartialEq, Eq, Structural, Debug)]
pub enum ColorValue {
    Temperature(i32),
    SpectrumRgb(i32),
}

/// Color requested by an absolute color command.
#[derive(Debug, PartialEq, Eq)]
pub struct ColorCommand {
    /// Color name, as spoken by the user, if one was given.
    pub name: Option<String>,
    /// The color itself.
    pub value: ColorValue,
}

/// Abstract form of a `ColorCommand`.
pub struct ColorCommandV {
    pub name: Option<Seq<char>>,
    pub value: ColorValue,
}

impl View for ColorCommand {
    type V = ColorCommandV;

    open spec fn view(&self) -> ColorCommandV {
        ColorCommandV {
            name: match &self.name {
                Some(n) => Some(n@),
                None => None,
            },
            value: self.value,
        }
    }
}

/// The default language code for a locate command whose `lang` field is omitted.
pub fn locate_default_lang() -> (r: String)
    ensures
        r@ == "en"@,
{
    "en".to_owned()
}

/// One decoded command: a closed tagged union, one variant per wire command
/// identifier, each carrying exactly the parameters that command defines.
#[derive(Debug, PartialEq, Eq)]
pub enum CommandType {
    /// Set the alarm level of this device.
    ArmDisarm {
        /// Token for a follow-up response.
        follow_up_token: Option<String>,
        /// True when the command is to arm, false to disarm.
        arm: bool,
        /// True when the command is to cancel the arm value.
        cancel: Option<bool>,
        /// The level name to arm to.
        arm_level: Option<String>,
    },
    /// Adjust device absolute brightness.
    BrightnessAbsolute {
        /// New absolute brightness percentage.
        brightness: i32,
    },
    /// Adjust device relative brightness.
    BrightnessRelative {
        /// The exact percentage of brightness to change.
        brightness_relative_percent: Option<i32>,
        /// The ambiguous amount of the brightness change, scaled to 0 to 5
        /// with the sign giving the direction.
        brightness_relative_weight: Option<i32>,
    },
    /// Set the absolute color value.
    ColorAbsolute {
        /// Color to set.
        color: ColorCommand,
    },
    /// Start or stop cooking.
    Cook {
        /// True to start cooking, false to stop the current cooking mode.
        start: bool,
        /// Requested cooking mode, from the device's supported modes.
        cooking_mode: Option<CookingMode>,
        /// Name of the food preset requested by the user.
        food_preset: Option<String>,
        /// The quantity of the food requested by the user.
        quantity: Option<i32>,
        /// The unit associated with the quantity.
        unit: Option<SizeUnit>,
    },
    /// Dispense items.
    Dispense {
        /// Name of the item to dispense.
        item: Option<String>,
        /// Amount to dispense.
        amount: Option<i32>,
        /// Unit for the amount.
        unit: Option<SizeUnit>,
        /// Name of the preset to dispense.
        preset_name: Option<String>,
    },
    /// Dock the device.
    Dock,
    /// Start or stop charging.
    Charge {
        /// True to start charging, false to stop charging.
        charge: bool,
    },
    /// Set fan speed.
    SetFanSpeed {
        /// The requested speed setting of the fan.
        fan_speed: Option<String>,
        /// The requested speed setting percentage.
        fan_speed_percent: Option<i32>,
    },
    /// Set relative fan speed.
    SetFanSpeedRelative {
        /// Relative amount of the speed change; the sign gives the direction.
        fan_speed_relative_weight: Option<i32>,
        /// Percentage of speed to change.
        fan_speed_relative_percent: Option<i32>,
    },
    /// Fill or drain the device.
    Fill {
        /// True to fill, false to drain.
        fill: bool,
        /// Level name to fill to; the default level when unspecified.
        fill_level: Option<String>,
        /// Requested level percentage.
        fill_percent: Option<i32>,
    },
    /// Set the humidity level to an absolute value.
    SetHumidity {
        /// Setpoint humidity percentage.
        humidity: i32,
    },
    /// Adjust the humidity level relative to the current value.
    HumidityRelative {
        /// Percentage value to adjust the humidity level by.
        humidity_relative_percent: Option<i32>,
        /// Ambiguous amount of the humidity change, small to large.
        humidity_relative_weight: Option<i32>,
    },
    /// Set the media input.
    SetInput {
        /// Key of the new input.
        new_input: String,
    },
    /// Select the next input; applicable only with ordered inputs.
    NextInput,
    /// Select the previous input; applicable only with ordered inputs.
    PreviousInput,
    /// Cycle through a set of colors.
    ColorLoop {
        /// Duration of the color loop, in seconds.
        duration: i32,
    },
    /// Gradually lower brightness, and optionally color temperature, over a duration.
    Sleep {
        /// Duration of the sleep effect, in seconds.
        duration: i32,
    },
    /// Stop the current light effect.
    StopEffect,
    /// Gradually raise brightness, and optionally color temperature, over a duration.
    Wake {
        /// Duration of the wake effect, in seconds.
        duration: i32,
    },
    /// Locate the target device by generating a local alert.
    Locate {
        /// True to silence any in-progress alarms. Default: false.
        silence: bool,
        /// Language of the query or display for localized location strings.
        /// Default: "en".
        lang: String,
    },
    /// Lock or unlock the device.
    LockUnlock {
        /// True when the command is to lock, false to unlock.
        lock: bool,
        /// Token for a follow-up response.
        follow_up_token: Option<String>,
    },
    /// Turn the device on or off.
    OnOff {
        /// True to turn on, false to turn off.
        on: bool,
    },
}

/// Abstract form of a `CommandType`: integers widened, strings as sequences.
pub enum CommandV {
    ArmDisarm {
        follow_up_token: Option<Seq<char>>,
        arm: bool,
        cancel: Option<bool>,
        arm_level: Option<Seq<char>>,
    },
    BrightnessAbsolute { brightness: int },
    BrightnessRelative {
        brightness_relative_percent: Option<int>,
        brightness_relative_weight: Option<int>,
    },
    ColorAbsolute { color: ColorCommandV },
    Cook {
        start: bool,
        cooking_mode: Option<CookingMode>,
        food_preset: Option<Seq<char>>,
        quantity: Option<int>,
        unit: Option<SizeUnit>,
    },
    Dispense {
        item: Option<Seq<char>>,
        amount: Option<int>,
        unit: Option<SizeUnit>,
        preset_name: Option<Seq<char>>,
    },
    Dock,
    Charge { charge: bool },
    SetFanSpeed {
        fan_speed: Option<Seq<char>>,
        fan_speed_percent: Option<int>,
    },
    SetFanSpeedRelative {
        fan_speed_relative_weight: Option<int>,
        fan_speed_relative_percent: Option<int>,
    },
    Fill {
        fill: bool,
        fill_level: Option<Seq<char>>,
        fill_percent: Option<int>,
    },
    SetHumidity { humidity: int },
    HumidityRelative {
        humidity_relative_percent: Option<int>,
        humidity_relative_weight: Option<int>,
    },
    SetInput { new_input: Seq<char> },
    NextInput,
    PreviousInput,
    ColorLoop { duration: int },
    Sleep { duration: int },
    StopEffect,
    Wake { duration: int },
    Locate { silence: bool, lang: Seq<char> },
    LockUnlock { lock: bool, follow_up_token: Option<Seq<char>> },
    OnOff { on: bool },
}

pub open spec fn view_opt_string(o: &Option<String>) -> Option<Seq<char>> {
    match o {
        Some(s) => Some(s@),
        None => None,
    }
}

pub open spec fn view_opt_i32(o: &Option<i32>) -> Option<int> {
    match o {
        Some(n) => Some(*n as int),
        None => None,
    }
}

impl View for CommandType {
    type V = CommandV;

    open spec fn view(&self) -> CommandV {
        match self {
            CommandType::ArmDisarm { follow_up_token, arm, cancel, arm_level } => {
                CommandV::ArmDisarm {
                    follow_up_token: view_opt_string(follow_up_token),
                    arm: *arm,
                    cancel: *cancel,
                    arm_level: view_opt_string(arm_level),
                }
            },
            CommandType::BrightnessAbsolute { brightness } => {
                CommandV::BrightnessAbsolute { brightness: *brightness as int }
            },
            CommandType::BrightnessRelative {
                brightness_relative_percent,
                brightness_relative_weight,
            } => {
                CommandV::BrightnessRelative {
                    brightness_relative_percent: view_opt_i32(brightness_relative_percent),
                    brightness_relative_weight: view_opt_i32(brightness_relative_weight),
                }
            },
            CommandType::ColorAbsolute { color } => {
                CommandV::ColorAbsolute { color: color@ }
            },
            CommandType::Cook { start, cooking_mode, food_preset, quantity, unit } => {
                CommandV::Cook {
                    start: *start,
                    cooking_mode: *cooking_mode,
                    food_preset: view_opt_string(food_preset),
                    quantity: view_opt_i32(quantity),
                    unit: *unit,
                }
            },
            CommandType::Dispense { item, amount, unit, preset_name } => {
                CommandV::Dispense {
                    item: view_opt_string(item),
                    amount: view_opt_i32(amount),
                    unit: *unit,
                    preset_name: view_opt_string(preset_name),
                }
            },
            CommandType::Dock => CommandV::Dock,
            CommandType::Charge { charge } => CommandV::Charge { charge: *charge },
            CommandType::SetFanSpeed { fan_speed, fan_speed_percent } => {
                CommandV::SetFanSpeed {
                    fan_speed: view_opt_string(fan_speed),
                    fan_speed_percent: view_opt_i32(fan_speed_percent),
                }
            },
            CommandType::SetFanSpeedRelative {
                fan_speed_relative_weight,
                fan_speed_relative_percent,
            } => {
                CommandV::SetFanSpeedRelative {
                    fan_speed_relative_weight: view_opt_i32(fan_speed_relative_weight),
                    fan_speed_relative_percent: view_opt_i32(fan_speed_relative_percent),
                }
            },
            CommandType::Fill { fill, fill_level, fill_percent } => {
                CommandV::Fill {
                    fill: *fill,
                    fill_level: view_opt_string(fill_level),
                    fill_percent: view_opt_i32(fill_percent),
                }
            },
            CommandType::SetHumidity { humidity } => {
                CommandV::SetHumidity { humidity: *humidity as int }
            },
            CommandType::HumidityRelative {
                humidity_relative_percent,
                humidity_relative_weight,
            } => {
                CommandV::HumidityRelative {
                    humidity_relative_percent: view_opt_i32(humidity_relative_percent),
                    humidity_relative_weight: view_opt_i32(humidity_relative_weight),
                }
            },
            CommandType::SetInput { new_input } => {
                CommandV::SetInput { new_input: new_input@ }
            },
            CommandType::NextInput => CommandV::NextInput,
            CommandType::PreviousInput => CommandV::PreviousInput,
            CommandType::ColorLoop { duration } => {
                CommandV::ColorLoop { duration: *duration as int }
            },
            CommandType::Sleep { duration } => CommandV::Sleep { duration: *duration as int },
            CommandType::StopEffect => CommandV::StopEffect,
            CommandType::Wake { duration } => CommandV::Wake { duration: *duration as int },
            CommandType::Locate { silence, lang } => {
                CommandV::Locate { silence: *silence, lang: lang@ }
            },
            CommandType::LockUnlock { lock, follow_up_token } => {
                CommandV::LockUnlock {
                    lock: *lock,
                    follow_up_token: view_opt_string(follow_up_token),
                }
            },
            CommandType::OnOff { on } => CommandV::OnOff { on: *on },
        }
    }
}

/// One target device of a command batch.
#[derive(Debug, PartialEq, Eq)]
pub struct Device {
    pub id: String,
}

impl View for Device {
    type V = Seq<char>;

    open spec fn view(&self) -> Seq<char> {
        self.id@
    }
}

/// One decoded command batch: every command in `execution` is applied to
/// every device in `devices`, a cross product.
#[derive(Debug, PartialEq, Eq)]
pub struct Command {
    pub devices: Vec<Device>,
    pub execution: Vec<CommandType>,
}

/// Abstract form of a decoded command batch.
pub struct CommandBatchV {
    pub devices: Seq<Seq<char>>,
    pub execution: Seq<CommandV>,
}

impl View for Command {
    type V = CommandBatchV;

    open spec fn view(&self) -> CommandBatchV {
        CommandBatchV {
            devices: self.devices@.map_values(|d: Device| d@),
            execution: self.execution@.map_values(|c: CommandType| c@),
        }
    }
}

/// The payload of an EXECUTE intent: its ordered command batches.
#[derive(Debug, PartialEq, Eq)]
pub struct Execute {
    pub commands: Vec<Command>,
}

impl View for Execute {
    type V = Seq<CommandBatchV>;

    open spec fn view(&self) -> Seq<CommandBatchV> {
        self.commands@.map_values(|c: Command| c@)
    }
}

} // verus!
