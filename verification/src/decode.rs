use vstd::prelude::*;

use crate::fulfillment::execute::spec_mode_from_code;
use crate::fulfillment::execute::mode_from_code;
use crate::fulfillment::execute::ColorCommand;
use crate::fulfillment::execute::ColorCommandV;
use crate::fulfillment::execute::ColorValue;
use crate::fulfillment::execute::Command;
use crate::fulfillment::execute::CommandBatchV;
use crate::fulfillment::execute::CommandType;
use crate::fulfillment::execute::CommandV;
use crate::fulfillment::execute::CookingMode;
use crate::fulfillment::execute::Device;
use crate::fulfillment::execute::Execute;
use crate::fulfillment::request::Input;
use crate::fulfillment::request::InputV;
use crate::fulfillment::request::Request;
use crate::fulfillment::request::RequestV;
use crate::serializable_error::ToStringError;
use crate::strutil::str_eq;
use crate::traits::spec_unit_from_code;
use crate::traits::unit_from_code;
use crate::traits::SizeUnit;
use crate::wire::ObjectField;
use crate::wire::ParamV;
use crate::wire::ParamValue;
use crate::wire::ScalarV;
use crate::wire::ScalarValue;
use crate::wire::WireParam;
use crate::wire::WireBatch;
use crate::wire::WireBatchV;
use crate::wire::WireCommand;
use crate::wire::WireCommandV;
use crate::wire::WireDevice;
use crate::wire::WireInput;
use crate::wire::WireInputV;
use crate::wire::WireRequest;
use crate::wire::WireRequestV;

verus! {

/// The structural or type constraint a failed decode violated.
///
/// A decode failure is fatal to the whole request: nothing partially
/// decoded ever reaches dispatch.
#[derive(Clone, Copy, PartialEq, Eq, Structural, Debug)]
pub enum DecodeError {
    /// The intent tag matches no known intent identifier.
    UnknownIntent,
    /// The command tag matches no known command identifier.
    UnknownCommand,
    /// A required field is absent.
    MissingField,
    /// A field holds a value of the wrong type, or one outside its range
    /// or vocabulary.
    TypeMismatch,
    /// The request carries no inputs at all.
    EmptyInputs,
}

impl DecodeError {
    /// The single string token this error serializes to.
    pub open spec fn spec_token(&self) -> Seq<char> {
        match self {
            DecodeError::UnknownIntent => "UnknownIntent"@,
            DecodeError::UnknownCommand => "UnknownCommand"@,
            DecodeError::MissingField => "MissingField"@,
            DecodeError::TypeMismatch => "TypeMismatch"@,
            DecodeError::EmptyInputs => "EmptyInputs"@,
        }
    }

    /// Render this error to its single string token.
    pub fn error_token(&self) -> (r: String)
        ensures
            r@ == self.spec_token(),
    {
        match self {
            DecodeError::UnknownIntent => "UnknownIntent".to_owned(),
            DecodeError::UnknownCommand => "UnknownCommand".to_owned(),
            DecodeError::MissingField => "MissingField".to_owned(),
            DecodeError::TypeMismatch => "TypeMismatch".to_owned(),
            DecodeError::EmptyInputs => "EmptyInputs".to_owned(),
        }
    }
}

impl ToStringError for DecodeError {
    open spec fn spec_string(&self) -> Seq<char> {
        self.spec_token()
    }

    fn error_string(&self) -> (r: String) {
        self.error_token()
    }
}

/// Whether an integer fits the wire's 32-bit signed parameter range.
pub open spec fn in_i32(n: int) -> bool {
    -0x8000_0000 <= n <= 0x7FFF_FFFF
}

/// The first value bound to `name` in a parameter list, if any.
pub open spec fn spec_lookup(ps: Seq<(Seq<char>, ParamV)>, name: Seq<char>) -> Option<ParamV>
    decreases ps.len(),
{
    if ps.len() == 0 {
        None
    } else if ps[0].0 == name {
        Some(ps[0].1)
    } else {
        spec_lookup(ps.drop_first(), name)
    }
}

/// The first value bound to `name` in a one-level object, if any.
pub open spec fn spec_lookup_field(fs: Seq<(Seq<char>, ScalarV)>, name: Seq<char>) -> Option<
    ScalarV,
>
    decreases fs.len(),
{
    if fs.len() == 0 {
        None
    } else if fs[0].0 == name {
        Some(fs[0].1)
    } else {
        spec_lookup_field(fs.drop_first(), name)
    }
}

/// A required boolean field.
pub open spec fn spec_req_bool(ps: Seq<(Seq<char>, ParamV)>, name: Seq<char>) -> Result<
    bool,
    DecodeError,
> {
    match spec_lookup(ps, name) {
        None => Err(DecodeError::MissingField),
        Some(ParamV::Scalar(ScalarV::Bool(b))) => Ok(b),
        Some(_) => Err(DecodeError::TypeMismatch),
    }
}

/// A required 32-bit integer field.
pub open spec fn spec_req_i32(ps: Seq<(Seq<char>, ParamV)>, name: Seq<char>) -> Result<
    int,
    DecodeError,
> {
    match spec_lookup(ps, name) {
        None => Err(DecodeError::MissingField),
        Some(ParamV::Scalar(ScalarV::Int(n))) => if in_i32(n) {
            Ok(n)
        } else {
            Err(DecodeError::TypeMismatch)
        },
        Some(_) => Err(DecodeError::TypeMismatch),
    }
}

/// A required string field.
pub open spec fn spec_req_string(ps: Seq<(Seq<char>, ParamV)>, name: Seq<char>) -> Result<
    Seq<char>,
    DecodeError,
> {
    match spec_lookup(ps, name) {
        None => Err(DecodeError::MissingField),
        Some(ParamV::Scalar(ScalarV::Str(s))) => Ok(s),
        Some(_) => Err(DecodeError::TypeMismatch),
    }
}

/// An optional boolean field; absent means `None`.
pub open spec fn spec_opt_bool(ps: Seq<(Seq<char>, ParamV)>, name: Seq<char>) -> Result<
    Option<bool>,
    DecodeError,
> {
    match spec_lookup(ps, name) {
        None => Ok(None),
        Some(ParamV::Scalar(ScalarV::Bool(b))) => Ok(Some(b)),
        Some(_) => Err(DecodeError::TypeMismatch),
    }
}

/// An optional 32-bit integer field; absent means `None`.
pub open spec fn spec_opt_i32(ps: Seq<(Seq<char>, ParamV)>, name: Seq<char>) -> Result<
    Option<int>,
    DecodeError,
> {
    match spec_lookup(ps, name) {
        None => Ok(None),
        Some(ParamV::Scalar(ScalarV::Int(n))) => if in_i32(n) {
            Ok(Some(n))
        } else {
            Err(DecodeError::TypeMismatch)
        },
        Some(_) => Err(DecodeError::TypeMismatch),
    }
}

/// An optional string field; absent means `None`.
pub open spec fn spec_opt_string(ps: Seq<(Seq<char>, ParamV)>, name: Seq<char>) -> Result<
    Option<Seq<char>>,
    DecodeError,
> {
    match spec_lookup(ps, name) {
        None => Ok(None),
        Some(ParamV::Scalar(ScalarV::Str(s))) => Ok(Some(s)),
        Some(_) => Err(DecodeError::TypeMismatch),
    }
}

/// An optional unit field, decoded from its wire code; absent means `None`.
pub open spec fn spec_opt_unit(ps: Seq<(Seq<char>, ParamV)>, name: Seq<char>) -> Result<
    Option<SizeUnit>,
    DecodeError,
> {
    match spec_lookup(ps, name) {
        None => Ok(None),
        Some(ParamV::Scalar(ScalarV::Str(s))) => match spec_unit_from_code(s) {
            Some(u) => Ok(Some(u)),
            None => Err(DecodeError::TypeMismatch),
        },
        Some(_) => Err(DecodeError::TypeMismatch),
    }
}

/// An optional cooking-mode field, decoded from its wire code; absent means `None`.
pub open spec fn spec_opt_mode(ps: Seq<(Seq<char>, ParamV)>, name: Seq<char>) -> Result<
    Option<CookingMode>,
    DecodeError,
> {
    match spec_lookup(ps, name) {
        None => Ok(None),
        Some(ParamV::Scalar(ScalarV::Str(s))) => match spec_mode_from_code(s) {
            Some(m) => Ok(Some(m)),
            None => Err(DecodeError::TypeMismatch),
        },
        Some(_) => Err(DecodeError::TypeMismatch),
    }
}

/// The required color object: an optional name plus exactly one color value,
/// a color temperature taking precedence over a packed RGB value.
pub open spec fn spec_req_color(ps: Seq<(Seq<char>, ParamV)>) -> Result<
    ColorCommandV,
    DecodeError,
> {
    match spec_lookup(ps, "color"@) {
        None => Err(DecodeError::MissingField),
        Some(ParamV::Object(fs)) => {
            let name = match spec_lookup_field(fs, "name"@) {
                None => Ok(None),
                Some(ScalarV::Str(s)) => Ok(Some(s)),
                Some(_) => Err(DecodeError::TypeMismatch),
            };
            let value = match spec_lookup_field(fs, "temperature"@) {
                Some(ScalarV::Int(t)) => if in_i32(t) {
                    Ok(ColorValue::Temperature(t as i32))
                } else {
                    Err(DecodeError::TypeMismatch)
                },
                Some(_) => Err(DecodeError::TypeMismatch),
                None => match spec_lookup_field(fs, "spectrumRGB"@) {
                    Some(ScalarV::Int(v)) => if in_i32(v) {
                        Ok(ColorValue::SpectrumRgb(v as i32))
                    } else {
                        Err(DecodeError::TypeMismatch)
                    },
                    Some(_) => Err(DecodeError::TypeMismatch),
                    None => Err(DecodeError::MissingField),
                },
            };
            match name {
                Err(e) => Err(e),
                Ok(n) => match value {
                    Err(e) => Err(e),
                    Ok(v) => Ok(ColorCommandV { name: n, value: v }),
                },
            }
        },
        Some(_) => Err(DecodeError::TypeMismatch),
    }
}

/// The closed set of known command identifiers, one per command variant.
#[derive(Clone, Copy, PartialEq, Eq, Structural, Debug)]
pub enum CommandKind {
    ArmDisarm,
    BrightnessAbsolute,
    BrightnessRelative,
    ColorAbsolute,
    Cook,
    Dispense,
    Dock,
    Charge,
    SetFanSpeed,
    SetFanSpeedRelative,
    Fill,
    SetHumidity,
    HumidityRelative,
    SetInput,
    NextInput,
    PreviousInput,
    ColorLoop,
    Sleep,
    StopEffect,
    Wake,
    Locate,
    LockUnlock,
    OnOff,
}

/// The exact wire identifier of a command kind.
///
/// The wake identifier's catalog spelling is kept bit-for-bit for wire
/// compatibility, misspelled prefix included.
pub open spec fn spec_tag_of(k: CommandKind) -> Seq<char> {
    match k {
        CommandKind::ArmDisarm => "action.devices.commands.ArmDisarm"@,
        CommandKind::BrightnessAbsolute => "action.devices.commands.BrightnessAbsolute"@,
        CommandKind::BrightnessRelative => "action.devices.commands.BrightnessRelative"@,
        CommandKind::ColorAbsolute => "action.devices.commands.ColorAbsolute"@,
        CommandKind::Cook => "action.devices.commands.Cook"@,
        CommandKind::Dispense => "action.devices.commands.Dispense"@,
        CommandKind::Dock => "action.devices.commands.Dock"@,
        CommandKind::Charge => "action.devices.commands.Charge"@,
        CommandKind::SetFanSpeed => "action.devices.commands.SetFanSpeed"@,
        CommandKind::SetFanSpeedRelative => "action.devices.commands.SetFanSpeedRelative"@,
        CommandKind::Fill => "action.devices.commands.Fill"@,
        CommandKind::SetHumidity => "action.devices.commands.SetHumidity"@,
        CommandKind::HumidityRelative => "action.devices.commands.HumidityRelative"@,
        CommandKind::SetInput => "action.devices.commands.SetInput"@,
        CommandKind::NextInput => "action.devices.commands.NextInput"@,
        CommandKind::PreviousInput => "action.devices.commands.PreviousInput"@,
        CommandKind::ColorLoop => "action.devices.commands.ColorLoop"@,
        CommandKind::Sleep => "action.devices.commands.Sleep"@,
        CommandKind::StopEffect => "action.devices.commands.StopEffect"@,
        CommandKind::Wake => "actin.devices.commands.Wake"@,
        CommandKind::Locate => "action.devices.commands.Locate"@,
        CommandKind::LockUnlock => "action.devices.commands.LockUnlock"@,
        CommandKind::OnOff => "action.devices.commands.OnOff"@,
    }
}

/// The command kind a wire identifier stands for, if any. Identifiers are
/// matched byte-for-byte: anything else is unknown.
pub open spec fn spec_kind_of_tag(t: Seq<char>) -> Option<CommandKind> {
    if t == spec_tag_of(CommandKind::ArmDisarm) { Some(CommandKind::ArmDisarm) }
    else if t == spec_tag_of(CommandKind::BrightnessAbsolute) { Some(CommandKind::BrightnessAbsolute) }
    else if t == spec_tag_of(CommandKind::BrightnessRelative) { Some(CommandKind::BrightnessRelative) }
    else if t == spec_tag_of(CommandKind::ColorAbsolute) { Some(CommandKind::ColorAbsolute) }
    else if t == spec_tag_of(CommandKind::Cook) { Some(CommandKind::Cook) }
    else if t == spec_tag_of(CommandKind::Dispense) { Some(CommandKind::Dispense) }
    else if t == spec_tag_of(CommandKind::Dock) { Some(CommandKind::Dock) }
    else if t == spec_tag_of(CommandKind::Charge) { Some(CommandKind::Charge) }
    else if t == spec_tag_of(CommandKind::SetFanSpeed) { Some(CommandKind::SetFanSpeed) }
    else if t == spec_tag_of(CommandKind::SetFanSpeedRelative) { Some(CommandKind::SetFanSpeedRelative) }
    else if t == spec_tag_of(CommandKind::Fill) { Some(CommandKind::Fill) }
    else if t == spec_tag_of(CommandKind::SetHumidity) { Some(CommandKind::SetHumidity) }
    else if t == spec_tag_of(CommandKind::HumidityRelative) { Some(CommandKind::HumidityRelative) }
    else if t == spec_tag_of(CommandKind::SetInput) { Some(CommandKind::SetInput) }
    else if t == spec_tag_of(CommandKind::NextInput) { Some(CommandKind::NextInput) }
    else if t == spec_tag_of(CommandKind::PreviousInput) { Some(CommandKind::PreviousInput) }
    else if t == spec_tag_of(CommandKind::ColorLoop) { Some(CommandKind::ColorLoop) }
    else if t == spec_tag_of(CommandKind::Sleep) { Some(CommandKind::Sleep) }
    else if t == spec_tag_of(CommandKind::StopEffect) { Some(CommandKind::StopEffect) }
    else if t == spec_tag_of(CommandKind::Wake) { Some(CommandKind::Wake) }
    else if t == spec_tag_of(CommandKind::Locate) { Some(CommandKind::Locate) }
    else if t == spec_tag_of(CommandKind::LockUnlock) { Some(CommandKind::LockUnlock) }
    else if t == spec_tag_of(CommandKind::OnOff) { Some(CommandKind::OnOff) }
    else { None }
}

/// The exact wire identifier of a command kind.
pub fn tag_of(k: CommandKind) -> (r: String)
    ensures
        r@ == spec_tag_of(k),
{
    match k {
        CommandKind::ArmDisarm => "action.devices.commands.ArmDisarm".to_owned(),
        CommandKind::BrightnessAbsolute => "action.devices.commands.BrightnessAbsolute".to_owned(),
        CommandKind::BrightnessRelative => "action.devices.commands.BrightnessRelative".to_owned(),
        CommandKind::ColorAbsolute => "action.devices.commands.ColorAbsolute".to_owned(),
        CommandKind::Cook => "action.devices.commands.Cook".to_owned(),
        CommandKind::Dispense => "action.devices.commands.Dispense".to_owned(),
        CommandKind::Dock => "action.devices.commands.Dock".to_owned(),
        CommandKind::Charge => "action.devices.commands.Charge".to_owned(),
        CommandKind::SetFanSpeed => "action.devices.commands.SetFanSpeed".to_owned(),
        CommandKind::SetFanSpeedRelative => "action.devices.commands.SetFanSpeedRelative".to_owned(),
        CommandKind::Fill => "action.devices.commands.Fill".to_owned(),
        CommandKind::SetHumidity => "action.devices.commands.SetHumidity".to_owned(),
        CommandKind::HumidityRelative => "action.devices.commands.HumidityRelative".to_owned(),
        CommandKind::SetInput => "action.devices.commands.SetInput".to_owned(),
        CommandKind::NextInput => "action.devices.commands.NextInput".to_owned(),
        CommandKind::PreviousInput => "action.devices.commands.PreviousInput".to_owned(),
        CommandKind::ColorLoop => "action.devices.commands.ColorLoop".to_owned(),
        CommandKind::Sleep => "action.devices.commands.Sleep".to_owned(),
        CommandKind::StopEffect => "action.devices.commands.StopEffect".to_owned(),
        CommandKind::Wake => "actin.devices.commands.Wake".to_owned(),
        CommandKind::Locate => "action.devices.commands.Locate".to_owned(),
        CommandKind::LockUnlock => "action.devices.commands.LockUnlock".to_owned(),
        CommandKind::OnOff => "action.devices.commands.OnOff".to_owned(),
    }
}

/// Decode a wire command identifier to its kind.
pub fn command_kind(t: &str) -> (r: Option<CommandKind>)
    ensures
        r == spec_kind_of_tag(t@),
{
    if str_eq(t, "action.devices.commands.ArmDisarm") { Some(CommandKind::ArmDisarm) }
    else if str_eq(t, "action.devices.commands.BrightnessAbsolute") { Some(CommandKind::BrightnessAbsolute) }
    else if str_eq(t, "action.devices.commands.BrightnessRelative") { Some(CommandKind::BrightnessRelative) }
    else if str_eq(t, "action.devices.commands.ColorAbsolute") { Some(CommandKind::ColorAbsolute) }
    else if str_eq(t, "action.devices.commands.Cook") { Some(CommandKind::Cook) }
    else if str_eq(t, "action.devices.commands.Dispense") { Some(CommandKind::Dispense) }
    else if str_eq(t, "action.devices.commands.Dock") { Some(CommandKind::Dock) }
    else if str_eq(t, "action.devices.commands.Charge") { Some(CommandKind::Charge) }
    else if str_eq(t, "action.devices.commands.SetFanSpeed") { Some(CommandKind::SetFanSpeed) }
    else if str_eq(t, "action.devices.commands.SetFanSpeedRelative") { Some(CommandKind::SetFanSpeedRelative) }
    else if str_eq(t, "action.devices.commands.Fill") { Some(CommandKind::Fill) }
    else if str_eq(t, "action.devices.commands.SetHumidity") { Some(CommandKind::SetHumidity) }
    else if str_eq(t, "action.devices.commands.HumidityRelative") { Some(CommandKind::HumidityRelative) }
    else if str_eq(t, "action.devices.commands.SetInput") { Some(CommandKind::SetInput) }
    else if str_eq(t, "action.devices.commands.NextInput") { Some(CommandKind::NextInput) }
    else if str_eq(t, "action.devices.commands.PreviousInput") { Some(CommandKind::PreviousInput) }
    else if str_eq(t, "action.devices.commands.ColorLoop") { Some(CommandKind::ColorLoop) }
    else if str_eq(t, "action.devices.commands.Sleep") { Some(CommandKind::Sleep) }
    else if str_eq(t, "action.devices.commands.StopEffect") { Some(CommandKind::StopEffect) }
    else if str_eq(t, "actin.devices.commands.Wake") { Some(CommandKind::Wake) }
    else if str_eq(t, "action.devices.commands.Locate") { Some(CommandKind::Locate) }
    else if str_eq(t, "action.devices.commands.LockUnlock") { Some(CommandKind::LockUnlock) }
    else if str_eq(t, "action.devices.commands.OnOff") { Some(CommandKind::OnOff) }
    else { None }
}

/// Decode the parameters of one command, given its kind.
///
/// Every optional field with a documented default is filled in here, as part
/// of the wire contract: an omitted locate `silence` is false, an omitted
/// locate `lang` is "en".
pub open spec fn spec_decode_params(k: CommandKind, ps: Seq<(Seq<char>, ParamV)>) -> Result<
    CommandV,
    DecodeError,
> {
    match k {
        CommandKind::ArmDisarm => match spec_opt_string(ps, "followUpToken"@) {
            Err(e) => Err(e),
            Ok(follow_up_token) => match spec_req_bool(ps, "arm"@) {
                Err(e) => Err(e),
                Ok(arm) => match spec_opt_bool(ps, "cancel"@) {
                    Err(e) => Err(e),
                    Ok(cancel) => match spec_opt_string(ps, "armLevel"@) {
                        Err(e) => Err(e),
                        Ok(arm_level) => Ok(CommandV::ArmDisarm {
                            follow_up_token,
                            arm,
                            cancel,
                            arm_level,
                        }),
                    },
                },
            },
        },
        CommandKind::BrightnessAbsolute => match spec_req_i32(ps, "brightness"@) {
            Err(e) => Err(e),
            Ok(brightness) => Ok(CommandV::BrightnessAbsolute { brightness }),
        },
        CommandKind::BrightnessRelative => match spec_opt_i32(ps, "brightnessRelativePercent"@) {
            Err(e) => Err(e),
            Ok(brightness_relative_percent) => match spec_opt_i32(
                ps,
                "brightnessRelativeWeight"@,
            ) {
                Err(e) => Err(e),
                Ok(brightness_relative_weight) => Ok(CommandV::BrightnessRelative {
                    brightness_relative_percent,
                    brightness_relative_weight,
                }),
            },
        },
        CommandKind::ColorAbsolute => match spec_req_color(ps) {
            Err(e) => Err(e),
            Ok(color) => Ok(CommandV::ColorAbsolute { color }),
        },
        CommandKind::Cook => match spec_req_bool(ps, "start"@) {
            Err(e) => Err(e),
            Ok(start) => match spec_opt_mode(ps, "cookingMode"@) {
                Err(e) => Err(e),
                Ok(cooking_mode) => match spec_opt_string(ps, "foodPreset"@) {
                    Err(e) => Err(e),
                    Ok(food_preset) => match spec_opt_i32(ps, "quantity"@) {
                        Err(e) => Err(e),
                        Ok(quantity) => match spec_opt_unit(ps, "unit"@) {
                            Err(e) => Err(e),
                            Ok(unit) => Ok(CommandV::Cook {
                                start,
                                cooking_mode,
                                food_preset,
                                quantity,
                                unit,
                            }),
                        },
                    },
                },
            },
        },
        CommandKind::Dispense => match spec_opt_string(ps, "item"@) {
            Err(e) => Err(e),
            Ok(item) => match spec_opt_i32(ps, "amount"@) {
                Err(e) => Err(e),
                Ok(amount) => match spec_opt_unit(ps, "unit"@) {
                    Err(e) => Err(e),
                    Ok(unit) => match spec_opt_string(ps, "presetName"@) {
                        Err(e) => Err(e),
                        Ok(preset_name) => Ok(CommandV::Dispense {
                            item,
                            amount,
                            unit,
                            preset_name,
                        }),
                    },
                },
            },
        },
        CommandKind::Dock => Ok(CommandV::Dock),
        CommandKind::Charge => match spec_req_bool(ps, "charge"@) {
            Err(e) => Err(e),
            Ok(charge) => Ok(CommandV::Charge { charge }),
        },
        CommandKind::SetFanSpeed => match spec_opt_string(ps, "fanSpeed"@) {
            Err(e) => Err(e),
            Ok(fan_speed) => match spec_opt_i32(ps, "fanSpeedPercent"@) {
                Err(e) => Err(e),
                Ok(fan_speed_percent) => Ok(CommandV::SetFanSpeed {
                    fan_speed,
                    fan_speed_percent,
                }),
            },
        },
        CommandKind::SetFanSpeedRelative => match spec_opt_i32(ps, "fanSpeedRelativeWeight"@) {
            Err(e) => Err(e),
            Ok(fan_speed_relative_weight) => match spec_opt_i32(ps, "fanSpeedRelativePercent"@) {
                Err(e) => Err(e),
                Ok(fan_speed_relative_percent) => Ok(CommandV::SetFanSpeedRelative {
                    fan_speed_relative_weight,
                    fan_speed_relative_percent,
                }),
            },
        },
        CommandKind::Fill => match spec_req_bool(ps, "fill"@) {
            Err(e) => Err(e),
            Ok(fill) => match spec_opt_string(ps, "fillLevel"@) {
                Err(e) => Err(e),
                Ok(fill_level) => match spec_opt_i32(ps, "fillPercent"@) {
                    Err(e) => Err(e),
                    Ok(fill_percent) => Ok(CommandV::Fill { fill, fill_level, fill_percent }),
                },
            },
        },
        CommandKind::SetHumidity => match spec_req_i32(ps, "humidity"@) {
            Err(e) => Err(e),
            Ok(humidity) => Ok(CommandV::SetHumidity { humidity }),
        },
        CommandKind::HumidityRelative => match spec_opt_i32(ps, "humidityRelativePercent"@) {
            Err(e) => Err(e),
            Ok(humidity_relative_percent) => match spec_opt_i32(ps, "humidityRelativeWeight"@) {
                Err(e) => Err(e),
                Ok(humidity_relative_weight) => Ok(CommandV::HumidityRelative {
                    humidity_relative_percent,
                    humidity_relative_weight,
                }),
            },
        },
        CommandKind::SetInput => match spec_req_string(ps, "newInput"@) {
            Err(e) => Err(e),
            Ok(new_input) => Ok(CommandV::SetInput { new_input }),
        },
        CommandKind::NextInput => Ok(CommandV::NextInput),
        CommandKind::PreviousInput => Ok(CommandV::PreviousInput),
        CommandKind::ColorLoop => match spec_req_i32(ps, "duration"@) {
            Err(e) => Err(e),
            Ok(duration) => Ok(CommandV::ColorLoop { duration }),
        },
        CommandKind::Sleep => match spec_req_i32(ps, "duration"@) {
            Err(e) => Err(e),
            Ok(duration) => Ok(CommandV::Sleep { duration }),
        },
        CommandKind::StopEffect => Ok(CommandV::StopEffect),
        CommandKind::Wake => match spec_req_i32(ps, "duration"@) {
            Err(e) => Err(e),
            Ok(duration) => Ok(CommandV::Wake { duration }),
        },
        CommandKind::Locate => match spec_opt_bool(ps, "silence"@) {
            Err(e) => Err(e),
            Ok(silence) => match spec_opt_string(ps, "lang"@) {
                Err(e) => Err(e),
                Ok(lang) => Ok(CommandV::Locate {
                    silence: match silence {
                        Some(b) => b,
                        None => false,
                    },
                    lang: match lang {
                        Some(l) => l,
                        None => "en"@,
                    },
                }),
            },
        },
        CommandKind::LockUnlock => match spec_req_bool(ps, "lock"@) {
            Err(e) => Err(e),
            Ok(lock) => match spec_opt_string(ps, "followUpToken"@) {
                Err(e) => Err(e),
                Ok(follow_up_token) => Ok(CommandV::LockUnlock { lock, follow_up_token }),
            },
        },
        CommandKind::OnOff => match spec_req_bool(ps, "on"@) {
            Err(e) => Err(e),
            Ok(on) => Ok(CommandV::OnOff { on }),
        },
    }
}

/// Decode one wire command: identify its kind byte-for-byte, then its
/// parameters. An unknown identifier is a hard failure, never skipped.
pub open spec fn spec_decode_command(c: WireCommandV) -> Result<CommandV, DecodeError> {
    match spec_kind_of_tag(c.command) {
        None => Err(DecodeError::UnknownCommand),
        Some(k) => spec_decode_params(k, c.params),
    }
}

/// Decode a whole execution list, failing on the first bad command.
pub open spec fn spec_decode_commands(cs: Seq<WireCommandV>) -> Result<Seq<CommandV>, DecodeError>
    decreases cs.len(),
{
    if cs.len() == 0 {
        Ok(Seq::empty())
    } else {
        match spec_decode_command(cs[0]) {
            Err(e) => Err(e),
            Ok(c) => match spec_decode_commands(cs.drop_first()) {
                Err(e) => Err(e),
                Ok(rest) => Ok(seq![c] + rest),
            },
        }
    }
}

/// Decode one command batch. Device references decode as they stand; the
/// execution list decodes fail-fast.
pub open spec fn spec_decode_batch(b: WireBatchV) -> Result<CommandBatchV, DecodeError> {
    match spec_decode_commands(b.execution) {
        Err(e) => Err(e),
        Ok(execution) => Ok(CommandBatchV { devices: b.devices, execution }),
    }
}

/// Decode a batch list, failing on the first bad batch.
pub open spec fn spec_decode_batches(bs: Seq<WireBatchV>) -> Result<
    Seq<CommandBatchV>,
    DecodeError,
>
    decreases bs.len(),
{
    if bs.len() == 0 {
        Ok(Seq::empty())
    } else {
        match spec_decode_batch(bs[0]) {
            Err(e) => Err(e),
            Ok(b) => match spec_decode_batches(bs.drop_first()) {
                Err(e) => Err(e),
                Ok(rest) => Ok(seq![b] + rest),
            },
        }
    }
}

/// Decode one intent: only the EXECUTE identifier is known in this core.
pub open spec fn spec_decode_input(i: WireInputV) -> Result<InputV, DecodeError> {
    if i.intent == "action.devices.EXECUTE"@ {
        match spec_decode_batches(i.commands) {
            Err(e) => Err(e),
            Ok(bs) => Ok(InputV::Execute(bs)),
        }
    } else {
        Err(DecodeError::UnknownIntent)
    }
}

/// Decode an input list, failing on the first bad input.
pub open spec fn spec_decode_inputs(is: Seq<WireInputV>) -> Result<Seq<InputV>, DecodeError>
    decreases is.len(),
{
    if is.len() == 0 {
        Ok(Seq::empty())
    } else {
        match spec_decode_input(is[0]) {
            Err(e) => Err(e),
            Ok(i) => match spec_decode_inputs(is.drop_first()) {
                Err(e) => Err(e),
                Ok(rest) => Ok(seq![i] + rest),
            },
        }
    }
}

/// Decode a whole request. A request without inputs is rejected; any bad
/// input, batch or command fails the whole decode.
pub open spec fn spec_decode_request(w: WireRequestV) -> Result<RequestV, DecodeError> {
    if w.inputs.len() == 0 {
        Err(DecodeError::EmptyInputs)
    } else {
        match spec_decode_inputs(w.inputs) {
            Err(e) => Err(e),
            Ok(inputs) => Ok(RequestV { request_id: w.request_id, inputs }),
        }
    }
}

/// The abstract form of an executable parameter list.
pub open spec fn params_view(params: &Vec<WireParam>) -> Seq<(Seq<char>, ParamV)> {
    params@.map_values(|p: WireParam| p@)
}

/// The abstract form of an executable object-field list.
pub open spec fn fields_view(fs: &Vec<ObjectField>) -> Seq<(Seq<char>, ScalarV)> {
    fs@.map_values(|f: ObjectField| f@)
}

/// Find the first parameter bound to `name`.
fn lookup_param<'a>(params: &'a Vec<WireParam>, name: &str) -> (r: Option<&'a ParamValue>)
    ensures
        match r {
            Some(p) => spec_lookup(params_view(params), name@) == Some(p@),
            None => spec_lookup(params_view(params), name@) is None,
        },
{
    let ghost ps = params_view(params);
    proof {
        assert(ps.skip(0) =~= ps);
    }
    let mut i: usize = 0;
    while i < params.len()
        invariant
            0 <= i <= params.len(),
            ps == params_view(params),
            ps.len() == params.len(),
            spec_lookup(ps, name@) == spec_lookup(ps.skip(i as int), name@),
        decreases params.len() - i,
    {
        proof {
            assert(ps.skip(i as int)[0] == ps[i as int]);
            assert(ps[i as int] == params@[i as int]@);
        }
        if str_eq(params[i].name.as_str(), name) {
            return Some(&params[i].value);
        }
        proof {
            assert(ps.skip(i as int).drop_first() =~= ps.skip(i as int + 1));
        }
        i = i + 1;
    }
    proof {
        assert(ps.skip(params.len() as int).len() == 0);
    }
    None
}

/// Find the first object field bound to `name`.
fn lookup_field<'a>(fs: &'a Vec<ObjectField>, name: &str) -> (r: Option<&'a ScalarValue>)
    ensures
        match r {
            Some(s) => spec_lookup_field(fields_view(fs), name@) == Some(s@),
            None => spec_lookup_field(fields_view(fs), name@) is None,
        },
{
    let ghost fv = fields_view(fs);
    proof {
        assert(fv.skip(0) =~= fv);
    }
    let mut i: usize = 0;
    while i < fs.len()
        invariant
            0 <= i <= fs.len(),
            fv == fields_view(fs),
            fv.len() == fs.len(),
            spec_lookup_field(fv, name@) == spec_lookup_field(fv.skip(i as int), name@),
        decreases fs.len() - i,
    {
        proof {
            assert(fv.skip(i as int)[0] == fv[i as int]);
            assert(fv[i as int] == fs@[i as int]@);
        }
        if str_eq(fs[i].name.as_str(), name) {
            return Some(&fs[i].value);
        }
        proof {
            assert(fv.skip(i as int).drop_first() =~= fv.skip(i as int + 1));
        }
        i = i + 1;
    }
    proof {
        assert(fv.skip(fs.len() as int).len() == 0);
    }
    None
}

fn req_bool(params: &Vec<WireParam>, name: &str) -> (r: Result<bool, DecodeError>)
    ensures
        r == spec_req_bool(params_view(params), name@),
{
    match lookup_param(params, name) {
        None => Err(DecodeError::MissingField),
        Some(p) => match p {
            ParamValue::Scalar(ScalarValue::Bool(b)) => Ok(*b),
            _ => Err(DecodeError::TypeMismatch),
        },
    }
}

fn req_i32(params: &Vec<WireParam>, name: &str) -> (r: Result<i32, DecodeError>)
    ensures
        match r {
            Ok(n) => spec_req_i32(params_view(params), name@) == Ok::<int, DecodeError>(n as int),
            Err(e) => spec_req_i32(params_view(params), name@) == Err::<int, DecodeError>(e),
        },
{
    match lookup_param(params, name) {
        None => Err(DecodeError::MissingField),
        Some(p) => match p {
            ParamValue::Scalar(ScalarValue::Int(n)) => {
                if *n >= -2147483648i64 && *n <= 2147483647i64 {
                    Ok(*n as i32)
                } else {
                    Err(DecodeError::TypeMismatch)
                }
            },
            _ => Err(DecodeError::TypeMismatch),
        },
    }
}

fn req_string(params: &Vec<WireParam>, name: &str) -> (r: Result<String, DecodeError>)
    ensures
        match r {
            Ok(s) => spec_req_string(params_view(params), name@) == Ok::<Seq<char>, DecodeError>(
                s@,
            ),
            Err(e) => spec_req_string(params_view(params), name@) == Err::<Seq<char>, DecodeError>(
                e,
            ),
        },
{
    match lookup_param(params, name) {
        None => Err(DecodeError::MissingField),
        Some(p) => match p {
            ParamValue::Scalar(ScalarValue::Str(s)) => Ok(s.clone()),
            _ => Err(DecodeError::TypeMismatch),
        },
    }
}

fn opt_bool(params: &Vec<WireParam>, name: &str) -> (r: Result<Option<bool>, DecodeError>)
    ensures
        r == spec_opt_bool(params_view(params), name@),
{
    match lookup_param(params, name) {
        None => Ok(None),
        Some(p) => match p {
            ParamValue::Scalar(ScalarValue::Bool(b)) => Ok(Some(*b)),
            _ => Err(DecodeError::TypeMismatch),
        },
    }
}

fn opt_i32(params: &Vec<WireParam>, name: &str) -> (r: Result<Option<i32>, DecodeError>)
    ensures
        match r {
            Ok(None) => spec_opt_i32(params_view(params), name@) == Ok::<
                Option<int>,
                DecodeError,
            >(None),
            Ok(Some(n)) => spec_opt_i32(params_view(params), name@) == Ok::<
                Option<int>,
                DecodeError,
            >(Some(n as int)),
            Err(e) => spec_opt_i32(params_view(params), name@) == Err::<Option<int>, DecodeError>(
                e,
            ),
        },
{
    match lookup_param(params, name) {
        None => Ok(None),
        Some(p) => match p {
            ParamValue::Scalar(ScalarValue::Int(n)) => {
                if *n >= -2147483648i64 && *n <= 2147483647i64 {
                    Ok(Some(*n as i32))
                } else {
                    Err(DecodeError::TypeMismatch)
                }
            },
            _ => Err(DecodeError::TypeMismatch),
        },
    }
}

fn opt_string(params: &Vec<WireParam>, name: &str) -> (r: Result<Option<String>, DecodeError>)
    ensures
        match r {
            Ok(None) => spec_opt_string(params_view(params), name@) == Ok::<
                Option<Seq<char>>,
                DecodeError,
            >(None),
            Ok(Some(s)) => spec_opt_string(params_view(params), name@) == Ok::<
                Option<Seq<char>>,
                DecodeError,
            >(Some(s@)),
            Err(e) => spec_opt_string(params_view(params), name@) == Err::<
                Option<Seq<char>>,
                DecodeError,
            >(e),
        },
{
    match lookup_param(params, name) {
        None => Ok(None),
        Some(p) => match p {
            ParamValue::Scalar(ScalarValue::Str(s)) => Ok(Some(s.clone())),
            _ => Err(DecodeError::TypeMismatch),
        },
    }
}

fn opt_unit(params: &Vec<WireParam>, name: &str) -> (r: Result<Option<SizeUnit>, DecodeError>)
    ensures
        r == spec_opt_unit(params_view(params), name@),
{
    match lookup_param(params, name) {
        None => Ok(None),
        Some(p) => match p {
            ParamValue::Scalar(ScalarValue::Str(s)) => match unit_from_code(s.as_str()) {
                Some(u) => Ok(Some(u)),
                None => Err(DecodeError::TypeMismatch),
            },
            _ => Err(DecodeError::TypeMismatch),
        },
    }
}

fn opt_mode(params: &Vec<WireParam>, name: &str) -> (r: Result<Option<CookingMode>, DecodeError>)
    ensures
        r == spec_opt_mode(params_view(params), name@),
{
    match lookup_param(params, name) {
        None => Ok(None),
        Some(p) => match p {
            ParamValue::Scalar(ScalarValue::Str(s)) => match mode_from_code(s.as_str()) {
                Some(m) => Ok(Some(m)),
                None => Err(DecodeError::TypeMismatch),
            },
            _ => Err(DecodeError::TypeMismatch),
        },
    }
}

fn req_color(params: &Vec<WireParam>) -> (r: Result<ColorCommand, DecodeError>)
    ensures
        match r {
            Ok(c) => spec_req_color(params_view(params)) == Ok::<ColorCommandV, DecodeError>(c@),
            Err(e) => spec_req_color(params_view(params)) == Err::<ColorCommandV, DecodeError>(e),
        },
{
    match lookup_param(params, "color") {
        None => Err(DecodeError::MissingField),
        Some(p) => match p {
            ParamValue::Object(fs) => {
                let name: Option<String> = match lookup_field(fs, "name") {
                    None => None,
                    Some(sv) => match sv {
                        ScalarValue::Str(s) => Some(s.clone()),
                        _ => {
                            return Err(DecodeError::TypeMismatch);
                        },
                    },
                };
                let value: ColorValue = match lookup_field(fs, "temperature") {
                    Some(sv) => match sv {
                        ScalarValue::Int(t) => {
                            if *t >= -2147483648i64 && *t <= 2147483647i64 {
                                ColorValue::Temperature(*t as i32)
                            } else {
                                return Err(DecodeError::TypeMismatch);
                            }
                        },
                        _ => {
                            return Err(DecodeError::TypeMismatch);
                        },
                    },
                    None => match lookup_field(fs, "spectrumRGB") {
                        Some(sv) => match sv {
                            ScalarValue::Int(v) => {
                                if *v >= -2147483648i64 && *v <= 2147483647i64 {
                                    ColorValue::SpectrumRgb(*v as i32)
                                } else {
                                    return Err(DecodeError::TypeMismatch);
                                }
                            },
                            _ => {
                                return Err(DecodeError::TypeMismatch);
                            },
                        },
                        None => {
                            return Err(DecodeError::MissingField);
                        },
                    },
                };
                Ok(ColorCommand { name, value })
            },
            _ => Err(DecodeError::TypeMismatch),
        },
    }
}

fn decode_arm_disarm(params: &Vec<WireParam>) -> (r: Result<CommandType, DecodeError>)
    ensures
        match r {
            Ok(cmd) => spec_decode_params(CommandKind::ArmDisarm, params_view(params)) == Ok::<
                CommandV,
                DecodeError,
            >(cmd@),
            Err(e) => spec_decode_params(CommandKind::ArmDisarm, params_view(params)) == Err::<
                CommandV,
                DecodeError,
            >(e),
        },
{
    let follow_up_token = match opt_string(params, "followUpToken") {
        Ok(v) => v,
        Err(e) => {
            return Err(e);
        },
    };
    let arm = match req_bool(params, "arm") {
        Ok(v) => v,
        Err(e) => {
            return Err(e);
        },
    };
    let cancel = match opt_bool(params, "cancel") {
        Ok(v) => v,
        Err(e) => {
            return Err(e);
        },
    };
    let arm_level = match opt_string(params, "armLevel") {
        Ok(v) => v,
        Err(e) => {
            return Err(e);
        },
    };
    Ok(CommandType::ArmDisarm { follow_up_token, arm, cancel, arm_level })
}

fn decode_brightness_absolute(params: &Vec<WireParam>) -> (r: Result<CommandType, DecodeError>)
    ensures
        match r {
            Ok(cmd) => spec_decode_params(CommandKind::BrightnessAbsolute, params_view(params)) == Ok::<
                CommandV,
                DecodeError,
            >(cmd@),
            Err(e) => spec_decode_params(CommandKind::BrightnessAbsolute, params_view(params)) == Err::<
                CommandV,
                DecodeError,
            >(e),
        },
{
    let brightness = match req_i32(params, "brightness") {
        Ok(v) => v,
        Err(e) => {
            return Err(e);
        },
    };
    Ok(CommandType::BrightnessAbsolute { brightness })
}

fn decode_brightness_relative(params: &Vec<WireParam>) -> (r: Result<CommandType, DecodeError>)
    ensures
        match r {
            Ok(cmd) => spec_decode_params(CommandKind::BrightnessRelative, params_view(params)) == Ok::<
                CommandV,
                DecodeError,
            >(cmd@),
            Err(e) => spec_decode_params(CommandKind::BrightnessRelative, params_view(params)) == Err::<
                CommandV,
                DecodeError,
            >(e),
        },
{
    let brightness_relative_percent = match opt_i32(params, "brightnessRelativePercent") {
        Ok(v) => v,
        Err(e) => {
            return Err(e);
        },
    };
    let brightness_relative_weight = match opt_i32(params, "brightnessRelativeWeight") {
        Ok(v) => v,
        Err(e) => {
            return Err(e);
        },
    };
    Ok(CommandType::BrightnessRelative {
        brightness_relative_percent,
        brightness_relative_weight,
    })
}

fn decode_color_absolute(params: &Vec<WireParam>) -> (r: Result<CommandType, DecodeError>)
    ensures
        match r {
            Ok(cmd) => spec_decode_params(CommandKind::ColorAbsolute, params_view(params)) == Ok::<
                CommandV,
                DecodeError,
            >(cmd@),
            Err(e) => spec_decode_params(CommandKind::ColorAbsolute, params_view(params)) == Err::<
                CommandV,
                DecodeError,
            >(e),
        },
{
    let color = match req_color(params) {
        Ok(v) => v,
        Err(e) => {
            return Err(e);
        },
    };
    Ok(CommandType::ColorAbsolute { color })
}

fn decode_cook(params: &Vec<WireParam>) -> (r: Result<CommandType, DecodeError>)
    ensures
        match r {
            Ok(cmd) => spec_decode_params(CommandKind::Cook, params_view(params)) == Ok::<
                CommandV,
                DecodeError,
            >(cmd@),
            Err(e) => spec_decode_params(CommandKind::Cook, params_view(params)) == Err::<
                CommandV,
                DecodeError,
            >(e),
        },
{
    let start = match req_bool(params, "start") {
        Ok(v) => v,
        Err(e) => {
            return Err(e);
        },
    };
    let cooking_mode = match opt_mode(params, "cookingMode") {
        Ok(v) => v,
        Err(e) => {
            return Err(e);
        },
    };
    let food_preset = match opt_string(params, "foodPreset") {
        Ok(v) => v,
        Err(e) => {
            return Err(e);
        },
    };
    let quantity = match opt_i32(params, "quantity") {
        Ok(v) => v,
        Err(e) => {
            return Err(e);
        },
    };
    let unit = match opt_unit(params, "unit") {
        Ok(v) => v,
        Err(e) => {
            return Err(e);
        },
    };
    Ok(CommandType::Cook { start, cooking_mode, food_preset, quantity, unit })
}

fn decode_dispense(params: &Vec<WireParam>) -> (r: Result<CommandType, DecodeError>)
    ensures
        match r {
            Ok(cmd) => spec_decode_params(CommandKind::Dispense, params_view(params)) == Ok::<
                CommandV,
                DecodeError,
            >(cmd@),
            Err(e) => spec_decode_params(CommandKind::Dispense, params_view(params)) == Err::<
                CommandV,
                DecodeError,
            >(e),
        },
{
    let item = match opt_string(params, "item") {
        Ok(v) => v,
        Err(e) => {
            return Err(e);
        },
    };
    let amount = match opt_i32(params, "amount") {
        Ok(v) => v,
        Err(e) => {
            return Err(e);
        },
    };
    let unit = match opt_unit(params, "unit") {
        Ok(v) => v,
        Err(e) => {
            return Err(e);
        },
    };
    let preset_name = match opt_string(params, "presetName") {
        Ok(v) => v,
        Err(e) => {
            return Err(e);
        },
    };
    Ok(CommandType::Dispense { item, amount, unit, preset_name })
}

fn decode_charge(params: &Vec<WireParam>) -> (r: Result<CommandType, DecodeError>)
    ensures
        match r {
            Ok(cmd) => spec_decode_params(CommandKind::Charge, params_view(params)) == Ok::<
                CommandV,
                DecodeError,
            >(cmd@),
            Err(e) => spec_decode_params(CommandKind::Charge, params_view(params)) == Err::<
                CommandV,
                DecodeError,
            >(e),
        },
{
    let charge = match req_bool(params, "charge") {
        Ok(v) => v,
        Err(e) => {
            return Err(e);
        },
    };
    Ok(CommandType::Charge { charge })
}

fn decode_set_fan_speed(params: &Vec<WireParam>) -> (r: Result<CommandType, DecodeError>)
    ensures
        match r {
            Ok(cmd) => spec_decode_params(CommandKind::SetFanSpeed, params_view(params)) == Ok::<
                CommandV,
                DecodeError,
            >(cmd@),
            Err(e) => spec_decode_params(CommandKind::SetFanSpeed, params_view(params)) == Err::<
                CommandV,
                DecodeError,
            >(e),
        },
{
    let fan_speed = match opt_string(params, "fanSpeed") {
        Ok(v) => v,
        Err(e) => {
            return Err(e);
        },
    };
    let fan_speed_percent = match opt_i32(params, "fanSpeedPercent") {
        Ok(v) => v,
        Err(e) => {
            return Err(e);
        },
    };
    Ok(CommandType::SetFanSpeed { fan_speed, fan_speed_percent })
}

fn decode_set_fan_speed_relative(params: &Vec<WireParam>) -> (r: Result<CommandType, DecodeError>)
    ensures
        match r {
            Ok(cmd) => spec_decode_params(CommandKind::SetFanSpeedRelative, params_view(params)) == Ok::<
                CommandV,
                DecodeError,
            >(cmd@),
            Err(e) => spec_decode_params(CommandKind::SetFanSpeedRelative, params_view(params)) == Err::<
                CommandV,
                DecodeError,
            >(e),
        },
{
    let fan_speed_relative_weight = match opt_i32(params, "fanSpeedRelativeWeight") {
        Ok(v) => v,
        Err(e) => {
            return Err(e);
        },
    };
    let fan_speed_relative_percent = match opt_i32(params, "fanSpeedRelativePercent") {
        Ok(v) => v,
        Err(e) => {
            return Err(e);
        },
    };
    Ok(CommandType::SetFanSpeedRelative {
        fan_speed_relative_weight,
        fan_speed_relative_percent,
    })
}

fn decode_fill(params: &Vec<WireParam>) -> (r: Result<CommandType, DecodeError>)
    ensures
        match r {
            Ok(cmd) => spec_decode_params(CommandKind::Fill, params_view(params)) == Ok::<
                CommandV,
                DecodeError,
            >(cmd@),
            Err(e) => spec_decode_params(CommandKind::Fill, params_view(params)) == Err::<
                CommandV,
                DecodeError,
            >(e),
        },
{
    let fill = match req_bool(params, "fill") {
        Ok(v) => v,
        Err(e) => {
            return Err(e);
        },
    };
    let fill_level = match opt_string(params, "fillLevel") {
        Ok(v) => v,
        Err(e) => {
            return Err(e);
        },
    };
    let fill_percent = match opt_i32(params, "fillPercent") {
        Ok(v) => v,
        Err(e) => {
            return Err(e);
        },
    };
    Ok(CommandType::Fill { fill, fill_level, fill_percent })
}

fn decode_set_humidity(params: &Vec<WireParam>) -> (r: Result<CommandType, DecodeError>)
    ensures
        match r {
            Ok(cmd) => spec_decode_params(CommandKind::SetHumidity, params_view(params)) == Ok::<
                CommandV,
                DecodeError,
            >(cmd@),
            Err(e) => spec_decode_params(CommandKind::SetHumidity, params_view(params)) == Err::<
                CommandV,
                DecodeError,
            >(e),
        },
{
    let humidity = match req_i32(params, "humidity") {
        Ok(v) => v,
        Err(e) => {
            return Err(e);
        },
    };
    Ok(CommandType::SetHumidity { humidity })
}

fn decode_humidity_relative(params: &Vec<WireParam>) -> (r: Result<CommandType, DecodeError>)
    ensures
        match r {
            Ok(cmd) => spec_decode_params(CommandKind::HumidityRelative, params_view(params)) == Ok::<
                CommandV,
                DecodeError,
            >(cmd@),
            Err(e) => spec_decode_params(CommandKind::HumidityRelative, params_view(params)) == Err::<
                CommandV,
                DecodeError,
            >(e),
        },
{
    let humidity_relative_percent = match opt_i32(params, "humidityRelativePercent") {
        Ok(v) => v,
        Err(e) => {
            return Err(e);
        },
    };
    let humidity_relative_weight = match opt_i32(params, "humidityRelativeWeight") {
        Ok(v) => v,
        Err(e) => {
            return Err(e);
        },
    };
    Ok(CommandType::HumidityRelative {
        humidity_relative_percent,
        humidity_relative_weight,
    })
}

fn decode_set_input(params: &Vec<WireParam>) -> (r: Result<CommandType, DecodeError>)
    ensures
        match r {
            Ok(cmd) => spec_decode_params(CommandKind::SetInput, params_view(params)) == Ok::<
                CommandV,
                DecodeError,
            >(cmd@),
            Err(e) => spec_decode_params(CommandKind::SetInput, params_view(params)) == Err::<
                CommandV,
                DecodeError,
            >(e),
        },
{
    let new_input = match req_string(params, "newInput") {
        Ok(v) => v,
        Err(e) => {
            return Err(e);
        },
    };
    Ok(CommandType::SetInput { new_input })
}

fn decode_color_loop(params: &Vec<WireParam>) -> (r: Result<CommandType, DecodeError>)
    ensures
        match r {
            Ok(cmd) => spec_decode_params(CommandKind::ColorLoop, params_view(params)) == Ok::<
                CommandV,
                DecodeError,
            >(cmd@),
            Err(e) => spec_decode_params(CommandKind::ColorLoop, params_view(params)) == Err::<
                CommandV,
                DecodeError,
            >(e),
        },
{
    let duration = match req_i32(params, "duration") {
        Ok(v) => v,
        Err(e) => {
            return Err(e);
        },
    };
    Ok(CommandType::ColorLoop { duration })
}

fn decode_sleep(params: &Vec<WireParam>) -> (r: Result<CommandType, DecodeError>)
    ensures
        match r {
            Ok(cmd) => spec_decode_params(CommandKind::Sleep, params_view(params)) == Ok::<
                CommandV,
                DecodeError,
            >(cmd@),
            Err(e) => spec_decode_params(CommandKind::Sleep, params_view(params)) == Err::<
                CommandV,
                DecodeError,
            >(e),
        },
{
    let duration = match req_i32(params, "duration") {
        Ok(v) => v,
        Err(e) => {
            return Err(e);
        },
    };
    Ok(CommandType::Sleep { duration })
}

fn decode_wake(params: &Vec<WireParam>) -> (r: Result<CommandType, DecodeError>)
    ensures
        match r {
            Ok(cmd) => spec_decode_params(CommandKind::Wake, params_view(params)) == Ok::<
                CommandV,
                DecodeError,
            >(cmd@),
            Err(e) => spec_decode_params(CommandKind::Wake, params_view(params)) == Err::<
                CommandV,
                DecodeError,
            >(e),
        },
{
    let duration = match req_i32(params, "duration") {
        Ok(v) => v,
        Err(e) => {
            return Err(e);
        },
    };
    Ok(CommandType::Wake { duration })
}

fn decode_locate(params: &Vec<WireParam>) -> (r: Result<CommandType, DecodeError>)
    ensures
        match r {
            Ok(cmd) => spec_decode_params(CommandKind::Locate, params_view(params)) == Ok::<
                CommandV,
                DecodeError,
            >(cmd@),
            Err(e) => spec_decode_params(CommandKind::Locate, params_view(params)) == Err::<
                CommandV,
                DecodeError,
            >(e),
        },
{
    let silence = match opt_bool(params, "silence") {
        Ok(v) => v,
        Err(e) => {
            return Err(e);
        },
    };
    let lang = match opt_string(params, "lang") {
        Ok(v) => v,
        Err(e) => {
            return Err(e);
        },
    };
    Ok(CommandType::Locate {
        silence: match silence {
            Some(b) => b,
            None => false,
        },
        lang: match lang {
            Some(l) => l,
            None => crate::fulfillment::execute::locate_default_lang(),
        },
    })
}

fn decode_lock_unlock(params: &Vec<WireParam>) -> (r: Result<CommandType, DecodeError>)
    ensures
        match r {
            Ok(cmd) => spec_decode_params(CommandKind::LockUnlock, params_view(params)) == Ok::<
                CommandV,
                DecodeError,
            >(cmd@),
            Err(e) => spec_decode_params(CommandKind::LockUnlock, params_view(params)) == Err::<
                CommandV,
                DecodeError,
            >(e),
        },
{
    let lock = match req_bool(params, "lock") {
        Ok(v) => v,
        Err(e) => {
            return Err(e);
        },
    };
    let follow_up_token = match opt_string(params, "followUpToken") {
        Ok(v) => v,
        Err(e) => {
            return Err(e);
        },
    };
    Ok(CommandType::LockUnlock { lock, follow_up_token })
}

fn decode_on_off(params: &Vec<WireParam>) -> (r: Result<CommandType, DecodeError>)
    ensures
        match r {
            Ok(cmd) => spec_decode_params(CommandKind::OnOff, params_view(params)) == Ok::<
                CommandV,
                DecodeError,
            >(cmd@),
            Err(e) => spec_decode_params(CommandKind::OnOff, params_view(params)) == Err::<
                CommandV,
                DecodeError,
            >(e),
        },
{
    let on = match req_bool(params, "on") {
        Ok(v) => v,
        Err(e) => {
            return Err(e);
        },
    };
    Ok(CommandType::OnOff { on })
}

/// Decode the parameters of one command, given its kind.
pub fn decode_params(k: CommandKind, params: &Vec<WireParam>) -> (r: Result<
    CommandType,
    DecodeError,
>)
    ensures
        match r {
            Ok(cmd) => spec_decode_params(k, params_view(params)) == Ok::<
                CommandV,
                DecodeError,
            >(cmd@),
            Err(e) => spec_decode_params(k, params_view(params)) == Err::<CommandV, DecodeError>(
                e,
            ),
        },
{
    match k {
        CommandKind::ArmDisarm => decode_arm_disarm(params),
        CommandKind::BrightnessAbsolute => decode_brightness_absolute(params),
        CommandKind::BrightnessRelative => decode_brightness_relative(params),
        CommandKind::ColorAbsolute => decode_color_absolute(params),
        CommandKind::Cook => decode_cook(params),
        CommandKind::Dispense => decode_dispense(params),
        CommandKind::Dock => Ok(CommandType::Dock),
        CommandKind::Charge => decode_charge(params),
        CommandKind::SetFanSpeed => decode_set_fan_speed(params),
        CommandKind::SetFanSpeedRelative => decode_set_fan_speed_relative(params),
        CommandKind::Fill => decode_fill(params),
        CommandKind::SetHumidity => decode_set_humidity(params),
        CommandKind::HumidityRelative => decode_humidity_relative(params),
        CommandKind::SetInput => decode_set_input(params),
        CommandKind::NextInput => Ok(CommandType::NextInput),
        CommandKind::PreviousInput => Ok(CommandType::PreviousInput),
        CommandKind::ColorLoop => decode_color_loop(params),
        CommandKind::Sleep => decode_sleep(params),
        CommandKind::StopEffect => Ok(CommandType::StopEffect),
        CommandKind::Wake => decode_wake(params),
        CommandKind::Locate => decode_locate(params),
        CommandKind::LockUnlock => decode_lock_unlock(params),
        CommandKind::OnOff => decode_on_off(params),
    }
}

/// Decode one wire command.
pub fn decode_command(c: &WireCommand) -> (r: Result<CommandType, DecodeError>)
    ensures
        match r {
            Ok(cmd) => spec_decode_command(c@) == Ok::<CommandV, DecodeError>(cmd@),
            Err(e) => spec_decode_command(c@) == Err::<CommandV, DecodeError>(e),
        },
{
    match command_kind(c.command.as_str()) {
        None => Err(DecodeError::UnknownCommand),
        Some(k) => decode_params(k, &c.params),
    }
}


/// The abstract form of an executable wire-command list.
pub open spec fn cmds_view(cs: &Vec<WireCommand>) -> Seq<WireCommandV> {
    cs@.map_values(|c: WireCommand| c@)
}

/// The abstract form of a decoded command list.
pub open spec fn cmd_seq_model(v: Seq<CommandType>) -> Seq<CommandV> {
    v.map_values(|c: CommandType| c@)
}

/// Decode a whole execution list, failing on the first bad command.
pub fn decode_commands(cs: &Vec<WireCommand>) -> (r: Result<Vec<CommandType>, DecodeError>)
    ensures
        match r {
            Ok(out) => spec_decode_commands(cmds_view(cs)) == Ok::<Seq<CommandV>, DecodeError>(
                cmd_seq_model(out@),
            ),
            Err(e) => spec_decode_commands(cmds_view(cs)) == Err::<Seq<CommandV>, DecodeError>(e),
        },
{
    let ghost cv = cmds_view(cs);
    let mut out: Vec<CommandType> = Vec::new();
    proof {
        assert(cv.skip(0) =~= cv);
        assert(cmd_seq_model(out@) =~= Seq::<CommandV>::empty());
    }
    let mut i: usize = 0;
    while i < cs.len()
        invariant
            0 <= i <= cs.len(),
            cv == cmds_view(cs),
            cv.len() == cs.len(),
            spec_decode_commands(cv) == (match spec_decode_commands(cv.skip(i as int)) {
                Ok(rest) => Ok::<Seq<CommandV>, DecodeError>(cmd_seq_model(out@) + rest),
                Err(e) => Err::<Seq<CommandV>, DecodeError>(e),
            }),
        decreases cs.len() - i,
    {
        proof {
            assert(cv.skip(i as int)[0] == cv[i as int]);
            assert(cv[i as int] == cs@[i as int]@);
            assert(cv.skip(i as int).drop_first() =~= cv.skip(i as int + 1));
        }
        match decode_command(&cs[i]) {
            Err(e) => {
                return Err(e);
            },
            Ok(cmd) => {
                let ghost old_model = cmd_seq_model(out@);
                out.push(cmd);
                proof {
                    assert(cmd_seq_model(out@) =~= old_model.push(cmd@));
                    match spec_decode_commands(cv.skip(i as int + 1)) {
                        Ok(rest) => {
                            assert(old_model + (seq![cmd@] + rest) =~= cmd_seq_model(out@) + rest);
                        },
                        Err(_) => {},
                    }
                }
            },
        }
        i = i + 1;
    }
    proof {
        assert(cv.skip(cs.len() as int).len() == 0);
        assert(cmd_seq_model(out@) + Seq::<CommandV>::empty() =~= cmd_seq_model(out@));
    }
    Ok(out)
}

/// Decode the device references of a batch; each carries its identifier through.
pub fn decode_devices(ds: &Vec<WireDevice>) -> (out: Vec<Device>)
    ensures
        out@.map_values(|d: Device| d@) == ds@.map_values(|d: WireDevice| d@),
{
    let ghost dv = ds@.map_values(|d: WireDevice| d@);
    let mut out: Vec<Device> = Vec::new();
    proof {
        assert(out@.map_values(|d: Device| d@) =~= dv.take(0));
    }
    let mut i: usize = 0;
    while i < ds.len()
        invariant
            0 <= i <= ds.len(),
            dv == ds@.map_values(|d: WireDevice| d@),
            dv.len() == ds.len(),
            out@.map_values(|d: Device| d@) == dv.take(i as int),
        decreases ds.len() - i,
    {
        let ghost old_out = out@;
        out.push(Device { id: ds[i].id.clone() });
        proof {
            assert(out@.map_values(|d: Device| d@) =~= old_out.map_values(|d: Device| d@).push(
                ds@[i as int]@,
            ));
            assert(dv.take(i as int + 1) =~= dv.take(i as int).push(dv[i as int]));
        }
        i = i + 1;
    }
    proof {
        assert(dv.take(ds.len() as int) =~= dv);
    }
    out
}

/// Decode one command batch.
pub fn decode_batch(b: &WireBatch) -> (r: Result<Command, DecodeError>)
    ensures
        match r {
            Ok(cb) => spec_decode_batch(b@) == Ok::<CommandBatchV, DecodeError>(cb@),
            Err(e) => spec_decode_batch(b@) == Err::<CommandBatchV, DecodeError>(e),
        },
{
    proof {
        assert(cmds_view(&b.execution) =~= b@.execution);
    }
    let devices = decode_devices(&b.devices);
    match decode_commands(&b.execution) {
        Err(e) => Err(e),
        Ok(execution) => {
            let cb = Command { devices, execution };
            proof {
                assert(cb@.execution =~= cmd_seq_model(cb.execution@));
                assert(cb@.devices =~= b@.devices);
            }
            Ok(cb)
        },
    }
}

/// The abstract form of an executable wire-batch list.
pub open spec fn batches_view(bs: &Vec<WireBatch>) -> Seq<WireBatchV> {
    bs@.map_values(|b: WireBatch| b@)
}

/// The abstract form of a decoded batch list.
pub open spec fn batch_seq_model(v: Seq<Command>) -> Seq<CommandBatchV> {
    v.map_values(|c: Command| c@)
}

/// Decode a batch list, failing on the first bad batch.
pub fn decode_batches(bs: &Vec<WireBatch>) -> (r: Result<Vec<Command>, DecodeError>)
    ensures
        match r {
            Ok(out) => spec_decode_batches(batches_view(bs)) == Ok::<
                Seq<CommandBatchV>,
                DecodeError,
            >(batch_seq_model(out@)),
            Err(e) => spec_decode_batches(batches_view(bs)) == Err::<
                Seq<CommandBatchV>,
                DecodeError,
            >(e),
        },
{
    let ghost bv = batches_view(bs);
    let mut out: Vec<Command> = Vec::new();
    proof {
        assert(bv.skip(0) =~= bv);
        assert(batch_seq_model(out@) =~= Seq::<CommandBatchV>::empty());
    }
    let mut i: usize = 0;
    while i < bs.len()
        invariant
            0 <= i <= bs.len(),
            bv == batches_view(bs),
            bv.len() == bs.len(),
            spec_decode_batches(bv) == (match spec_decode_batches(bv.skip(i as int)) {
                Ok(rest) => Ok::<Seq<CommandBatchV>, DecodeError>(batch_seq_model(out@) + rest),
                Err(e) => Err::<Seq<CommandBatchV>, DecodeError>(e),
            }),
        decreases bs.len() - i,
    {
        proof {
            assert(bv.skip(i as int)[0] == bv[i as int]);
            assert(bv[i as int] == bs@[i as int]@);
            assert(bv.skip(i as int).drop_first() =~= bv.skip(i as int + 1));
        }
        match decode_batch(&bs[i]) {
            Err(e) => {
                return Err(e);
            },
            Ok(cb) => {
                let ghost old_model = batch_seq_model(out@);
                out.push(cb);
                proof {
                    assert(batch_seq_model(out@) =~= old_model.push(cb@));
                    match spec_decode_batches(bv.skip(i as int + 1)) {
                        Ok(rest) => {
                            assert(old_model + (seq![cb@] + rest) =~= batch_seq_model(out@)
                                + rest);
                        },
                        Err(_) => {},
                    }
                }
            },
        }
        i = i + 1;
    }
    proof {
        assert(bv.skip(bs.len() as int).len() == 0);
        assert(batch_seq_model(out@) + Seq::<CommandBatchV>::empty() =~= batch_seq_model(out@));
    }
    Ok(out)
}

/// Decode one intent: only the EXECUTE identifier is known in this core.
pub fn decode_input(i: &WireInput) -> (r: Result<Input, DecodeError>)
    ensures
        match r {
            Ok(inp) => spec_decode_input(i@) == Ok::<InputV, DecodeError>(inp@),
            Err(e) => spec_decode_input(i@) == Err::<InputV, DecodeError>(e),
        },
{
    if str_eq(i.intent.as_str(), "action.devices.EXECUTE") {
        proof {
            assert(batches_view(&i.commands) =~= i@.commands);
        }
        match decode_batches(&i.commands) {
            Err(e) => Err(e),
            Ok(bs) => {
                let inp = Input::Execute(Execute { commands: bs });
                proof {
                    assert(inp@ matches InputV::Execute(cbs) && cbs =~= batch_seq_model(bs@));
                }
                Ok(inp)
            },
        }
    } else {
        Err(DecodeError::UnknownIntent)
    }
}

/// The abstract form of an executable wire-input list.
pub open spec fn inputs_view(is: &Vec<WireInput>) -> Seq<WireInputV> {
    is@.map_values(|i: WireInput| i@)
}

/// The abstract form of a decoded input list.
pub open spec fn input_seq_model(v: Seq<Input>) -> Seq<InputV> {
    v.map_values(|i: Input| i@)
}

/// Decode an input list, failing on the first bad input.
pub fn decode_inputs(is: &Vec<WireInput>) -> (r: Result<Vec<Input>, DecodeError>)
    ensures
        match r {
            Ok(out) => spec_decode_inputs(inputs_view(is)) == Ok::<Seq<InputV>, DecodeError>(
                input_seq_model(out@),
            ),
            Err(e) => spec_decode_inputs(inputs_view(is)) == Err::<Seq<InputV>, DecodeError>(e),
        },
{
    let ghost iv = inputs_view(is);
    let mut out: Vec<Input> = Vec::new();
    proof {
        assert(iv.skip(0) =~= iv);
        assert(input_seq_model(out@) =~= Seq::<InputV>::empty());
    }
    let mut i: usize = 0;
    while i < is.len()
        invariant
            0 <= i <= is.len(),
            iv == inputs_view(is),
            iv.len() == is.len(),
            spec_decode_inputs(iv) == (match spec_decode_inputs(iv.skip(i as int)) {
                Ok(rest) => Ok::<Seq<InputV>, DecodeError>(input_seq_model(out@) + rest),
                Err(e) => Err::<Seq<InputV>, DecodeError>(e),
            }),
        decreases is.len() - i,
    {
        proof {
            assert(iv.skip(i as int)[0] == iv[i as int]);
            assert(iv[i as int] == is@[i as int]@);
            assert(iv.skip(i as int).drop_first() =~= iv.skip(i as int + 1));
        }
        match decode_input(&is[i]) {
            Err(e) => {
                return Err(e);
            },
            Ok(inp) => {
                let ghost old_model = input_seq_model(out@);
                out.push(inp);
                proof {
                    assert(input_seq_model(out@) =~= old_model.push(inp@));
                    match spec_decode_inputs(iv.skip(i as int + 1)) {
                        Ok(rest) => {
                            assert(old_model + (seq![inp@] + rest) =~= input_seq_model(out@)
                                + rest);
                        },
                        Err(_) => {},
                    }
                }
            },
        }
        i = i + 1;
    }
    proof {
        assert(iv.skip(is.len() as int).len() == 0);
        assert(input_seq_model(out@) + Seq::<InputV>::empty() =~= input_seq_model(out@));
    }
    Ok(out)
}

/// Decode a whole request: the envelope, its intents, their batches and
/// commands. A request without inputs is rejected; any unknown tag, missing
/// required field or mistyped field fails the whole decode.
pub fn decode_request(w: &WireRequest) -> (r: Result<Request, DecodeError>)
    ensures
        match r {
            Ok(req) => spec_decode_request(w@) == Ok::<RequestV, DecodeError>(req@),
            Err(e) => spec_decode_request(w@) == Err::<RequestV, DecodeError>(e),
        },
{
    if w.inputs.len() == 0 {
        return Err(DecodeError::EmptyInputs);
    }
    proof {
        assert(inputs_view(&w.inputs) =~= w@.inputs);
    }
    match decode_inputs(&w.inputs) {
        Err(e) => Err(e),
        Ok(inputs) => {
            let req = Request { request_id: w.request_id.clone(), inputs };
            proof {
                assert(req@.inputs =~= input_seq_model(req.inputs@));
            }
            Ok(req)
        },
    }
}

} // verus!\n