use vstd::prelude::*;

use crate::decode::in_i32;
use crate::decode::spec_decode_command;
use crate::decode::spec_decode_commands;
use crate::decode::spec_decode_batch;
use crate::decode::spec_decode_batches;
use crate::decode::spec_decode_input;
use crate::decode::spec_decode_inputs;
use crate::decode::spec_decode_params;
use crate::decode::spec_decode_request;
use crate::decode::spec_kind_of_tag;
use crate::decode::spec_lookup;
use crate::decode::spec_lookup_field;
use crate::decode::fields_view;
use crate::decode::params_view;
use crate::decode::tag_of;
use crate::fulfillment::execute::mode_code;
use crate::fulfillment::execute::view_opt_i32;
use crate::fulfillment::execute::view_opt_string;
use crate::fulfillment::execute::Command;
use crate::fulfillment::execute::CommandType;
use crate::fulfillment::execute::Execute;
use crate::fulfillment::request::Input;
use crate::fulfillment::request::Request;
use crate::traits::unit_code;
use crate::wire::ObjectField;
use crate::wire::ParamValue;
use crate::wire::ScalarValue;
use crate::wire::WireBatch;
use crate::wire::WireCommand;
use crate::wire::WireDevice;
use crate::wire::WireInput;
use crate::wire::WireParam;
use crate::wire::WireRequest;
use crate::decode::spec_req_color;
use crate::decode::spec_tag_of;
use crate::decode::CommandKind;
use crate::decode::DecodeError;
use crate::fulfillment::execute::spec_mode_code;
use crate::fulfillment::execute::spec_mode_from_code;
use crate::fulfillment::execute::ColorCommandV;
use crate::fulfillment::execute::ColorValue;
use crate::fulfillment::execute::CommandV;
use crate::fulfillment::execute::CommandBatchV;
use crate::fulfillment::execute::CookingMode;
use crate::fulfillment::request::InputV;
use crate::fulfillment::request::RequestV;
use crate::traits::spec_unit_code;
use crate::traits::spec_unit_from_code;
use crate::traits::SizeUnit;
use crate::wire::ParamV;
use crate::wire::ScalarV;
use crate::wire::WireBatchV;
use crate::wire::WireCommandV;
use crate::wire::WireInputV;
use crate::wire::WireRequestV;

verus! {

/// A parameter-list fragment: one named entry, or nothing.
pub open spec fn group_of(name: Seq<char>, o: Option<ParamV>) -> Seq<(Seq<char>, ParamV)> {
    match o {
        Some(v) => seq![(name, v)],
        None => Seq::empty(),
    }
}

pub open spec fn pv_opt_bool(o: Option<bool>) -> Option<ParamV> {
    match o {
        Some(b) => Some(ParamV::Scalar(ScalarV::Bool(b))),
        None => None,
    }
}

pub open spec fn pv_opt_int(o: Option<int>) -> Option<ParamV> {
    match o {
        Some(n) => Some(ParamV::Scalar(ScalarV::Int(n))),
        None => None,
    }
}

pub open spec fn pv_opt_str(o: Option<Seq<char>>) -> Option<ParamV> {
    match o {
        Some(s) => Some(ParamV::Scalar(ScalarV::Str(s))),
        None => None,
    }
}

pub open spec fn pv_opt_unit(o: Option<SizeUnit>) -> Option<ParamV> {
    match o {
        Some(u) => Some(ParamV::Scalar(ScalarV::Str(spec_unit_code(u)))),
        None => None,
    }
}

pub open spec fn pv_opt_mode(o: Option<CookingMode>) -> Option<ParamV> {
    match o {
        Some(m) => Some(ParamV::Scalar(ScalarV::Str(spec_mode_code(m)))),
        None => None,
    }
}

pub open spec fn req_bool_g(name: Seq<char>, b: bool) -> Seq<(Seq<char>, ParamV)> {
    group_of(name, Some(ParamV::Scalar(ScalarV::Bool(b))))
}

pub open spec fn req_int_g(name: Seq<char>, n: int) -> Seq<(Seq<char>, ParamV)> {
    group_of(name, Some(ParamV::Scalar(ScalarV::Int(n))))
}

pub open spec fn req_str_g(name: Seq<char>, s: Seq<char>) -> Seq<(Seq<char>, ParamV)> {
    group_of(name, Some(ParamV::Scalar(ScalarV::Str(s))))
}

pub open spec fn opt_bool_g(name: Seq<char>, o: Option<bool>) -> Seq<(Seq<char>, ParamV)> {
    group_of(name, pv_opt_bool(o))
}

pub open spec fn opt_int_g(name: Seq<char>, o: Option<int>) -> Seq<(Seq<char>, ParamV)> {
    group_of(name, pv_opt_int(o))
}

pub open spec fn opt_str_g(name: Seq<char>, o: Option<Seq<char>>) -> Seq<(Seq<char>, ParamV)> {
    group_of(name, pv_opt_str(o))
}

pub open spec fn opt_unit_g(name: Seq<char>, o: Option<SizeUnit>) -> Seq<(Seq<char>, ParamV)> {
    group_of(name, pv_opt_unit(o))
}

pub open spec fn opt_mode_g(name: Seq<char>, o: Option<CookingMode>) -> Seq<(Seq<char>, ParamV)> {
    group_of(name, pv_opt_mode(o))
}

/// The fields of an encoded color object: the optional name, then exactly
/// one color value.
pub open spec fn color_fields(c: ColorCommandV) -> Seq<(Seq<char>, ScalarV)> {
    (match c.name {
        Some(n) => seq![("name"@, ScalarV::Str(n))],
        None => Seq::<(Seq<char>, ScalarV)>::empty(),
    }) + (match c.value {
        ColorValue::Temperature(t) => seq![("temperature"@, ScalarV::Int(t as int))],
        ColorValue::SpectrumRgb(v) => seq![("spectrumRGB"@, ScalarV::Int(v as int))],
    })
}

pub open spec fn color_g(c: ColorCommandV) -> Seq<(Seq<char>, ParamV)> {
    group_of("color"@, Some(ParamV::Object(color_fields(c))))
}

/// Looking a name up at the head group: found there when present, otherwise
/// in the rest.
proof fn lemma_lookup_group_match(name: Seq<char>, o: Option<ParamV>, rest: Seq<(Seq<char>, ParamV)>)
    ensures
        spec_lookup(group_of(name, o) + rest, name) == (match o {
            Some(v) => Some(v),
            None => spec_lookup(rest, name),
        }),
{
    match o {
        Some(v) => {
            assert((group_of(name, o) + rest)[0] == (name, v));
        },
        None => {
            assert(group_of(name, o) + rest =~= rest);
        },
    }
}

/// Looking a name up past a group bound to a different name.
proof fn lemma_lookup_group_skip(
    name2: Seq<char>,
    o: Option<ParamV>,
    rest: Seq<(Seq<char>, ParamV)>,
    name: Seq<char>,
)
    requires
        name2 != name,
    ensures
        spec_lookup(group_of(name2, o) + rest, name) == spec_lookup(rest, name),
{
    match o {
        Some(v) => {
            assert((group_of(name2, o) + rest)[0] == (name2, v));
            assert((group_of(name2, o) + rest).drop_first() =~= rest);
        },
        None => {
            assert(group_of(name2, o) + rest =~= rest);
        },
    }
}

/// The object-field analogues of the two lookup lemmas.
proof fn lemma_lookup_field_match(name: Seq<char>, v: ScalarV, rest: Seq<(Seq<char>, ScalarV)>)
    ensures
        spec_lookup_field(seq![(name, v)] + rest, name) == Some(v),
{
    assert((seq![(name, v)] + rest)[0] == (name, v));
}

proof fn lemma_lookup_field_skip(
    name2: Seq<char>,
    v: ScalarV,
    rest: Seq<(Seq<char>, ScalarV)>,
    name: Seq<char>,
)
    requires
        name2 != name,
    ensures
        spec_lookup_field(seq![(name2, v)] + rest, name) == spec_lookup_field(rest, name),
{
    assert((seq![(name2, v)] + rest)[0] == (name2, v));
    assert((seq![(name2, v)] + rest).drop_first() =~= rest);
}

/// Each command identifier decodes back to its own kind: the identifiers are
/// pairwise distinct.
#[verifier::rlimit(100)]
pub proof fn lemma_tag_round_trip(k: CommandKind)
    ensures
        spec_kind_of_tag(spec_tag_of(k)) == Some(k),
{
    reveal_strlit("action.devices.commands.ArmDisarm");
    assert("action.devices.commands.ArmDisarm"@.len() == 33);
    reveal_strlit("action.devices.commands.BrightnessAbsolute");
    assert("action.devices.commands.BrightnessAbsolute"@.len() == 42);
    reveal_strlit("action.devices.commands.BrightnessRelative");
    assert("action.devices.commands.BrightnessRelative"@.len() == 42);
    reveal_strlit("action.devices.commands.ColorAbsolute");
    assert("action.devices.commands.ColorAbsolute"@.len() == 37);
    reveal_strlit("action.devices.commands.Cook");
    assert("action.devices.commands.Cook"@.len() == 28);
    reveal_strlit("action.devices.commands.Dispense");
    assert("action.devices.commands.Dispense"@.len() == 32);
    reveal_strlit("action.devices.commands.Dock");
    assert("action.devices.commands.Dock"@.len() == 28);
    reveal_strlit("action.devices.commands.Charge");
    assert("action.devices.commands.Charge"@.len() == 30);
    reveal_strlit("action.devices.commands.SetFanSpeed");
    assert("action.devices.commands.SetFanSpeed"@.len() == 35);
    reveal_strlit("action.devices.commands.SetFanSpeedRelative");
    assert("action.devices.commands.SetFanSpeedRelative"@.len() == 43);
    reveal_strlit("action.devices.commands.Fill");
    assert("action.devices.commands.Fill"@.len() == 28);
    reveal_strlit("action.devices.commands.SetHumidity");
    assert("action.devices.commands.SetHumidity"@.len() == 35);
    reveal_strlit("action.devices.commands.HumidityRelative");
    assert("action.devices.commands.HumidityRelative"@.len() == 40);
    reveal_strlit("action.devices.commands.SetInput");
    assert("action.devices.commands.SetInput"@.len() == 32);
    reveal_strlit("action.devices.commands.NextInput");
    assert("action.devices.commands.NextInput"@.len() == 33);
    reveal_strlit("action.devices.commands.PreviousInput");
    assert("action.devices.commands.PreviousInput"@.len() == 37);
    reveal_strlit("action.devices.commands.ColorLoop");
    assert("action.devices.commands.ColorLoop"@.len() == 33);
    reveal_strlit("action.devices.commands.Sleep");
    assert("action.devices.commands.Sleep"@.len() == 29);
    reveal_strlit("action.devices.commands.StopEffect");
    assert("action.devices.commands.StopEffect"@.len() == 34);
    reveal_strlit("actin.devices.commands.Wake");
    assert("actin.devices.commands.Wake"@.len() == 27);
    reveal_strlit("action.devices.commands.Locate");
    assert("action.devices.commands.Locate"@.len() == 30);
    reveal_strlit("action.devices.commands.LockUnlock");
    assert("action.devices.commands.LockUnlock"@.len() == 34);
    reveal_strlit("action.devices.commands.OnOff");
    assert("action.devices.commands.OnOff"@.len() == 29);
    assert(spec_tag_of(CommandKind::BrightnessAbsolute)[34] == 'A');
    assert(spec_tag_of(CommandKind::BrightnessRelative)[34] == 'R');
    assert(spec_tag_of(CommandKind::Cook)[24] == 'C');
    assert(spec_tag_of(CommandKind::Dock)[24] == 'D');
    assert(spec_tag_of(CommandKind::Fill)[24] == 'F');
    assert(spec_tag_of(CommandKind::SetFanSpeed)[27] == 'F');
    assert(spec_tag_of(CommandKind::SetHumidity)[27] == 'H');
    assert(spec_tag_of(CommandKind::Dispense)[24] == 'D');
    assert(spec_tag_of(CommandKind::SetInput)[24] == 'S');
    assert(spec_tag_of(CommandKind::ArmDisarm)[24] == 'A');
    assert(spec_tag_of(CommandKind::NextInput)[24] == 'N');
    assert(spec_tag_of(CommandKind::ColorLoop)[24] == 'C');
    assert(spec_tag_of(CommandKind::ColorAbsolute)[24] == 'C');
    assert(spec_tag_of(CommandKind::PreviousInput)[24] == 'P');
    assert(spec_tag_of(CommandKind::Sleep)[24] == 'S');
    assert(spec_tag_of(CommandKind::OnOff)[24] == 'O');
    assert(spec_tag_of(CommandKind::StopEffect)[24] == 'S');
    assert(spec_tag_of(CommandKind::LockUnlock)[24] == 'L');
    assert(spec_tag_of(CommandKind::Charge)[24] == 'C');
    assert(spec_tag_of(CommandKind::Locate)[24] == 'L');
}

/// Each unit code decodes back to its own unit.
#[verifier::rlimit(100)]
pub proof fn lemma_unit_code_round_trip(u: SizeUnit)
    ensures
        spec_unit_from_code(spec_unit_code(u)) == Some(u),
{
    reveal_strlit("UNKNOWN_UNITS");
    assert("UNKNOWN_UNITS"@.len() == 13);
    reveal_strlit("NO_UNITS");
    assert("NO_UNITS"@.len() == 8);
    reveal_strlit("CENTIMETERS");
    assert("CENTIMETERS"@.len() == 11);
    reveal_strlit("CUPS");
    assert("CUPS"@.len() == 4);
    reveal_strlit("DECILITERS");
    assert("DECILITERS"@.len() == 10);
    reveal_strlit("FEET");
    assert("FEET"@.len() == 4);
    reveal_strlit("FLUID_OUNCES");
    assert("FLUID_OUNCES"@.len() == 12);
    reveal_strlit("GALLONS");
    assert("GALLONS"@.len() == 7);
    reveal_strlit("GRAMS");
    assert("GRAMS"@.len() == 5);
    reveal_strlit("INCHES");
    assert("INCHES"@.len() == 6);
    reveal_strlit("KILOGRAMS");
    assert("KILOGRAMS"@.len() == 9);
    reveal_strlit("LITERS");
    assert("LITERS"@.len() == 6);
    reveal_strlit("METERS");
    assert("METERS"@.len() == 6);
    reveal_strlit("MILLIGRAMS");
    assert("MILLIGRAMS"@.len() == 10);
    reveal_strlit("MILLILITERS");
    assert("MILLILITERS"@.len() == 11);
    reveal_strlit("MILLIMETERS");
    assert("MILLIMETERS"@.len() == 11);
    reveal_strlit("OUNCES");
    assert("OUNCES"@.len() == 6);
    reveal_strlit("PINCH");
    assert("PINCH"@.len() == 5);
    reveal_strlit("PINTS");
    assert("PINTS"@.len() == 5);
    reveal_strlit("PORTION");
    assert("PORTION"@.len() == 7);
    reveal_strlit("POUNDS");
    assert("POUNDS"@.len() == 6);
    reveal_strlit("QUARTS");
    assert("QUARTS"@.len() == 6);
    reveal_strlit("TABLESPOONS");
    assert("TABLESPOONS"@.len() == 11);
    reveal_strlit("TEASPOONS");
    assert("TEASPOONS"@.len() == 9);
    assert("CUPS"@[0] == 'C' && "FEET"@[0] == 'F');
    assert("GRAMS"@[0] == 'G' && "PINCH"@[0] == 'P' && "PINTS"@[0] == 'P');
    assert("PINCH"@[3] == 'C' && "PINTS"@[3] == 'T');
    assert("INCHES"@[0] == 'I' && "LITERS"@[0] == 'L' && "METERS"@[0] == 'M');
    assert("OUNCES"@[0] == 'O' && "POUNDS"@[0] == 'P' && "QUARTS"@[0] == 'Q');
    assert("GALLONS"@[0] == 'G' && "PORTION"@[0] == 'P');
    assert("KILOGRAMS"@[0] == 'K' && "TEASPOONS"@[0] == 'T');
    assert("DECILITERS"@[0] == 'D' && "MILLIGRAMS"@[0] == 'M');
    assert("CENTIMETERS"@[0] == 'C' && "TABLESPOONS"@[0] == 'T');
    assert("MILLILITERS"@[0] == 'M' && "MILLIMETERS"@[0] == 'M');
    assert("MILLILITERS"@[5] == 'L' && "MILLIMETERS"@[5] == 'M');
}

/// Each cooking-mode code decodes back to its own mode.
#[verifier::rlimit(100)]
pub proof fn lemma_mode_code_round_trip(m: CookingMode)
    ensures
        spec_mode_from_code(spec_mode_code(m)) == Some(m),
{
    reveal_strlit("BAKE");
    assert("BAKE"@.len() == 4);
    reveal_strlit("BOIL");
    assert("BOIL"@.len() == 4);
    reveal_strlit("BREW");
    assert("BREW"@.len() == 4);
    reveal_strlit("BROIL");
    assert("BROIL"@.len() == 5);
    reveal_strlit("COOK");
    assert("COOK"@.len() == 4);
    reveal_strlit("DEFROST");
    assert("DEFROST"@.len() == 7);
    reveal_strlit("FRY");
    assert("FRY"@.len() == 3);
    reveal_strlit("GRILL");
    assert("GRILL"@.len() == 5);
    reveal_strlit("MICROWAVE");
    assert("MICROWAVE"@.len() == 9);
    reveal_strlit("ROAST");
    assert("ROAST"@.len() == 5);
    reveal_strlit("STEAM");
    assert("STEAM"@.len() == 5);
    reveal_strlit("WARM");
    assert("WARM"@.len() == 4);
    assert("BAKE"@[0] == 'B' && "BOIL"@[0] == 'B' && "BREW"@[0] == 'B');
    assert("COOK"@[0] == 'C' && "WARM"@[0] == 'W');
    assert("BAKE"@[1] == 'A' && "BOIL"@[1] == 'O' && "BREW"@[1] == 'R');
    assert("BROIL"@[0] == 'B' && "GRILL"@[0] == 'G' && "ROAST"@[0] == 'R' && "STEAM"@[0] == 'S');
}

/// An encoded color object decodes back to the same color.
proof fn lemma_color_round_trip(c: ColorCommandV, rest: Seq<(Seq<char>, ParamV)>)
    ensures
        spec_req_color(color_g(c) + rest) == Ok::<ColorCommandV, DecodeError>(c),
{
    reveal_with_fuel(spec_lookup_field, 4);
    reveal_strlit("color");
    assert("color"@.len() == 5);
    reveal_strlit("name");
    assert("name"@.len() == 4);
    reveal_strlit("temperature");
    assert("temperature"@.len() == 11);
    reveal_strlit("spectrumRGB");
    assert("spectrumRGB"@.len() == 11);
    assert("temperature"@[0] == 't' && "spectrumRGB"@[0] == 's');
    lemma_lookup_group_match("color"@, Some(ParamV::Object(color_fields(c))), rest);
    let fs = color_fields(c);
    let vg: Seq<(Seq<char>, ScalarV)> = match c.value {
        ColorValue::Temperature(t) => seq![("temperature"@, ScalarV::Int(t as int))],
        ColorValue::SpectrumRgb(v) => seq![("spectrumRGB"@, ScalarV::Int(v as int))],
    };
    match c.name {
        Some(n) => {
            assert(fs == seq![("name"@, ScalarV::Str(n))] + vg);
            lemma_lookup_field_match("name"@, ScalarV::Str(n), vg);
            match c.value {
                ColorValue::Temperature(t) => {
                    lemma_lookup_field_skip("name"@, ScalarV::Str(n), vg, "temperature"@);
                    assert(vg =~= seq![("temperature"@, ScalarV::Int(t as int))] + Seq::<(Seq<char>, ScalarV)>::empty());
                    lemma_lookup_field_match("temperature"@, ScalarV::Int(t as int), Seq::empty());
                },
                ColorValue::SpectrumRgb(v) => {
                    lemma_lookup_field_skip("name"@, ScalarV::Str(n), vg, "temperature"@);
                    lemma_lookup_field_skip("name"@, ScalarV::Str(n), vg, "spectrumRGB"@);
                    assert(vg =~= seq![("spectrumRGB"@, ScalarV::Int(v as int))] + Seq::<(Seq<char>, ScalarV)>::empty());
                    lemma_lookup_field_match("spectrumRGB"@, ScalarV::Int(v as int), Seq::empty());
                    assert(spec_lookup_field(vg, "temperature"@) is None) by {
                        assert(vg.drop_first() =~= Seq::<(Seq<char>, ScalarV)>::empty());
                    }
                },
            }
        },
        None => {
            assert(fs =~= vg);
            match c.value {
                ColorValue::Temperature(t) => {
                    assert(fs =~= seq![("temperature"@, ScalarV::Int(t as int))] + Seq::<(Seq<char>, ScalarV)>::empty());
                    lemma_lookup_field_match("temperature"@, ScalarV::Int(t as int), Seq::empty());
                },
                ColorValue::SpectrumRgb(v) => {
                    assert(fs =~= seq![("spectrumRGB"@, ScalarV::Int(v as int))] + Seq::<(Seq<char>, ScalarV)>::empty());
                    lemma_lookup_field_match("spectrumRGB"@, ScalarV::Int(v as int), Seq::empty());
                    assert(spec_lookup_field(fs, "temperature"@) is None) by {
                        assert(fs.drop_first() =~= Seq::<(Seq<char>, ScalarV)>::empty());
                    }
                },
            }
        },
    }
}

pub open spec fn spec_encode_params(c: CommandV) -> Seq<(Seq<char>, ParamV)> {
    match c {
        CommandV::ArmDisarm { follow_up_token, arm, cancel, arm_level } => opt_str_g("followUpToken"@, follow_up_token) + (req_bool_g("arm"@, arm) + (opt_bool_g("cancel"@, cancel) + (opt_str_g("armLevel"@, arm_level) + (Seq::<(Seq<char>, ParamV)>::empty())))),
        CommandV::BrightnessAbsolute { brightness } => req_int_g("brightness"@, brightness) + (Seq::<(Seq<char>, ParamV)>::empty()),
        CommandV::BrightnessRelative { brightness_relative_percent, brightness_relative_weight } => opt_int_g("brightnessRelativePercent"@, brightness_relative_percent) + (opt_int_g("brightnessRelativeWeight"@, brightness_relative_weight) + (Seq::<(Seq<char>, ParamV)>::empty())),
        CommandV::ColorAbsolute { color } => color_g(color) + (Seq::<(Seq<char>, ParamV)>::empty()),
        CommandV::Cook { start, cooking_mode, food_preset, quantity, unit } => req_bool_g("start"@, start) + (opt_mode_g("cookingMode"@, cooking_mode) + (opt_str_g("foodPreset"@, food_preset) + (opt_int_g("quantity"@, quantity) + (opt_unit_g("unit"@, unit) + (Seq::<(Seq<char>, ParamV)>::empty()))))),
        CommandV::Dispense { item, amount, unit, preset_name } => opt_str_g("item"@, item) + (opt_int_g("amount"@, amount) + (opt_unit_g("unit"@, unit) + (opt_str_g("presetName"@, preset_name) + (Seq::<(Seq<char>, ParamV)>::empty())))),
        CommandV::Dock => Seq::<(Seq<char>, ParamV)>::empty(),
        CommandV::Charge { charge } => req_bool_g("charge"@, charge) + (Seq::<(Seq<char>, ParamV)>::empty()),
        CommandV::SetFanSpeed { fan_speed, fan_speed_percent } => opt_str_g("fanSpeed"@, fan_speed) + (opt_int_g("fanSpeedPercent"@, fan_speed_percent) + (Seq::<(Seq<char>, ParamV)>::empty())),
        CommandV::SetFanSpeedRelative { fan_speed_relative_weight, fan_speed_relative_percent } => opt_int_g("fanSpeedRelativeWeight"@, fan_speed_relative_weight) + (opt_int_g("fanSpeedRelativePercent"@, fan_speed_relative_percent) + (Seq::<(Seq<char>, ParamV)>::empty())),
        CommandV::Fill { fill, fill_level, fill_percent } => req_bool_g("fill"@, fill) + (opt_str_g("fillLevel"@, fill_level) + (opt_int_g("fillPercent"@, fill_percent) + (Seq::<(Seq<char>, ParamV)>::empty()))),
        CommandV::SetHumidity { humidity } => req_int_g("humidity"@, humidity) + (Seq::<(Seq<char>, ParamV)>::empty()),
        CommandV::HumidityRelative { humidity_relative_percent, humidity_relative_weight } => opt_int_g("humidityRelativePercent"@, humidity_relative_percent) + (opt_int_g("humidityRelativeWeight"@, humidity_relative_weight) + (Seq::<(Seq<char>, ParamV)>::empty())),
        CommandV::SetInput { new_input } => req_str_g("newInput"@, new_input) + (Seq::<(Seq<char>, ParamV)>::empty()),
        CommandV::NextInput => Seq::<(Seq<char>, ParamV)>::empty(),
        CommandV::PreviousInput => Seq::<(Seq<char>, ParamV)>::empty(),
        CommandV::ColorLoop { duration } => req_int_g("duration"@, duration) + (Seq::<(Seq<char>, ParamV)>::empty()),
        CommandV::Sleep { duration } => req_int_g("duration"@, duration) + (Seq::<(Seq<char>, ParamV)>::empty()),
        CommandV::StopEffect => Seq::<(Seq<char>, ParamV)>::empty(),
        CommandV::Wake { duration } => req_int_g("duration"@, duration) + (Seq::<(Seq<char>, ParamV)>::empty()),
        CommandV::Locate { silence, lang } => req_bool_g("silence"@, silence) + (req_str_g("lang"@, lang) + (Seq::<(Seq<char>, ParamV)>::empty())),
        CommandV::LockUnlock { lock, follow_up_token } => req_bool_g("lock"@, lock) + (opt_str_g("followUpToken"@, follow_up_token) + (Seq::<(Seq<char>, ParamV)>::empty())),
        CommandV::OnOff { on } => req_bool_g("on"@, on) + (Seq::<(Seq<char>, ParamV)>::empty()),
    }
}

pub open spec fn spec_kind_of(c: CommandV) -> CommandKind {
    match c {
        CommandV::ArmDisarm { .. } => CommandKind::ArmDisarm,
        CommandV::BrightnessAbsolute { .. } => CommandKind::BrightnessAbsolute,
        CommandV::BrightnessRelative { .. } => CommandKind::BrightnessRelative,
        CommandV::ColorAbsolute { .. } => CommandKind::ColorAbsolute,
        CommandV::Cook { .. } => CommandKind::Cook,
        CommandV::Dispense { .. } => CommandKind::Dispense,
        CommandV::Dock => CommandKind::Dock,
        CommandV::Charge { .. } => CommandKind::Charge,
        CommandV::SetFanSpeed { .. } => CommandKind::SetFanSpeed,
        CommandV::SetFanSpeedRelative { .. } => CommandKind::SetFanSpeedRelative,
        CommandV::Fill { .. } => CommandKind::Fill,
        CommandV::SetHumidity { .. } => CommandKind::SetHumidity,
        CommandV::HumidityRelative { .. } => CommandKind::HumidityRelative,
        CommandV::SetInput { .. } => CommandKind::SetInput,
        CommandV::NextInput => CommandKind::NextInput,
        CommandV::PreviousInput => CommandKind::PreviousInput,
        CommandV::ColorLoop { .. } => CommandKind::ColorLoop,
        CommandV::Sleep { .. } => CommandKind::Sleep,
        CommandV::StopEffect => CommandKind::StopEffect,
        CommandV::Wake { .. } => CommandKind::Wake,
        CommandV::Locate { .. } => CommandKind::Locate,
        CommandV::LockUnlock { .. } => CommandKind::LockUnlock,
        CommandV::OnOff { .. } => CommandKind::OnOff,
    }
}

pub open spec fn opt_in_i32(o: Option<int>) -> bool {
    match o {
        Some(n) => in_i32(n),
        None => true,
    }
}

/// A command whose integer parameters fit the wire range; every decoded
/// command is valid, and only valid commands round-trip.
pub open spec fn spec_valid_command(c: CommandV) -> bool {
    match c {
        CommandV::ArmDisarm { .. } => true,
        CommandV::BrightnessAbsolute { brightness } => in_i32(brightness),
        CommandV::BrightnessRelative { brightness_relative_percent, brightness_relative_weight } => opt_in_i32(brightness_relative_percent) && opt_in_i32(brightness_relative_weight),
        CommandV::ColorAbsolute { .. } => true,
        CommandV::Cook { quantity, .. } => opt_in_i32(quantity),
        CommandV::Dispense { amount, .. } => opt_in_i32(amount),
        CommandV::Dock => true,
        CommandV::Charge { .. } => true,
        CommandV::SetFanSpeed { fan_speed_percent, .. } => opt_in_i32(fan_speed_percent),
        CommandV::SetFanSpeedRelative { fan_speed_relative_weight, fan_speed_relative_percent } => opt_in_i32(fan_speed_relative_weight) && opt_in_i32(fan_speed_relative_percent),
        CommandV::Fill { fill_percent, .. } => opt_in_i32(fill_percent),
        CommandV::SetHumidity { humidity } => in_i32(humidity),
        CommandV::HumidityRelative { humidity_relative_percent, humidity_relative_weight } => opt_in_i32(humidity_relative_percent) && opt_in_i32(humidity_relative_weight),
        CommandV::SetInput { .. } => true,
        CommandV::NextInput => true,
        CommandV::PreviousInput => true,
        CommandV::ColorLoop { duration } => in_i32(duration),
        CommandV::Sleep { duration } => in_i32(duration),
        CommandV::StopEffect => true,
        CommandV::Wake { duration } => in_i32(duration),
        CommandV::Locate { .. } => true,
        CommandV::LockUnlock { .. } => true,
        CommandV::OnOff { .. } => true,
    }
}

proof fn lemma_params_arm_disarm(c: CommandV)
    requires
        c matches CommandV::ArmDisarm { .. },
        spec_valid_command(c),
    ensures
        spec_decode_params(CommandKind::ArmDisarm, spec_encode_params(c)) == Ok::<CommandV, DecodeError>(
            c,
        ),
{
    reveal_strlit("followUpToken");
    assert("followUpToken"@.len() == 13);
    reveal_strlit("arm");
    assert("arm"@.len() == 3);
    reveal_strlit("cancel");
    assert("cancel"@.len() == 6);
    reveal_strlit("armLevel");
    assert("armLevel"@.len() == 8);
    match c {
        CommandV::ArmDisarm { follow_up_token, arm, cancel, arm_level } => {
            let tail4 = Seq::<(Seq<char>, ParamV)>::empty();
            let tail3 = opt_str_g("armLevel"@, arm_level) + tail4;
            let tail2 = opt_bool_g("cancel"@, cancel) + tail3;
            let tail1 = req_bool_g("arm"@, arm) + tail2;
            let tail0 = opt_str_g("followUpToken"@, follow_up_token) + tail1;
            assert(spec_encode_params(c) == tail0);
            // field `followUpToken`
            lemma_lookup_group_match("followUpToken"@, pv_opt_str(follow_up_token), tail1);
            lemma_lookup_group_skip("arm"@, Some(ParamV::Scalar(ScalarV::Bool(arm))), tail2, "followUpToken"@);
            lemma_lookup_group_skip("cancel"@, pv_opt_bool(cancel), tail3, "followUpToken"@);
            lemma_lookup_group_skip("armLevel"@, pv_opt_str(arm_level), tail4, "followUpToken"@);
            assert(spec_lookup(tail4, "followUpToken"@) is None);
            // field `arm`
            lemma_lookup_group_skip("followUpToken"@, pv_opt_str(follow_up_token), tail1, "arm"@);
            lemma_lookup_group_match("arm"@, Some(ParamV::Scalar(ScalarV::Bool(arm))), tail2);
            // field `cancel`
            lemma_lookup_group_skip("followUpToken"@, pv_opt_str(follow_up_token), tail1, "cancel"@);
            lemma_lookup_group_skip("arm"@, Some(ParamV::Scalar(ScalarV::Bool(arm))), tail2, "cancel"@);
            lemma_lookup_group_match("cancel"@, pv_opt_bool(cancel), tail3);
            lemma_lookup_group_skip("armLevel"@, pv_opt_str(arm_level), tail4, "cancel"@);
            assert(spec_lookup(tail4, "cancel"@) is None);
            // field `armLevel`
            lemma_lookup_group_skip("followUpToken"@, pv_opt_str(follow_up_token), tail1, "armLevel"@);
            lemma_lookup_group_skip("arm"@, Some(ParamV::Scalar(ScalarV::Bool(arm))), tail2, "armLevel"@);
            lemma_lookup_group_skip("cancel"@, pv_opt_bool(cancel), tail3, "armLevel"@);
            lemma_lookup_group_match("armLevel"@, pv_opt_str(arm_level), tail4);
            assert(spec_lookup(tail4, "armLevel"@) is None);
        },
        _ => {},
    }
}

proof fn lemma_params_brightness_absolute(c: CommandV)
    requires
        c matches CommandV::BrightnessAbsolute { .. },
        spec_valid_command(c),
    ensures
        spec_decode_params(CommandKind::BrightnessAbsolute, spec_encode_params(c)) == Ok::<CommandV, DecodeError>(
            c,
        ),
{
    reveal_strlit("brightness");
    assert("brightness"@.len() == 10);
    match c {
        CommandV::BrightnessAbsolute { brightness } => {
            let tail1 = Seq::<(Seq<char>, ParamV)>::empty();
            let tail0 = req_int_g("brightness"@, brightness) + tail1;
            assert(spec_encode_params(c) == tail0);
            // field `brightness`
            lemma_lookup_group_match("brightness"@, Some(ParamV::Scalar(ScalarV::Int(brightness))), tail1);
        },
        _ => {},
    }
}

proof fn lemma_params_brightness_relative(c: CommandV)
    requires
        c matches CommandV::BrightnessRelative { .. },
        spec_valid_command(c),
    ensures
        spec_decode_params(CommandKind::BrightnessRelative, spec_encode_params(c)) == Ok::<CommandV, DecodeError>(
            c,
        ),
{
    reveal_strlit("brightnessRelativePercent");
    assert("brightnessRelativePercent"@.len() == 25);
    reveal_strlit("brightnessRelativeWeight");
    assert("brightnessRelativeWeight"@.len() == 24);
    match c {
        CommandV::BrightnessRelative { brightness_relative_percent, brightness_relative_weight } => {
            let tail2 = Seq::<(Seq<char>, ParamV)>::empty();
            let tail1 = opt_int_g("brightnessRelativeWeight"@, brightness_relative_weight) + tail2;
            let tail0 = opt_int_g("brightnessRelativePercent"@, brightness_relative_percent) + tail1;
            assert(spec_encode_params(c) == tail0);
            // field `brightnessRelativePercent`
            lemma_lookup_group_match("brightnessRelativePercent"@, pv_opt_int(brightness_relative_percent), tail1);
            lemma_lookup_group_skip("brightnessRelativeWeight"@, pv_opt_int(brightness_relative_weight), tail2, "brightnessRelativePercent"@);
            assert(spec_lookup(tail2, "brightnessRelativePercent"@) is None);
            // field `brightnessRelativeWeight`
            lemma_lookup_group_skip("brightnessRelativePercent"@, pv_opt_int(brightness_relative_percent), tail1, "brightnessRelativeWeight"@);
            lemma_lookup_group_match("brightnessRelativeWeight"@, pv_opt_int(brightness_relative_weight), tail2);
            assert(spec_lookup(tail2, "brightnessRelativeWeight"@) is None);
        },
        _ => {},
    }
}

proof fn lemma_params_color_absolute(c: CommandV)
    requires
        c matches CommandV::ColorAbsolute { .. },
        spec_valid_command(c),
    ensures
        spec_decode_params(CommandKind::ColorAbsolute, spec_encode_params(c)) == Ok::<CommandV, DecodeError>(
            c,
        ),
{
    reveal_with_fuel(spec_lookup_field, 4);
    reveal_strlit("color");
    assert("color"@.len() == 5);
    match c {
        CommandV::ColorAbsolute { color } => {
            let tail1 = Seq::<(Seq<char>, ParamV)>::empty();
            let tail0 = color_g(color) + tail1;
            assert(spec_encode_params(c) == tail0);
            // field `color`
            lemma_lookup_group_match("color"@, Some(ParamV::Object(color_fields(color))), tail1);
            lemma_color_round_trip(color, tail1);
        },
        _ => {},
    }
}

proof fn lemma_params_cook(c: CommandV)
    requires
        c matches CommandV::Cook { .. },
        spec_valid_command(c),
    ensures
        spec_decode_params(CommandKind::Cook, spec_encode_params(c)) == Ok::<CommandV, DecodeError>(
            c,
        ),
{
    reveal_strlit("start");
    assert("start"@.len() == 5);
    reveal_strlit("cookingMode");
    assert("cookingMode"@.len() == 11);
    reveal_strlit("foodPreset");
    assert("foodPreset"@.len() == 10);
    reveal_strlit("quantity");
    assert("quantity"@.len() == 8);
    reveal_strlit("unit");
    assert("unit"@.len() == 4);
    match c {
        CommandV::Cook { start, cooking_mode, food_preset, quantity, unit } => {
            let tail5 = Seq::<(Seq<char>, ParamV)>::empty();
            let tail4 = opt_unit_g("unit"@, unit) + tail5;
            let tail3 = opt_int_g("quantity"@, quantity) + tail4;
            let tail2 = opt_str_g("foodPreset"@, food_preset) + tail3;
            let tail1 = opt_mode_g("cookingMode"@, cooking_mode) + tail2;
            let tail0 = req_bool_g("start"@, start) + tail1;
            assert(spec_encode_params(c) == tail0);
            // field `start`
            lemma_lookup_group_match("start"@, Some(ParamV::Scalar(ScalarV::Bool(start))), tail1);
            // field `cookingMode`
            lemma_lookup_group_skip("start"@, Some(ParamV::Scalar(ScalarV::Bool(start))), tail1, "cookingMode"@);
            lemma_lookup_group_match("cookingMode"@, pv_opt_mode(cooking_mode), tail2);
            lemma_lookup_group_skip("foodPreset"@, pv_opt_str(food_preset), tail3, "cookingMode"@);
            lemma_lookup_group_skip("quantity"@, pv_opt_int(quantity), tail4, "cookingMode"@);
            lemma_lookup_group_skip("unit"@, pv_opt_unit(unit), tail5, "cookingMode"@);
            assert(spec_lookup(tail5, "cookingMode"@) is None);
            match cooking_mode { Some(m) => lemma_mode_code_round_trip(m), None => {} }
            // field `foodPreset`
            lemma_lookup_group_skip("start"@, Some(ParamV::Scalar(ScalarV::Bool(start))), tail1, "foodPreset"@);
            lemma_lookup_group_skip("cookingMode"@, pv_opt_mode(cooking_mode), tail2, "foodPreset"@);
            lemma_lookup_group_match("foodPreset"@, pv_opt_str(food_preset), tail3);
            lemma_lookup_group_skip("quantity"@, pv_opt_int(quantity), tail4, "foodPreset"@);
            lemma_lookup_group_skip("unit"@, pv_opt_unit(unit), tail5, "foodPreset"@);
            assert(spec_lookup(tail5, "foodPreset"@) is None);
            // field `quantity`
            lemma_lookup_group_skip("start"@, Some(ParamV::Scalar(ScalarV::Bool(start))), tail1, "quantity"@);
            lemma_lookup_group_skip("cookingMode"@, pv_opt_mode(cooking_mode), tail2, "quantity"@);
            lemma_lookup_group_skip("foodPreset"@, pv_opt_str(food_preset), tail3, "quantity"@);
            lemma_lookup_group_match("quantity"@, pv_opt_int(quantity), tail4);
            lemma_lookup_group_skip("unit"@, pv_opt_unit(unit), tail5, "quantity"@);
            assert(spec_lookup(tail5, "quantity"@) is None);
            // field `unit`
            lemma_lookup_group_skip("start"@, Some(ParamV::Scalar(ScalarV::Bool(start))), tail1, "unit"@);
            lemma_lookup_group_skip("cookingMode"@, pv_opt_mode(cooking_mode), tail2, "unit"@);
            lemma_lookup_group_skip("foodPreset"@, pv_opt_str(food_preset), tail3, "unit"@);
            lemma_lookup_group_skip("quantity"@, pv_opt_int(quantity), tail4, "unit"@);
            lemma_lookup_group_match("unit"@, pv_opt_unit(unit), tail5);
            assert(spec_lookup(tail5, "unit"@) is None);
            match unit { Some(u) => lemma_unit_code_round_trip(u), None => {} }
        },
        _ => {},
    }
}

proof fn lemma_params_dispense(c: CommandV)
    requires
        c matches CommandV::Dispense { .. },
        spec_valid_command(c),
    ensures
        spec_decode_params(CommandKind::Dispense, spec_encode_params(c)) == Ok::<CommandV, DecodeError>(
            c,
        ),
{
    reveal_strlit("item");
    assert("item"@.len() == 4);
    reveal_strlit("amount");
    assert("amount"@.len() == 6);
    reveal_strlit("unit");
    assert("unit"@.len() == 4);
    reveal_strlit("presetName");
    assert("presetName"@.len() == 10);
    assert("item"@[0] == 'i' && "unit"@[0] == 'u');
    match c {
        CommandV::Dispense { item, amount, unit, preset_name } => {
            let tail4 = Seq::<(Seq<char>, ParamV)>::empty();
            let tail3 = opt_str_g("presetName"@, preset_name) + tail4;
            let tail2 = opt_unit_g("unit"@, unit) + tail3;
            let tail1 = opt_int_g("amount"@, amount) + tail2;
            let tail0 = opt_str_g("item"@, item) + tail1;
            assert(spec_encode_params(c) == tail0);
            // field `item`
            lemma_lookup_group_match("item"@, pv_opt_str(item), tail1);
            lemma_lookup_group_skip("amount"@, pv_opt_int(amount), tail2, "item"@);
            lemma_lookup_group_skip("unit"@, pv_opt_unit(unit), tail3, "item"@);
            lemma_lookup_group_skip("presetName"@, pv_opt_str(preset_name), tail4, "item"@);
            assert(spec_lookup(tail4, "item"@) is None);
            // field `amount`
            lemma_lookup_group_skip("item"@, pv_opt_str(item), tail1, "amount"@);
            lemma_lookup_group_match("amount"@, pv_opt_int(amount), tail2);
            lemma_lookup_group_skip("unit"@, pv_opt_unit(unit), tail3, "amount"@);
            lemma_lookup_group_skip("presetName"@, pv_opt_str(preset_name), tail4, "amount"@);
            assert(spec_lookup(tail4, "amount"@) is None);
            // field `unit`
            lemma_lookup_group_skip("item"@, pv_opt_str(item), tail1, "unit"@);
            lemma_lookup_group_skip("amount"@, pv_opt_int(amount), tail2, "unit"@);
            lemma_lookup_group_match("unit"@, pv_opt_unit(unit), tail3);
            lemma_lookup_group_skip("presetName"@, pv_opt_str(preset_name), tail4, "unit"@);
            assert(spec_lookup(tail4, "unit"@) is None);
            match unit { Some(u) => lemma_unit_code_round_trip(u), None => {} }
            // field `presetName`
            lemma_lookup_group_skip("item"@, pv_opt_str(item), tail1, "presetName"@);
            lemma_lookup_group_skip("amount"@, pv_opt_int(amount), tail2, "presetName"@);
            lemma_lookup_group_skip("unit"@, pv_opt_unit(unit), tail3, "presetName"@);
            lemma_lookup_group_match("presetName"@, pv_opt_str(preset_name), tail4);
            assert(spec_lookup(tail4, "presetName"@) is None);
        },
        _ => {},
    }
}

proof fn lemma_params_charge(c: CommandV)
    requires
        c matches CommandV::Charge { .. },
        spec_valid_command(c),
    ensures
        spec_decode_params(CommandKind::Charge, spec_encode_params(c)) == Ok::<CommandV, DecodeError>(
            c,
        ),
{
    reveal_strlit("charge");
    assert("charge"@.len() == 6);
    match c {
        CommandV::Charge { charge } => {
            let tail1 = Seq::<(Seq<char>, ParamV)>::empty();
            let tail0 = req_bool_g("charge"@, charge) + tail1;
            assert(spec_encode_params(c) == tail0);
            // field `charge`
            lemma_lookup_group_match("charge"@, Some(ParamV::Scalar(ScalarV::Bool(charge))), tail1);
        },
        _ => {},
    }
}

proof fn lemma_params_set_fan_speed(c: CommandV)
    requires
        c matches CommandV::SetFanSpeed { .. },
        spec_valid_command(c),
    ensures
        spec_decode_params(CommandKind::SetFanSpeed, spec_encode_params(c)) == Ok::<CommandV, DecodeError>(
            c,
        ),
{
    reveal_strlit("fanSpeed");
    assert("fanSpeed"@.len() == 8);
    reveal_strlit("fanSpeedPercent");
    assert("fanSpeedPercent"@.len() == 15);
    match c {
        CommandV::SetFanSpeed { fan_speed, fan_speed_percent } => {
            let tail2 = Seq::<(Seq<char>, ParamV)>::empty();
            let tail1 = opt_int_g("fanSpeedPercent"@, fan_speed_percent) + tail2;
            let tail0 = opt_str_g("fanSpeed"@, fan_speed) + tail1;
            assert(spec_encode_params(c) == tail0);
            // field `fanSpeed`
            lemma_lookup_group_match("fanSpeed"@, pv_opt_str(fan_speed), tail1);
            lemma_lookup_group_skip("fanSpeedPercent"@, pv_opt_int(fan_speed_percent), tail2, "fanSpeed"@);
            assert(spec_lookup(tail2, "fanSpeed"@) is None);
            // field `fanSpeedPercent`
            lemma_lookup_group_skip("fanSpeed"@, pv_opt_str(fan_speed), tail1, "fanSpeedPercent"@);
            lemma_lookup_group_match("fanSpeedPercent"@, pv_opt_int(fan_speed_percent), tail2);
            assert(spec_lookup(tail2, "fanSpeedPercent"@) is None);
        },
        _ => {},
    }
}

proof fn lemma_params_set_fan_speed_relative(c: CommandV)
    requires
        c matches CommandV::SetFanSpeedRelative { .. },
        spec_valid_command(c),
    ensures
        spec_decode_params(CommandKind::SetFanSpeedRelative, spec_encode_params(c)) == Ok::<CommandV, DecodeError>(
            c,
        ),
{
    reveal_strlit("fanSpeedRelativeWeight");
    assert("fanSpeedRelativeWeight"@.len() == 22);
    reveal_strlit("fanSpeedRelativePercent");
    assert("fanSpeedRelativePercent"@.len() == 23);
    match c {
        CommandV::SetFanSpeedRelative { fan_speed_relative_weight, fan_speed_relative_percent } => {
            let tail2 = Seq::<(Seq<char>, ParamV)>::empty();
            let tail1 = opt_int_g("fanSpeedRelativePercent"@, fan_speed_relative_percent) + tail2;
            let tail0 = opt_int_g("fanSpeedRelativeWeight"@, fan_speed_relative_weight) + tail1;
            assert(spec_encode_params(c) == tail0);
            // field `fanSpeedRelativeWeight`
            lemma_lookup_group_match("fanSpeedRelativeWeight"@, pv_opt_int(fan_speed_relative_weight), tail1);
            lemma_lookup_group_skip("fanSpeedRelativePercent"@, pv_opt_int(fan_speed_relative_percent), tail2, "fanSpeedRelativeWeight"@);
            assert(spec_lookup(tail2, "fanSpeedRelativeWeight"@) is None);
            // field `fanSpeedRelativePercent`
            lemma_lookup_group_skip("fanSpeedRelativeWeight"@, pv_opt_int(fan_speed_relative_weight), tail1, "fanSpeedRelativePercent"@);
            lemma_lookup_group_match("fanSpeedRelativePercent"@, pv_opt_int(fan_speed_relative_percent), tail2);
            assert(spec_lookup(tail2, "fanSpeedRelativePercent"@) is None);
        },
        _ => {},
    }
}

proof fn lemma_params_fill(c: CommandV)
    requires
        c matches CommandV::Fill { .. },
        spec_valid_command(c),
    ensures
        spec_decode_params(CommandKind::Fill, spec_encode_params(c)) == Ok::<CommandV, DecodeError>(
            c,
        ),
{
    reveal_strlit("fill");
    assert("fill"@.len() == 4);
    reveal_strlit("fillLevel");
    assert("fillLevel"@.len() == 9);
    reveal_strlit("fillPercent");
    assert("fillPercent"@.len() == 11);
    match c {
        CommandV::Fill { fill, fill_level, fill_percent } => {
            let tail3 = Seq::<(Seq<char>, ParamV)>::empty();
            let tail2 = opt_int_g("fillPercent"@, fill_percent) + tail3;
            let tail1 = opt_str_g("fillLevel"@, fill_level) + tail2;
            let tail0 = req_bool_g("fill"@, fill) + tail1;
            assert(spec_encode_params(c) == tail0);
            // field `fill`
            lemma_lookup_group_match("fill"@, Some(ParamV::Scalar(ScalarV::Bool(fill))), tail1);
            // field `fillLevel`
            lemma_lookup_group_skip("fill"@, Some(ParamV::Scalar(ScalarV::Bool(fill))), tail1, "fillLevel"@);
            lemma_lookup_group_match("fillLevel"@, pv_opt_str(fill_level), tail2);
            lemma_lookup_group_skip("fillPercent"@, pv_opt_int(fill_percent), tail3, "fillLevel"@);
            assert(spec_lookup(tail3, "fillLevel"@) is None);
            // field `fillPercent`
            lemma_lookup_group_skip("fill"@, Some(ParamV::Scalar(ScalarV::Bool(fill))), tail1, "fillPercent"@);
            lemma_lookup_group_skip("fillLevel"@, pv_opt_str(fill_level), tail2, "fillPercent"@);
            lemma_lookup_group_match("fillPercent"@, pv_opt_int(fill_percent), tail3);
            assert(spec_lookup(tail3, "fillPercent"@) is None);
        },
        _ => {},
    }
}

proof fn lemma_params_set_humidity(c: CommandV)
    requires
        c matches CommandV::SetHumidity { .. },
        spec_valid_command(c),
    ensures
        spec_decode_params(CommandKind::SetHumidity, spec_encode_params(c)) == Ok::<CommandV, DecodeError>(
            c,
        ),
{
    reveal_strlit("humidity");
    assert("humidity"@.len() == 8);
    match c {
        CommandV::SetHumidity { humidity } => {
            let tail1 = Seq::<(Seq<char>, ParamV)>::empty();
            let tail0 = req_int_g("humidity"@, humidity) + tail1;
            assert(spec_encode_params(c) == tail0);
            // field `humidity`
            lemma_lookup_group_match("humidity"@, Some(ParamV::Scalar(ScalarV::Int(humidity))), tail1);
        },
        _ => {},
    }
}

proof fn lemma_params_humidity_relative(c: CommandV)
    requires
        c matches CommandV::HumidityRelative { .. },
        spec_valid_command(c),
    ensures
        spec_decode_params(CommandKind::HumidityRelative, spec_encode_params(c)) == Ok::<CommandV, DecodeError>(
            c,
        ),
{
    reveal_strlit("humidityRelativePercent");
    assert("humidityRelativePercent"@.len() == 23);
    reveal_strlit("humidityRelativeWeight");
    assert("humidityRelativeWeight"@.len() == 22);
    match c {
        CommandV::HumidityRelative { humidity_relative_percent, humidity_relative_weight } => {
            let tail2 = Seq::<(Seq<char>, ParamV)>::empty();
            let tail1 = opt_int_g("humidityRelativeWeight"@, humidity_relative_weight) + tail2;
            let tail0 = opt_int_g("humidityRelativePercent"@, humidity_relative_percent) + tail1;
            assert(spec_encode_params(c) == tail0);
            // field `humidityRelativePercent`
            lemma_lookup_group_match("humidityRelativePercent"@, pv_opt_int(humidity_relative_percent), tail1);
            lemma_lookup_group_skip("humidityRelativeWeight"@, pv_opt_int(humidity_relative_weight), tail2, "humidityRelativePercent"@);
            assert(spec_lookup(tail2, "humidityRelativePercent"@) is None);
            // field `humidityRelativeWeight`
            lemma_lookup_group_skip("humidityRelativePercent"@, pv_opt_int(humidity_relative_percent), tail1, "humidityRelativeWeight"@);
            lemma_lookup_group_match("humidityRelativeWeight"@, pv_opt_int(humidity_relative_weight), tail2);
            assert(spec_lookup(tail2, "humidityRelativeWeight"@) is None);
        },
        _ => {},
    }
}

proof fn lemma_params_set_input(c: CommandV)
    requires
        c matches CommandV::SetInput { .. },
        spec_valid_command(c),
    ensures
        spec_decode_params(CommandKind::SetInput, spec_encode_params(c)) == Ok::<CommandV, DecodeError>(
            c,
        ),
{
    reveal_strlit("newInput");
    assert("newInput"@.len() == 8);
    match c {
        CommandV::SetInput { new_input } => {
            let tail1 = Seq::<(Seq<char>, ParamV)>::empty();
            let tail0 = req_str_g("newInput"@, new_input) + tail1;
            assert(spec_encode_params(c) == tail0);
            // field `newInput`
            lemma_lookup_group_match("newInput"@, Some(ParamV::Scalar(ScalarV::Str(new_input))), tail1);
        },
        _ => {},
    }
}

proof fn lemma_params_color_loop(c: CommandV)
    requires
        c matches CommandV::ColorLoop { .. },
        spec_valid_command(c),
    ensures
        spec_decode_params(CommandKind::ColorLoop, spec_encode_params(c)) == Ok::<CommandV, DecodeError>(
            c,
        ),
{
    reveal_strlit("duration");
    assert("duration"@.len() == 8);
    match c {
        CommandV::ColorLoop { duration } => {
            let tail1 = Seq::<(Seq<char>, ParamV)>::empty();
            let tail0 = req_int_g("duration"@, duration) + tail1;
            assert(spec_encode_params(c) == tail0);
            // field `duration`
            lemma_lookup_group_match("duration"@, Some(ParamV::Scalar(ScalarV::Int(duration))), tail1);
        },
        _ => {},
    }
}

proof fn lemma_params_sleep(c: CommandV)
    requires
        c matches CommandV::Sleep { .. },
        spec_valid_command(c),
    ensures
        spec_decode_params(CommandKind::Sleep, spec_encode_params(c)) == Ok::<CommandV, DecodeError>(
            c,
        ),
{
    reveal_strlit("duration");
    assert("duration"@.len() == 8);
    match c {
        CommandV::Sleep { duration } => {
            let tail1 = Seq::<(Seq<char>, ParamV)>::empty();
            let tail0 = req_int_g("duration"@, duration) + tail1;
            assert(spec_encode_params(c) == tail0);
            // field `duration`
            lemma_lookup_group_match("duration"@, Some(ParamV::Scalar(ScalarV::Int(duration))), tail1);
        },
        _ => {},
    }
}

proof fn lemma_params_wake(c: CommandV)
    requires
        c matches CommandV::Wake { .. },
        spec_valid_command(c),
    ensures
        spec_decode_params(CommandKind::Wake, spec_encode_params(c)) == Ok::<CommandV, DecodeError>(
            c,
        ),
{
    reveal_strlit("duration");
    assert("duration"@.len() == 8);
    match c {
        CommandV::Wake { duration } => {
            let tail1 = Seq::<(Seq<char>, ParamV)>::empty();
            let tail0 = req_int_g("duration"@, duration) + tail1;
            assert(spec_encode_params(c) == tail0);
            // field `duration`
            lemma_lookup_group_match("duration"@, Some(ParamV::Scalar(ScalarV::Int(duration))), tail1);
        },
        _ => {},
    }
}

proof fn lemma_params_locate(c: CommandV)
    requires
        c matches CommandV::Locate { .. },
        spec_valid_command(c),
    ensures
        spec_decode_params(CommandKind::Locate, spec_encode_params(c)) == Ok::<CommandV, DecodeError>(
            c,
        ),
{
    reveal_strlit("silence");
    assert("silence"@.len() == 7);
    reveal_strlit("lang");
    assert("lang"@.len() == 4);
    match c {
        CommandV::Locate { silence, lang } => {
            let tail2 = Seq::<(Seq<char>, ParamV)>::empty();
            let tail1 = req_str_g("lang"@, lang) + tail2;
            let tail0 = req_bool_g("silence"@, silence) + tail1;
            assert(spec_encode_params(c) == tail0);
            // field `silence`
            lemma_lookup_group_match("silence"@, Some(ParamV::Scalar(ScalarV::Bool(silence))), tail1);
            // field `lang`
            lemma_lookup_group_skip("silence"@, Some(ParamV::Scalar(ScalarV::Bool(silence))), tail1, "lang"@);
            lemma_lookup_group_match("lang"@, Some(ParamV::Scalar(ScalarV::Str(lang))), tail2);
        },
        _ => {},
    }
}

proof fn lemma_params_lock_unlock(c: CommandV)
    requires
        c matches CommandV::LockUnlock { .. },
        spec_valid_command(c),
    ensures
        spec_decode_params(CommandKind::LockUnlock, spec_encode_params(c)) == Ok::<CommandV, DecodeError>(
            c,
        ),
{
    reveal_strlit("lock");
    assert("lock"@.len() == 4);
    reveal_strlit("followUpToken");
    assert("followUpToken"@.len() == 13);
    match c {
        CommandV::LockUnlock { lock, follow_up_token } => {
            let tail2 = Seq::<(Seq<char>, ParamV)>::empty();
            let tail1 = opt_str_g("followUpToken"@, follow_up_token) + tail2;
            let tail0 = req_bool_g("lock"@, lock) + tail1;
            assert(spec_encode_params(c) == tail0);
            // field `lock`
            lemma_lookup_group_match("lock"@, Some(ParamV::Scalar(ScalarV::Bool(lock))), tail1);
            // field `followUpToken`
            lemma_lookup_group_skip("lock"@, Some(ParamV::Scalar(ScalarV::Bool(lock))), tail1, "followUpToken"@);
            lemma_lookup_group_match("followUpToken"@, pv_opt_str(follow_up_token), tail2);
            assert(spec_lookup(tail2, "followUpToken"@) is None);
        },
        _ => {},
    }
}

proof fn lemma_params_on_off(c: CommandV)
    requires
        c matches CommandV::OnOff { .. },
        spec_valid_command(c),
    ensures
        spec_decode_params(CommandKind::OnOff, spec_encode_params(c)) == Ok::<CommandV, DecodeError>(
            c,
        ),
{
    reveal_strlit("on");
    assert("on"@.len() == 2);
    match c {
        CommandV::OnOff { on } => {
            let tail1 = Seq::<(Seq<char>, ParamV)>::empty();
            let tail0 = req_bool_g("on"@, on) + tail1;
            assert(spec_encode_params(c) == tail0);
            // field `on`
            lemma_lookup_group_match("on"@, Some(ParamV::Scalar(ScalarV::Bool(on))), tail1);
        },
        _ => {},
    }
}

/// Decoding a canonically encoded command gives the command back exactly:
/// no required field, identifier or parameter value is lost or normalized.
pub proof fn lemma_command_round_trip(c: CommandV)
    requires
        spec_valid_command(c),
    ensures
        spec_decode_command(spec_encode_command(c)) == Ok::<CommandV, DecodeError>(c),
{
    lemma_tag_round_trip(spec_kind_of(c));
    match c {
        CommandV::ArmDisarm { .. } => lemma_params_arm_disarm(c),
        CommandV::BrightnessAbsolute { .. } => lemma_params_brightness_absolute(c),
        CommandV::BrightnessRelative { .. } => lemma_params_brightness_relative(c),
        CommandV::ColorAbsolute { .. } => lemma_params_color_absolute(c),
        CommandV::Cook { .. } => lemma_params_cook(c),
        CommandV::Dispense { .. } => lemma_params_dispense(c),
        CommandV::Dock => {},
        CommandV::Charge { .. } => lemma_params_charge(c),
        CommandV::SetFanSpeed { .. } => lemma_params_set_fan_speed(c),
        CommandV::SetFanSpeedRelative { .. } => lemma_params_set_fan_speed_relative(c),
        CommandV::Fill { .. } => lemma_params_fill(c),
        CommandV::SetHumidity { .. } => lemma_params_set_humidity(c),
        CommandV::HumidityRelative { .. } => lemma_params_humidity_relative(c),
        CommandV::SetInput { .. } => lemma_params_set_input(c),
        CommandV::NextInput => {},
        CommandV::PreviousInput => {},
        CommandV::ColorLoop { .. } => lemma_params_color_loop(c),
        CommandV::Sleep { .. } => lemma_params_sleep(c),
        CommandV::StopEffect => {},
        CommandV::Wake { .. } => lemma_params_wake(c),
        CommandV::Locate { .. } => lemma_params_locate(c),
        CommandV::LockUnlock { .. } => lemma_params_lock_unlock(c),
        CommandV::OnOff { .. } => lemma_params_on_off(c),
    }
}

/// Encode one command canonically: its exact wire identifier and all its
/// present parameters.
pub open spec fn spec_encode_command(c: CommandV) -> WireCommandV {
    WireCommandV { command: spec_tag_of(spec_kind_of(c)), params: spec_encode_params(c) }
}

/// Encode a batch: device references as they stand, commands canonically.
pub open spec fn spec_encode_batch(b: CommandBatchV) -> WireBatchV {
    WireBatchV {
        devices: b.devices,
        execution: b.execution.map_values(|c: CommandV| spec_encode_command(c)),
    }
}

/// Encode an input under the EXECUTE intent identifier.
pub open spec fn spec_encode_input(i: InputV) -> WireInputV {
    match i {
        InputV::Execute(bs) => WireInputV {
            intent: "action.devices.EXECUTE"@,
            commands: bs.map_values(|b: CommandBatchV| spec_encode_batch(b)),
        },
    }
}

/// Encode a whole request canonically.
pub open spec fn spec_encode_request(r: RequestV) -> WireRequestV {
    WireRequestV {
        request_id: r.request_id,
        inputs: r.inputs.map_values(|i: InputV| spec_encode_input(i)),
    }
}

/// Validity of a batch: every command's integers fit the wire range.
pub open spec fn spec_valid_batch(b: CommandBatchV) -> bool {
    forall|k: int| 0 <= k < b.execution.len() ==> spec_valid_command(#[trigger] b.execution[k])
}

/// Validity of an input: every batch valid.
pub open spec fn spec_valid_input(i: InputV) -> bool {
    match i {
        InputV::Execute(bs) => forall|k: int|
            0 <= k < bs.len() ==> spec_valid_batch(#[trigger] bs[k]),
    }
}

/// Validity of a request: at least one input, and every input valid. Every
/// decoded request is valid in this sense.
pub open spec fn spec_valid_request(r: RequestV) -> bool {
    r.inputs.len() > 0 && forall|k: int|
        0 <= k < r.inputs.len() ==> spec_valid_input(#[trigger] r.inputs[k])
}

proof fn lemma_commands_round_trip(cs: Seq<CommandV>)
    requires
        forall|k: int| 0 <= k < cs.len() ==> spec_valid_command(#[trigger] cs[k]),
    ensures
        spec_decode_commands(cs.map_values(|c: CommandV| spec_encode_command(c)))
            == Ok::<Seq<CommandV>, DecodeError>(cs),
    decreases cs.len(),
{
    let ws = cs.map_values(|c: CommandV| spec_encode_command(c));
    if cs.len() == 0 {
        assert(ws.len() == 0);
        assert(spec_decode_commands(ws) == Ok::<Seq<CommandV>, DecodeError>(Seq::empty()));
        assert(cs =~= Seq::<CommandV>::empty());
    } else {
        lemma_command_round_trip(cs[0]);
        assert(ws[0] == spec_encode_command(cs[0]));
        assert(ws.drop_first() =~= cs.drop_first().map_values(|c: CommandV| spec_encode_command(c)));
        assert(forall|k: int| 0 <= k < cs.drop_first().len() ==> spec_valid_command(
            #[trigger] cs.drop_first()[k],
        )) by {
            assert(forall|k: int| 0 <= k < cs.drop_first().len() ==> cs.drop_first()[k] == cs[k
                + 1]);
        }
        lemma_commands_round_trip(cs.drop_first());
        assert(seq![cs[0]] + cs.drop_first() =~= cs);
    }
}

proof fn lemma_batch_round_trip(b: CommandBatchV)
    requires
        spec_valid_batch(b),
    ensures
        spec_decode_batch(spec_encode_batch(b)) == Ok::<CommandBatchV, DecodeError>(b),
{
    lemma_commands_round_trip(b.execution);
}

proof fn lemma_batches_round_trip(bs: Seq<CommandBatchV>)
    requires
        forall|k: int| 0 <= k < bs.len() ==> spec_valid_batch(#[trigger] bs[k]),
    ensures
        spec_decode_batches(bs.map_values(|b: CommandBatchV| spec_encode_batch(b)))
            == Ok::<Seq<CommandBatchV>, DecodeError>(bs),
    decreases bs.len(),
{
    let ws = bs.map_values(|b: CommandBatchV| spec_encode_batch(b));
    if bs.len() == 0 {
        assert(bs =~= Seq::<CommandBatchV>::empty());
    } else {
        lemma_batch_round_trip(bs[0]);
        assert(ws[0] == spec_encode_batch(bs[0]));
        assert(ws.drop_first() =~= bs.drop_first().map_values(
            |b: CommandBatchV| spec_encode_batch(b),
        ));
        assert(forall|k: int| 0 <= k < bs.drop_first().len() ==> spec_valid_batch(
            #[trigger] bs.drop_first()[k],
        )) by {
            assert(forall|k: int| 0 <= k < bs.drop_first().len() ==> bs.drop_first()[k] == bs[k
                + 1]);
        }
        lemma_batches_round_trip(bs.drop_first());
        assert(seq![bs[0]] + bs.drop_first() =~= bs);
    }
}

proof fn lemma_input_round_trip(i: InputV)
    requires
        spec_valid_input(i),
    ensures
        spec_decode_input(spec_encode_input(i)) == Ok::<InputV, DecodeError>(i),
{
    match i {
        InputV::Execute(bs) => {
            lemma_batches_round_trip(bs);
        },
    }
}

proof fn lemma_inputs_round_trip(is: Seq<InputV>)
    requires
        forall|k: int| 0 <= k < is.len() ==> spec_valid_input(#[trigger] is[k]),
    ensures
        spec_decode_inputs(is.map_values(|i: InputV| spec_encode_input(i)))
            == Ok::<Seq<InputV>, DecodeError>(is),
    decreases is.len(),
{
    let ws = is.map_values(|i: InputV| spec_encode_input(i));
    if is.len() == 0 {
        assert(is =~= Seq::<InputV>::empty());
    } else {
        lemma_input_round_trip(is[0]);
        assert(ws[0] == spec_encode_input(is[0]));
        assert(ws.drop_first() =~= is.drop_first().map_values(|i: InputV| spec_encode_input(i)));
        assert(forall|k: int| 0 <= k < is.drop_first().len() ==> spec_valid_input(
            #[trigger] is.drop_first()[k],
        )) by {
            assert(forall|k: int| 0 <= k < is.drop_first().len() ==> is.drop_first()[k] == is[k
                + 1]);
        }
        lemma_inputs_round_trip(is.drop_first());
        assert(seq![is[0]] + is.drop_first() =~= is);
    }
}

/// Decoding a canonically encoded request gives the request back exactly:
/// the same request identifier, device identifiers, command identifiers and
/// parameter values, with nothing lost or normalized.
pub proof fn lemma_request_round_trip(r: RequestV)
    requires
        spec_valid_request(r),
    ensures
        spec_decode_request(spec_encode_request(r)) == Ok::<RequestV, DecodeError>(r),
{
    lemma_inputs_round_trip(r.inputs);
}

/// The abstract form of every executable command is valid: its integers are
/// 32-bit by construction.
pub proof fn lemma_command_view_valid(c: &CommandType)
    ensures
        spec_valid_command(c@),
{
    match c {
        CommandType::BrightnessRelative {
            brightness_relative_percent,
            brightness_relative_weight,
        } => {
            assert(opt_in_i32(view_opt_i32(brightness_relative_percent)));
            assert(opt_in_i32(view_opt_i32(brightness_relative_weight)));
        },
        CommandType::Cook { quantity, .. } => {
            assert(opt_in_i32(view_opt_i32(quantity)));
        },
        CommandType::Dispense { amount, .. } => {
            assert(opt_in_i32(view_opt_i32(amount)));
        },
        CommandType::SetFanSpeed { fan_speed_percent, .. } => {
            assert(opt_in_i32(view_opt_i32(fan_speed_percent)));
        },
        CommandType::SetFanSpeedRelative {
            fan_speed_relative_weight,
            fan_speed_relative_percent,
        } => {
            assert(opt_in_i32(view_opt_i32(fan_speed_relative_weight)));
            assert(opt_in_i32(view_opt_i32(fan_speed_relative_percent)));
        },
        CommandType::Fill { fill_percent, .. } => {
            assert(opt_in_i32(view_opt_i32(fill_percent)));
        },
        CommandType::HumidityRelative {
            humidity_relative_percent,
            humidity_relative_weight,
        } => {
            assert(opt_in_i32(view_opt_i32(humidity_relative_percent)));
            assert(opt_in_i32(view_opt_i32(humidity_relative_weight)));
        },
        _ => {},
    }
}

/// The abstract form of every executable request with at least one input is
/// valid, so by the round-trip law re-encoding and decoding any such request
/// reproduces it exactly.
pub proof fn lemma_request_view_valid(r: &Request)
    requires
        r.inputs@.len() > 0,
    ensures
        spec_valid_request(r@),
        spec_decode_request(spec_encode_request(r@)) == Ok::<RequestV, DecodeError>(r@),
{
    assert forall|k: int| 0 <= k < r@.inputs.len() implies spec_valid_input(
        #[trigger] r@.inputs[k],
    ) by {
        assert(r@.inputs[k] == r.inputs@[k]@);
        match r.inputs@[k] {
            Input::Execute(e) => {
                assert forall|a: int| 0 <= a < e@.len() implies spec_valid_batch(
                    #[trigger] e@[a],
                ) by {
                    assert(e@[a] == e.commands@[a]@);
                    let b = e.commands@[a];
                    assert forall|x: int| 0 <= x < b@.execution.len() implies spec_valid_command(
                        #[trigger] b@.execution[x],
                    ) by {
                        assert(b@.execution[x] == b.execution@[x]@);
                        lemma_command_view_valid(&b.execution@[x]);
                    }
                }
            },
        }
    }
    lemma_request_round_trip(r@);
}

/// An unknown command identifier always fails the decode with the
/// unknown-command error: no entry is ever silently dropped.
pub proof fn lemma_unknown_command_fails(c: WireCommandV)
    requires
        spec_kind_of_tag(c.command) is None,
    ensures
        spec_decode_command(c) == Err::<CommandV, DecodeError>(DecodeError::UnknownCommand),
{
}

/// An unknown intent identifier always fails the decode with the
/// unknown-intent error.
pub proof fn lemma_unknown_intent_fails(i: WireInputV)
    requires
        i.intent != "action.devices.EXECUTE"@,
    ensures
        spec_decode_input(i) == Err::<InputV, DecodeError>(DecodeError::UnknownIntent),
{
}

/// Omitted optional locate fields decode to their documented defaults:
/// `silence` to false, `lang` to "en".
pub proof fn lemma_locate_defaults(ps: Seq<(Seq<char>, ParamV)>)
    requires
        spec_lookup(ps, "silence"@) is None,
        spec_lookup(ps, "lang"@) is None,
    ensures
        spec_decode_params(CommandKind::Locate, ps) == Ok::<CommandV, DecodeError>(
            CommandV::Locate { silence: false, lang: "en"@ },
        ),
{
}

/// The kind of a decoded command.
pub fn command_kind_of(c: &CommandType) -> (k: CommandKind)
    ensures
        k == spec_kind_of(c@),
{
    match c {
        CommandType::ArmDisarm { .. } => CommandKind::ArmDisarm,
        CommandType::BrightnessAbsolute { .. } => CommandKind::BrightnessAbsolute,
        CommandType::BrightnessRelative { .. } => CommandKind::BrightnessRelative,
        CommandType::ColorAbsolute { .. } => CommandKind::ColorAbsolute,
        CommandType::Cook { .. } => CommandKind::Cook,
        CommandType::Dispense { .. } => CommandKind::Dispense,
        CommandType::Dock => CommandKind::Dock,
        CommandType::Charge { .. } => CommandKind::Charge,
        CommandType::SetFanSpeed { .. } => CommandKind::SetFanSpeed,
        CommandType::SetFanSpeedRelative { .. } => CommandKind::SetFanSpeedRelative,
        CommandType::Fill { .. } => CommandKind::Fill,
        CommandType::SetHumidity { .. } => CommandKind::SetHumidity,
        CommandType::HumidityRelative { .. } => CommandKind::HumidityRelative,
        CommandType::SetInput { .. } => CommandKind::SetInput,
        CommandType::NextInput => CommandKind::NextInput,
        CommandType::PreviousInput => CommandKind::PreviousInput,
        CommandType::ColorLoop { .. } => CommandKind::ColorLoop,
        CommandType::Sleep { .. } => CommandKind::Sleep,
        CommandType::StopEffect => CommandKind::StopEffect,
        CommandType::Wake { .. } => CommandKind::Wake,
        CommandType::Locate { .. } => CommandKind::Locate,
        CommandType::LockUnlock { .. } => CommandKind::LockUnlock,
        CommandType::OnOff { .. } => CommandKind::OnOff,
    }
}

fn encode_params_arm_disarm(c: &CommandType) -> (params: Vec<WireParam>)
    requires
        c@ matches CommandV::ArmDisarm { .. },
    ensures
        params_view(&params) == spec_encode_params(c@),
{
    match c {
        CommandType::ArmDisarm { follow_up_token, arm, cancel, arm_level } => {
            let mut params: Vec<WireParam> = Vec::new();
            proof {
                assert(params_view(&params) =~= Seq::<(Seq<char>, ParamV)>::empty());
            }
            match follow_up_token {
                Some(s) => params.push(WireParam {
                    name: "followUpToken".to_owned(),
                    value: ParamValue::Scalar(ScalarValue::Str(s.clone())),
                }),
                None => {},
            }
            proof {
                assert(params_view(&params) =~= opt_str_g("followUpToken"@, view_opt_string(follow_up_token)));
            }
            params.push(WireParam {
                name: "arm".to_owned(),
                value: ParamValue::Scalar(ScalarValue::Bool(*arm)),
            });
            proof {
                assert(params_view(&params) =~= opt_str_g("followUpToken"@, view_opt_string(follow_up_token)) + req_bool_g("arm"@, *arm));
            }
            match cancel {
                Some(b) => params.push(WireParam {
                    name: "cancel".to_owned(),
                    value: ParamValue::Scalar(ScalarValue::Bool(*b)),
                }),
                None => {},
            }
            proof {
                assert(params_view(&params) =~= opt_str_g("followUpToken"@, view_opt_string(follow_up_token)) + req_bool_g("arm"@, *arm) + opt_bool_g("cancel"@, *cancel));
            }
            match arm_level {
                Some(s) => params.push(WireParam {
                    name: "armLevel".to_owned(),
                    value: ParamValue::Scalar(ScalarValue::Str(s.clone())),
                }),
                None => {},
            }
            proof {
                assert(params_view(&params) =~= opt_str_g("followUpToken"@, view_opt_string(follow_up_token)) + req_bool_g("arm"@, *arm) + opt_bool_g("cancel"@, *cancel) + opt_str_g("armLevel"@, view_opt_string(arm_level)));
            }
            proof {
                assert(params_view(&params) =~= spec_encode_params(c@));
            }
            params
        },
        _ => {
            proof {
                assert(false);
            }
            Vec::new()
        },
    }
}

fn encode_params_brightness_absolute(c: &CommandType) -> (params: Vec<WireParam>)
    requires
        c@ matches CommandV::BrightnessAbsolute { .. },
    ensures
        params_view(&params) == spec_encode_params(c@),
{
    match c {
        CommandType::BrightnessAbsolute { brightness } => {
            let mut params: Vec<WireParam> = Vec::new();
            proof {
                assert(params_view(&params) =~= Seq::<(Seq<char>, ParamV)>::empty());
            }
            params.push(WireParam {
                name: "brightness".to_owned(),
                value: ParamValue::Scalar(ScalarValue::Int(*brightness as i64)),
            });
            proof {
                assert(params_view(&params) =~= req_int_g("brightness"@, *brightness as int));
            }
            proof {
                assert(params_view(&params) =~= spec_encode_params(c@));
            }
            params
        },
        _ => {
            proof {
                assert(false);
            }
            Vec::new()
        },
    }
}

fn encode_params_brightness_relative(c: &CommandType) -> (params: Vec<WireParam>)
    requires
        c@ matches CommandV::BrightnessRelative { .. },
    ensures
        params_view(&params) == spec_encode_params(c@),
{
    match c {
        CommandType::BrightnessRelative { brightness_relative_percent, brightness_relative_weight } => {
            let mut params: Vec<WireParam> = Vec::new();
            proof {
                assert(params_view(&params) =~= Seq::<(Seq<char>, ParamV)>::empty());
            }
            match brightness_relative_percent {
                Some(n) => params.push(WireParam {
                    name: "brightnessRelativePercent".to_owned(),
                    value: ParamValue::Scalar(ScalarValue::Int(*n as i64)),
                }),
                None => {},
            }
            proof {
                assert(params_view(&params) =~= opt_int_g("brightnessRelativePercent"@, view_opt_i32(brightness_relative_percent)));
            }
            match brightness_relative_weight {
                Some(n) => params.push(WireParam {
                    name: "brightnessRelativeWeight".to_owned(),
                    value: ParamValue::Scalar(ScalarValue::Int(*n as i64)),
                }),
                None => {},
            }
            proof {
                assert(params_view(&params) =~= opt_int_g("brightnessRelativePercent"@, view_opt_i32(brightness_relative_percent)) + opt_int_g("brightnessRelativeWeight"@, view_opt_i32(brightness_relative_weight)));
            }
            proof {
                assert(params_view(&params) =~= spec_encode_params(c@));
            }
            params
        },
        _ => {
            proof {
                assert(false);
            }
            Vec::new()
        },
    }
}

fn encode_params_color_absolute(c: &CommandType) -> (params: Vec<WireParam>)
    requires
        c@ matches CommandV::ColorAbsolute { .. },
    ensures
        params_view(&params) == spec_encode_params(c@),
{
    match c {
        CommandType::ColorAbsolute { color } => {
            let mut params: Vec<WireParam> = Vec::new();
            proof {
                assert(params_view(&params) =~= Seq::<(Seq<char>, ParamV)>::empty());
            }
            let mut cf: Vec<ObjectField> = Vec::new();
            match &color.name {
                Some(n) => cf.push(ObjectField {
                    name: "name".to_owned(),
                    value: ScalarValue::Str(n.clone()),
                }),
                None => {},
            }
            match &color.value {
                ColorValue::Temperature(t) => cf.push(ObjectField {
                    name: "temperature".to_owned(),
                    value: ScalarValue::Int(*t as i64),
                }),
                ColorValue::SpectrumRgb(v) => cf.push(ObjectField {
                    name: "spectrumRGB".to_owned(),
                    value: ScalarValue::Int(*v as i64),
                }),
            }
            proof {
                assert(fields_view(&cf) =~= color_fields(color@));
            }
            params.push(WireParam { name: "color".to_owned(), value: ParamValue::Object(cf) });
            proof {
                assert(params_view(&params) =~= color_g(color@));
            }
            proof {
                assert(params_view(&params) =~= spec_encode_params(c@));
            }
            params
        },
        _ => {
            proof {
                assert(false);
            }
            Vec::new()
        },
    }
}

fn encode_params_cook(c: &CommandType) -> (params: Vec<WireParam>)
    requires
        c@ matches CommandV::Cook { .. },
    ensures
        params_view(&params) == spec_encode_params(c@),
{
    match c {
        CommandType::Cook { start, cooking_mode, food_preset, quantity, unit } => {
            let mut params: Vec<WireParam> = Vec::new();
            proof {
                assert(params_view(&params) =~= Seq::<(Seq<char>, ParamV)>::empty());
            }
            params.push(WireParam {
                name: "start".to_owned(),
                value: ParamValue::Scalar(ScalarValue::Bool(*start)),
            });
            proof {
                assert(params_view(&params) =~= req_bool_g("start"@, *start));
            }
            match cooking_mode {
                Some(m) => params.push(WireParam {
                    name: "cookingMode".to_owned(),
                    value: ParamValue::Scalar(ScalarValue::Str(mode_code(*m))),
                }),
                None => {},
            }
            proof {
                assert(params_view(&params) =~= req_bool_g("start"@, *start) + opt_mode_g("cookingMode"@, *cooking_mode));
            }
            match food_preset {
                Some(s) => params.push(WireParam {
                    name: "foodPreset".to_owned(),
                    value: ParamValue::Scalar(ScalarValue::Str(s.clone())),
                }),
                None => {},
            }
            proof {
                assert(params_view(&params) =~= req_bool_g("start"@, *start) + opt_mode_g("cookingMode"@, *cooking_mode) + opt_str_g("foodPreset"@, view_opt_string(food_preset)));
            }
            match quantity {
                Some(n) => params.push(WireParam {
                    name: "quantity".to_owned(),
                    value: ParamValue::Scalar(ScalarValue::Int(*n as i64)),
                }),
                None => {},
            }
            proof {
                assert(params_view(&params) =~= req_bool_g("start"@, *start) + opt_mode_g("cookingMode"@, *cooking_mode) + opt_str_g("foodPreset"@, view_opt_string(food_preset)) + opt_int_g("quantity"@, view_opt_i32(quantity)));
            }
            match unit {
                Some(u) => params.push(WireParam {
                    name: "unit".to_owned(),
                    value: ParamValue::Scalar(ScalarValue::Str(unit_code(*u))),
                }),
                None => {},
            }
            proof {
                assert(params_view(&params) =~= req_bool_g("start"@, *start) + opt_mode_g("cookingMode"@, *cooking_mode) + opt_str_g("foodPreset"@, view_opt_string(food_preset)) + opt_int_g("quantity"@, view_opt_i32(quantity)) + opt_unit_g("unit"@, *unit));
            }
            proof {
                assert(params_view(&params) =~= spec_encode_params(c@));
            }
            params
        },
        _ => {
            proof {
                assert(false);
            }
            Vec::new()
        },
    }
}

fn encode_params_dispense(c: &CommandType) -> (params: Vec<WireParam>)
    requires
        c@ matches CommandV::Dispense { .. },
    ensures
        params_view(&params) == spec_encode_params(c@),
{
    match c {
        CommandType::Dispense { item, amount, unit, preset_name } => {
            let mut params: Vec<WireParam> = Vec::new();
            proof {
                assert(params_view(&params) =~= Seq::<(Seq<char>, ParamV)>::empty());
            }
            match item {
                Some(s) => params.push(WireParam {
                    name: "item".to_owned(),
                    value: ParamValue::Scalar(ScalarValue::Str(s.clone())),
                }),
                None => {},
            }
            proof {
                assert(params_view(&params) =~= opt_str_g("item"@, view_opt_string(item)));
            }
            match amount {
                Some(n) => params.push(WireParam {
                    name: "amount".to_owned(),
                    value: ParamValue::Scalar(ScalarValue::Int(*n as i64)),
                }),
                None => {},
            }
            proof {
                assert(params_view(&params) =~= opt_str_g("item"@, view_opt_string(item)) + opt_int_g("amount"@, view_opt_i32(amount)));
            }
            match unit {
                Some(u) => params.push(WireParam {
                    name: "unit".to_owned(),
                    value: ParamValue::Scalar(ScalarValue::Str(unit_code(*u))),
                }),
                None => {},
            }
            proof {
                assert(params_view(&params) =~= opt_str_g("item"@, view_opt_string(item)) + opt_int_g("amount"@, view_opt_i32(amount)) + opt_unit_g("unit"@, *unit));
            }
            match preset_name {
                Some(s) => params.push(WireParam {
                    name: "presetName".to_owned(),
                    value: ParamValue::Scalar(ScalarValue::Str(s.clone())),
                }),
                None => {},
            }
            proof {
                assert(params_view(&params) =~= opt_str_g("item"@, view_opt_string(item)) + opt_int_g("amount"@, view_opt_i32(amount)) + opt_unit_g("unit"@, *unit) + opt_str_g("presetName"@, view_opt_string(preset_name)));
            }
            proof {
                assert(params_view(&params) =~= spec_encode_params(c@));
            }
            params
        },
        _ => {
            proof {
                assert(false);
            }
            Vec::new()
        },
    }
}

fn encode_params_charge(c: &CommandType) -> (params: Vec<WireParam>)
    requires
        c@ matches CommandV::Charge { .. },
    ensures
        params_view(&params) == spec_encode_params(c@),
{
    match c {
        CommandType::Charge { charge } => {
            let mut params: Vec<WireParam> = Vec::new();
            proof {
                assert(params_view(&params) =~= Seq::<(Seq<char>, ParamV)>::empty());
            }
            params.push(WireParam {
                name: "charge".to_owned(),
                value: ParamValue::Scalar(ScalarValue::Bool(*charge)),
            });
            proof {
                assert(params_view(&params) =~= req_bool_g("charge"@, *charge));
            }
            proof {
                assert(params_view(&params) =~= spec_encode_params(c@));
            }
            params
        },
        _ => {
            proof {
                assert(false);
            }
            Vec::new()
        },
    }
}

fn encode_params_set_fan_speed(c: &CommandType) -> (params: Vec<WireParam>)
    requires
        c@ matches CommandV::SetFanSpeed { .. },
    ensures
        params_view(&params) == spec_encode_params(c@),
{
    match c {
        CommandType::SetFanSpeed { fan_speed, fan_speed_percent } => {
            let mut params: Vec<WireParam> = Vec::new();
            proof {
                assert(params_view(&params) =~= Seq::<(Seq<char>, ParamV)>::empty());
            }
            match fan_speed {
                Some(s) => params.push(WireParam {
                    name: "fanSpeed".to_owned(),
                    value: ParamValue::Scalar(ScalarValue::Str(s.clone())),
                }),
                None => {},
            }
            proof {
                assert(params_view(&params) =~= opt_str_g("fanSpeed"@, view_opt_string(fan_speed)));
            }
            match fan_speed_percent {
                Some(n) => params.push(WireParam {
                    name: "fanSpeedPercent".to_owned(),
                    value: ParamValue::Scalar(ScalarValue::Int(*n as i64)),
                }),
                None => {},
            }
            proof {
                assert(params_view(&params) =~= opt_str_g("fanSpeed"@, view_opt_string(fan_speed)) + opt_int_g("fanSpeedPercent"@, view_opt_i32(fan_speed_percent)));
            }
            proof {
                assert(params_view(&params) =~= spec_encode_params(c@));
            }
            params
        },
        _ => {
            proof {
                assert(false);
            }
            Vec::new()
        },
    }
}

fn encode_params_set_fan_speed_relative(c: &CommandType) -> (params: Vec<WireParam>)
    requires
        c@ matches CommandV::SetFanSpeedRelative { .. },
    ensures
        params_view(&params) == spec_encode_params(c@),
{
    match c {
        CommandType::SetFanSpeedRelative { fan_speed_relative_weight, fan_speed_relative_percent } => {
            let mut params: Vec<WireParam> = Vec::new();
            proof {
                assert(params_view(&params) =~= Seq::<(Seq<char>, ParamV)>::empty());
            }
            match fan_speed_relative_weight {
                Some(n) => params.push(WireParam {
                    name: "fanSpeedRelativeWeight".to_owned(),
                    value: ParamValue::Scalar(ScalarValue::Int(*n as i64)),
                }),
                None => {},
            }
            proof {
                assert(params_view(&params) =~= opt_int_g("fanSpeedRelativeWeight"@, view_opt_i32(fan_speed_relative_weight)));
            }
            match fan_speed_relative_percent {
                Some(n) => params.push(WireParam {
                    name: "fanSpeedRelativePercent".to_owned(),
                    value: ParamValue::Scalar(ScalarValue::Int(*n as i64)),
                }),
                None => {},
            }
            proof {
                assert(params_view(&params) =~= opt_int_g("fanSpeedRelativeWeight"@, view_opt_i32(fan_speed_relative_weight)) + opt_int_g("fanSpeedRelativePercent"@, view_opt_i32(fan_speed_relative_percent)));
            }
            proof {
                assert(params_view(&params) =~= spec_encode_params(c@));
            }
            params
        },
        _ => {
            proof {
                assert(false);
            }
            Vec::new()
        },
    }
}

fn encode_params_fill(c: &CommandType) -> (params: Vec<WireParam>)
    requires
        c@ matches CommandV::Fill { .. },
    ensures
        params_view(&params) == spec_encode_params(c@),
{
    match c {
        CommandType::Fill { fill, fill_level, fill_percent } => {
            let mut params: Vec<WireParam> = Vec::new();
            proof {
                assert(params_view(&params) =~= Seq::<(Seq<char>, ParamV)>::empty());
            }
            params.push(WireParam {
                name: "fill".to_owned(),
                value: ParamValue::Scalar(ScalarValue::Bool(*fill)),
            });
            proof {
                assert(params_view(&params) =~= req_bool_g("fill"@, *fill));
            }
            match fill_level {
                Some(s) => params.push(WireParam {
                    name: "fillLevel".to_owned(),
                    value: ParamValue::Scalar(ScalarValue::Str(s.clone())),
                }),
                None => {},
            }
            proof {
                assert(params_view(&params) =~= req_bool_g("fill"@, *fill) + opt_str_g("fillLevel"@, view_opt_string(fill_level)));
            }
            match fill_percent {
                Some(n) => params.push(WireParam {
                    name: "fillPercent".to_owned(),
                    value: ParamValue::Scalar(ScalarValue::Int(*n as i64)),
                }),
                None => {},
            }
            proof {
                assert(params_view(&params) =~= req_bool_g("fill"@, *fill) + opt_str_g("fillLevel"@, view_opt_string(fill_level)) + opt_int_g("fillPercent"@, view_opt_i32(fill_percent)));
            }
            proof {
                assert(params_view(&params) =~= spec_encode_params(c@));
            }
            params
        },
        _ => {
            proof {
                assert(false);
            }
            Vec::new()
        },
    }
}

fn encode_params_set_humidity(c: &CommandType) -> (params: Vec<WireParam>)
    requires
        c@ matches CommandV::SetHumidity { .. },
    ensures
        params_view(&params) == spec_encode_params(c@),
{
    match c {
        CommandType::SetHumidity { humidity } => {
            let mut params: Vec<WireParam> = Vec::new();
            proof {
                assert(params_view(&params) =~= Seq::<(Seq<char>, ParamV)>::empty());
            }
            params.push(WireParam {
                name: "humidity".to_owned(),
                value: ParamValue::Scalar(ScalarValue::Int(*humidity as i64)),
            });
            proof {
                assert(params_view(&params) =~= req_int_g("humidity"@, *humidity as int));
            }
            proof {
                assert(params_view(&params) =~= spec_encode_params(c@));
            }
            params
        },
        _ => {
            proof {
                assert(false);
            }
            Vec::new()
        },
    }
}

fn encode_params_humidity_relative(c: &CommandType) -> (params: Vec<WireParam>)
    requires
        c@ matches CommandV::HumidityRelative { .. },
    ensures
        params_view(&params) == spec_encode_params(c@),
{
    match c {
        CommandType::HumidityRelative { humidity_relative_percent, humidity_relative_weight } => {
            let mut params: Vec<WireParam> = Vec::new();
            proof {
                assert(params_view(&params) =~= Seq::<(Seq<char>, ParamV)>::empty());
            }
            match humidity_relative_percent {
                Some(n) => params.push(WireParam {
                    name: "humidityRelativePercent".to_owned(),
                    value: ParamValue::Scalar(ScalarValue::Int(*n as i64)),
                }),
                None => {},
            }
            proof {
                assert(params_view(&params) =~= opt_int_g("humidityRelativePercent"@, view_opt_i32(humidity_relative_percent)));
            }
            match humidity_relative_weight {
                Some(n) => params.push(WireParam {
                    name: "humidityRelativeWeight".to_owned(),
                    value: ParamValue::Scalar(ScalarValue::Int(*n as i64)),
                }),
                None => {},
            }
            proof {
                assert(params_view(&params) =~= opt_int_g("humidityRelativePercent"@, view_opt_i32(humidity_relative_percent)) + opt_int_g("humidityRelativeWeight"@, view_opt_i32(humidity_relative_weight)));
            }
            proof {
                assert(params_view(&params) =~= spec_encode_params(c@));
            }
            params
        },
        _ => {
            proof {
                assert(false);
            }
            Vec::new()
        },
    }
}

fn encode_params_set_input(c: &CommandType) -> (params: Vec<WireParam>)
    requires
        c@ matches CommandV::SetInput { .. },
    ensures
        params_view(&params) == spec_encode_params(c@),
{
    match c {
        CommandType::SetInput { new_input } => {
            let mut params: Vec<WireParam> = Vec::new();
            proof {
                assert(params_view(&params) =~= Seq::<(Seq<char>, ParamV)>::empty());
            }
            params.push(WireParam {
                name: "newInput".to_owned(),
                value: ParamValue::Scalar(ScalarValue::Str(new_input.clone())),
            });
            proof {
                assert(params_view(&params) =~= req_str_g("newInput"@, new_input@));
            }
            proof {
                assert(params_view(&params) =~= spec_encode_params(c@));
            }
            params
        },
        _ => {
            proof {
                assert(false);
            }
            Vec::new()
        },
    }
}

fn encode_params_color_loop(c: &CommandType) -> (params: Vec<WireParam>)
    requires
        c@ matches CommandV::ColorLoop { .. },
    ensures
        params_view(&params) == spec_encode_params(c@),
{
    match c {
        CommandType::ColorLoop { duration } => {
            let mut params: Vec<WireParam> = Vec::new();
            proof {
                assert(params_view(&params) =~= Seq::<(Seq<char>, ParamV)>::empty());
            }
            params.push(WireParam {
                name: "duration".to_owned(),
                value: ParamValue::Scalar(ScalarValue::Int(*duration as i64)),
            });
            proof {
                assert(params_view(&params) =~= req_int_g("duration"@, *duration as int));
            }
            proof {
                assert(params_view(&params) =~= spec_encode_params(c@));
            }
            params
        },
        _ => {
            proof {
                assert(false);
            }
            Vec::new()
        },
    }
}

fn encode_params_sleep(c: &CommandType) -> (params: Vec<WireParam>)
    requires
        c@ matches CommandV::Sleep { .. },
    ensures
        params_view(&params) == spec_encode_params(c@),
{
    match c {
        CommandType::Sleep { duration } => {
            let mut params: Vec<WireParam> = Vec::new();
            proof {
                assert(params_view(&params) =~= Seq::<(Seq<char>, ParamV)>::empty());
            }
            params.push(WireParam {
                name: "duration".to_owned(),
                value: ParamValue::Scalar(ScalarValue::Int(*duration as i64)),
            });
            proof {
                assert(params_view(&params) =~= req_int_g("duration"@, *duration as int));
            }
            proof {
                assert(params_view(&params) =~= spec_encode_params(c@));
            }
            params
        },
        _ => {
            proof {
                assert(false);
            }
            Vec::new()
        },
    }
}

fn encode_params_wake(c: &CommandType) -> (params: Vec<WireParam>)
    requires
        c@ matches CommandV::Wake { .. },
    ensures
        params_view(&params) == spec_encode_params(c@),
{
    match c {
        CommandType::Wake { duration } => {
            let mut params: Vec<WireParam> = Vec::new();
            proof {
                assert(params_view(&params) =~= Seq::<(Seq<char>, ParamV)>::empty());
            }
            params.push(WireParam {
                name: "duration".to_owned(),
                value: ParamValue::Scalar(ScalarValue::Int(*duration as i64)),
            });
            proof {
                assert(params_view(&params) =~= req_int_g("duration"@, *duration as int));
            }
            proof {
                assert(params_view(&params) =~= spec_encode_params(c@));
            }
            params
        },
        _ => {
            proof {
                assert(false);
            }
            Vec::new()
        },
    }
}

fn encode_params_locate(c: &CommandType) -> (params: Vec<WireParam>)
    requires
        c@ matches CommandV::Locate { .. },
    ensures
        params_view(&params) == spec_encode_params(c@),
{
    match c {
        CommandType::Locate { silence, lang } => {
            let mut params: Vec<WireParam> = Vec::new();
            proof {
                assert(params_view(&params) =~= Seq::<(Seq<char>, ParamV)>::empty());
            }
            params.push(WireParam {
                name: "silence".to_owned(),
                value: ParamValue::Scalar(ScalarValue::Bool(*silence)),
            });
            proof {
                assert(params_view(&params) =~= req_bool_g("silence"@, *silence));
            }
            params.push(WireParam {
                name: "lang".to_owned(),
                value: ParamValue::Scalar(ScalarValue::Str(lang.clone())),
            });
            proof {
                assert(params_view(&params) =~= req_bool_g("silence"@, *silence) + req_str_g("lang"@, lang@));
            }
            proof {
                assert(params_view(&params) =~= spec_encode_params(c@));
            }
            params
        },
        _ => {
            proof {
                assert(false);
            }
            Vec::new()
        },
    }
}

fn encode_params_lock_unlock(c: &CommandType) -> (params: Vec<WireParam>)
    requires
        c@ matches CommandV::LockUnlock { .. },
    ensures
        params_view(&params) == spec_encode_params(c@),
{
    match c {
        CommandType::LockUnlock { lock, follow_up_token } => {
            let mut params: Vec<WireParam> = Vec::new();
            proof {
                assert(params_view(&params) =~= Seq::<(Seq<char>, ParamV)>::empty());
            }
            params.push(WireParam {
                name: "lock".to_owned(),
                value: ParamValue::Scalar(ScalarValue::Bool(*lock)),
            });
            proof {
                assert(params_view(&params) =~= req_bool_g("lock"@, *lock));
            }
            match follow_up_token {
                Some(s) => params.push(WireParam {
                    name: "followUpToken".to_owned(),
                    value: ParamValue::Scalar(ScalarValue::Str(s.clone())),
                }),
                None => {},
            }
            proof {
                assert(params_view(&params) =~= req_bool_g("lock"@, *lock) + opt_str_g("followUpToken"@, view_opt_string(follow_up_token)));
            }
            proof {
                assert(params_view(&params) =~= spec_encode_params(c@));
            }
            params
        },
        _ => {
            proof {
                assert(false);
            }
            Vec::new()
        },
    }
}

fn encode_params_on_off(c: &CommandType) -> (params: Vec<WireParam>)
    requires
        c@ matches CommandV::OnOff { .. },
    ensures
        params_view(&params) == spec_encode_params(c@),
{
    match c {
        CommandType::OnOff { on } => {
            let mut params: Vec<WireParam> = Vec::new();
            proof {
                assert(params_view(&params) =~= Seq::<(Seq<char>, ParamV)>::empty());
            }
            params.push(WireParam {
                name: "on".to_owned(),
                value: ParamValue::Scalar(ScalarValue::Bool(*on)),
            });
            proof {
                assert(params_view(&params) =~= req_bool_g("on"@, *on));
            }
            proof {
                assert(params_view(&params) =~= spec_encode_params(c@));
            }
            params
        },
        _ => {
            proof {
                assert(false);
            }
            Vec::new()
        },
    }
}

/// Encode the parameters of one command canonically.
pub fn encode_params(c: &CommandType) -> (params: Vec<WireParam>)
    ensures
        params_view(&params) == spec_encode_params(c@),
{
    match c {
        CommandType::ArmDisarm { .. } => encode_params_arm_disarm(c),
        CommandType::BrightnessAbsolute { .. } => encode_params_brightness_absolute(c),
        CommandType::BrightnessRelative { .. } => encode_params_brightness_relative(c),
        CommandType::ColorAbsolute { .. } => encode_params_color_absolute(c),
        CommandType::Cook { .. } => encode_params_cook(c),
        CommandType::Dispense { .. } => encode_params_dispense(c),
        CommandType::Dock => {
            let params: Vec<WireParam> = Vec::new();
            proof {
                assert(params_view(&params) =~= spec_encode_params(c@));
            }
            params
        },
        CommandType::Charge { .. } => encode_params_charge(c),
        CommandType::SetFanSpeed { .. } => encode_params_set_fan_speed(c),
        CommandType::SetFanSpeedRelative { .. } => encode_params_set_fan_speed_relative(c),
        CommandType::Fill { .. } => encode_params_fill(c),
        CommandType::SetHumidity { .. } => encode_params_set_humidity(c),
        CommandType::HumidityRelative { .. } => encode_params_humidity_relative(c),
        CommandType::SetInput { .. } => encode_params_set_input(c),
        CommandType::NextInput => {
            let params: Vec<WireParam> = Vec::new();
            proof {
                assert(params_view(&params) =~= spec_encode_params(c@));
            }
            params
        },
        CommandType::PreviousInput => {
            let params: Vec<WireParam> = Vec::new();
            proof {
                assert(params_view(&params) =~= spec_encode_params(c@));
            }
            params
        },
        CommandType::ColorLoop { .. } => encode_params_color_loop(c),
        CommandType::Sleep { .. } => encode_params_sleep(c),
        CommandType::StopEffect => {
            let params: Vec<WireParam> = Vec::new();
            proof {
                assert(params_view(&params) =~= spec_encode_params(c@));
            }
            params
        },
        CommandType::Wake { .. } => encode_params_wake(c),
        CommandType::Locate { .. } => encode_params_locate(c),
        CommandType::LockUnlock { .. } => encode_params_lock_unlock(c),
        CommandType::OnOff { .. } => encode_params_on_off(c),
    }
}

/// Encode one command canonically: its exact wire identifier and all its
/// present parameters, optional fields included exactly when present.
pub fn encode_command(c: &CommandType) -> (w: WireCommand)
    ensures
        w@ == spec_encode_command(c@),
{
    let k = command_kind_of(c);
    let params = encode_params(c);
    let w = WireCommand { command: tag_of(k), params };
    proof {
        assert(w@.params =~= spec_encode_params(c@));
    }
    w
}

/// Encode one batch canonically.
pub fn encode_batch(b: &Command) -> (w: WireBatch)
    ensures
        w@ == spec_encode_batch(b@),
{
    let mut devices: Vec<WireDevice> = Vec::new();
    proof {
        assert(devices@.map_values(|d: WireDevice| d@) =~= b@.devices.take(0));
    }
    let mut i: usize = 0;
    while i < b.devices.len()
        invariant
            0 <= i <= b.devices.len(),
            b@.devices.len() == b.devices.len(),
            devices@.map_values(|d: WireDevice| d@) == b@.devices.take(i as int),
        decreases b.devices.len() - i,
    {
        let ghost old_devs = devices@;
        devices.push(WireDevice { id: b.devices[i].id.clone() });
        proof {
            assert(b@.devices[i as int] == b.devices@[i as int]@);
            assert(devices@.map_values(|d: WireDevice| d@) =~= old_devs.map_values(
                |d: WireDevice| d@,
            ).push(b@.devices[i as int]));
            assert(b@.devices.take(i as int + 1) =~= b@.devices.take(i as int).push(
                b@.devices[i as int],
            ));
        }
        i = i + 1;
    }
    proof {
        assert(b@.devices.take(b.devices.len() as int) =~= b@.devices);
    }
    let ghost target = b@.execution.map_values(|c: CommandV| spec_encode_command(c));
    let mut execution: Vec<WireCommand> = Vec::new();
    proof {
        assert(execution@.map_values(|c: WireCommand| c@) =~= target.take(0));
    }
    let mut j: usize = 0;
    while j < b.execution.len()
        invariant
            0 <= j <= b.execution.len(),
            target == b@.execution.map_values(|c: CommandV| spec_encode_command(c)),
            target.len() == b.execution.len(),
            execution@.map_values(|c: WireCommand| c@) == target.take(j as int),
        decreases b.execution.len() - j,
    {
        let ghost old_exec = execution@;
        let wc = encode_command(&b.execution[j]);
        execution.push(wc);
        proof {
            assert(b@.execution[j as int] == b.execution@[j as int]@);
            assert(target[j as int] == spec_encode_command(b@.execution[j as int]));
            assert(execution@.map_values(|c: WireCommand| c@) =~= old_exec.map_values(
                |c: WireCommand| c@,
            ).push(wc@));
            assert(target.take(j as int + 1) =~= target.take(j as int).push(target[j as int]));
        }
        j = j + 1;
    }
    proof {
        assert(target.take(b.execution.len() as int) =~= target);
    }
    let w = WireBatch { devices, execution };
    proof {
        assert(w@.devices =~= b@.devices);
        assert(w@.execution =~= target);
    }
    w
}

/// Encode one input under the EXECUTE intent identifier.
pub fn encode_input(i: &Input) -> (w: WireInput)
    ensures
        w@ == spec_encode_input(i@),
{
    match i {
        Input::Execute(e) => {
            let ghost target = (match i@ {
                InputV::Execute(bs) => bs,
            }).map_values(|b: CommandBatchV| spec_encode_batch(b));
            let mut commands: Vec<WireBatch> = Vec::new();
            proof {
                assert(commands@.map_values(|b: WireBatch| b@) =~= target.take(0));
            }
            let mut j: usize = 0;
            while j < e.commands.len()
                invariant
                    0 <= j <= e.commands.len(),
                    target == e.commands@.map_values(|c: Command| c@).map_values(
                        |b: CommandBatchV| spec_encode_batch(b),
                    ),
                    target.len() == e.commands.len(),
                    commands@.map_values(|b: WireBatch| b@) == target.take(j as int),
                decreases e.commands.len() - j,
            {
                let ghost old_cmds = commands@;
                let wb = encode_batch(&e.commands[j]);
                commands.push(wb);
                proof {
                    assert(target[j as int] == spec_encode_batch(e.commands@[j as int]@));
                    assert(commands@.map_values(|b: WireBatch| b@) =~= old_cmds.map_values(
                        |b: WireBatch| b@,
                    ).push(wb@));
                    assert(target.take(j as int + 1) =~= target.take(j as int).push(
                        target[j as int],
                    ));
                }
                j = j + 1;
            }
            proof {
                assert(target.take(e.commands.len() as int) =~= target);
            }
            let w = WireInput {
                intent: "action.devices.EXECUTE".to_owned(),
                commands,
            };
            proof {
                assert(w@.commands =~= target);
            }
            w
        },
    }
}

/// Encode a whole request canonically: decoding the result gives the request
/// back exactly.
pub fn encode_request(r: &Request) -> (w: WireRequest)
    ensures
        w@ == spec_encode_request(r@),
{
    let ghost target = r@.inputs.map_values(|i: InputV| spec_encode_input(i));
    let mut inputs: Vec<WireInput> = Vec::new();
    proof {
        assert(inputs@.map_values(|i: WireInput| i@) =~= target.take(0));
    }
    let mut j: usize = 0;
    while j < r.inputs.len()
        invariant
            0 <= j <= r.inputs.len(),
            target == r@.inputs.map_values(|i: InputV| spec_encode_input(i)),
            target.len() == r.inputs.len(),
            inputs@.map_values(|i: WireInput| i@) == target.take(j as int),
        decreases r.inputs.len() - j,
    {
        let ghost old_inputs = inputs@;
        let wi = encode_input(&r.inputs[j]);
        inputs.push(wi);
        proof {
            assert(r@.inputs[j as int] == r.inputs@[j as int]@);
            assert(target[j as int] == spec_encode_input(r@.inputs[j as int]));
            assert(inputs@.map_values(|i: WireInput| i@) =~= old_inputs.map_values(
                |i: WireInput| i@,
            ).push(wi@));
            assert(target.take(j as int + 1) =~= target.take(j as int).push(target[j as int]));
        }
        j = j + 1;
    }
    proof {
        assert(target.take(r.inputs.len() as int) =~= target);
    }
    let w = WireRequest { request_id: r.request_id.clone(), inputs };
    proof {
        assert(w@.inputs =~= target);
    }
    w
}

} // verus!
