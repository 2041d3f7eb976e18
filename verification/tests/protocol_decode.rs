use smarthome::decode::decode_command;
use smarthome::decode::decode_input;
use smarthome::decode::decode_request;
use smarthome::decode::DecodeError;
use smarthome::encode::encode_command;
use smarthome::encode::encode_request;
use smarthome::fulfillment::execute::Command;
use smarthome::fulfillment::execute::CommandType;
use smarthome::fulfillment::execute::ColorCommand;
use smarthome::fulfillment::execute::ColorValue;
use smarthome::fulfillment::execute::CookingMode;
use smarthome::fulfillment::execute::Device;
use smarthome::fulfillment::execute::Execute;
use smarthome::fulfillment::request::Input;
use smarthome::fulfillment::request::Request;
use smarthome::traits::SizeUnit;
use smarthome::wire::ObjectField;
use smarthome::wire::ParamValue;
use smarthome::wire::ScalarValue;
use smarthome::wire::WireBatch;
use smarthome::wire::WireCommand;
use smarthome::wire::WireDevice;
use smarthome::wire::WireInput;
use smarthome::wire::WireParam;
use smarthome::wire::WireRequest;

fn bparam(name: &str, b: bool) -> WireParam {
    WireParam { name: name.to_string(), value: ParamValue::Scalar(ScalarValue::Bool(b)) }
}

fn iparam(name: &str, n: i64) -> WireParam {
    WireParam { name: name.to_string(), value: ParamValue::Scalar(ScalarValue::Int(n)) }
}

fn sparam(name: &str, s: &str) -> WireParam {
    WireParam {
        name: name.to_string(),
        value: ParamValue::Scalar(ScalarValue::Str(s.to_string())),
    }
}

fn wire_cmd(tag: &str, params: Vec<WireParam>) -> WireCommand {
    WireCommand { command: tag.to_string(), params }
}

#[test]
fn test_decode_on_off() {
    let c = wire_cmd("action.devices.commands.OnOff", vec![bparam("on", true)]);
    assert_eq!(decode_command(&c), Ok(CommandType::OnOff { on: true }));
}

#[test]
fn test_unknown_command_is_error() {
    let c = wire_cmd("action.devices.commands.Frobnicate", vec![]);
    assert_eq!(decode_command(&c), Err(DecodeError::UnknownCommand));
}

#[test]
fn test_unknown_intent_is_error() {
    let i = WireInput { intent: "action.devices.QUERY".to_string(), commands: vec![] };
    assert_eq!(decode_input(&i), Err(DecodeError::UnknownIntent));
}

#[test]
fn test_wake_keeps_legacy_identifier() {
    let legacy = wire_cmd("actin.devices.commands.Wake", vec![iparam("duration", 5)]);
    assert_eq!(decode_command(&legacy), Ok(CommandType::Wake { duration: 5 }));
    let corrected = wire_cmd("action.devices.commands.Wake", vec![iparam("duration", 5)]);
    assert_eq!(decode_command(&corrected), Err(DecodeError::UnknownCommand));
}

#[test]
fn test_locate_defaults() {
    let c = wire_cmd("action.devices.commands.Locate", vec![]);
    assert_eq!(
        decode_command(&c),
        Ok(CommandType::Locate { silence: false, lang: "en".to_string() })
    );
}

#[test]
fn test_locate_explicit_fields() {
    let c = wire_cmd(
        "action.devices.commands.Locate",
        vec![bparam("silence", true), sparam("lang", "de")],
    );
    assert_eq!(
        decode_command(&c),
        Ok(CommandType::Locate { silence: true, lang: "de".to_string() })
    );
}

#[test]
fn test_missing_required_field() {
    let c = wire_cmd("action.devices.commands.OnOff", vec![]);
    assert_eq!(decode_command(&c), Err(DecodeError::MissingField));
}

#[test]
fn test_type_mismatch_string_for_bool() {
    let c = wire_cmd("action.devices.commands.OnOff", vec![sparam("on", "yes")]);
    assert_eq!(decode_command(&c), Err(DecodeError::TypeMismatch));
}

#[test]
fn test_int_out_of_range_is_type_mismatch() {
    let c = wire_cmd(
        "action.devices.commands.BrightnessAbsolute",
        vec![iparam("brightness", 3_000_000_000)],
    );
    assert_eq!(decode_command(&c), Err(DecodeError::TypeMismatch));
}

#[test]
fn test_unknown_unit_is_type_mismatch() {
    let c = wire_cmd(
        "action.devices.commands.Cook",
        vec![bparam("start", true), sparam("unit", "SMIDGENS")],
    );
    assert_eq!(decode_command(&c), Err(DecodeError::TypeMismatch));
}

#[test]
fn test_decode_cook_params() {
    let c = wire_cmd(
        "action.devices.commands.Cook",
        vec![
            bparam("start", true),
            sparam("cookingMode", "BAKE"),
            sparam("foodPreset", "white_rice"),
            iparam("quantity", 2),
            sparam("unit", "CUPS"),
        ],
    );
    assert_eq!(
        decode_command(&c),
        Ok(CommandType::Cook {
            start: true,
            cooking_mode: Some(CookingMode::Bake),
            food_preset: Some("white_rice".to_string()),
            quantity: Some(2),
            unit: Some(SizeUnit::Cups),
        })
    );
}

#[test]
fn test_decode_color_temperature() {
    let color = WireParam {
        name: "color".to_string(),
        value: ParamValue::Object(vec![
            ObjectField { name: "name".to_string(), value: ScalarValue::Str("warm".to_string()) },
            ObjectField { name: "temperature".to_string(), value: ScalarValue::Int(3000) },
        ]),
    };
    let c = wire_cmd("action.devices.commands.ColorAbsolute", vec![color]);
    assert_eq!(
        decode_command(&c),
        Ok(CommandType::ColorAbsolute {
            color: ColorCommand {
                name: Some("warm".to_string()),
                value: ColorValue::Temperature(3000),
            }
        })
    );
}

#[test]
fn test_decode_color_spectrum() {
    let color = WireParam {
        name: "color".to_string(),
        value: ParamValue::Object(vec![ObjectField {
            name: "spectrumRGB".to_string(),
            value: ScalarValue::Int(0xFF0000),
        }]),
    };
    let c = wire_cmd("action.devices.commands.ColorAbsolute", vec![color]);
    assert_eq!(
        decode_command(&c),
        Ok(CommandType::ColorAbsolute {
            color: ColorCommand { name: None, value: ColorValue::SpectrumRgb(0xFF0000) }
        })
    );
}

#[test]
fn test_color_without_value_is_missing_field() {
    let color = WireParam {
        name: "color".to_string(),
        value: ParamValue::Object(vec![ObjectField {
            name: "name".to_string(),
            value: ScalarValue::Str("red".to_string()),
        }]),
    };
    let c = wire_cmd("action.devices.commands.ColorAbsolute", vec![color]);
    assert_eq!(decode_command(&c), Err(DecodeError::MissingField));
}

#[test]
fn test_color_scalar_is_type_mismatch() {
    let c = wire_cmd("action.devices.commands.ColorAbsolute", vec![sparam("color", "red")]);
    assert_eq!(decode_command(&c), Err(DecodeError::TypeMismatch));
}

#[test]
fn test_empty_inputs_rejected() {
    let w = WireRequest { request_id: "r9".to_string(), inputs: vec![] };
    assert_eq!(decode_request(&w), Err(DecodeError::EmptyInputs));
}

#[test]
fn test_bad_command_fails_whole_request() {
    let w = WireRequest {
        request_id: "r2".to_string(),
        inputs: vec![WireInput {
            intent: "action.devices.EXECUTE".to_string(),
            commands: vec![WireBatch {
                devices: vec![WireDevice { id: "123".to_string() }],
                execution: vec![
                    wire_cmd("action.devices.commands.OnOff", vec![bparam("on", true)]),
                    wire_cmd("action.devices.commands.Nonsense", vec![]),
                ],
            }],
        }],
    };
    assert_eq!(decode_request(&w), Err(DecodeError::UnknownCommand));
}

#[test]
fn test_request_round_trip() {
    let request = Request {
        request_id: "rt-1".to_string(),
        inputs: vec![Input::Execute(Execute {
            commands: vec![Command {
                devices: vec![
                    Device { id: "123".to_string() },
                    Device { id: "456".to_string() },
                ],
                execution: vec![
                    CommandType::OnOff { on: true },
                    CommandType::BrightnessAbsolute { brightness: 40 },
                    CommandType::BrightnessRelative {
                        brightness_relative_percent: None,
                        brightness_relative_weight: Some(-2),
                    },
                    CommandType::Locate { silence: false, lang: "en".to_string() },
                    CommandType::Cook {
                        start: true,
                        cooking_mode: Some(CookingMode::Steam),
                        food_preset: None,
                        quantity: Some(3),
                        unit: Some(SizeUnit::Cups),
                    },
                    CommandType::ColorAbsolute {
                        color: ColorCommand {
                            name: Some("warm".to_string()),
                            value: ColorValue::Temperature(2700),
                        },
                    },
                    CommandType::LockUnlock { lock: true, follow_up_token: None },
                    CommandType::ArmDisarm {
                        follow_up_token: Some("tok".to_string()),
                        arm: true,
                        cancel: None,
                        arm_level: Some("L2".to_string()),
                    },
                    CommandType::Dock,
                ],
            }],
        })],
    };
    let wire = encode_request(&request);
    assert_eq!(wire.request_id, "rt-1");
    assert_eq!(wire.inputs[0].intent, "action.devices.EXECUTE");
    assert_eq!(wire.inputs[0].commands[0].devices[0].id, "123");
    assert_eq!(wire.inputs[0].commands[0].devices[1].id, "456");
    assert_eq!(
        wire.inputs[0].commands[0].execution[0].command,
        "action.devices.commands.OnOff"
    );
    let decoded = decode_request(&wire).expect("canonical wire must decode");
    assert_eq!(decoded, request);
}

#[test]
fn test_command_round_trip_each_kind() {
    let cases = vec![
        CommandType::SetHumidity { humidity: 45 },
        CommandType::HumidityRelative {
            humidity_relative_percent: Some(10),
            humidity_relative_weight: None,
        },
        CommandType::SetFanSpeed { fan_speed: Some("low".to_string()), fan_speed_percent: None },
        CommandType::SetFanSpeedRelative {
            fan_speed_relative_weight: Some(1),
            fan_speed_relative_percent: Some(20),
        },
        CommandType::Fill { fill: true, fill_level: Some("full".to_string()), fill_percent: None },
        CommandType::Dispense {
            item: Some("water".to_string()),
            amount: Some(2),
            unit: Some(SizeUnit::Liters),
            preset_name: None,
        },
        CommandType::Charge { charge: false },
        CommandType::SetInput { new_input: "hdmi_1".to_string() },
        CommandType::NextInput,
        CommandType::PreviousInput,
        CommandType::ColorLoop { duration: 30 },
        CommandType::Sleep { duration: 60 },
        CommandType::StopEffect,
        CommandType::Wake { duration: 10 },
    ];
    for c in cases {
        let w = encode_command(&c);
        assert_eq!(decode_command(&w), Ok(c));
    }
}

#[test]
fn test_decode_error_tokens() {
    assert_eq!(DecodeError::UnknownIntent.error_token(), "UnknownIntent");
    assert_eq!(DecodeError::UnknownCommand.error_token(), "UnknownCommand");
    assert_eq!(DecodeError::MissingField.error_token(), "MissingField");
    assert_eq!(DecodeError::TypeMismatch.error_token(), "TypeMismatch");
    assert_eq!(DecodeError::EmptyInputs.error_token(), "EmptyInputs");
}
