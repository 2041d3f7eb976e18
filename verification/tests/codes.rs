use smarthome::decode::command_kind;
use smarthome::decode::tag_of;
use smarthome::decode::CommandKind;
use smarthome::decode::DecodeError;
use smarthome::dispatch::required_capability;
use smarthome::dispatch::Capability;
use smarthome::fulfillment::execute::locate_default_lang;
use smarthome::fulfillment::execute::mode_code;
use smarthome::fulfillment::execute::mode_from_code;
use smarthome::fulfillment::execute::CommandType;
use smarthome::fulfillment::execute::CookingMode;
use smarthome::serializable_error::SerializableError;
use smarthome::serializable_error::ToStringError;
use smarthome::strutil::str_eq;
use smarthome::traits::input_selector::DeviceError as InputDeviceError;
use smarthome::traits::input_selector::InputSelectorError;
use smarthome::traits::language_code;
use smarthome::traits::language_from_code;
use smarthome::traits::unit_code;
use smarthome::traits::unit_from_code;
use smarthome::traits::CombinedDeviceError;
use smarthome::traits::Language;
use smarthome::traits::SizeUnit;
use smarthome::traits::TemperatureUnit;

#[test]
fn test_locate_default_lang_value() {
    assert_eq!(locate_default_lang(), "en");
}

#[test]
fn test_unit_codes_round_trip() {
    let units = vec![
        SizeUnit::UnknownUnits,
        SizeUnit::NoUnits,
        SizeUnit::Centimeters,
        SizeUnit::Cups,
        SizeUnit::Deciliters,
        SizeUnit::Feet,
        SizeUnit::FluidOunces,
        SizeUnit::Gallons,
        SizeUnit::Grams,
        SizeUnit::Inches,
        SizeUnit::Kilograms,
        SizeUnit::Liters,
        SizeUnit::Meters,
        SizeUnit::Milligrams,
        SizeUnit::Milliliters,
        SizeUnit::Millimeters,
        SizeUnit::Ounces,
        SizeUnit::Pinch,
        SizeUnit::Pints,
        SizeUnit::Portion,
        SizeUnit::Pounds,
        SizeUnit::Quarts,
        SizeUnit::Tablespoons,
        SizeUnit::Teaspoons,
    ];
    for u in units {
        assert_eq!(unit_from_code(&unit_code(u)), Some(u));
    }
    assert_eq!(unit_code(SizeUnit::FluidOunces), "FLUID_OUNCES");
    assert_eq!(unit_from_code("SMIDGENS"), None);
    assert_eq!(unit_from_code("cups"), None);
}

#[test]
fn test_mode_codes_round_trip() {
    let modes = vec![
        CookingMode::Bake,
        CookingMode::Boil,
        CookingMode::Brew,
        CookingMode::Broil,
        CookingMode::Cook,
        CookingMode::Defrost,
        CookingMode::Fry,
        CookingMode::Grill,
        CookingMode::Microwave,
        CookingMode::Roast,
        CookingMode::Steam,
        CookingMode::Warm,
    ];
    for m in modes {
        assert_eq!(mode_from_code(&mode_code(m)), Some(m));
    }
    assert_eq!(mode_from_code("FLAMBE"), None);
}

#[test]
fn test_language_codes_round_trip() {
    let langs = vec![
        Language::Danish,
        Language::Dutch,
        Language::English,
        Language::French,
        Language::German,
        Language::Hindi,
        Language::Indonesian,
        Language::Italian,
        Language::Japanese,
        Language::Korean,
        Language::Norwegian,
        Language::Portuguese,
        Language::Spanish,
        Language::Swedish,
        Language::Thai,
        Language::Chinese,
    ];
    for l in langs {
        assert_eq!(language_from_code(&language_code(l)), Some(l));
    }
    assert_eq!(language_code(Language::Portuguese), "pt-BR");
    assert_eq!(language_from_code("xx"), None);
}

#[test]
fn test_temperature_unit_codes() {
    assert_eq!(TemperatureUnit::Celsius.code(), "C");
    assert_eq!(TemperatureUnit::Fahrenheit.code(), "F");
}

#[test]
fn test_command_tags_round_trip() {
    let kinds = vec![
        CommandKind::ArmDisarm,
        CommandKind::BrightnessAbsolute,
        CommandKind::BrightnessRelative,
        CommandKind::ColorAbsolute,
        CommandKind::Cook,
        CommandKind::Dispense,
        CommandKind::Dock,
        CommandKind::Charge,
        CommandKind::SetFanSpeed,
        CommandKind::SetFanSpeedRelative,
        CommandKind::Fill,
        CommandKind::SetHumidity,
        CommandKind::HumidityRelative,
        CommandKind::SetInput,
        CommandKind::NextInput,
        CommandKind::PreviousInput,
        CommandKind::ColorLoop,
        CommandKind::Sleep,
        CommandKind::StopEffect,
        CommandKind::Wake,
        CommandKind::Locate,
        CommandKind::LockUnlock,
        CommandKind::OnOff,
    ];
    for k in kinds {
        assert_eq!(command_kind(&tag_of(k)), Some(k));
    }
    assert_eq!(tag_of(CommandKind::Wake), "actin.devices.commands.Wake");
    assert_eq!(command_kind("action.devices.commands.Unknown"), None);
}

#[test]
fn test_required_capability_mapping() {
    assert_eq!(required_capability(&CommandType::OnOff { on: true }), Capability::OnOff);
    assert_eq!(
        required_capability(&CommandType::BrightnessAbsolute { brightness: 5 }),
        Capability::Brightness
    );
    assert_eq!(
        required_capability(&CommandType::SetInput { new_input: "x".to_string() }),
        Capability::InputSelector
    );
    assert_eq!(
        required_capability(&CommandType::Locate { silence: false, lang: "en".to_string() }),
        Capability::Locator
    );
    assert_eq!(required_capability(&CommandType::Wake { duration: 1 }), Capability::LightEffects);
}

#[test]
fn test_serializable_error_wraps_cause() {
    let wrapped = SerializableError::wrap(&DecodeError::TypeMismatch);
    assert_eq!(wrapped.serialized(), "TypeMismatch");
    assert_eq!(DecodeError::TypeMismatch.error_string(), "TypeMismatch");
}

#[test]
fn test_combined_device_error_tokens() {
    let other = CombinedDeviceError::Other(SerializableError { message: "io failed".to_string() });
    assert_eq!(other.error_token(), "io failed");
}

#[test]
fn test_input_selector_error_tokens() {
    let e = InputSelectorError::Device(InputDeviceError::UnsupportedInput);
    assert_eq!(e.error_token(), "UnsupportedInput");
    let o = InputSelectorError::Other(CombinedDeviceError::Other(SerializableError {
        message: "boom".to_string(),
    }));
    assert_eq!(o.error_token(), "boom");
}

#[test]
fn test_str_eq_matches_equality() {
    assert!(str_eq("abc", "abc"));
    assert!(!str_eq("abc", "abd"));
    assert!(!str_eq("abc", "ab"));
    assert!(str_eq("", ""));
}
