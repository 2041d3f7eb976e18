use vstd::prelude::*;

use crate::serializable_error::SerializableError;
use crate::strutil::str_eq;

pub mod input_selector;

verus! {

/// Static information about a device, reported to the platform.
#[derive(Debug, PartialEq, Eq)]
pub struct DeviceInfo {
    pub model: String,
    pub manufacturer: String,
    pub hw: String,
    pub sw: String,
}

/// The names a device is known by.
#[derive(Debug, PartialEq, Eq)]
pub struct DeviceName {
    pub default_names: Vec<String>,
    pub name: String,
    pub nicknames: Vec<String>,
}

/// Operations every device exposes, independent of its capabilities.
pub trait GoogleHomeDevice {
    fn get_device_info(&self) -> DeviceInfo;

    /// The room the device is in, if known. Default: unknown.
    fn get_room_hint(&self) -> Option<String> {
        None
    }

    fn will_report_state(&self) -> bool;

    fn get_device_name(&self) -> DeviceName;

    /// Indicates if the device is online (that is, reachable) or not.
    fn is_online(&self) -> bool;
}

/// Device-level errors from the platform's published error list.
///
/// The platform's members are deliberately not guessed here; until that list
/// is adopted, the single `Unknown` member stands for any device-level error,
/// keeping the enum closed and the outer union exhaustive.
#[derive(Clone, Copy, PartialEq, Eq, Structural, Debug)]
pub enum DeviceError {
    Unknown,
}

/// Device-level exceptions from the platform's published exception list.
///
/// Reserved in the same way as `DeviceError`.
#[derive(Clone, Copy, PartialEq, Eq, Structural, Debug)]
pub enum DeviceException {
    Unknown,
}

/// The union of the device-level error categories, plus an escape hatch
/// wrapping any lower-level fault as its rendered message.
#[derive(Debug, PartialEq, Eq)]
pub enum CombinedDeviceError {
    DeviceError(DeviceError),
    DeviceException(DeviceException),
    Other(SerializableError),
}

impl CombinedDeviceError {
    /// The single string token this error serializes to.
    pub open spec fn spec_token(&self) -> Seq<char> {
        match self {
            CombinedDeviceError::Other(e) => e.message@,
            CombinedDeviceError::DeviceError(_) => "unknownError"@,
            CombinedDeviceError::DeviceException(_) => "unknownException"@,
        }
    }

    /// Render this error to its single string token.
    pub fn error_token(&self) -> (r: String)
        ensures
            r@ == self.spec_token(),
    {
        match self {
            CombinedDeviceError::Other(e) => e.serialized(),
            CombinedDeviceError::DeviceError(_) => "unknownError".to_owned(),
            CombinedDeviceError::DeviceException(_) => "unknownException".to_owned(),
        }
    }
}

/// A language supported for localized responses.
#[derive(Clone, Copy, PartialEq, Eq, Structural, Debug)]
pub enum Language {
    Danish,
    Dutch,
    English,
    French,
    German,
    Hindi,
    Indonesian,
    Italian,
    Japanese,
    Korean,
    Norwegian,
    Portuguese,
    Spanish,
    Swedish,
    Thai,
    Chinese,
}

/// The wire code of a language.
pub open spec fn spec_language_code(l: Language) -> Seq<char> {
    match l {
        Language::Danish => "da"@,
        Language::Dutch => "nl"@,
        Language::English => "en"@,
        Language::French => "fr"@,
        Language::German => "de"@,
        Language::Hindi => "hi"@,
        Language::Indonesian => "id"@,
        Language::Italian => "it"@,
        Language::Japanese => "ja"@,
        Language::Korean => "ko"@,
        Language::Norwegian => "no"@,
        Language::Portuguese => "pt-BR"@,
        Language::Spanish => "es"@,
        Language::Swedish => "sv"@,
        Language::Thai => "th"@,
        Language::Chinese => "zh-TW"@,
    }
}

/// The language a wire code stands for, if any.
pub open spec fn spec_language_from_code(t: Seq<char>) -> Option<Language> {
    if t == spec_language_code(Language::Danish) { Some(Language::Danish) }
    else if t == spec_language_code(Language::Dutch) { Some(Language::Dutch) }
    else if t == spec_language_code(Language::English) { Some(Language::English) }
    else if t == spec_language_code(Language::French) { Some(Language::French) }
    else if t == spec_language_code(Language::German) { Some(Language::German) }
    else if t == spec_language_code(Language::Hindi) { Some(Language::Hindi) }
    else if t == spec_language_code(Language::Indonesian) { Some(Language::Indonesian) }
    else if t == spec_language_code(Language::Italian) { Some(Language::Italian) }
    else if t == spec_language_code(Language::Japanese) { Some(Language::Japanese) }
    else if t == spec_language_code(Language::Korean) { Some(Language::Korean) }
    else if t == spec_language_code(Language::Norwegian) { Some(Language::Norwegian) }
    else if t == spec_language_code(Language::Portuguese) { Some(Language::Portuguese) }
    else if t == spec_language_code(Language::Spanish) { Some(Language::Spanish) }
    else if t == spec_language_code(Language::Swedish) { Some(Language::Swedish) }
    else if t == spec_language_code(Language::Thai) { Some(Language::Thai) }
    else if t == spec_language_code(Language::Chinese) { Some(Language::Chinese) }
    else { None }
}

/// The wire code of a language.
pub fn language_code(l: Language) -> (r: String)
    ensures
        r@ == spec_language_code(l),
{
    match l {
        Language::Danish => "da".to_owned(),
        Language::Dutch => "nl".to_owned(),
        Language::English => "en".to_owned(),
        Language::French => "fr".to_owned(),
        Language::German => "de".to_owned(),
        Language::Hindi => "hi".to_owned(),
        Language::Indonesian => "id".to_owned(),
        Language::Italian => "it".to_owned(),
        Language::Japanese => "ja".to_owned(),
        Language::Korean => "ko".to_owned(),
        Language::Norwegian => "no".to_owned(),
        Language::Portuguese => "pt-BR".to_owned(),
        Language::Spanish => "es".to_owned(),
        Language::Swedish => "sv".to_owned(),
        Language::Thai => "th".to_owned(),
        Language::Chinese => "zh-TW".to_owned(),
    }
}

/// Decode a language wire code.
pub fn language_from_code(t: &str) -> (r: Option<Language>)
    ensures
        r == spec_language_from_code(t@),
{
    if str_eq(t, "da") { Some(Language::Danish) }
    else if str_eq(t, "nl") { Some(Language::Dutch) }
    else if str_eq(t, "en") { Some(Language::English) }
    else if str_eq(t, "fr") { Some(Language::French) }
    else if str_eq(t, "de") { Some(Language::German) }
    else if str_eq(t, "hi") { Some(Language::Hindi) }
    else if str_eq(t, "id") { Some(Language::Indonesian) }
    else if str_eq(t, "it") { Some(Language::Italian) }
    else if str_eq(t, "ja") { Some(Language::Japanese) }
    else if str_eq(t, "ko") { Some(Language::Korean) }
    else if str_eq(t, "no") { Some(Language::Norwegian) }
    else if str_eq(t, "pt-BR") { Some(Language::Portuguese) }
    else if str_eq(t, "es") { Some(Language::Spanish) }
    else if str_eq(t, "sv") { Some(Language::Swedish) }
    else if str_eq(t, "th") { Some(Language::Thai) }
    else if str_eq(t, "zh-TW") { Some(Language::Chinese) }
    else { None }
}

/// A unit a quantity on the wire may carry.
#[derive(Clone, Copy, PartialEq, Eq, Structural, Debug)]
pub enum SizeUnit {
    UnknownUnits,
    NoUnits,
    Centimeters,
    Cups,
    Deciliters,
    Feet,
    FluidOunces,
    Gallons,
    Grams,
    Inches,
    Kilograms,
    Liters,
    Meters,
    Milligrams,
    Milliliters,
    Millimeters,
    Ounces,
    Pinch,
    Pints,
    Portion,
    Pounds,
    Quarts,
    Tablespoons,
    Teaspoons,
}

/// The wire code of a unit.
pub open spec fn spec_unit_code(u: SizeUnit) -> Seq<char> {
    match u {
        SizeUnit::UnknownUnits => "UNKNOWN_UNITS"@,
        SizeUnit::NoUnits => "NO_UNITS"@,
        SizeUnit::Centimeters => "CENTIMETERS"@,
        SizeUnit::Cups => "CUPS"@,
        SizeUnit::Deciliters => "DECILITERS"@,
        SizeUnit::Feet => "FEET"@,
        SizeUnit::FluidOunces => "FLUID_OUNCES"@,
        SizeUnit::Gallons => "GALLONS"@,
        SizeUnit::Grams => "GRAMS"@,
        SizeUnit::Inches => "INCHES"@,
        SizeUnit::Kilograms => "KILOGRAMS"@,
        SizeUnit::Liters => "LITERS"@,
        SizeUnit::Meters => "METERS"@,
        SizeUnit::Milligrams => "MILLIGRAMS"@,
        SizeUnit::Milliliters => "MILLILITERS"@,
        SizeUnit::Millimeters => "MILLIMETERS"@,
        SizeUnit::Ounces => "OUNCES"@,
        SizeUnit::Pinch => "PINCH"@,
        SizeUnit::Pints => "PINTS"@,
        SizeUnit::Portion => "PORTION"@,
        SizeUnit::Pounds => "POUNDS"@,
        SizeUnit::Quarts => "QUARTS"@,
        SizeUnit::Tablespoons => "TABLESPOONS"@,
        SizeUnit::Teaspoons => "TEASPOONS"@,
    }
}

/// The unit a wire code stands for, if any.
pub open spec fn spec_unit_from_code(t: Seq<char>) -> Option<SizeUnit> {
    if t == spec_unit_code(SizeUnit::UnknownUnits) { Some(SizeUnit::UnknownUnits) }
    else if t == spec_unit_code(SizeUnit::NoUnits) { Some(SizeUnit::NoUnits) }
    else if t == spec_unit_code(SizeUnit::Centimeters) { Some(SizeUnit::Centimeters) }
    else if t == spec_unit_code(SizeUnit::Cups) { Some(SizeUnit::Cups) }
    else if t == spec_unit_code(SizeUnit::Deciliters) { Some(SizeUnit::Deciliters) }
    else if t == spec_unit_code(SizeUnit::Feet) { Some(SizeUnit::Feet) }
    else if t == spec_unit_code(SizeUnit::FluidOunces) { Some(SizeUnit::FluidOunces) }
    else if t == spec_unit_code(SizeUnit::Gallons) { Some(SizeUnit::Gallons) }
    else if t == spec_unit_code(SizeUnit::Grams) { Some(SizeUnit::Grams) }
    else if t == spec_unit_code(SizeUnit::Inches) { Some(SizeUnit::Inches) }
    else if t == spec_unit_code(SizeUnit::Kilograms) { Some(SizeUnit::Kilograms) }
    else if t == spec_unit_code(SizeUnit::Liters) { Some(SizeUnit::Liters) }
    else if t == spec_unit_code(SizeUnit::Meters) { Some(SizeUnit::Meters) }
    else if t == spec_unit_code(SizeUnit::Milligrams) { Some(SizeUnit::Milligrams) }
    else if t == spec_unit_code(SizeUnit::Milliliters) { Some(SizeUnit::Milliliters) }
    else if t == spec_unit_code(SizeUnit::Millimeters) { Some(SizeUnit::Millimeters) }
    else if t == spec_unit_code(SizeUnit::Ounces) { Some(SizeUnit::Ounces) }
    else if t == spec_unit_code(SizeUnit::Pinch) { Some(SizeUnit::Pinch) }
    else if t == spec_unit_code(SizeUnit::Pints) { Some(SizeUnit::Pints) }
    else if t == spec_unit_code(SizeUnit::Portion) { Some(SizeUnit::Portion) }
    else if t == spec_unit_code(SizeUnit::Pounds) { Some(SizeUnit::Pounds) }
    else if t == spec_unit_code(SizeUnit::Quarts) { Some(SizeUnit::Quarts) }
    else if t == spec_unit_code(SizeUnit::Tablespoons) { Some(SizeUnit::Tablespoons) }
    else if t == spec_unit_code(SizeUnit::Teaspoons) { Some(SizeUnit::Teaspoons) }
    else { None }
}

/// The wire code of a unit.
pub fn unit_code(u: SizeUnit) -> (r: String)
    ensures
        r@ == spec_unit_code(u),
{
    match u {
        SizeUnit::UnknownUnits => "UNKNOWN_UNITS".to_owned(),
        SizeUnit::NoUnits => "NO_UNITS".to_owned(),
        SizeUnit::Centimeters => "CENTIMETERS".to_owned(),
        SizeUnit::Cups => "CUPS".to_owned(),
        SizeUnit::Deciliters => "DECILITERS".to_owned(),
        SizeUnit::Feet => "FEET".to_owned(),
        SizeUnit::FluidOunces => "FLUID_OUNCES".to_owned(),
        SizeUnit::Gallons => "GALLONS".to_owned(),
        SizeUnit::Grams => "GRAMS".to_owned(),
        SizeUnit::Inches => "INCHES".to_owned(),
        SizeUnit::Kilograms => "KILOGRAMS".to_owned(),
        SizeUnit::Liters => "LITERS".to_owned(),
        SizeUnit::Meters => "METERS".to_owned(),
        SizeUnit::Milligrams => "MILLIGRAMS".to_owned(),
        SizeUnit::Milliliters => "MILLILITERS".to_owned(),
        SizeUnit::Millimeters => "MILLIMETERS".to_owned(),
        SizeUnit::Ounces => "OUNCES".to_owned(),
        SizeUnit::Pinch => "PINCH".to_owned(),
        SizeUnit::Pints => "PINTS".to_owned(),
        SizeUnit::Portion => "PORTION".to_owned(),
        SizeUnit::Pounds => "POUNDS".to_owned(),
        SizeUnit::Quarts => "QUARTS".to_owned(),
        SizeUnit::Tablespoons => "TABLESPOONS".to_owned(),
        SizeUnit::Teaspoons => "TEASPOONS".to_owned(),
    }
}

/// Decode a unit wire code.
pub fn unit_from_code(t: &str) -> (r: Option<SizeUnit>)
    ensures
        r == spec_unit_from_code(t@),
{
    if str_eq(t, "UNKNOWN_UNITS") { Some(SizeUnit::UnknownUnits) }
    else if str_eq(t, "NO_UNITS") { Some(SizeUnit::NoUnits) }
    else if str_eq(t, "CENTIMETERS") { Some(SizeUnit::Centimeters) }
    else if str_eq(t, "CUPS") { Some(SizeUnit::Cups) }
    else if str_eq(t, "DECILITERS") { Some(SizeUnit::Deciliters) }
    else if str_eq(t, "FEET") { Some(SizeUnit::Feet) }
    else if str_eq(t, "FLUID_OUNCES") { Some(SizeUnit::FluidOunces) }
    else if str_eq(t, "GALLONS") { Some(SizeUnit::Gallons) }
    else if str_eq(t, "GRAMS") { Some(SizeUnit::Grams) }
    else if str_eq(t, "INCHES") { Some(SizeUnit::Inches) }
    else if str_eq(t, "KILOGRAMS") { Some(SizeUnit::Kilograms) }
    else if str_eq(t, "LITERS") { Some(SizeUnit::Liters) }
    else if str_eq(t, "METERS") { Some(SizeUnit::Meters) }
    else if str_eq(t, "MILLIGRAMS") { Some(SizeUnit::Milligrams) }
    else if str_eq(t, "MILLILITERS") { Some(SizeUnit::Milliliters) }
    else if str_eq(t, "MILLIMETERS") { Some(SizeUnit::Millimeters) }
    else if str_eq(t, "OUNCES") { Some(SizeUnit::Ounces) }
    else if str_eq(t, "PINCH") { Some(SizeUnit::Pinch) }
    else if str_eq(t, "PINTS") { Some(SizeUnit::Pints) }
    else if str_eq(t, "PORTION") { Some(SizeUnit::Portion) }
    else if str_eq(t, "POUNDS") { Some(SizeUnit::Pounds) }
    else if str_eq(t, "QUARTS") { Some(SizeUnit::Quarts) }
    else if str_eq(t, "TABLESPOONS") { Some(SizeUnit::Tablespoons) }
    else if str_eq(t, "TEASPOONS") { Some(SizeUnit::Teaspoons) }
    else { None }
}

/// Temperature unit used in responses to the user.
#[derive(Clone, Copy, PartialEq, Eq, Structural, Debug)]
pub enum TemperatureUnit {
    Celsius,
    Fahrenheit,
}

/// The wire code of a temperature unit.
pub open spec fn spec_temperature_unit_code(u: TemperatureUnit) -> Seq<char> {
    match u {
        TemperatureUnit::Celsius => "C"@,
        TemperatureUnit::Fahrenheit => "F"@,
    }
}

impl TemperatureUnit {
    /// The wire code of this temperature unit.
    pub fn code(&self) -> (r: String)
        ensures
            r@ == spec_temperature_unit_code(*self),
    {
        match self {
            TemperatureUnit::Celsius => "C".to_owned(),
            TemperatureUnit::Fahrenheit => "F".to_owned(),
        }
    }
}

/// Name synonyms in one supported language.
#[derive(Debug, PartialEq, Eq)]
pub struct Synonym {
    /// Synonyms for the preset, singular and plural forms where applicable.
    pub synonym: Vec<String>,
    /// Language code.
    pub lang: Language,
}

/// Devices that support media applications, typically from third parties.
pub trait AppSelector {
}

/// Devices with the capability to stream video feeds to third-party screens.
pub trait CameraStream {
}

/// Devices that support TV channels on a media device.
pub trait Channel {
}

/// Devices that can detect objects or people and notify the user.
pub trait ObjectDetection {
}

/// Devices with a timer, primarily kitchen appliances.
pub trait Timer {
}

/// Devices with settings that can only exist in one of two states.
pub trait Toggles {
}

/// Media devices able to control media playback.
pub trait TransportControl {
}

/// Devices able to change volume.
pub trait Volume {
}

} // verus!
