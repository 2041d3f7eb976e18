use vstd::prelude::*;

use crate::traits::CombinedDeviceError;
use crate::traits::Language;

verus! {

/// The closed error vocabulary of the input-selector capability.
#[derive(Clone, Copy, PartialEq, Eq, Structural, Debug)]
pub enum DeviceError {
    /// The input is not currently supported.
    UnsupportedInput,
}

impl DeviceError {
    /// The single string token this error serializes to.
    pub fn error_token(&self) -> (r: String)
        ensures
            r@ == "UnsupportedInput"@,
    {
        match self {
            DeviceError::UnsupportedInput => "UnsupportedInput".to_owned(),
        }
    }
}

/// Any failure of an input-selector operation: the capability's own closed
/// errors, plus the shared device-level error as an escape hatch.
#[derive(Debug, PartialEq, Eq)]
pub enum InputSelectorError {
    Device(DeviceError),
    Other(CombinedDeviceError),
}

impl InputSelectorError {
    /// The single string token this error serializes to.
    pub open spec fn spec_token(&self) -> Seq<char> {
        match self {
            InputSelectorError::Device(_) => "UnsupportedInput"@,
            InputSelectorError::Other(e) => e.spec_token(),
        }
    }

    /// Render this error to its single string token.
    pub fn error_token(&self) -> (r: String)
        ensures
            r@ == self.spec_token(),
    {
        match self {
            InputSelectorError::Device(e) => e.error_token(),
            InputSelectorError::Other(e) => e.error_token(),
        }
    }
}

/// An available media input of a device.
#[derive(Debug, PartialEq, Eq)]
pub struct AvailableInput {
    /// Unique key for the input, never exposed to users in speech or response.
    pub key: String,
    /// Names of the input for all available languages.
    pub names: Vec<InputName>,
}

/// The names of an input in one language.
#[derive(Debug, PartialEq, Eq)]
pub struct InputName {
    /// Language code.
    pub lang: Language,
    /// User-friendly names for the input in that language, the first of which
    /// is used in responses to the user.
    pub name_synonym: Vec<String>,
}

/// Devices that can change media inputs. Inputs can have dynamic names per
/// device and may represent audio or video feeds, hardwired or networked.
pub trait InputSelector {
    /// The input audio or video feeds the device offers.
    fn get_available_inputs(&self) -> Result<Vec<AvailableInput>, InputSelectorError>;

    /// Whether the device supports one-way (true) or two-way (false)
    /// communication for this capability. Default: unstated, meaning false.
    fn is_command_only_input_selector(&self) -> Result<Option<bool>, InputSelectorError> {
        Ok(None)
    }

    /// Whether the list of inputs is ordered, which also makes the next and
    /// previous selections available. Default: unstated, meaning false.
    fn has_ordered_inputs(&self) -> Result<Option<bool>, InputSelectorError> {
        Ok(None)
    }

    /// Key of the input currently in use.
    fn get_current_input(&self) -> Result<String, InputSelectorError>;

    /// Set the media input to the given key.
    fn set_input(&mut self, input: String) -> Result<(), InputSelectorError>;

    /// Select the next input; applicable only with ordered inputs.
    fn set_next_input(&mut self) -> Result<(), InputSelectorError>;

    /// Select the previous input; applicable only with ordered inputs.
    fn set_previous_input(&mut self) -> Result<(), InputSelectorError>;
}

} // verus!
