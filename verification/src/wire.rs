use vstd::prelude::*;

verus! {

/// A scalar parameter value as it appears on the wire.
///
/// `Other` stands for any wire value outside the protocol's vocabulary
/// (null, an array, a nested object, a non-integer number): the decoder
/// treats it as a type mismatch wherever a typed value is required.
#[derive(Debug, PartialEq, Eq)]
pub enum ScalarValue {
    Bool(bool),
    Int(i64),
    Str(String),
    Other,
}

/// Abstract form of a `ScalarValue`.
pub enum ScalarV {
    Bool(bool),
    Int(int),
    Str(Seq<char>),
    Other,
}

impl View for ScalarValue {
    type V = ScalarV;

    open spec fn view(&self) -> ScalarV {
        match self {
            ScalarValue::Bool(b) => ScalarV::Bool(*b),
            ScalarValue::Int(n) => ScalarV::Int(*n as int),
            ScalarValue::Str(s) => ScalarV::Str(s@),
            ScalarValue::Other => ScalarV::Other,
        }
    }
}

/// One named field of a one-level wire object (such as a color description).
#[derive(Debug, PartialEq, Eq)]
pub struct ObjectField {
    pub name: String,
    pub value: ScalarValue,
}

impl View for ObjectField {
    type V = (Seq<char>, ScalarV);

    open spec fn view(&self) -> (Seq<char>, ScalarV) {
        (self.name@, self.value@)
    }
}

/// A command parameter value: either a scalar or a one-level object of scalars.
#[derive(Debug, PartialEq, Eq)]
pub enum ParamValue {
    Scalar(ScalarValue),
    Object(Vec<ObjectField>),
}

/// Abstract form of a `ParamValue`.
pub enum ParamV {
    Scalar(ScalarV),
    Object(Seq<(Seq<char>, ScalarV)>),
}

impl View for ParamValue {
    type V = ParamV;

    open spec fn view(&self) -> ParamV {
        match self {
            ParamValue::Scalar(s) => ParamV::Scalar(s@),
            ParamValue::Object(fs) => ParamV::Object(fs@.map_values(|f: ObjectField| f@)),
        }
    }
}

/// One named parameter of a wire command.
#[derive(Debug, PartialEq, Eq)]
pub struct WireParam {
    pub name: String,
    pub value: ParamValue,
}

impl View for WireParam {
    type V = (Seq<char>, ParamV);

    open spec fn view(&self) -> (Seq<char>, ParamV) {
        (self.name@, self.value@)
    }
}

/// One entry of a batch's `execution` list: a command identifier with its parameters.
#[derive(Debug, PartialEq, Eq)]
pub struct WireCommand {
    pub command: String,
    pub params: Vec<WireParam>,
}

/// Abstract form of a `WireCommand`.
pub struct WireCommandV {
    pub command: Seq<char>,
    pub params: Seq<(Seq<char>, ParamV)>,
}

impl View for WireCommand {
    type V = WireCommandV;

    open spec fn view(&self) -> WireCommandV {
        WireCommandV {
            command: self.command@,
            params: self.params@.map_values(|p: WireParam| p@),
        }
    }
}

/// One entry of a batch's `devices` list.
#[derive(Debug, PartialEq, Eq)]
pub struct WireDevice {
    pub id: String,
}

impl View for WireDevice {
    type V = Seq<char>;

    open spec fn view(&self) -> Seq<char> {
        self.id@
    }
}

/// One command batch: the named devices and the commands to run on all of them.
#[derive(Debug, PartialEq, Eq)]
pub struct WireBatch {
    pub devices: Vec<WireDevice>,
    pub execution: Vec<WireCommand>,
}

/// Abstract form of a `WireBatch`.
pub struct WireBatchV {
    pub devices: Seq<Seq<char>>,
    pub execution: Seq<WireCommandV>,
}

impl View for WireBatch {
    type V = WireBatchV;

    open spec fn view(&self) -> WireBatchV {
        WireBatchV {
            devices: self.devices@.map_values(|d: WireDevice| d@),
            execution: self.execution@.map_values(|c: WireCommand| c@),
        }
    }
}

/// One entry of the request's `inputs` list: an intent tag with its payload's batches.
#[derive(Debug, PartialEq, Eq)]
pub struct WireInput {
    pub intent: String,
    pub commands: Vec<WireBatch>,
}

/// Abstract form of a `WireInput`.
pub struct WireInputV {
    pub intent: Seq<char>,
    pub commands: Seq<WireBatchV>,
}

impl View for WireInput {
    type V = WireInputV;

    open spec fn view(&self) -> WireInputV {
        WireInputV {
            intent: self.intent@,
            commands: self.commands@.map_values(|b: WireBatch| b@),
        }
    }
}

/// The whole inbound envelope: a request identifier and its intents.
#[derive(Debug, PartialEq, Eq)]
pub struct WireRequest {
    pub request_id: String,
    pub inputs: Vec<WireInput>,
}

/// Abstract form of a `WireRequest`.
pub struct WireRequestV {
    pub request_id: Seq<char>,
    pub inputs: Seq<WireInputV>,
}

impl View for WireRequest {
    type V = WireRequestV;

    open spec fn view(&self) -> WireRequestV {
        WireRequestV {
            request_id: self.request_id@,
            inputs: self.inputs@.map_values(|i: WireInput| i@),
        }
    }
}

} // verus!
