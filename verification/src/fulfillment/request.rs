use vstd::prelude::*;

use crate::fulfillment::execute::CommandBatchV;
use crate::fulfillment::execute::Execute;

verus! {

/// One decoded intent of a request. Only the EXECUTE intent carries a
/// payload in this core; other intent tags fail the decode.
#[derive(Debug, PartialEq, Eq)]
pub enum Input {
    Execute(Execute),
}

/// Abstract form of an `Input`.
pub enum InputV {
    Execute(Seq<CommandBatchV>),
}

impl View for Input {
    type V = InputV;

    open spec fn view(&self) -> InputV {
        match self {
            Input::Execute(e) => InputV::Execute(e@),
        }
    }
}

/// A decoded request: an opaque request identifier and its ordered intents.
///
/// Invariant established by the decoder: `inputs` is non-empty.
#[derive(Debug, PartialEq, Eq)]
pub struct Request {
    pub request_id: String,
    pub inputs: Vec<Input>,
}

/// Abstract form of a `Request`.
pub struct RequestV {
    pub request_id: Seq<char>,
    pub inputs: Seq<InputV>,
}

impl View for Request {
    type V = RequestV;

    open spec fn view(&self) -> RequestV {
        RequestV {
            request_id: self.request_id@,
            inputs: self.inputs@.map_values(|i: Input| i@),
        }
    }
}

} // verus!
