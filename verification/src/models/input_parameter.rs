//! The fixed description of one field of the bar.

use super::encoding::Encoding;
use std::sync::Arc;
use vstd::prelude::*;

verus! {

/// Represents some piece of information that could be collected from the bar.
#[derive(Debug)]
pub struct InputParameter {
    /// Simple string identifier.
    pub name: Arc<str>,
    /// More detailed explanation of the data that is being collected.
    pub desc: Arc<str>,
    /// Serialized value to use if none is collected. It is handed on as it
    /// is: nothing holds it to the encoding.
    pub default: Arc<str>,
    /// Reports whether the data being requested is absolutely needed.
    pub required: bool,
    /// Describes the type of value collected.
    pub encoding: Encoding,
}

/// An [`InputParameter`] as plain values: its texts as character sequences.
pub ghost struct InputParameterView {
    pub name: Seq<char>,
    pub desc: Seq<char>,
    pub default: Seq<char>,
    pub required: bool,
    pub encoding: Encoding,
}

impl View for InputParameter {
    type V = InputParameterView;

    open spec fn view(&self) -> InputParameterView {
        InputParameterView {
            name: self.name@,
            desc: self.desc@,
            default: self.default@,
            required: self.required,
            encoding: self.encoding,
        }
    }
}

impl Clone for InputParameter {
    /// A copy that describes the same field, text for text. The texts are
    /// shared, not duplicated.
    fn clone(&self) -> (copy: Self)
        ensures
            copy == *self,
    {
        InputParameter {
            name: self.name.clone(),
            desc: self.desc.clone(),
            default: self.default.clone(),
            required: self.required,
            encoding: self.encoding,
        }
    }
}

} // verus!
