//! The errors that planning, parsing and reconfiguration report.

use vstd::prelude::*;
use vstd::string::StringExecFns;

verus! {

/// Why a flow could not be planned, or a command not applied.
#[derive(Clone, Debug, PartialEq, Eq)]
pub enum Error {
    /// A stage type is not available.
    MissingElement(&'static str),
    /// A stage refused a setting.
    InvalidProperty(&'static str),
    /// A signal of a stage could not be connected.
    ConnectSignal(&'static str),
    /// A stage could not be added to its pipeline.
    PipelineAdd(),
    /// A matrix crop definition is malformed or out of range.
    InvalidCrop(),
    /// A field does not hold an unsigned integer of the size asked for.
    ParseInt(),
    /// An integer does not fit the type it is converted to.
    TryFromInt(),
    /// A command frame is not UTF-8.
    InvalidUtf8(),
    /// Any other error.
    Other(&'static str),
}

impl Error {
    /// The text that `to_string` gives for an error.
    pub open spec fn text(self) -> Seq<char> {
        match self {
            Error::MissingElement(e) => "missing element: "@ + e@,
            Error::InvalidProperty(e) => "invalid property: "@ + e@,
            Error::ConnectSignal(e) => "connect signal: "@ + e@,
            Error::PipelineAdd() => "pipeline add"@,
            Error::InvalidCrop() => "invalid crop"@,
            Error::ParseInt() => "parse int"@,
            Error::TryFromInt() => "try_from int"@,
            Error::InvalidUtf8() => "utf-8"@,
            Error::Other(e) => "\""@ + e@ + "\""@,
        }
    }

    /// Describes the error in words.
    pub fn to_string(&self) -> (r: String)
        ensures
            r@ == self.text(),
    {
        match self {
            Error::MissingElement(e) => String::from_str("missing element: ").concat(e),
            Error::InvalidProperty(e) => String::from_str("invalid property: ").concat(e),
            Error::ConnectSignal(e) => String::from_str("connect signal: ").concat(e),
            Error::PipelineAdd() => String::from_str("pipeline add"),
            Error::InvalidCrop() => String::from_str("invalid crop"),
            Error::ParseInt() => String::from_str("parse int"),
            Error::TryFromInt() => String::from_str("try_from int"),
            Error::InvalidUtf8() => String::from_str("utf-8"),
            Error::Other(e) => String::from_str("\"").concat(e).concat("\""),
        }
    }
}

} // verus!
