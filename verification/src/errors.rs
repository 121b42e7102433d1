//! The error taxonomy of a conversion run. Every failure is terminal for the
//! run and carries a fixed one-line diagnostic.

use vstd::prelude::*;
use crate::formats::Format;

verus! {

/// Everything that can go wrong while resolving a run or converting a
/// document.
#[derive(Clone, Copy, Debug, PartialEq, Eq, Structural)]
pub enum ConvError {
    /// Neither an explicit format nor a recognized file extension was
    /// available where a format was needed.
    UnsupportedFormat,
    /// The argument list is too short for the resolved I/O mode.
    MissingArguments,
    /// Input comes from a pipe, so the source format must be given
    /// explicitly, and it was not.
    MissingSourceFormat,
    /// The input text is not a well-formed document of the named format.
    Invalid(Format),
    /// The decoded value cannot be represented in the target format, such as
    /// a non-mapping top level handed to TOML or XML.
    Unrepresentable,
}

impl ConvError {
    /// The diagnostic line shown to the user for this error.
    pub open spec fn spec_message(self) -> Seq<char> {
        match self {
            ConvError::UnsupportedFormat => "File type not supported"@,
            ConvError::MissingArguments => "You must specify a source and a target file!"@,
            ConvError::MissingSourceFormat => "You must specify the source format when reading from stdin"@,
            ConvError::Invalid(Format::Json) => "Invalid JSON"@,
            ConvError::Invalid(Format::Yaml) => "Invalid YAML"@,
            ConvError::Invalid(Format::Toml) => "Invalid TOML"@,
            ConvError::Invalid(Format::Xml) => "Invalid XML"@,
            ConvError::Unrepresentable => "Could not serialize: value not representable in the target format"@,
        }
    }

    /// Returns the diagnostic line for this error.
    pub fn message(&self) -> (r: &'static str)
        ensures
            r@ == self.spec_message(),
    {
        match self {
            ConvError::UnsupportedFormat => "File type not supported",
            ConvError::MissingArguments => "You must specify a source and a target file!",
            ConvError::MissingSourceFormat => "You must specify the source format when reading from stdin",
            ConvError::Invalid(Format::Json) => "Invalid JSON",
            ConvError::Invalid(Format::Yaml) => "Invalid YAML",
            ConvError::Invalid(Format::Toml) => "Invalid TOML",
            ConvError::Invalid(Format::Xml) => "Invalid XML",
            ConvError::Unrepresentable => "Could not serialize: value not representable in the target format",
        }
    }
}

} // verus!
