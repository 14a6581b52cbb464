//! The ways in which a time conversion is refused.

use vstd::prelude::*;

verus! {

/// Why a time or duration could not be converted.
///
/// Every conversion of this crate returns one of these as an ordinary value; none
/// of them panics.
#[derive(Debug, Clone, Copy, PartialEq, Eq, Structural)]
pub enum ConversionError {
    /// The host time lies before the Unix epoch.
    BeforeEpoch,
    /// The whole seconds do not fit in 32 signed bits.
    SecondsOverflow,
    /// The sub-second nanoseconds do not fit in 32 signed bits.
    NanosecondsOverflow,
    /// The bus value has a negative seconds field.
    NegativeSeconds,
    /// The bus value has a negative nanoseconds field.
    NegativeNanoseconds,
    /// The host type has no value that stands exactly for the bus value.
    HostRange,
}

impl ConversionError {
    /// The text of [`ConversionError::message`] for each variant.
    pub open spec fn message_text(self) -> Seq<char> {
        match self {
            ConversionError::BeforeEpoch => "host time lies before the Unix epoch"@,
            ConversionError::SecondsOverflow => "seconds do not fit in i32"@,
            ConversionError::NanosecondsOverflow => "nanoseconds do not fit in i32"@,
            ConversionError::NegativeSeconds => "negative seconds are not supported"@,
            ConversionError::NegativeNanoseconds => "negative nanoseconds are not supported"@,
            ConversionError::HostRange => "value is out of range for the host type"@,
        }
    }

    /// A short description of the failure, naming the field that caused it.
    pub fn message(&self) -> (text: &'static str)
        ensures
            text@ == self.message_text(),
    {
        match self {
            ConversionError::BeforeEpoch => "host time lies before the Unix epoch",
            ConversionError::SecondsOverflow => "seconds do not fit in i32",
            ConversionError::NanosecondsOverflow => "nanoseconds do not fit in i32",
            ConversionError::NegativeSeconds => "negative seconds are not supported",
            ConversionError::NegativeNanoseconds => "negative nanoseconds are not supported",
            ConversionError::HostRange => "value is out of range for the host type",
        }
    }
}

} // verus!
