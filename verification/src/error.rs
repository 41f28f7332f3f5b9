//! The error type shared by both conversions.

use vstd::prelude::*;
use vstd::string::StringExecFns;

verus! {

/// Why an address could not be converted.
///
/// Every variant but [`ConversionError::UnsupportedVersion`] carries a
/// message: the codec's own words where a codec refused the input, a fixed
/// sentence where this crate did.
#[derive(Debug, PartialEq, Eq)]
pub enum ConversionError {
    /// The input has a character outside the alphabet or a malformed structure.
    InvalidEncoding(String),
    /// The checksum carried by the input does not match its contents.
    ChecksumMismatch(String),
    /// The payload is not 20 bytes long, or the string is outside the format's bounds.
    InvalidLength(String),
    /// The witness version of a SegWit address is not 0.
    UnsupportedVersion,
    /// The SegWit codec refused to decode, for a reason none of the kinds above covers.
    SegwitDecode(String),
    /// The SegWit codec refused to encode.
    SegwitEncode(String),
}

/// The mathematical value of a [`ConversionError`]: the same kinds, with each
/// message as a sequence of characters.
pub enum ConversionFailure {
    InvalidEncoding(Seq<char>),
    ChecksumMismatch(Seq<char>),
    InvalidLength(Seq<char>),
    UnsupportedVersion,
    SegwitDecode(Seq<char>),
    SegwitEncode(Seq<char>),
}

impl View for ConversionError {
    type V = ConversionFailure;

    open spec fn view(&self) -> ConversionFailure {
        match self {
            ConversionError::InvalidEncoding(m) => ConversionFailure::InvalidEncoding(m@),
            ConversionError::ChecksumMismatch(m) => ConversionFailure::ChecksumMismatch(m@),
            ConversionError::InvalidLength(m) => ConversionFailure::InvalidLength(m@),
            ConversionError::UnsupportedVersion => ConversionFailure::UnsupportedVersion,
            ConversionError::SegwitDecode(m) => ConversionFailure::SegwitDecode(m@),
            ConversionError::SegwitEncode(m) => ConversionFailure::SegwitEncode(m@),
        }
    }
}

/// The outcome of a conversion: an address, or why there is none.
pub type AddressOutcome = Result<Seq<char>, ConversionFailure>;

/// The outcome of taking a payload out of a decoded address.
pub type PayloadOutcome = Result<Seq<u8>, ConversionFailure>;

/// The mathematical value of a result held in memory.
pub open spec fn outcome_view<T: View>(r: Result<T, ConversionError>) -> Result<
    T::V,
    ConversionFailure,
> {
    match r {
        Ok(value) => Ok(value@),
        Err(e) => Err(e@),
    }
}

/// The message of the error that this crate reports for a payload that is
/// not 20 bytes long.
pub open spec fn payload_length_message() -> Seq<char> {
    "payload is not 20 bytes long"@
}

/// The error for a payload that is not 20 bytes long.
pub fn payload_length_error() -> (e: ConversionError)
    ensures
        e@ == ConversionFailure::InvalidLength(payload_length_message()),
{
    ConversionError::InvalidLength(String::from_str("payload is not 20 bytes long"))
}

impl ConversionFailure {
    /// The text that describes this failure: a heading for its kind, followed
    /// by the message it carries.
    pub open spec fn text(self) -> Seq<char> {
        match self {
            ConversionFailure::InvalidEncoding(m) => "Invalid encoding: "@ + m,
            ConversionFailure::ChecksumMismatch(m) => "Checksum mismatch: "@ + m,
            ConversionFailure::InvalidLength(m) => "Invalid length: "@ + m,
            ConversionFailure::UnsupportedVersion => "Unsupported version"@,
            ConversionFailure::SegwitDecode(m) => "Segwit decode error: "@ + m,
            ConversionFailure::SegwitEncode(m) => "Segwit encode error: "@ + m,
        }
    }
}

impl ConversionError {
    /// Renders the error as text.
    pub fn to_string(&self) -> (text: String)
        ensures
            text@ == self@.text(),
    {
        match self {
            ConversionError::InvalidEncoding(m) => String::from_str("Invalid encoding: ").concat(
                m.as_str(),
            ),
            ConversionError::ChecksumMismatch(m) => String::from_str("Checksum mismatch: ").concat(
                m.as_str(),
            ),
            ConversionError::InvalidLength(m) => String::from_str("Invalid length: ").concat(
                m.as_str(),
            ),
            ConversionError::UnsupportedVersion => String::from_str("Unsupported version"),
            ConversionError::SegwitDecode(m) => String::from_str("Segwit decode error: ").concat(
                m.as_str(),
            ),
            ConversionError::SegwitEncode(m) => String::from_str("Segwit encode error: ").concat(
                m.as_str(),
            ),
        }
    }
}

} // verus!
