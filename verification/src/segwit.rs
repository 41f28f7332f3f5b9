//! The chain side: bech32 SegWit addresses.
//!
//! A SegWit address is a human-readable prefix, the separator `1`, one
//! character for the witness version, the witness program in groups of five
//! bits, and a six-character checksum. Encoding and decoding are done by the
//! `bech32` crate; this module names what that crate returns, and holds the
//! rules that this crate applies to it.

use vstd::prelude::*;
use bech32::primitives::decode::SegwitHrpstringError;
use crate::error::{AddressOutcome, ConversionError, ConversionFailure, PayloadOutcome};
use crate::ledger::PAYLOAD_LENGTH;
use crate::text::{ascii_lowercase, has_uppercase, is_mixed_case};

verus! {

/// The witness version this crate converts.
pub const WITNESS_VERSION: u8 = 0;

/// The human-readable prefix of a mainnet address.
pub const MAINNET_HRP: &'static str = "bc";

/// The characters of [`MAINNET_HRP`].
pub open spec fn mainnet_hrp() -> Seq<char> {
    seq!['b', 'c']
}

/// The kinds of failure that the SegWit decoder reports, one for each variant
/// of `bech32::primitives::decode::SegwitHrpstringError`.
#[derive(Debug, Clone, Copy, PartialEq, Eq)]
pub enum SegwitFault {
    /// The string could not be parsed: no separator, a character outside the
    /// alphabet, letters of both cases, or an invalid prefix.
    Unchecked,
    /// Nothing is left of the data part once the checksum is taken off.
    NoData,
    /// The string is longer than 90 bytes.
    TooLong,
    /// The witness version is above 16.
    InvalidWitnessVersion,
    /// The bits that pad the program to whole groups of five are too many or not zero.
    Padding,
    /// The length of the program is not one that its witness version allows.
    WitnessLength,
    /// The checksum does not match.
    Checksum,
    /// A failure that the decoder did not have when this list was written.
    Other,
}

/// What the SegWit decoder gives for a string: the prefix in lower case, the
/// witness version and the witness program, or the kind of failure and the
/// decoder's message.
pub type SegwitDecoding = Result<(Seq<char>, u8, Seq<u8>), (SegwitFault, Seq<char>)>;

/// What the SegWit encoder gives for a prefix and a program: the address, or
/// the encoder's message.
pub type SegwitEncoding = Result<Seq<char>, Seq<char>>;

/// The result of `bech32::segwit::decode` on `address`.
pub uninterp spec fn segwit_decoding(address: Seq<char>) -> SegwitDecoding;

/// The result of `bech32::segwit::encode_v0` on the prefix `hrp`, as parsed by
/// `bech32::Hrp::parse`, and on `program`.
pub uninterp spec fn segwit_encoding(hrp: Seq<char>, program: Seq<u8>) -> SegwitEncoding;

/// The mathematical value of a decoding result held in memory.
pub open spec fn decoded_view(
    r: Result<(String, u8, Vec<u8>), (SegwitFault, String)>,
) -> SegwitDecoding {
    match r {
        Ok((hrp, version, program)) => Ok((hrp@, version, program@)),
        Err((fault, message)) => Err((fault, message@)),
    }
}

/// The mathematical value of an encoding result held in memory.
pub open spec fn encoded_view(r: Result<String, String>) -> SegwitEncoding {
    match r {
        Ok(address) => Ok(address@),
        Err(message) => Err(message@),
    }
}

/// The lengths that a witness program of a given version may have: 2 to 40
/// bytes under a version up to 16, and 20 or 32 bytes under version 0.
pub open spec fn is_witness_program(version: u8, length: nat) -> bool {
    &&& version <= 16
    &&& 2 <= length <= 40
    &&& version == 0 ==> length == 20 || length == 32
}

/// The two failures that the decoder reports before it looks at the
/// checksum: a string that is too long, and one that cannot be parsed.
pub open spec fn is_shape_fault(fault: SegwitFault) -> bool {
    fault == SegwitFault::TooLong || fault == SegwitFault::Unchecked
}

/// Calls `bech32::segwit::decode`.
///
/// Trusted: the result is the decoder's decoding of `address`, with the
/// prefix in lower case and a failure given as its variant and its displayed
/// text. What it decodes has a valid witness version and program length. It
/// refuses a string with letters of both cases, as too long or as unparsable.
/// What it decodes, it decodes the same once every letter is put in lower case.
#[verifier::external_body]
pub(crate) fn decode(address: &str) -> (r: Result<(String, u8, Vec<u8>), (SegwitFault, String)>)
    ensures
        decoded_view(r) == segwit_decoding(address@),
        r matches Ok((_, version, program)) ==> is_witness_program(version, program@.len()),
        is_mixed_case(address@) ==> r is Err,
        r matches Err((fault, _)) ==> (is_mixed_case(address@) ==> is_shape_fault(fault)),
        r matches Ok((hrp, version, program)) ==> segwit_decoding(ascii_lowercase(address@))
            == SegwitDecoding::Ok((hrp@, version, program@)),
{
    match bech32::segwit::decode(address) {
        Ok((hrp, version, program)) => Ok((hrp.to_lowercase(), version.to_u8(), program)),
        Err(e) => Err((match &e.0 {
            SegwitHrpstringError::Unchecked(_) => SegwitFault::Unchecked,
            SegwitHrpstringError::NoData => SegwitFault::NoData,
            SegwitHrpstringError::TooLong(_) => SegwitFault::TooLong,
            SegwitHrpstringError::InvalidWitnessVersion(_) => SegwitFault::InvalidWitnessVersion,
            SegwitHrpstringError::Padding(_) => SegwitFault::Padding,
            SegwitHrpstringError::WitnessLength(_) => SegwitFault::WitnessLength,
            SegwitHrpstringError::Checksum(_) => SegwitFault::Checksum,
            _ => SegwitFault::Other,
        }, e.to_string())),
    }
}

/// Calls `bech32::segwit::encode_v0`, with the prefix parsed by `bech32::Hrp::parse`.
///
/// Trusted: the result is the encoder's encoding of `program` under `hrp`,
/// with a failure of either call given as its displayed text. The encoder
/// encodes every 20-byte program under the mainnet prefix. What it encodes is
/// in lower case and begins with the prefix and the separator, and, for a
/// prefix without upper-case letters, decodes back to that prefix, version 0
/// and the same program.
#[verifier::external_body]
pub(crate) fn encode_v0(hrp: &str, program: &Vec<u8>) -> (r: Result<String, String>)
    ensures
        encoded_view(r) == segwit_encoding(hrp@, program@),
        hrp@ == mainnet_hrp() && program@.len() == 20 ==> r is Ok,
        r matches Ok(address) ==> !has_uppercase(address@) && (ascii_lowercase(hrp@) + seq![
            '1',
        ]).is_prefix_of(address@),
        r matches Ok(address) ==> (!has_uppercase(hrp@) ==> segwit_decoding(address@)
            == SegwitDecoding::Ok((hrp@, 0u8, program@))),
{
    match bech32::Hrp::parse(hrp) {
        Ok(prefix) => match bech32::segwit::encode_v0(prefix, program) {
            Ok(address) => Ok(address),
            Err(e) => Err(e.to_string()),
        },
        Err(e) => Err(e.to_string()),
    }
}

/// The failure that this crate reports for a failure of the SegWit decoder.
pub open spec fn spec_decode_failure(fault: SegwitFault, message: Seq<char>) -> ConversionFailure {
    match fault {
        SegwitFault::Unchecked => ConversionFailure::InvalidEncoding(message),
        SegwitFault::NoData => ConversionFailure::InvalidEncoding(message),
        SegwitFault::InvalidWitnessVersion => ConversionFailure::InvalidEncoding(message),
        SegwitFault::TooLong => ConversionFailure::InvalidLength(message),
        SegwitFault::WitnessLength => ConversionFailure::InvalidLength(message),
        SegwitFault::Checksum => ConversionFailure::ChecksumMismatch(message),
        SegwitFault::Padding => ConversionFailure::SegwitDecode(message),
        SegwitFault::Other => ConversionFailure::SegwitDecode(message),
    }
}

/// Maps a failure of the SegWit decoder to this crate's error: a string that
/// cannot be parsed, has no data or has a witness version above 16 is an
/// invalid encoding; a string or a program of the wrong length is an invalid
/// length; a failed checksum is a checksum mismatch; anything else is kept as
/// a decode error.
pub fn decode_failure(fault: SegwitFault, message: String) -> (e: ConversionError)
    ensures
        e@ == spec_decode_failure(fault, message@),
{
    match fault {
        SegwitFault::Unchecked => ConversionError::InvalidEncoding(message),
        SegwitFault::NoData => ConversionError::InvalidEncoding(message),
        SegwitFault::InvalidWitnessVersion => ConversionError::InvalidEncoding(message),
        SegwitFault::TooLong => ConversionError::InvalidLength(message),
        SegwitFault::WitnessLength => ConversionError::InvalidLength(message),
        SegwitFault::Checksum => ConversionError::ChecksumMismatch(message),
        SegwitFault::Padding => ConversionError::SegwitDecode(message),
        SegwitFault::Other => ConversionError::SegwitDecode(message),
    }
}

/// The program that a decoding yields for conversion: the program of a
/// version-0 address when it is 20 bytes long.
pub open spec fn spec_witness_payload(decoding: SegwitDecoding) -> PayloadOutcome {
    match decoding {
        Err((fault, message)) => Err(spec_decode_failure(fault, message)),
        Ok((_, version, program)) => if version != WITNESS_VERSION {
            Err(ConversionFailure::UnsupportedVersion)
        } else if program.len() != PAYLOAD_LENGTH {
            Err(ConversionFailure::InvalidLength(crate::error::payload_length_message()))
        } else {
            Ok(program)
        },
    }
}

/// Takes the payload out of a decoding result.
///
/// A failure of the decoder is mapped by [`decode_failure`]. A witness
/// version other than 0 is refused as unsupported, whatever the program; a
/// version-0 program that is not 20 bytes long is refused as an invalid length.
pub fn witness_payload(decoded: Result<(String, u8, Vec<u8>), (SegwitFault, String)>) -> (r: Result<
    Vec<u8>,
    ConversionError,
>)
    ensures
        crate::error::outcome_view(r) == spec_witness_payload(decoded_view(decoded)),
{
    match decoded {
        Err((fault, message)) => Err(decode_failure(fault, message)),
        Ok((_, version, program)) => {
            if version != WITNESS_VERSION {
                Err(ConversionError::UnsupportedVersion)
            } else if program.len() != PAYLOAD_LENGTH {
                Err(crate::error::payload_length_error())
            } else {
                Ok(program)
            }
        },
    }
}

/// The outcome of a conversion whose last step is the SegWit encoder.
pub open spec fn spec_segwit_address(encoding: SegwitEncoding) -> AddressOutcome {
    match encoding {
        Ok(address) => Ok(address),
        Err(message) => Err(ConversionFailure::SegwitEncode(message)),
    }
}

/// Turns the encoder's result into the result of a conversion: the address,
/// or its message as an encode error.
pub fn segwit_address(encoded: Result<String, String>) -> (r: Result<String, ConversionError>)
    ensures
        crate::error::outcome_view(r) == spec_segwit_address(encoded_view(encoded)),
{
    match encoded {
        Ok(address) => Ok(address),
        Err(message) => Err(ConversionError::SegwitEncode(message)),
    }
}

} // verus!
