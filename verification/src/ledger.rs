//! The ledger side: c32check addresses.
//!
//! A ledger address is the letter `S`, one base-32 character for the version
//! byte, and the base-32 digits of the payload followed by a four-byte
//! checksum. Encoding and decoding are done by the `c32address` crate; this
//! module names what that crate returns, and holds the rules that this crate
//! applies to it.

use vstd::prelude::*;
use c32address::AddressError;
use crate::error::{AddressOutcome, ConversionError, ConversionFailure, PayloadOutcome};
use crate::text::starts_with;

verus! {

/// The version byte of a mainnet single-signature ledger address.
pub const LEDGER_VERSION: u8 = 22;

/// The number of bytes in a HASH160 payload.
pub const PAYLOAD_LENGTH: usize = 20;

/// The kinds of failure that the ledger codec reports, one for each variant
/// of `c32address::AddressError`.
#[derive(Debug, Clone, Copy, PartialEq, Eq)]
pub enum LedgerFault {
    /// The payload handed to the encoder is not 20 bytes long.
    InvalidLength,
    /// The address is malformed: too short, without the leading `S`, with a
    /// character outside the alphabet, or with a checksum that does not match.
    InvalidFormat,
    /// The version handed to the encoder does not fit in one base-32 character.
    InvalidVersion,
    /// A failure of the legacy base-58 format.
    Base58,
}

/// What the ledger codec gives for a string: the version byte and the
/// payload, or the kind of failure and the codec's message.
pub type LedgerDecoding = Result<(u8, Seq<u8>), (LedgerFault, Seq<char>)>;

/// What the ledger codec gives for a version byte and a payload: the address,
/// or the kind of failure and the codec's message.
pub type LedgerEncoding = Result<Seq<char>, (LedgerFault, Seq<char>)>;

/// The result of `c32address::decode_address` on `address`.
pub uninterp spec fn ledger_decoding(address: Seq<char>) -> LedgerDecoding;

/// The result of `c32address::encode_address` on `version` and `payload`.
pub uninterp spec fn ledger_encoding(version: u8, payload: Seq<u8>) -> LedgerEncoding;

/// The mathematical value of a decoding result held in memory.
pub open spec fn decoded_view(r: Result<(u8, Vec<u8>), (LedgerFault, String)>) -> LedgerDecoding {
    match r {
        Ok((version, payload)) => Ok((version, payload@)),
        Err((fault, message)) => Err((fault, message@)),
    }
}

/// The mathematical value of an encoding result held in memory.
pub open spec fn encoded_view(r: Result<String, (LedgerFault, String)>) -> LedgerEncoding {
    match r {
        Ok(address) => Ok(address@),
        Err((fault, message)) => Err((fault, message@)),
    }
}

/// Calls `c32address::decode_address`.
///
/// Trusted: the result is the codec's decoding of `address`, with a failure
/// given as its variant and its displayed text.
#[verifier::external_body]
pub(crate) fn decode_address(address: &str) -> (r: Result<(u8, Vec<u8>), (LedgerFault, String)>)
    ensures
        decoded_view(r) == ledger_decoding(address@),
{
    match c32address::decode_address(address) {
        Ok((version, payload)) => Ok((version, payload)),
        Err(e) => Err((match &e {
            AddressError::InvalidLength(_) => LedgerFault::InvalidLength,
            AddressError::InvalidFormat(_) => LedgerFault::InvalidFormat,
            AddressError::InvalidVersion(_) => LedgerFault::InvalidVersion,
            AddressError::Base58Error(_) => LedgerFault::Base58,
        }, e.to_string())),
    }
}

/// Calls `c32address::encode_address`.
///
/// Trusted: the result is the codec's encoding of `version` and `payload`,
/// with a failure given as its variant and its displayed text. The codec
/// encodes every 20-byte payload under every version below 32, and what it
/// encodes it decodes back to the same version and payload.
#[verifier::external_body]
pub(crate) fn encode_address(version: u8, payload: &Vec<u8>) -> (r: Result<
    String,
    (LedgerFault, String),
>)
    ensures
        encoded_view(r) == ledger_encoding(version, payload@),
        version < 32 && payload@.len() == 20 ==> r is Ok,
        r matches Ok(address) ==> ledger_decoding(address@) == LedgerDecoding::Ok(
            (version, payload@),
        ),
{
    match c32address::encode_address(version, payload) {
        Ok(address) => Ok(address),
        Err(e) => Err((match &e {
            AddressError::InvalidLength(_) => LedgerFault::InvalidLength,
            AddressError::InvalidFormat(_) => LedgerFault::InvalidFormat,
            AddressError::InvalidVersion(_) => LedgerFault::InvalidVersion,
            AddressError::Base58Error(_) => LedgerFault::Base58,
        }, e.to_string())),
    }
}

/// How the codec's message begins when the checksum of an address does not
/// match: the heading of a malformed address, then that of the checksum.
pub const CHECKSUM_MESSAGE: &'static str = "Invalid address format: Checksum validation failed";

/// The codec's message for an address of fewer than five characters.
pub const TOO_SHORT_MESSAGE: &'static str = "Invalid address format: Address too short";

/// How the codec's message begins when an address is too short to hold a checksum.
pub const NOT_ENOUGH_DATA_MESSAGE: &'static str = "Invalid address format: Not enough data";

/// `message` is one that the codec gives for a checksum that does not match.
pub open spec fn reports_checksum(message: Seq<char>) -> bool {
    CHECKSUM_MESSAGE@.is_prefix_of(message)
}

/// `message` is one that the codec gives for an address that is too short.
pub open spec fn reports_length(message: Seq<char>) -> bool {
    TOO_SHORT_MESSAGE@.is_prefix_of(message) || NOT_ENOUGH_DATA_MESSAGE@.is_prefix_of(message)
}

/// The failure that this crate reports for a failure of the ledger codec.
pub open spec fn spec_ledger_failure(fault: LedgerFault, message: Seq<char>) -> ConversionFailure {
    match fault {
        LedgerFault::InvalidLength => ConversionFailure::InvalidLength(message),
        LedgerFault::InvalidFormat => if reports_checksum(message) {
            ConversionFailure::ChecksumMismatch(message)
        } else if reports_length(message) {
            ConversionFailure::InvalidLength(message)
        } else {
            ConversionFailure::InvalidEncoding(message)
        },
        LedgerFault::InvalidVersion => ConversionFailure::InvalidEncoding(message),
        LedgerFault::Base58 => ConversionFailure::InvalidEncoding(message),
    }
}

/// Maps a failure of the ledger codec to this crate's error.
///
/// The codec reports every address that it refuses as malformed and tells
/// the reasons apart only in its message, so a checksum that does not match
/// and an address that is too short are recognised by the way the message
/// begins: the first is a checksum mismatch, the second an invalid length.
/// Any other malformed address, a version out of range and a base-58 failure
/// are an invalid encoding; a payload of the wrong length is an invalid
/// length.
pub fn ledger_failure(fault: LedgerFault, message: String) -> (e: ConversionError)
    ensures
        e@ == spec_ledger_failure(fault, message@),
{
    match fault {
        LedgerFault::InvalidLength => ConversionError::InvalidLength(message),
        LedgerFault::InvalidFormat => {
            if starts_with(message.as_str(), CHECKSUM_MESSAGE) {
                ConversionError::ChecksumMismatch(message)
            } else if starts_with(message.as_str(), TOO_SHORT_MESSAGE) || starts_with(
                message.as_str(),
                NOT_ENOUGH_DATA_MESSAGE,
            ) {
                ConversionError::InvalidLength(message)
            } else {
                ConversionError::InvalidEncoding(message)
            }
        },
        LedgerFault::InvalidVersion => ConversionError::InvalidEncoding(message),
        LedgerFault::Base58 => ConversionError::InvalidEncoding(message),
    }
}

/// The payload that a decoding yields for conversion: the payload of the
/// address when it is 20 bytes long, whatever the version byte.
pub open spec fn spec_ledger_payload(decoding: LedgerDecoding) -> PayloadOutcome {
    match decoding {
        Err((fault, message)) => Err(spec_ledger_failure(fault, message)),
        Ok((_, payload)) => if payload.len() != PAYLOAD_LENGTH {
            Err(ConversionFailure::InvalidLength(crate::error::payload_length_message()))
        } else {
            Ok(payload)
        },
    }
}

/// Takes the payload out of a decoding result.
///
/// A failure of the codec is mapped by [`ledger_failure`]. The version byte
/// is not examined: a SegWit version-0 address has no account type to keep
/// it in. A payload that is not 20 bytes long is refused as an invalid length.
pub fn ledger_payload(decoded: Result<(u8, Vec<u8>), (LedgerFault, String)>) -> (r: Result<
    Vec<u8>,
    ConversionError,
>)
    ensures
        crate::error::outcome_view(r) == spec_ledger_payload(decoded_view(decoded)),
{
    match decoded {
        Err((fault, message)) => Err(ledger_failure(fault, message)),
        Ok((_, payload)) => {
            if payload.len() != PAYLOAD_LENGTH {
                Err(crate::error::payload_length_error())
            } else {
                Ok(payload)
            }
        },
    }
}

/// The outcome of a conversion whose last step is the ledger encoder.
pub open spec fn spec_ledger_address(encoding: LedgerEncoding) -> AddressOutcome {
    match encoding {
        Ok(address) => Ok(address),
        Err((fault, message)) => Err(spec_ledger_failure(fault, message)),
    }
}

/// Turns the encoder's result into the result of a conversion: the address,
/// or the encoder's failure as mapped by [`ledger_failure`].
pub fn ledger_address(encoded: Result<String, (LedgerFault, String)>) -> (r: Result<
    String,
    ConversionError,
>)
    ensures
        crate::error::outcome_view(r) == spec_ledger_address(encoded_view(encoded)),
{
    match encoded {
        Ok(address) => Ok(address),
        Err((fault, message)) => Err(ledger_failure(fault, message)),
    }
}

} // verus!
