//! The two conversions, and what holds of them together.

use vstd::prelude::*;
use crate::error::{outcome_view, AddressOutcome, ConversionError, ConversionFailure};
use crate::ledger::{
    ledger_decoding, ledger_encoding, spec_ledger_address, spec_ledger_failure,
    spec_ledger_payload, LedgerDecoding, LedgerEncoding, LEDGER_VERSION, PAYLOAD_LENGTH,
};
use crate::segwit::{
    mainnet_hrp, segwit_decoding, segwit_encoding, spec_decode_failure, spec_segwit_address,
    spec_witness_payload, SegwitDecoding, SegwitEncoding, SegwitFault, MAINNET_HRP,
    WITNESS_VERSION,
};
use crate::text::{ascii_lowercase, has_uppercase, is_mixed_case};

verus! {

/// The SegWit address of a ledger address: the mainnet version-0 encoding of
/// its payload, provided that the ledger codec decodes it to 20 bytes.
pub open spec fn spec_stx2btc(address: Seq<char>) -> AddressOutcome {
    match spec_ledger_payload(ledger_decoding(address)) {
        Ok(payload) => spec_segwit_address(segwit_encoding(mainnet_hrp(), payload)),
        Err(failure) => Err(failure),
    }
}

/// The ledger address of a SegWit address: the encoding of its program under
/// the mainnet single-signature version, provided that the SegWit decoder
/// decodes it to version 0 and 20 bytes.
pub open spec fn spec_btc2stx(address: Seq<char>) -> AddressOutcome {
    match spec_witness_payload(segwit_decoding(address)) {
        Ok(payload) => spec_ledger_address(ledger_encoding(LEDGER_VERSION, payload)),
        Err(failure) => Err(failure),
    }
}

/// `address` is what the ledger encoder writes for the 20-byte payload that
/// it holds, under the mainnet single-signature version.
pub open spec fn is_mainnet_ledger_address(address: Seq<char>) -> bool {
    ledger_decoding(address) matches Ok((version, payload)) && version == LEDGER_VERSION
        && payload.len() == PAYLOAD_LENGTH && ledger_encoding(version, payload)
        == LedgerEncoding::Ok(address)
}

/// `address` is what the SegWit encoder writes for the 20-byte version-0
/// program that it holds, under the mainnet prefix.
pub open spec fn is_mainnet_segwit_address(address: Seq<char>) -> bool {
    segwit_decoding(address) matches Ok((hrp, version, program)) && hrp == mainnet_hrp()
        && version == WITNESS_VERSION && program.len() == PAYLOAD_LENGTH && segwit_encoding(
        hrp,
        program,
    ) == SegwitEncoding::Ok(address)
}

/// The prefix and the separator that begin every mainnet address.
pub open spec fn mainnet_lead() -> Seq<char> {
    seq!['b', 'c', '1']
}

/// Converts a ledger address to the mainnet SegWit version-0 address with
/// the same 20-byte payload.
///
/// The result is exactly [`spec_stx2btc`]: a failure of the ledger decoder
/// comes back as this crate's error for it, a payload that is not 20 bytes
/// long as an invalid length, and the version byte of the address is not
/// examined. The conversion succeeds on every address that decodes to 20
/// bytes.
///
/// The address returned is in lower case, begins with `bc1`, and is read by
/// the SegWit decoder as the mainnet prefix, version 0 and the payload of
/// the ledger address. A mainnet ledger address, as the encoder writes it,
/// therefore comes back unchanged when the address returned is converted
/// back.
pub fn stx2btc(stx_address: &str) -> (r: Result<String, ConversionError>)
    ensures
        outcome_view(r) == spec_stx2btc(stx_address@),
        r is Ok <==> (ledger_decoding(stx_address@) matches Ok((_, payload)) && payload.len()
            == PAYLOAD_LENGTH),
        r matches Ok(btc_address) ==> !has_uppercase(btc_address@) && mainnet_lead().is_prefix_of(
            btc_address@,
        ),
        r matches Ok(btc_address) ==> (ledger_decoding(stx_address@) matches Ok((_, payload))
            && segwit_decoding(btc_address@) == SegwitDecoding::Ok(
            (mainnet_hrp(), WITNESS_VERSION, payload),
        )),
        is_mainnet_ledger_address(stx_address@) ==> (r matches Ok(btc_address) && spec_btc2stx(
            btc_address@,
        ) == AddressOutcome::Ok(stx_address@)),
{
    let decoded = crate::ledger::decode_address(stx_address);
    match crate::ledger::ledger_payload(decoded) {
        Err(e) => Err(e),
        Ok(payload) => {
            proof {
                reveal_strlit("bc");
                assert(MAINNET_HRP@ =~= mainnet_hrp());
                assert(!has_uppercase(mainnet_hrp()));
                assert(ascii_lowercase(mainnet_hrp()) + seq!['1'] =~= mainnet_lead());
            }
            let encoded = crate::segwit::encode_v0(MAINNET_HRP, &payload);
            crate::segwit::segwit_address(encoded)
        },
    }
}

/// Converts a SegWit address to the mainnet single-signature ledger address
/// with the same 20-byte payload.
///
/// The result is exactly [`spec_btc2stx`]: a failure of the SegWit decoder
/// comes back as this crate's error for it, a witness version other than 0
/// as unsupported, and a version-0 program that is not 20 bytes long as an
/// invalid length. The prefix of the address is not examined. The
/// conversion succeeds on every address that decodes to version 0 and 20
/// bytes, and is refused as unsupported on every address that decodes to a
/// version from 1 to 16.
///
/// An address with letters of both cases is refused, as an invalid encoding
/// or an invalid length. An address that the decoder accepts gives the same
/// result once every letter is put in lower case.
///
/// The address returned is read by the ledger decoder as the mainnet
/// single-signature version and the program of the SegWit address. A
/// mainnet version-0 address, as the encoder writes it, therefore comes back
/// unchanged when the address returned is converted back.
pub fn btc2stx(btc_address: &str) -> (r: Result<String, ConversionError>)
    ensures
        outcome_view(r) == spec_btc2stx(btc_address@),
        r is Ok <==> (segwit_decoding(btc_address@) matches Ok((_, version, program)) && version
            == WITNESS_VERSION && program.len() == PAYLOAD_LENGTH),
        (r matches Err(e) && e@ is UnsupportedVersion) <==> (segwit_decoding(btc_address@)
            matches Ok((_, version, _)) && 1 <= version <= 16),
        is_mixed_case(btc_address@) ==> (r matches Err(e) && (e@ is InvalidEncoding
            || e@ is InvalidLength)),
        segwit_decoding(btc_address@) is Ok ==> outcome_view(r) == spec_btc2stx(
            ascii_lowercase(btc_address@),
        ),
        r matches Ok(stx_address) ==> (segwit_decoding(btc_address@) matches Ok((_, _, program))
            && ledger_decoding(stx_address@) == LedgerDecoding::Ok((LEDGER_VERSION, program))),
        is_mainnet_segwit_address(btc_address@) ==> (r matches Ok(stx_address) && spec_stx2btc(
            stx_address@,
        ) == AddressOutcome::Ok(btc_address@)),
{
    let decoded = crate::segwit::decode(btc_address);
    match crate::segwit::witness_payload(decoded) {
        Err(e) => Err(e),
        Ok(payload) => {
            let encoded = crate::ledger::encode_address(LEDGER_VERSION, &payload);
            crate::ledger::ledger_address(encoded)
        },
    }
}

/// A SegWit address with a witness version from 1 to 16 is refused as
/// unsupported, whatever its prefix and its program.
pub proof fn lemma_later_witness_versions_unsupported(address: Seq<char>)
    requires
        segwit_decoding(address) matches Ok((_, version, _)) && 1 <= version <= 16,
    ensures
        spec_btc2stx(address) == AddressOutcome::Err(ConversionFailure::UnsupportedVersion),
{
}

/// A version-0 SegWit address whose program is not 20 bytes long, such as
/// one that holds a 32-byte script hash, is refused as an invalid length.
pub proof fn lemma_other_program_lengths_refused(address: Seq<char>)
    requires
        segwit_decoding(address) matches Ok((_, version, program)) && version == WITNESS_VERSION
            && program.len() != PAYLOAD_LENGTH,
    ensures
        spec_btc2stx(address) == AddressOutcome::Err(
            ConversionFailure::InvalidLength(crate::error::payload_length_message()),
        ),
{
}

/// A ledger address whose payload is not 20 bytes long is refused as an
/// invalid length.
pub proof fn lemma_other_payload_lengths_refused(address: Seq<char>)
    requires
        ledger_decoding(address) matches Ok((_, payload)) && payload.len() != PAYLOAD_LENGTH,
    ensures
        spec_stx2btc(address) == AddressOutcome::Err(
            ConversionFailure::InvalidLength(crate::error::payload_length_message()),
        ),
{
}

/// A ledger address that converts holds exactly 20 bytes, and what comes
/// out is the encoding of those bytes, none added and none taken away.
pub proof fn lemma_stx2btc_payload(address: Seq<char>)
    requires
        spec_stx2btc(address) is Ok,
    ensures
        ledger_decoding(address) matches Ok((_, payload)) && payload.len() == PAYLOAD_LENGTH
            && segwit_encoding(mainnet_hrp(), payload) == SegwitEncoding::Ok(
            spec_stx2btc(address)->Ok_0,
        ),
{
}

/// A SegWit address that converts holds version 0 and exactly 20 bytes, and
/// what comes out is the encoding of those bytes under the mainnet ledger
/// version, none added and none taken away.
pub proof fn lemma_btc2stx_payload(address: Seq<char>)
    requires
        spec_btc2stx(address) is Ok,
    ensures
        segwit_decoding(address) matches Ok((_, version, program)) && version == WITNESS_VERSION
            && program.len() == PAYLOAD_LENGTH && ledger_encoding(LEDGER_VERSION, program)
            == LedgerEncoding::Ok(spec_btc2stx(address)->Ok_0),
{
}

/// The conversion of a SegWit address goes by its witness version and its
/// program alone: two addresses that decode to the same version and program,
/// such as an address and its upper-case form, or the addresses of one
/// program on two networks, convert to the same result.
pub proof fn lemma_btc2stx_by_version_and_program(first: Seq<char>, second: Seq<char>)
    requires
        segwit_decoding(first) matches Ok((_, version, program)) && segwit_decoding(second)
            matches Ok((_, other_version, other_program)) && version == other_version && program
            == other_program,
    ensures
        spec_btc2stx(first) == spec_btc2stx(second),
{
}

/// The conversion of a ledger address goes by its payload alone: two
/// addresses that decode to the same payload, whatever their version bytes,
/// convert to the same result.
pub proof fn lemma_stx2btc_by_payload(first: Seq<char>, second: Seq<char>)
    requires
        ledger_decoding(first) matches Ok((_, payload)) && ledger_decoding(second) matches Ok(
            (_, other_payload),
        ) && payload == other_payload,
    ensures
        spec_stx2btc(first) == spec_stx2btc(second),
{
}

/// A string that the ledger decoder refuses is never converted: the
/// conversion fails with this crate's error for the decoder's failure.
pub proof fn lemma_ledger_refusal_propagates(address: Seq<char>)
    requires
        ledger_decoding(address) is Err,
    ensures
        ledger_decoding(address) matches Err((fault, message)) && spec_stx2btc(address)
            == AddressOutcome::Err(spec_ledger_failure(fault, message)),
{
}

/// A string that the SegWit decoder refuses is never converted: the
/// conversion fails with this crate's error for the decoder's failure, which
/// is a checksum mismatch where the decoder found the checksum wrong, and an
/// invalid encoding where it could not parse the string.
pub proof fn lemma_segwit_refusal_propagates(address: Seq<char>)
    requires
        segwit_decoding(address) is Err,
    ensures
        segwit_decoding(address) matches Err((fault, message)) && spec_btc2stx(address)
            == AddressOutcome::Err(spec_decode_failure(fault, message)) && (fault
            == SegwitFault::Checksum ==> spec_btc2stx(address)
            == AddressOutcome::Err(ConversionFailure::ChecksumMismatch(message))) && (fault
            == SegwitFault::Unchecked ==> spec_btc2stx(address)
            == AddressOutcome::Err(ConversionFailure::InvalidEncoding(message))),
{
}

} // verus!
