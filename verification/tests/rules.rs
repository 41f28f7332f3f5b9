use stx2btc::ledger::{ledger_address, ledger_failure, ledger_payload, LedgerFault};
use stx2btc::segwit::{decode_failure, segwit_address, witness_payload, SegwitFault};
use stx2btc::text::starts_with;
use stx2btc::ConversionError;

fn hash160() -> Vec<u8> {
    vec![
        0xb6, 0x08, 0x14, 0xc8, 0x78, 0x81, 0x70, 0xf5, 0x98, 0xd1, 0x07, 0xde, 0xa2, 0xe3, 0x16,
        0xc4, 0xdb, 0x52, 0x9e, 0x7c,
    ]
}

fn too_short_or_long() -> ConversionError {
    ConversionError::InvalidLength("payload is not 20 bytes long".to_string())
}

#[test]
fn error_text_has_heading_and_message() {
    assert_eq!(
        ConversionError::InvalidEncoding("no separator".to_string()).to_string(),
        "Invalid encoding: no separator"
    );
    assert_eq!(
        ConversionError::ChecksumMismatch("residue".to_string()).to_string(),
        "Checksum mismatch: residue"
    );
    assert_eq!(
        ConversionError::InvalidLength("21 bytes".to_string()).to_string(),
        "Invalid length: 21 bytes"
    );
    assert_eq!(
        ConversionError::UnsupportedVersion.to_string(),
        "Unsupported version"
    );
    assert_eq!(
        ConversionError::SegwitDecode("padding".to_string()).to_string(),
        "Segwit decode error: padding"
    );
    assert_eq!(
        ConversionError::SegwitEncode("witness length".to_string()).to_string(),
        "Segwit encode error: witness length"
    );
    assert_eq!(
        ConversionError::SegwitDecode(String::new()).to_string(),
        "Segwit decode error: "
    );
}

#[test]
fn starts_with_compares_character_by_character() {
    assert!(starts_with("Checksum validation failed: computed", "Checksum"));
    assert!(starts_with("Checksum", "Checksum"));
    assert!(starts_with("Checksum", ""));
    assert!(starts_with("", ""));
    assert!(!starts_with("Check", "Checksum"));
    assert!(!starts_with("", "C"));
    assert!(!starts_with("checksum", "Checksum"));
    assert!(!starts_with("Checksun validation", "Checksum"));
    assert!(starts_with("\u{e9}t\u{e9} 1", "\u{e9}t\u{e9}"));
    assert!(!starts_with("\u{e9}t\u{e9}", "\u{e8}"));
}

#[test]
fn ledger_failure_goes_by_fault_and_message() {
    assert_eq!(
        ledger_failure(LedgerFault::InvalidLength, "19".to_string()),
        ConversionError::InvalidLength("19".to_string())
    );
    assert_eq!(
        ledger_failure(LedgerFault::InvalidVersion, "32".to_string()),
        ConversionError::InvalidEncoding("32".to_string())
    );
    assert_eq!(
        ledger_failure(LedgerFault::Base58, "base".to_string()),
        ConversionError::InvalidEncoding("base".to_string())
    );
    assert_eq!(
        ledger_failure(
            LedgerFault::InvalidFormat,
            "Invalid address format: Address too short".to_string()
        ),
        ConversionError::InvalidLength("Invalid address format: Address too short".to_string())
    );
    assert_eq!(
        ledger_failure(
            LedgerFault::InvalidFormat,
            "Invalid address format: Not enough data: received '3' bytes".to_string()
        ),
        ConversionError::InvalidLength(
            "Invalid address format: Not enough data: received '3' bytes".to_string()
        )
    );
    assert_eq!(
        ledger_failure(
            LedgerFault::InvalidFormat,
            "Invalid address format: Address must start with 'S'".to_string()
        ),
        ConversionError::InvalidEncoding(
            "Invalid address format: Address must start with 'S'".to_string()
        )
    );
    assert_eq!(
        ledger_failure(LedgerFault::InvalidFormat, "Address too short".to_string()),
        ConversionError::InvalidEncoding("Address too short".to_string())
    );
    assert_eq!(
        ledger_failure(LedgerFault::InvalidFormat, String::new()),
        ConversionError::InvalidEncoding(String::new())
    );
    let checksum =
        "Invalid address format: Checksum validation failed: computed [1, 2, 3, 4], expected [5, 6, 7, 8]";
    assert_eq!(
        ledger_failure(LedgerFault::InvalidFormat, checksum.to_string()),
        ConversionError::ChecksumMismatch(checksum.to_string())
    );
    assert_eq!(
        ledger_failure(
            LedgerFault::InvalidFormat,
            "Invalid address format: Checksum validation failed".to_string()
        ),
        ConversionError::ChecksumMismatch(
            "Invalid address format: Checksum validation failed".to_string()
        )
    );
    assert_eq!(
        ledger_failure(
            LedgerFault::InvalidFormat,
            "Checksum validation failed".to_string()
        ),
        ConversionError::InvalidEncoding("Checksum validation failed".to_string())
    );
    assert_eq!(
        ledger_failure(LedgerFault::InvalidLength, checksum.to_string()),
        ConversionError::InvalidLength(checksum.to_string())
    );
}

#[test]
fn decode_failure_goes_by_fault() {
    let m = || "decoding segwit address failed".to_string();
    assert_eq!(
        decode_failure(SegwitFault::Unchecked, m()),
        ConversionError::InvalidEncoding(m())
    );
    assert_eq!(
        decode_failure(SegwitFault::NoData, m()),
        ConversionError::InvalidEncoding(m())
    );
    assert_eq!(
        decode_failure(SegwitFault::InvalidWitnessVersion, m()),
        ConversionError::InvalidEncoding(m())
    );
    assert_eq!(
        decode_failure(SegwitFault::TooLong, m()),
        ConversionError::InvalidLength(m())
    );
    assert_eq!(
        decode_failure(SegwitFault::WitnessLength, m()),
        ConversionError::InvalidLength(m())
    );
    assert_eq!(
        decode_failure(SegwitFault::Checksum, m()),
        ConversionError::ChecksumMismatch(m())
    );
    assert_eq!(
        decode_failure(SegwitFault::Padding, m()),
        ConversionError::SegwitDecode(m())
    );
    assert_eq!(
        decode_failure(SegwitFault::Other, m()),
        ConversionError::SegwitDecode(m())
    );
}

#[test]
fn ledger_payload_keeps_twenty_bytes_of_any_version() {
    assert_eq!(ledger_payload(Ok((22, hash160()))), Ok(hash160()));
    assert_eq!(ledger_payload(Ok((26, hash160()))), Ok(hash160()));
    assert_eq!(ledger_payload(Ok((0, hash160()))), Ok(hash160()));
    assert_eq!(ledger_payload(Ok((255, hash160()))), Ok(hash160()));
}

#[test]
fn ledger_payload_refuses_other_lengths() {
    assert_eq!(ledger_payload(Ok((22, Vec::new()))), Err(too_short_or_long()));
    assert_eq!(
        ledger_payload(Ok((22, hash160()[..19].to_vec()))),
        Err(too_short_or_long())
    );
    let mut longer = hash160();
    longer.push(0);
    assert_eq!(ledger_payload(Ok((22, longer))), Err(too_short_or_long()));
    assert_eq!(ledger_payload(Ok((22, vec![0; 32]))), Err(too_short_or_long()));
}

#[test]
fn ledger_payload_maps_the_failure() {
    assert_eq!(
        ledger_payload(Err((LedgerFault::InvalidFormat, "bad".to_string()))),
        Err(ConversionError::InvalidEncoding("bad".to_string()))
    );
    assert_eq!(
        ledger_payload(Err((
            LedgerFault::InvalidFormat,
            "Invalid address format: Checksum validation failed: x".to_string()
        ))),
        Err(ConversionError::ChecksumMismatch(
            "Invalid address format: Checksum validation failed: x".to_string()
        ))
    );
}

#[test]
fn witness_payload_keeps_twenty_bytes_of_version_zero() {
    assert_eq!(
        witness_payload(Ok(("bc".to_string(), 0, hash160()))),
        Ok(hash160())
    );
    assert_eq!(
        witness_payload(Ok(("tb".to_string(), 0, hash160()))),
        Ok(hash160())
    );
    assert_eq!(
        witness_payload(Ok((String::new(), 0, hash160()))),
        Ok(hash160())
    );
}

#[test]
fn witness_payload_refuses_other_versions_first() {
    for version in 1..=16u8 {
        assert_eq!(
            witness_payload(Ok(("bc".to_string(), version, hash160()))),
            Err(ConversionError::UnsupportedVersion)
        );
        assert_eq!(
            witness_payload(Ok(("bc".to_string(), version, vec![0; 32]))),
            Err(ConversionError::UnsupportedVersion)
        );
    }
    assert_eq!(
        witness_payload(Ok(("bc".to_string(), 255, hash160()))),
        Err(ConversionError::UnsupportedVersion)
    );
}

#[test]
fn witness_payload_refuses_other_lengths() {
    assert_eq!(
        witness_payload(Ok(("bc".to_string(), 0, vec![0; 32]))),
        Err(too_short_or_long())
    );
    assert_eq!(
        witness_payload(Ok(("bc".to_string(), 0, hash160()[..19].to_vec()))),
        Err(too_short_or_long())
    );
    assert_eq!(
        witness_payload(Ok(("bc".to_string(), 0, vec![0; 21]))),
        Err(too_short_or_long())
    );
    assert_eq!(
        witness_payload(Ok(("bc".to_string(), 0, Vec::new()))),
        Err(too_short_or_long())
    );
}

#[test]
fn witness_payload_maps_the_failure() {
    assert_eq!(
        witness_payload(Err((SegwitFault::Checksum, "sum".to_string()))),
        Err(ConversionError::ChecksumMismatch("sum".to_string()))
    );
    assert_eq!(
        witness_payload(Err((SegwitFault::Padding, "pad".to_string()))),
        Err(ConversionError::SegwitDecode("pad".to_string()))
    );
}

#[test]
fn segwit_address_keeps_the_address_or_wraps_the_message() {
    assert_eq!(
        segwit_address(Ok("bc1qkcypfjrcs9c0txx3ql029cckcnd498nuvl6wpy".to_string())),
        Ok("bc1qkcypfjrcs9c0txx3ql029cckcnd498nuvl6wpy".to_string())
    );
    assert_eq!(
        segwit_address(Err("witness length".to_string())),
        Err(ConversionError::SegwitEncode("witness length".to_string()))
    );
}

#[test]
fn ledger_address_keeps_the_address_or_maps_the_failure() {
    assert_eq!(
        ledger_address(Ok("SP2V0G568F20Q1XCRT43XX8Q32V2DPMMYFHHBD8PP".to_string())),
        Ok("SP2V0G568F20Q1XCRT43XX8Q32V2DPMMYFHHBD8PP".to_string())
    );
    assert_eq!(
        ledger_address(Err((LedgerFault::InvalidVersion, "Invalid version: 32".to_string()))),
        Err(ConversionError::InvalidEncoding("Invalid version: 32".to_string()))
    );
    assert_eq!(
        ledger_address(Err((
            LedgerFault::InvalidLength,
            "Invalid hash160 length: expected 20 bytes, got 19".to_string()
        ))),
        Err(ConversionError::InvalidLength(
            "Invalid hash160 length: expected 20 bytes, got 19".to_string()
        ))
    );
}
