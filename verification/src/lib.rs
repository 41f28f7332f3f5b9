//! Conversion between Stacks ledger addresses and Bitcoin native SegWit
//! addresses that carry the same 20-byte public-key hash.
//!
//! Both address formats are checksummed base-32 encodings of one HASH160
//! payload. [`stx2btc`] decodes a ledger address and re-encodes its payload as
//! a mainnet pay-to-witness-public-key-hash address; [`btc2stx`] goes the
//! other way and always emits the mainnet single-signature ledger version.
//!
//! The two codecs themselves are the `c32address` and `bech32` crates. Every
//! call into them is a small trusted function in [`ledger`] or [`segwit`]
//! whose contract names the codec's result; everything built on those results
//! is verified.

pub mod convert;
pub mod error;
pub mod ledger;
pub mod segwit;
pub mod text;

pub use convert::{btc2stx, stx2btc};
pub use error::ConversionError;
