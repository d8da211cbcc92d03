//! Error taxonomy of the client.
//!
//! `ValidationError`-class variants mark malformed caller input (never worth
//! retrying); `InsufficientGas` is a structured chain rejection; the parse
//! variants mark a response whose shape did not match the expected schema.

use vstd::prelude::*;

verus! {

/// Everything that can go wrong inside the client's own logic.
///
/// Transport-level failures never occur here: all network traffic happens
/// outside the library, which only prepares requests and interprets
/// responses.
#[derive(Clone, Copy, Debug, PartialEq, Eq, Structural)]
pub enum ClientError {
    /// The mnemonic phrase failed its wordlist checksum.
    InvalidMnemonic,
    /// The hierarchical derivation path is malformed, or derivation failed.
    InvalidDerivationPath,
    /// The account address prefix is not lowercase alphanumeric, or the
    /// public key could not be encoded as an address.
    AddressEncodingError,
    /// A bech32 account address failed to parse.
    InvalidAddress,
    /// The chain identifier is empty, too long, or holds a forbidden byte.
    InvalidChainId,
    /// A fee denomination is too short, too long, or holds a forbidden byte.
    InvalidDenom,
    /// A message, body or auth-info could not be encoded to wire bytes.
    EncodingError,
    /// The cryptographic signing step failed.
    SigningError,
    /// A response field expected to hold a number was absent or non-numeric.
    ParseError,
    /// The account lookup returned no account object.
    AccountNotFound,
    /// The simulate response lacked a numeric `gas_used`, or the adjusted
    /// gas figure does not fit the gas limit type.
    SimulationError,
    /// A smart-query response lacked the expected `data` field.
    QueryError,
    /// The chain reported it ran out of gas while checking the transaction.
    InsufficientGas,
    /// The broadcast response carried no transaction hash.
    BroadcastParseError,
    /// The commit logs lack the expected event or attribute.
    ExtractionError,
}

} // verus!
