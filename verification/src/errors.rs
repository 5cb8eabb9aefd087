//! Error taxonomy of the library.
//!
//! Three kinds of failure are distinguished: invalid configuration input
//! (`ConfigurationError`), a failure while acquiring market state
//! (`AcquisitionError`), and an invalid numeric input to the fixed-point
//! converter (`DomainError`). Every error is surfaced to the caller
//! unmodified; nothing falls back silently.

use vstd::prelude::*;

verus! {

/// Invalid numeric input to the fixed-point converter.
#[derive(Debug, Clone, Copy, PartialEq, Eq, Structural)]
pub enum DomainError {
    /// A negative value was handed to an unsigned conversion.
    NegativeValue,
}

/// Malformed configuration input, such as an address that does not parse.
#[derive(Debug, Clone, Copy, PartialEq, Eq, Structural)]
pub enum ConfigurationError {
    /// The market contract address is not a valid hexadecimal address.
    InvalidAddress,
}

/// A failure while reading market state from the ledger.
#[derive(Debug, Clone, Copy, PartialEq, Eq, Structural)]
pub enum AcquisitionError {
    /// No ledger connection is configured and no fallback data set applies.
    LedgerUnavailable,
}

} // verus!
