//! The ways a request can be turned down.

use vstd::prelude::*;

verus! {

/// Why the exchange refused a request. Every kind leaves the ledger as it
/// was, so a caller may try again with other parameters.
#[derive(Debug, Clone, Copy, PartialEq, Eq, Structural)]
pub enum Error {
    /// The pair has never received a deposit.
    NoPoolFound,
    /// A deposit amount is zero.
    ZeroAmount,
    /// The request names the same token twice.
    SameTokensNotAllowed,
    /// The deposit's proportion is the one the ratio rule turns down.
    LiquidityRatioProblem,
    /// No acceptable output exists for the requested input size.
    ReduceTheFunds,
    /// The token id is not registered.
    UnknownToken,
    /// The token id is already registered.
    DuplicateId,
    /// The host could not move the asset.
    TransferError,
}

} // verus!
