use vstd::prelude::*;
use crate::address::Address;

verus! {

/// Everything that can go wrong while assembling pool data.
///
/// `RpcFailure`, `InvalidAddress` and `UnknownTokenProgram` are fatal to a
/// whole call; the pool-level failures only exclude the affected pool, and
/// `UnsupportedExchange` only skips the affected exchange.
#[derive(Debug, Clone, PartialEq, Eq)]
pub enum BotError {
    /// A required configuration key was absent from every source.
    Config { message: String },
    /// The account read was retried to exhaustion; carries the address that
    /// was being read and the last underlying error.
    RpcFailure { address: String, message: String },
    /// An address string did not parse.
    InvalidAddress { address: String },
    /// The queried mint is not owned by a recognized token program.
    UnknownTokenProgram { mint: String },
    /// A pool account is not owned by the exchange program that was asked
    /// about it.
    PoolOwnershipMismatch { address: Address },
    /// A pool account's bytes failed layout validation.
    PoolParse { address: Address },
    /// A required auxiliary address was missing while converting a pool.
    MissingAuxiliaryField { field: String },
    /// A configured exchange name has no registered adapter.
    UnsupportedExchange { name: String },
}

} // verus!
