use vstd::prelude::*;
use crate::address::Address;

verus! {

/// What can go wrong in the pipeline.
#[derive(Debug)]
pub enum MevBotError {
    /// A ledger or network call failed or timed out; the next cycle may retry.
    TransientIo(String),
    /// A setting is malformed or missing; fatal at startup only.
    Configuration(String),
    /// No instruction of the transaction is addressed to this program.
    InstructionNotFound(Address),
    /// A profit was asked of orders that are not a buy followed by a sell.
    InvalidOrderSides,
    /// A computed profit does not fit the integer type that carries it.
    ProfitOutOfRange,
}

} // verus!
