use vstd::prelude::*;
use crate::market_conditions::MarketConditions;

verus! {

/// Adjusts the resource fees of transactions; it never changes what a
/// transaction does, nor which transactions go on.
#[derive(Debug)]
pub struct GasOptimizer {}

impl GasOptimizer {
    pub fn new() -> (r: GasOptimizer) {
        GasOptimizer {}
    }

    /// Takes in a fresh snapshot; fees here do not depend on it.
    pub fn update(&mut self, _market_conditions: &MarketConditions)
        ensures
            *final(self) == *old(self),
    {
    }

    /// The transactions to submit, in the same order and unchanged.
    pub fn optimize<T>(&self, txs: Vec<T>) -> (r: Vec<T>)
        ensures
            r@ == txs@,
    {
        txs
    }
}

} // verus!
