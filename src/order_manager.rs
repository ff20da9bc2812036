use vstd::prelude::*;
use crate::market_conditions::MarketConditions;

verus! {

/// Bookkeeping of the life of orders placed on venues after execution.
#[derive(Debug)]
pub struct OrderManager {}

impl OrderManager {
    pub fn new() -> (r: OrderManager) {
        OrderManager {}
    }

    /// Takes in a fresh snapshot; nothing here depends on it yet.
    pub fn update(&mut self, _market_conditions: &MarketConditions)
        ensures
            *final(self) == *old(self),
    {
    }

    /// Follows up on the transactions the ledger accepted; no order is
    /// tracked past its execution yet.
    pub fn manage_orders<T>(&self, _executed: &Vec<T>) {
    }
}

} // verus!
