use vstd::prelude::*;
use crate::address_map::AddressMap;
use crate::market_conditions::MarketConditions;
use crate::opportunity::MevOpportunity;

verus! {

/// The path-finding strategy source: multi-hop spread detection. It reports
/// no opportunity yet.
#[derive(Debug)]
pub struct PathFinder {}

impl PathFinder {
    pub fn new() -> (r: PathFinder) {
        PathFinder {}
    }

    /// Takes in a fresh snapshot; nothing here depends on it yet.
    pub fn update(&mut self, _market_conditions: &MarketConditions)
        ensures
            *final(self) == *old(self),
    {
    }

    pub fn find_opportunities<T>(&self, _target_accounts: &AddressMap<u64>) -> (r: Vec<MevOpportunity<T>>)
        ensures
            r@.len() == 0,
    {
        Vec::new()
    }
}

/// The cross-venue strategy source. It reports no opportunity yet.
#[derive(Debug)]
pub struct CrossChainManager {}

impl CrossChainManager {
    pub fn new() -> (r: CrossChainManager) {
        CrossChainManager {}
    }

    /// Takes in a fresh snapshot; nothing here depends on it yet.
    pub fn update(&mut self, _market_conditions: &MarketConditions)
        ensures
            *final(self) == *old(self),
    {
    }

    pub fn find_opportunities<T>(&self) -> (r: Vec<MevOpportunity<T>>)
        ensures
            r@.len() == 0,
    {
        Vec::new()
    }
}

} // verus!
