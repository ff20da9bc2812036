use vstd::prelude::*;
use crate::address::Address;
use crate::market_conditions::MarketConditions;
use crate::opportunity::{MevOpportunity, collect_found, found_only};
use crate::watch_list::{WatchList, DEFAULT_WATCH_THRESHOLD, refreshed, worth_probing};

verus! {

/// The copy-trade strategy source: watches traders' accounts and, for each
/// whose balance reaches its threshold, looks for a recent profitable trade
/// of theirs to replay.
#[derive(Debug)]
pub struct CopyTradeManager {
    pub watch_list: WatchList,
}

impl CopyTradeManager {
    pub fn new() -> (r: CopyTradeManager)
        ensures
            r.watch_list.threshold == DEFAULT_WATCH_THRESHOLD,
            r.watch_list.accounts@ == Map::<Address, u64>::empty(),
    {
        CopyTradeManager { watch_list: WatchList::new(DEFAULT_WATCH_THRESHOLD) }
    }

    pub fn with_threshold(threshold: u64) -> (r: CopyTradeManager)
        ensures
            r.watch_list.threshold == threshold,
            r.watch_list.accounts@ == Map::<Address, u64>::empty(),
    {
        CopyTradeManager { watch_list: WatchList::new(threshold) }
    }

    pub fn update(&mut self, market_conditions: &MarketConditions)
        ensures
            final(self).watch_list.threshold == old(self).watch_list.threshold,
            final(self).watch_list.accounts@ == refreshed(old(self).watch_list.accounts@, market_conditions.account_balances@),
    {
        self.watch_list.update(market_conditions);
    }

    /// The accounts to probe in the next search, each once.
    pub fn targets(&self) -> (r: Vec<Address>)
        ensures
            r@.no_duplicates(),
            r@.to_set() == worth_probing(self.watch_list.accounts@, self.watch_list.threshold),
    {
        self.watch_list.targets()
    }

    /// The opportunities found by probing the targets, one probe result per
    /// target, in the order the probes were made.
    pub fn find_opportunities<T>(&self, found: Vec<Option<MevOpportunity<T>>>) -> (r: Vec<MevOpportunity<T>>)
        ensures
            r@ == found_only(found@),
    {
        collect_found(found)
    }
}

} // verus!
