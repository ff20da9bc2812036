use vstd::prelude::*;
use crate::address::Address;
use crate::address_map::AddressMap;
use crate::market_conditions::MarketConditions;
use crate::opportunity::MevOpportunity;

verus! {

/// A strategy source: keeps its own state, refreshed from each snapshot, and
/// reports opportunities for the accounts it is shown.
pub trait Strategy<T>: Sized {
    /// What the source reports for the given accounts in its current state.
    spec fn opportunities(&self, target_accounts: Map<Address, u64>) -> Seq<MevOpportunity<T>>;

    /// The state of the source once it has taken in a snapshot.
    spec fn updated(&self, market_conditions: MarketConditions) -> Self;

    /// Taking in the same snapshot a second time changes nothing.
    proof fn lemma_update_idempotent(&self, market_conditions: MarketConditions)
        ensures
            self.updated(market_conditions).updated(market_conditions) == self.updated(market_conditions),
    ;

    /// Refreshes the source's state from a snapshot.
    fn update(&mut self, market_conditions: &MarketConditions)
        ensures
            *final(self) == old(self).updated(*market_conditions),
    ;

    fn find_opportunities(&self, target_accounts: &AddressMap<u64>) -> (r: Vec<MevOpportunity<T>>)
        ensures
            r@ == self.opportunities(target_accounts@),
    ;
}

/// All that a list of sources reports, source after source.
pub open spec fn reported<T, S: Strategy<T>>(strategies: Seq<S>, target_accounts: Map<Address, u64>) -> Seq<MevOpportunity<T>>
    decreases strategies.len(),
{
    if strategies.len() == 0 {
        Seq::empty()
    } else {
        reported(strategies.drop_last(), target_accounts) + strategies.last().opportunities(target_accounts)
    }
}

/// Each source of a list once it has taken in a snapshot.
pub open spec fn all_updated<T, S: Strategy<T>>(strategies: Seq<S>, market_conditions: MarketConditions) -> Seq<S> {
    strategies.map_values(|s: S| s.updated(market_conditions))
}

/// Refreshing the whole registry twice with the same snapshot leaves it as
/// the first refresh did.
pub proof fn lemma_registry_update_idempotent<T, S: Strategy<T>>(strategies: Seq<S>, market_conditions: MarketConditions)
    ensures
        all_updated(all_updated(strategies, market_conditions), market_conditions) == all_updated(strategies, market_conditions),
{
    assert forall|i: int| 0 <= i < strategies.len() implies
        #[trigger] all_updated(all_updated(strategies, market_conditions), market_conditions)[i]
            == all_updated(strategies, market_conditions)[i] by {
        strategies[i].lemma_update_idempotent(market_conditions);
    }
    assert(all_updated(all_updated(strategies, market_conditions), market_conditions) =~= all_updated(strategies, market_conditions));
}

/// The registry of strategy sources, queried in the order they were added.
#[derive(Debug)]
pub struct StrategyManager<S> {
    pub strategies: Vec<S>,
}

impl<S> StrategyManager<S> {
    pub fn new() -> (r: StrategyManager<S>)
        ensures
            r.strategies@.len() == 0,
    {
        StrategyManager { strategies: Vec::new() }
    }

    pub fn add_strategy(&mut self, strategy: S)
        ensures
            final(self).strategies@ == old(self).strategies@.push(strategy),
    {
        self.strategies.push(strategy);
    }

    /// Refreshes every source from the snapshot, one after another.
    pub fn update<T>(&mut self, market_conditions: &MarketConditions)
        where S: Strategy<T>
        ensures
            final(self).strategies@ == all_updated(old(self).strategies@, *market_conditions),
    {
        let n = self.strategies.len();
        for i in 0..n
            invariant
                n == self.strategies@.len(),
                n == old(self).strategies@.len(),
                forall|k: int| 0 <= k < i ==> #[trigger] self.strategies@[k] == old(self).strategies@[k].updated(*market_conditions),
                forall|k: int| i <= k < n ==> #[trigger] self.strategies@[k] == old(self).strategies@[k],
        {
            self.strategies[i].update(market_conditions);
        }
        proof {
            assert(self.strategies@ =~= all_updated(old(self).strategies@, *market_conditions));
        }
    }

    /// Everything the sources report, concatenated in registry order.
    pub fn find_opportunities<T>(&self, target_accounts: &AddressMap<u64>) -> (r: Vec<MevOpportunity<T>>)
        where S: Strategy<T>
        ensures
            r@ == reported(self.strategies@, target_accounts@),
    {
        let mut r: Vec<MevOpportunity<T>> = Vec::new();
        let n = self.strategies.len();
        for i in 0..n
            invariant
                n == self.strategies@.len(),
                r@ == reported(self.strategies@.subrange(0, i as int), target_accounts@),
        {
            let mut found = self.strategies[i].find_opportunities(target_accounts);
            proof {
                assert(self.strategies@.subrange(0, i + 1).drop_last() =~= self.strategies@.subrange(0, i as int));
            }
            r.append(&mut found);
        }
        proof {
            assert(self.strategies@.subrange(0, n as int) =~= self.strategies@);
        }
        r
    }
}

/// The sandwich strategy source: pairs front and back transactions around a
/// detected pending one. It reports no opportunity yet.
#[derive(Debug)]
pub struct SandwichStrategy {}

impl<T> Strategy<T> for SandwichStrategy {
    open spec fn opportunities(&self, target_accounts: Map<Address, u64>) -> Seq<MevOpportunity<T>> {
        Seq::empty()
    }

    open spec fn updated(&self, market_conditions: MarketConditions) -> Self {
        *self
    }

    proof fn lemma_update_idempotent(&self, market_conditions: MarketConditions) {
    }

    fn update(&mut self, _market_conditions: &MarketConditions) {
    }

    fn find_opportunities(&self, _target_accounts: &AddressMap<u64>) -> (r: Vec<MevOpportunity<T>>) {
        Vec::new()
    }
}

/// The two-leg arbitrage strategy source. It reports no opportunity yet.
#[derive(Debug)]
pub struct ArbitrageStrategy {}

impl<T> Strategy<T> for ArbitrageStrategy {
    open spec fn opportunities(&self, target_accounts: Map<Address, u64>) -> Seq<MevOpportunity<T>> {
        Seq::empty()
    }

    open spec fn updated(&self, market_conditions: MarketConditions) -> Self {
        *self
    }

    proof fn lemma_update_idempotent(&self, market_conditions: MarketConditions) {
    }

    fn update(&mut self, _market_conditions: &MarketConditions) {
    }

    fn find_opportunities(&self, _target_accounts: &AddressMap<u64>) -> (r: Vec<MevOpportunity<T>>) {
        Vec::new()
    }
}

} // verus!
