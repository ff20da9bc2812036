use vstd::prelude::*;
use crate::address::Address;
use crate::address_map::AddressMap;
use crate::market_conditions::MarketConditions;

verus! {

/// The balance, in base units, from which a watched account is worth probing
/// for an opportunity.
pub const DEFAULT_WATCH_THRESHOLD: u64 = 1000;

/// The watch-list after a snapshot: each account's last known balance, where
/// the snapshot's balances replace older ones.
pub open spec fn refreshed(accounts: Map<Address, u64>, snapshot: Map<Address, u64>) -> Map<Address, u64> {
    accounts.union_prefer_right(snapshot)
}

/// The accounts of a watch-list whose balance reaches the threshold.
pub open spec fn worth_probing(accounts: Map<Address, u64>, threshold: u64) -> Set<Address> {
    Set::new(|a: Address| accounts.contains_key(a) && accounts[a] >= threshold)
}

/// Accounts of interest with their last known balance, and the balance from
/// which an account is worth probing.
#[derive(Debug)]
pub struct WatchList {
    pub threshold: u64,
    pub accounts: AddressMap<u64>,
}

impl WatchList {
    pub fn new(threshold: u64) -> (r: WatchList)
        ensures
            r.threshold == threshold,
            r.accounts@ == Map::<Address, u64>::empty(),
    {
        WatchList { threshold, accounts: AddressMap::new() }
    }

    /// Takes in the balances of a fresh snapshot, last write winning.
    pub fn update(&mut self, market_conditions: &MarketConditions)
        ensures
            final(self).threshold == old(self).threshold,
            final(self).accounts@ == refreshed(old(self).accounts@, market_conditions.account_balances@),
    {
        self.accounts.merge_from(&market_conditions.account_balances);
    }

    /// The watched accounts whose balance reaches the threshold, each once,
    /// in no particular order.
    pub fn targets(&self) -> (r: Vec<Address>)
        ensures
            r@.no_duplicates(),
            r@.to_set() == worth_probing(self.accounts@, self.threshold),
    {
        let r = self.accounts.keys_at_least(self.threshold);
        proof {
            assert(r@.to_set() =~= worth_probing(self.accounts@, self.threshold));
        }
        r
    }
}

/// Refreshing a watch-list twice with the same snapshot leaves it as the
/// first refresh did.
pub proof fn lemma_update_idempotent(accounts: Map<Address, u64>, snapshot: Map<Address, u64>)
    ensures
        refreshed(refreshed(accounts, snapshot), snapshot) == refreshed(accounts, snapshot),
{
    assert(refreshed(refreshed(accounts, snapshot), snapshot) =~= refreshed(accounts, snapshot));
}

/// After a snapshot, an account of the snapshot is probed exactly when the
/// balance the snapshot gives it reaches the threshold.
pub proof fn lemma_snapshot_account_probed(
    accounts: Map<Address, u64>,
    snapshot: Map<Address, u64>,
    threshold: u64,
    a: Address,
)
    requires
        snapshot.contains_key(a),
    ensures
        worth_probing(refreshed(accounts, snapshot), threshold).contains(a) <==> snapshot[a] >= threshold,
{
}

} // verus!
