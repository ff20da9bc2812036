use vstd::prelude::*;
use crate::address_map::AddressMap;

verus! {

/// One cycle's view of the market. Liquidity and volume are in the ledger's
/// base units, volatility in basis points, and `account_balances` holds the
/// last known balance of each account, in base units.
#[derive(Debug)]
pub struct MarketConditions {
    pub liquidity: u64,
    pub volume: u64,
    pub volatility_bps: u64,
    pub account_balances: AddressMap<u64>,
}

impl MarketConditions {
    pub fn new(liquidity: u64, volume: u64, volatility_bps: u64, account_balances: AddressMap<u64>) -> (r: MarketConditions)
        ensures
            r.liquidity == liquidity,
            r.volume == volume,
            r.volatility_bps == volatility_bps,
            r.account_balances@ == account_balances@,
    {
        MarketConditions { liquidity, volume, volatility_bps, account_balances }
    }

    /// A copy of this snapshot, as kept beside each recorded transaction.
    pub fn duplicate(&self) -> (r: MarketConditions)
        ensures
            r.same_as(self),
    {
        MarketConditions {
            liquidity: self.liquidity,
            volume: self.volume,
            volatility_bps: self.volatility_bps,
            account_balances: self.account_balances.duplicate(),
        }
    }

    /// Two snapshots that hold the same figures and balances.
    pub open spec fn same_as(&self, other: &MarketConditions) -> bool {
        &&& self.liquidity == other.liquidity
        &&& self.volume == other.volume
        &&& self.volatility_bps == other.volatility_bps
        &&& self.account_balances@ == other.account_balances@
    }
}

} // verus!
