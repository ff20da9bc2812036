use vstd::prelude::*;
use crate::address_map::AddressMap;
use crate::market_conditions::MarketConditions;

verus! {

/// The market figures used until a data provider supplies them: liquidity
/// and volume in base units, volatility in basis points.
pub const ASSUMED_LIQUIDITY: u64 = 1_000_000;
pub const ASSUMED_VOLUME: u64 = 500_000;
pub const ASSUMED_VOLATILITY_BPS: u64 = 200;

/// Produces the snapshot of each cycle from the balances read on the ledger.
#[derive(Debug)]
pub struct MarketAnalyzer {}

impl MarketAnalyzer {
    pub fn new() -> (r: MarketAnalyzer) {
        MarketAnalyzer {}
    }

    /// The snapshot for the balances read this cycle.
    pub fn analyze(&self, account_balances: AddressMap<u64>) -> (r: MarketConditions)
        ensures
            r.liquidity == ASSUMED_LIQUIDITY,
            r.volume == ASSUMED_VOLUME,
            r.volatility_bps == ASSUMED_VOLATILITY_BPS,
            r.account_balances@ == account_balances@,
    {
        MarketConditions::new(ASSUMED_LIQUIDITY, ASSUMED_VOLUME, ASSUMED_VOLATILITY_BPS, account_balances)
    }
}

} // verus!
