use vstd::prelude::*;
use crate::address::Address;
use crate::models::Order;

verus! {

/// A trade of a tracked trader worth replaying.
#[derive(Debug)]
pub struct CopyTradeOpportunity {
    pub trader: Address,
    pub trade: Order,
}

/// A trade is replayed when its size falls within the band.
pub open spec fn in_band(quantity: u64, trade_threshold: u64, max_trade_amount: u64) -> bool {
    trade_threshold <= quantity <= max_trade_amount
}

/// The trades, with their trader, whose size falls within the band, in order.
pub open spec fn replayable(trades: Seq<(Address, Order)>, trade_threshold: u64, max_trade_amount: u64) -> Seq<(Address, Order)> {
    trades.filter(|t: (Address, Order)| in_band(t.1.quantity, trade_threshold, max_trade_amount))
}

/// The copy-trade strategy: replays the recent trades of tracked traders
/// whose size falls within a band.
#[derive(Debug)]
pub struct CopyTradeStrategy {
    pub tracked_traders: Vec<Address>,
    pub trade_threshold: u64,
    pub max_trade_amount: u64,
}

impl CopyTradeStrategy {
    pub fn new(tracked_traders: Vec<Address>, trade_threshold: u64, max_trade_amount: u64) -> (r: CopyTradeStrategy)
        ensures
            r.tracked_traders@ == tracked_traders@,
            r.trade_threshold == trade_threshold,
            r.max_trade_amount == max_trade_amount,
    {
        CopyTradeStrategy { tracked_traders, trade_threshold, max_trade_amount }
    }

    pub fn set_trade_threshold(&mut self, trade_threshold: u64)
        ensures
            final(self).trade_threshold == trade_threshold,
            final(self).max_trade_amount == old(self).max_trade_amount,
            final(self).tracked_traders@ == old(self).tracked_traders@,
    {
        self.trade_threshold = trade_threshold;
    }

    pub fn set_max_trade_amount(&mut self, max_trade_amount: u64)
        ensures
            final(self).max_trade_amount == max_trade_amount,
            final(self).trade_threshold == old(self).trade_threshold,
            final(self).tracked_traders@ == old(self).tracked_traders@,
    {
        self.max_trade_amount = max_trade_amount;
    }

    /// The opportunities among the recent trades of the tracked traders,
    /// each given with its trader: those within the band, in order.
    pub fn find_opportunities(&self, trades: Vec<(Address, Order)>) -> (r: Vec<CopyTradeOpportunity>)
        ensures
            r@.len() == replayable(trades@, self.trade_threshold, self.max_trade_amount).len(),
            forall|i: int| 0 <= i < r@.len() ==> {
                let t = #[trigger] replayable(trades@, self.trade_threshold, self.max_trade_amount)[i];
                r@[i].trader == t.0 && r@[i].trade == t.1
            },
    {
        let ghost all = trades@;
        let ghost pred = |t: (Address, Order)| in_band(t.1.quantity, self.trade_threshold, self.max_trade_amount);
        let mut r: Vec<CopyTradeOpportunity> = Vec::new();
        for pair in it: trades.into_iter()
            invariant
                it.seq() == all,
                pred == (|t: (Address, Order)| in_band(t.1.quantity, self.trade_threshold, self.max_trade_amount)),
                r@.len() == all.subrange(0, it.index() as int).filter(pred).len(),
                forall|i: int| 0 <= i < r@.len() ==> {
                    let t = #[trigger] all.subrange(0, it.index() as int).filter(pred)[i];
                    r@[i].trader == t.0 && r@[i].trade == t.1
                },
        {
            let ghost i = it.index();
            let ghost c = pair;
            let ghost prefix = all.subrange(0, i + 1);
            proof {
                assert(c == all[i as int]);
                assert(prefix.drop_last() =~= all.subrange(0, i as int));
                assert(prefix.last() == c);
                reveal(Seq::filter);
            }
            let (trader, trade) = pair;
            if self.trade_threshold <= trade.quantity && trade.quantity <= self.max_trade_amount {
                r.push(CopyTradeOpportunity { trader, trade });
                proof {
                    assert(prefix.filter(pred) == prefix.drop_last().filter(pred).push(c));
                }
            } else {
                proof {
                    assert(prefix.filter(pred) == prefix.drop_last().filter(pred));
                }
            }
        }
        proof {
            assert(all.subrange(0, all.len() as int) =~= all);
        }
        r
    }
}

} // verus!
