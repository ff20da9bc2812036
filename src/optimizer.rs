use vstd::prelude::*;
use crate::opportunity::{MevOpportunity, optimized, profitable_candidates, transactions_of};

verus! {

/// Turns an opportunity into the transactions worth executing.
#[derive(Debug)]
pub struct Optimizer {}

impl Optimizer {
    pub fn new() -> (r: Optimizer) {
        Optimizer {}
    }

    /// Keeps, in order, each transaction whose expected profit reaches the
    /// opportunity's own minimum.
    pub fn optimize<T>(&self, opportunity: MevOpportunity<T>) -> (r: Vec<T>)
        ensures
            r@ == optimized(&opportunity),
    {
        let ghost cands = opportunity.transactions@;
        let min_profit = opportunity.min_profit;
        let mut optimized_txs: Vec<T> = Vec::new();
        for pair in it: opportunity.transactions.into_iter()
            invariant
                it.seq() == cands,
                optimized_txs@ == transactions_of(profitable_candidates(cands.subrange(0, it.index() as int), min_profit)),
        {
            let ghost i = it.index();
            let ghost c = pair;
            let (tx, profit) = pair;
            let ghost prefix = cands.subrange(0, i + 1);
            proof {
                assert(c == cands[i as int]);
                assert(prefix.drop_last() =~= cands.subrange(0, i as int));
                assert(prefix.last() == c);
            }
            if profit >= min_profit {
                optimized_txs.push(tx);
            }
            proof {
                let pred = |c: (T, i64)| c.1 >= min_profit;
                let before = prefix.drop_last().filter(pred);
                reveal(Seq::filter);
                if profit >= min_profit {
                    assert(prefix.filter(pred) == before.push(c));
                    assert(transactions_of(before.push(c)) =~= transactions_of(before).push(c.0));
                } else {
                    assert(prefix.filter(pred) == before);
                }
                assert(optimized_txs@ =~= transactions_of(profitable_candidates(prefix, min_profit)));
            }
        }
        proof {
            assert(cands.subrange(0, cands.len() as int) =~= cands);
        }
        optimized_txs
    }
}

} // verus!
