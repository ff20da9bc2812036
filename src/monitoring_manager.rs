use vstd::prelude::*;
use crate::market_conditions::MarketConditions;

verus! {

/// One executed transaction, by its signature, with the snapshot of the
/// cycle that produced it.
#[derive(Debug)]
pub struct TransactionLog {
    pub signature: String,
    pub market_conditions: MarketConditions,
}

/// Append-only record of every transaction the ledger accepted.
#[derive(Debug)]
pub struct MonitoringManager {
    pub transaction_logs: Vec<TransactionLog>,
    /// How many cycles have reported to the monitor, saturating at the
    /// largest `u64`.
    pub cycles_observed: u64,
}

/// The record kept for the `j`-th accepted transaction of a cycle.
pub open spec fn records<T>(log: TransactionLog, executed: (T, String), market_conditions: &MarketConditions) -> bool {
    &&& log.signature@ == executed.1@
    &&& log.market_conditions.same_as(market_conditions)
}

impl MonitoringManager {
    pub fn new() -> (r: MonitoringManager)
        ensures
            r.transaction_logs@.len() == 0,
            r.cycles_observed == 0,
    {
        MonitoringManager { transaction_logs: Vec::new(), cycles_observed: 0 }
    }

    /// Records the transactions a cycle executed, each paired with the
    /// cycle's snapshot, and counts the cycle. A cycle that executed nothing
    /// still reports, with no new record.
    pub fn log_and_monitor<T>(&mut self, executed: &Vec<(T, String)>, market_conditions: &MarketConditions)
        ensures
            final(self).transaction_logs@.len() == old(self).transaction_logs@.len() + executed@.len(),
            forall|i: int| 0 <= i < old(self).transaction_logs@.len()
                ==> #[trigger] final(self).transaction_logs@[i] == old(self).transaction_logs@[i],
            forall|j: int| 0 <= j < executed@.len() ==> records(
                #[trigger] final(self).transaction_logs@[old(self).transaction_logs@.len() + j],
                executed@[j],
                market_conditions,
            ),
            final(self).cycles_observed == if old(self).cycles_observed < u64::MAX {
                old(self).cycles_observed + 1
            } else {
                old(self).cycles_observed as int
            },
    {
        let ghost start = self.transaction_logs@.len();
        let n = executed.len();
        for j in 0..n
            invariant
                n == executed@.len(),
                self.cycles_observed == old(self).cycles_observed,
                self.transaction_logs@.len() == start + j,
                start == old(self).transaction_logs@.len(),
                forall|i: int| 0 <= i < start ==> #[trigger] self.transaction_logs@[i] == old(self).transaction_logs@[i],
                forall|k: int| 0 <= k < j ==> records(
                    #[trigger] self.transaction_logs@[start + k],
                    executed@[k],
                    market_conditions,
                ),
        {
            let log = TransactionLog {
                signature: executed[j].1.clone(),
                market_conditions: market_conditions.duplicate(),
            };
            self.transaction_logs.push(log);
            proof {
                assert forall|k: int| 0 <= k < j + 1 implies records(
                    #[trigger] self.transaction_logs@[start + k],
                    executed@[k],
                    market_conditions,
                ) by {
                    if k < j {
                        assert(self.transaction_logs@[start + k] == self.transaction_logs@.drop_last()[start + k]);
                    }
                }
            }
        }
        self.note_cycle();
    }

    /// Counts a cycle that reported to the monitor.
    pub fn note_cycle(&mut self)
        ensures
            final(self).transaction_logs@ == old(self).transaction_logs@,
            final(self).cycles_observed == if old(self).cycles_observed < u64::MAX {
                old(self).cycles_observed + 1
            } else {
                old(self).cycles_observed as int
            },
    {
        self.cycles_observed = self.cycles_observed.saturating_add(1);
    }

    /// The number of transactions recorded so far.
    pub fn transaction_count(&self) -> (r: usize)
        ensures
            r == self.transaction_logs@.len(),
    {
        self.transaction_logs.len()
    }
}

} // verus!
