use vstd::prelude::*;
use crate::address::Address;
use crate::address_map::AddressMap;
use crate::copy_trade_manager::CopyTradeManager;
use crate::gas_optimizer::GasOptimizer;
use crate::market_conditions::MarketConditions;
use crate::monitoring_manager::{MonitoringManager, records};
use crate::opportunity::{MevOpportunity, lemma_optimizer_respects_min_profit, optimized, profitable_candidates, transactions_of};
use crate::optimizer::Optimizer;
use crate::order_manager::OrderManager;
use crate::path_finder::{CrossChainManager, PathFinder};
use crate::risk_manager::{RiskManager, within_risk_bounds};
use crate::sniping_manager::SnipingManager;
use crate::strategy::{Strategy, StrategyManager, all_updated, reported};
use crate::trade_executor::{TradeExecutor, accepted};
use crate::watch_list::refreshed;

verus! {

/// The default pause between two cycles, in milliseconds.
pub const DEFAULT_POLL_INTERVAL_MS: u64 = 500;

/// Where a cycle stands.
#[derive(Clone, Copy, Debug, PartialEq, Eq, Structural)]
pub enum CyclePhase {
    AwaitingSnapshot,
    AwaitingOpportunities,
    AwaitingSimulations,
    AwaitingReceipts,
    Sleeping,
}

/// What the caller is to do next, and report back as an event.
#[derive(Clone, Copy, Debug, PartialEq, Eq, Structural)]
pub enum CycleAction {
    /// Read the market and report `SnapshotTaken` or `SnapshotFailed`.
    TakeSnapshot,
    /// Query the strategy sources and venues and report `OpportunitiesFound`;
    /// a source that fails contributes nothing.
    FindOpportunities,
    /// Simulate each pending transaction and report `Simulated`.
    Simulate,
    /// Submit each pending transaction and report `Submitted`.
    Submit,
    /// Wait this many milliseconds and report `Woke`.
    Sleep(u64),
}

/// What the ledger says of one candidate transaction: the balance changes its
/// simulation shows and the profit it is simulated to make, in lamports.
/// `None` stands for a simulation that could not be had.
#[derive(Debug)]
pub struct Assessment {
    pub balance_deltas: Option<Vec<i64>>,
    pub profit: Option<i64>,
}

/// The change of each account's balance, from before a transaction to after
/// it, where every change fits an `i64`.
pub open spec fn balance_changes(before: Seq<u64>, after: Seq<u64>) -> Seq<int> {
    Seq::new(before.len(), |i: int| after[i] - before[i])
}

pub open spec fn changes_fit(before: Seq<u64>, after: Seq<u64>) -> bool {
    &&& before.len() == after.len()
    &&& forall|i: int| 0 <= i < before.len() ==> i64::MIN <= #[trigger] after[i] - before[i] <= i64::MAX
}

impl Assessment {
    /// The assessment of a simulation from the balances of the accounts it
    /// touches, read before and simulated after; the first account is the
    /// payer, whose change is the transaction's profit. Balances that do not
    /// line up, or changes too large to carry, give no simulation at all.
    pub fn from_balances(before: &Vec<u64>, after: &Vec<u64>) -> (r: Assessment)
        ensures
            changes_fit(before@, after@) ==> {
                &&& r.balance_deltas is Some
                &&& r.balance_deltas->0@.len() == before@.len()
                &&& forall|i: int| 0 <= i < before@.len()
                    ==> #[trigger] r.balance_deltas->0@[i] == balance_changes(before@, after@)[i]
                &&& r.profit == if before@.len() > 0 {
                    Some(balance_changes(before@, after@)[0] as i64)
                } else {
                    None::<i64>
                }
            },
            !changes_fit(before@, after@) ==> r.balance_deltas is None && r.profit is None,
    {
        if before.len() != after.len() {
            return Assessment { balance_deltas: None, profit: None };
        }
        let n = before.len();
        let mut deltas: Vec<i64> = Vec::new();
        for i in 0..n
            invariant
                n == before@.len(),
                n == after@.len(),
                deltas@.len() == i,
                forall|j: int| 0 <= j < i ==> #[trigger] deltas@[j] == after@[j] - before@[j],
                forall|j: int| 0 <= j < i ==> i64::MIN <= #[trigger] (after@[j] - before@[j]) <= i64::MAX,
        {
            let change: i128 = (after[i] as i128) - (before[i] as i128);
            if change < i64::MIN as i128 || change > i64::MAX as i128 {
                return Assessment { balance_deltas: None, profit: None };
            }
            deltas.push(change as i64);
        }
        let profit = if n > 0 { Some(deltas[0]) } else { None };
        Assessment { balance_deltas: Some(deltas), profit }
    }
}

/// The outcome of the caller's work on an action.
#[derive(Debug)]
pub enum CycleEvent<T> {
    SnapshotTaken(MarketConditions),
    SnapshotFailed,
    OpportunitiesFound(Vec<MevOpportunity<T>>),
    /// One assessment per pending transaction, in order.
    Simulated(Vec<Assessment>),
    /// One outcome per pending transaction, in order: the receipt of an
    /// accepted submission, or `None` for a rejected one.
    Submitted(Vec<Option<String>>),
    Woke,
}

pub open spec fn action_for(phase: CyclePhase, poll_interval_ms: u64) -> CycleAction {
    match phase {
        CyclePhase::AwaitingSnapshot => CycleAction::TakeSnapshot,
        CyclePhase::AwaitingOpportunities => CycleAction::FindOpportunities,
        CyclePhase::AwaitingSimulations => CycleAction::Simulate,
        CyclePhase::AwaitingReceipts => CycleAction::Submit,
        CyclePhase::Sleeping => CycleAction::Sleep(poll_interval_ms),
    }
}

/// Every transaction the optimizer emits for a list of opportunities, in order.
pub open spec fn all_optimized<T>(opportunities: Seq<MevOpportunity<T>>) -> Seq<T>
    decreases opportunities.len(),
{
    if opportunities.len() == 0 {
        Seq::empty()
    } else {
        all_optimized(opportunities.drop_last()) + optimized(&opportunities.last())
    }
}

/// Whether a candidate passes both gates: the risk check on its simulation
/// and the global profit threshold on its simulated profit.
pub open spec fn passes_gates(assessment: Assessment, risk_manager: RiskManager, profit_threshold: i64) -> bool {
    &&& match assessment.balance_deltas {
        Some(deltas) => within_risk_bounds(deltas@, risk_manager.max_capital_per_trade, risk_manager.max_slippage_bps),
        None => false,
    }
    &&& match assessment.profit {
        Some(p) => p >= profit_threshold,
        None => false,
    }
}

/// The candidates that pass both gates, in order; a candidate without an
/// assessment does not pass.
pub open spec fn approved<T>(
    candidates: Seq<T>,
    assessments: Seq<Assessment>,
    risk_manager: RiskManager,
    profit_threshold: i64,
) -> Seq<T>
    decreases candidates.len(),
{
    if candidates.len() == 0 {
        Seq::empty()
    } else {
        let rest = approved(candidates.drop_last(), assessments, risk_manager, profit_threshold);
        let i = candidates.len() - 1;
        if i < assessments.len() && passes_gates(assessments[i], risk_manager, profit_threshold) {
            rest.push(candidates.last())
        } else {
            rest
        }
    }
}

/// Every transaction the gates let through stands among the candidates with
/// an assessment that passes both the risk check and the profit threshold.
pub proof fn lemma_approved_passed_gates<T>(
    candidates: Seq<T>,
    assessments: Seq<Assessment>,
    risk_manager: RiskManager,
    profit_threshold: i64,
)
    ensures
        forall|j: int| 0 <= j < approved(candidates, assessments, risk_manager, profit_threshold).len() ==>
            exists|i: int| 0 <= i < candidates.len() && i < assessments.len()
                && candidates[i] == #[trigger] approved(candidates, assessments, risk_manager, profit_threshold)[j]
                && passes_gates(assessments[i], risk_manager, profit_threshold),
    decreases candidates.len(),
{
    if candidates.len() > 0 {
        let rest = candidates.drop_last();
        lemma_approved_passed_gates(rest, assessments, risk_manager, profit_threshold);
        let kept = approved(candidates, assessments, risk_manager, profit_threshold);
        let before = approved(rest, assessments, risk_manager, profit_threshold);
        assert forall|j: int| 0 <= j < kept.len() implies
            exists|i: int| 0 <= i < candidates.len() && i < assessments.len()
                && candidates[i] == #[trigger] kept[j]
                && passes_gates(assessments[i], risk_manager, profit_threshold) by {
            if j < before.len() {
                assert(kept[j] == before[j]);
                let i = choose|i: int| 0 <= i < rest.len() && i < assessments.len()
                    && rest[i] == #[trigger] before[j]
                    && passes_gates(assessments[i], risk_manager, profit_threshold);
                assert(candidates[i] == rest[i]);
            } else {
                let i = candidates.len() - 1;
                assert(candidates[i] == kept[j]);
            }
        }
    }
}

/// `tx` is the transaction of a candidate of one of the opportunities, and
/// that candidate's expected profit reaches the opportunity's own minimum.
pub open spec fn meets_own_minimum<T>(opportunities: Seq<MevOpportunity<T>>, tx: T) -> bool {
    exists|k: int, c: (T, i64)| #![trigger opportunities[k].transactions@.contains(c)]
        0 <= k < opportunities.len()
            && opportunities[k].transactions@.contains(c)
            && c.1 >= opportunities[k].min_profit
            && c.0 == tx
}

/// Every transaction the optimizer emits for a list of opportunities comes
/// from one of them, from a candidate whose expected profit reaches that
/// opportunity's own minimum.
pub proof fn lemma_optimized_meet_min_profit<T>(opportunities: Seq<MevOpportunity<T>>)
    ensures
        forall|j: int| 0 <= j < all_optimized(opportunities).len() ==>
            meets_own_minimum(opportunities, #[trigger] all_optimized(opportunities)[j]),
    decreases opportunities.len(),
{
    if opportunities.len() > 0 {
        let rest = opportunities.drop_last();
        let last = opportunities.last();
        lemma_optimized_meet_min_profit(rest);
        let pred = |c: (T, i64)| c.1 >= last.min_profit;
        let chosen = profitable_candidates(last.transactions@, last.min_profit);
        lemma_optimizer_respects_min_profit(last.transactions@, last.min_profit);
        let all = all_optimized(opportunities);
        let before = all_optimized(rest);
        assert forall|j: int| 0 <= j < all.len() implies meets_own_minimum(opportunities, #[trigger] all[j]) by {
            if j < before.len() {
                assert(all[j] == before[j]);
                assert(meets_own_minimum(rest, before[j]));
                let (k, c) = choose|k: int, c: (T, i64)| 0 <= k < rest.len()
                    && rest[k].transactions@.contains(c)
                    && c.1 >= rest[k].min_profit
                    && c.0 == before[j];
                assert(opportunities[k] == rest[k]);
                assert(opportunities[k].transactions@.contains(c));
            } else {
                let m = j - before.len();
                assert(all[j] == transactions_of(chosen)[m]);
                let c = chosen[m];
                last.transactions@.lemma_filter_contains_rev(pred, c);
                assert(chosen.contains(c));
                let k = opportunities.len() - 1;
                assert(opportunities[k] == last);
                assert(opportunities[k].transactions@.contains(c));
            }
        }
    }
}

/// The control loop of the pipeline, as a state machine: the caller performs
/// each action it asks for and hands back the outcome as an event.
#[derive(Debug)]
pub struct SolanaMevBot<T, S> {
    pub target_accounts: AddressMap<u64>,
    pub profit_threshold: i64,
    pub poll_interval_ms: u64,
    pub optimizer: Optimizer,
    pub risk_manager: RiskManager,
    pub strategy_manager: StrategyManager<S>,
    pub monitoring_manager: MonitoringManager,
    pub copy_trade_manager: CopyTradeManager,
    pub sniping_manager: SnipingManager,
    pub gas_optimizer: GasOptimizer,
    pub path_finder: PathFinder,
    pub trade_executor: TradeExecutor,
    pub cross_chain_manager: CrossChainManager,
    pub order_manager: OrderManager,
    pub phase: CyclePhase,
    pub snapshot: Option<MarketConditions>,
    pub pending: Vec<T>,
}

impl<T, S: Strategy<T>> SolanaMevBot<T, S> {
    /// A cycle past its snapshot stage holds the snapshot it acts on.
    pub open spec fn wf(&self) -> bool {
        match self.phase {
            CyclePhase::AwaitingOpportunities | CyclePhase::AwaitingSimulations | CyclePhase::AwaitingReceipts =>
                self.snapshot is Some,
            _ => true,
        }
    }

    pub fn new(target_accounts: AddressMap<u64>, profit_threshold: i64, strategy_manager: StrategyManager<S>) -> (r: Self)
        ensures
            r.wf(),
            r.phase == CyclePhase::AwaitingSnapshot,
            r.target_accounts@ == target_accounts@,
            r.profit_threshold == profit_threshold,
            r.poll_interval_ms == DEFAULT_POLL_INTERVAL_MS,
            r.strategy_manager.strategies@ == strategy_manager.strategies@,
            r.monitoring_manager.transaction_logs@.len() == 0,
            r.pending@.len() == 0,
    {
        SolanaMevBot {
            target_accounts,
            profit_threshold,
            poll_interval_ms: DEFAULT_POLL_INTERVAL_MS,
            optimizer: Optimizer::new(),
            risk_manager: RiskManager::new(),
            strategy_manager,
            monitoring_manager: MonitoringManager::new(),
            copy_trade_manager: CopyTradeManager::new(),
            sniping_manager: SnipingManager::new(),
            gas_optimizer: GasOptimizer::new(),
            path_finder: PathFinder::new(),
            trade_executor: TradeExecutor::new(),
            cross_chain_manager: CrossChainManager::new(),
            order_manager: OrderManager::new(),
            phase: CyclePhase::AwaitingSnapshot,
            snapshot: None,
            pending: Vec::new(),
        }
    }

    fn take_snapshot(&mut self, market_conditions: MarketConditions)
        ensures
            final(self).phase == CyclePhase::AwaitingOpportunities,
            final(self).snapshot == Some(market_conditions),
            final(self).sniping_manager.watch_list.threshold == old(self).sniping_manager.watch_list.threshold,
            final(self).sniping_manager.watch_list.accounts@ == refreshed(
                old(self).sniping_manager.watch_list.accounts@,
                market_conditions.account_balances@,
            ),
            final(self).copy_trade_manager.watch_list.threshold == old(self).copy_trade_manager.watch_list.threshold,
            final(self).copy_trade_manager.watch_list.accounts@ == refreshed(
                old(self).copy_trade_manager.watch_list.accounts@,
                market_conditions.account_balances@,
            ),
            final(self).strategy_manager.strategies@ == all_updated(old(self).strategy_manager.strategies@, market_conditions),
            final(self).monitoring_manager == old(self).monitoring_manager,
            final(self).pending == old(self).pending,
            final(self).target_accounts == old(self).target_accounts,
            final(self).profit_threshold == old(self).profit_threshold,
            final(self).poll_interval_ms == old(self).poll_interval_ms,
            final(self).risk_manager == old(self).risk_manager,
    {
        self.strategy_manager.update(&market_conditions);
        self.copy_trade_manager.update(&market_conditions);
        self.sniping_manager.update(&market_conditions);
        self.gas_optimizer.update(&market_conditions);
        self.path_finder.update(&market_conditions);
        self.cross_chain_manager.update(&market_conditions);
        self.order_manager.update(&market_conditions);
        self.snapshot = Some(market_conditions);
        self.phase = CyclePhase::AwaitingOpportunities;
    }

    fn skip_cycle(&mut self)
        ensures
            final(self).phase == CyclePhase::Sleeping,
            final(self).pending@.len() == 0,
            final(self).monitoring_manager.transaction_logs@ == old(self).monitoring_manager.transaction_logs@,
            final(self).monitoring_manager.cycles_observed == if old(self).monitoring_manager.cycles_observed < u64::MAX {
                old(self).monitoring_manager.cycles_observed + 1
            } else {
                old(self).monitoring_manager.cycles_observed as int
            },
            final(self).snapshot == old(self).snapshot,
            final(self).strategy_manager == old(self).strategy_manager,
            final(self).target_accounts == old(self).target_accounts,
            final(self).profit_threshold == old(self).profit_threshold,
            final(self).poll_interval_ms == old(self).poll_interval_ms,
            final(self).risk_manager == old(self).risk_manager,
    {
        self.monitoring_manager.note_cycle();
        self.pending = Vec::new();
        self.phase = CyclePhase::Sleeping;
    }

    fn gather(&mut self, opportunities: Vec<MevOpportunity<T>>)
        ensures
            final(self).phase == CyclePhase::AwaitingSimulations,
            final(self).pending@ == all_optimized(
                reported(old(self).strategy_manager.strategies@, old(self).target_accounts@) + opportunities@,
            ),
            final(self).snapshot == old(self).snapshot,
            final(self).monitoring_manager == old(self).monitoring_manager,
            final(self).strategy_manager == old(self).strategy_manager,
            final(self).target_accounts == old(self).target_accounts,
            final(self).profit_threshold == old(self).profit_threshold,
            final(self).poll_interval_ms == old(self).poll_interval_ms,
            final(self).risk_manager == old(self).risk_manager,
    {
        let ghost found = opportunities@;
        let mut opportunities = opportunities;
        let mut all = self.strategy_manager.find_opportunities(&self.target_accounts);
        let ghost from_strategies = all@;
        let mut from_paths = self.path_finder.find_opportunities(&self.target_accounts);
        all.append(&mut from_paths);
        all.append(&mut opportunities);
        let mut from_cross_chain = self.cross_chain_manager.find_opportunities();
        all.append(&mut from_cross_chain);
        proof {
            assert(all@ =~= from_strategies + found);
        }
        let ghost everything = all@;
        let mut candidates: Vec<T> = Vec::new();
        for opportunity in it: all.into_iter()
            invariant
                it.seq() == everything,
                candidates@ == all_optimized(everything.subrange(0, it.index() as int)),
        {
            let ghost i = it.index();
            proof {
                assert(opportunity == everything[i as int]);
                assert(everything.subrange(0, i + 1).drop_last() =~= everything.subrange(0, i as int));
            }
            let mut txs = self.optimizer.optimize(opportunity);
            candidates.append(&mut txs);
        }
        proof {
            assert(everything.subrange(0, everything.len() as int) =~= everything);
        }
        self.pending = candidates;
        self.phase = CyclePhase::AwaitingSimulations;
    }

    fn approve(&mut self, assessments: Vec<Assessment>)
        ensures
            final(self).phase == CyclePhase::AwaitingReceipts,
            final(self).pending@ == approved(old(self).pending@, assessments@, old(self).risk_manager, old(self).profit_threshold),
            final(self).snapshot == old(self).snapshot,
            final(self).monitoring_manager == old(self).monitoring_manager,
            final(self).strategy_manager == old(self).strategy_manager,
            final(self).target_accounts == old(self).target_accounts,
            final(self).profit_threshold == old(self).profit_threshold,
            final(self).poll_interval_ms == old(self).poll_interval_ms,
            final(self).risk_manager == old(self).risk_manager,
    {
        let mut candidates: Vec<T> = Vec::new();
        std::mem::swap(&mut candidates, &mut self.pending);
        let ghost all = candidates@;
        let n = candidates.len();
        let mut kept: Vec<T> = Vec::new();
        let mut k: usize = 0;
        for tx in it: candidates.into_iter()
            invariant
                it.seq() == all,
                k == it.index(),
                n == all.len(),
                self.risk_manager == old(self).risk_manager,
                self.profit_threshold == old(self).profit_threshold,
                kept@ == approved(all.subrange(0, k as int), assessments@, self.risk_manager, self.profit_threshold),
        {
            proof {
                assert(tx == all[k as int]);
                assert(k < all.len());
                assert(all.subrange(0, k + 1).drop_last() =~= all.subrange(0, k as int));
            }
            if k < assessments.len() {
                let assessment = &assessments[k];
                let profitable = match assessment.profit {
                    Some(p) => p >= self.profit_threshold,
                    None => false,
                };
                if self.risk_manager.is_safe(&assessment.balance_deltas) && profitable {
                    kept.push(tx);
                }
            }
            k = k + 1;
        }
        proof {
            assert(all.subrange(0, n as int) =~= all);
        }
        self.pending = self.gas_optimizer.optimize(kept);
        self.phase = CyclePhase::AwaitingReceipts;
    }

    fn record(&mut self, receipts: Vec<Option<String>>)
        ensures
            final(self).phase == CyclePhase::Sleeping,
            final(self).pending@.len() == 0,
            match old(self).snapshot {
                Some(s) => {
                    let executed = accepted(old(self).pending@, receipts@);
                    let before = old(self).monitoring_manager.transaction_logs@;
                    &&& final(self).monitoring_manager.transaction_logs@.len() == before.len() + executed.len()
                    &&& forall|i: int| 0 <= i < before.len()
                        ==> #[trigger] final(self).monitoring_manager.transaction_logs@[i] == before[i]
                    &&& forall|j: int| 0 <= j < executed.len() ==> records(
                        #[trigger] final(self).monitoring_manager.transaction_logs@[before.len() + j],
                        executed[j],
                        &s,
                    )
                },
                None => final(self).monitoring_manager.transaction_logs@ == old(self).monitoring_manager.transaction_logs@,
            },
            final(self).monitoring_manager.cycles_observed == if old(self).monitoring_manager.cycles_observed < u64::MAX {
                old(self).monitoring_manager.cycles_observed + 1
            } else {
                old(self).monitoring_manager.cycles_observed as int
            },
            final(self).snapshot == old(self).snapshot,
            final(self).strategy_manager == old(self).strategy_manager,
            final(self).target_accounts == old(self).target_accounts,
            final(self).profit_threshold == old(self).profit_threshold,
            final(self).poll_interval_ms == old(self).poll_interval_ms,
            final(self).risk_manager == old(self).risk_manager,
    {
        let mut txs: Vec<T> = Vec::new();
        std::mem::swap(&mut txs, &mut self.pending);
        let executed = self.trade_executor.execute_transactions(txs, receipts);
        match &self.snapshot {
            Some(s) => self.monitoring_manager.log_and_monitor(&executed, s),
            None => self.monitoring_manager.note_cycle(),
        }
        self.order_manager.manage_orders(&executed);
        self.phase = CyclePhase::Sleeping;
    }

    /// Advances the cycle with the outcome of the last action and returns the
    /// next action. An event that the current phase does not wait on changes
    /// nothing. A failed snapshot does not stop the loop: the cycle still
    /// reports to the monitor, with no new record, and then sleeps.
    pub fn step(&mut self, event: CycleEvent<T>) -> (r: CycleAction)
        ensures
            r == action_for(final(self).phase, final(self).poll_interval_ms),
            old(self).wf() ==> final(self).wf(),
            final(self).target_accounts == old(self).target_accounts,
            final(self).profit_threshold == old(self).profit_threshold,
            final(self).poll_interval_ms == old(self).poll_interval_ms,
            final(self).risk_manager == old(self).risk_manager,
            match event {
                CycleEvent::SnapshotTaken(mc) => if old(self).phase == CyclePhase::AwaitingSnapshot {
                    &&& final(self).phase == CyclePhase::AwaitingOpportunities
                    &&& final(self).snapshot == Some(mc)
                    &&& final(self).sniping_manager.watch_list.threshold == old(self).sniping_manager.watch_list.threshold
                    &&& final(self).sniping_manager.watch_list.accounts@
                        == refreshed(old(self).sniping_manager.watch_list.accounts@, mc.account_balances@)
                    &&& final(self).copy_trade_manager.watch_list.threshold == old(self).copy_trade_manager.watch_list.threshold
                    &&& final(self).copy_trade_manager.watch_list.accounts@
                        == refreshed(old(self).copy_trade_manager.watch_list.accounts@, mc.account_balances@)
                    &&& final(self).strategy_manager.strategies@ == all_updated(old(self).strategy_manager.strategies@, mc)
                    &&& final(self).monitoring_manager == old(self).monitoring_manager
                    &&& final(self).pending == old(self).pending
                } else {
                    old(self).unchanged(*final(self))
                },
                CycleEvent::SnapshotFailed => if old(self).phase == CyclePhase::AwaitingSnapshot {
                    &&& final(self).phase == CyclePhase::Sleeping
                    &&& final(self).pending@.len() == 0
                    &&& final(self).monitoring_manager.transaction_logs@ == old(self).monitoring_manager.transaction_logs@
                    &&& final(self).monitoring_manager.cycles_observed == if old(self).monitoring_manager.cycles_observed < u64::MAX {
                        old(self).monitoring_manager.cycles_observed + 1
                    } else {
                        old(self).monitoring_manager.cycles_observed as int
                    }
                } else {
                    old(self).unchanged(*final(self))
                },
                CycleEvent::OpportunitiesFound(found) => if old(self).phase == CyclePhase::AwaitingOpportunities {
                    &&& final(self).phase == CyclePhase::AwaitingSimulations
                    &&& final(self).pending@ == all_optimized(
                        reported(old(self).strategy_manager.strategies@, old(self).target_accounts@) + found@,
                    )
                    &&& final(self).monitoring_manager == old(self).monitoring_manager
                } else {
                    old(self).unchanged(*final(self))
                },
                CycleEvent::Simulated(assessments) => if old(self).phase == CyclePhase::AwaitingSimulations {
                    &&& final(self).phase == CyclePhase::AwaitingReceipts
                    &&& final(self).pending@
                        == approved(old(self).pending@, assessments@, old(self).risk_manager, old(self).profit_threshold)
                    &&& final(self).monitoring_manager == old(self).monitoring_manager
                } else {
                    old(self).unchanged(*final(self))
                },
                CycleEvent::Submitted(receipts) => if old(self).phase == CyclePhase::AwaitingReceipts {
                    &&& final(self).phase == CyclePhase::Sleeping
                    &&& final(self).pending@.len() == 0
                    &&& match old(self).snapshot {
                        Some(s) => {
                            let executed = accepted(old(self).pending@, receipts@);
                            let before = old(self).monitoring_manager.transaction_logs@;
                            &&& final(self).monitoring_manager.transaction_logs@.len() == before.len() + executed.len()
                            &&& forall|i: int| 0 <= i < before.len()
                                ==> #[trigger] final(self).monitoring_manager.transaction_logs@[i] == before[i]
                            &&& forall|j: int| 0 <= j < executed.len() ==> records(
                                #[trigger] final(self).monitoring_manager.transaction_logs@[before.len() + j],
                                executed[j],
                                &s,
                            )
                        },
                        None => final(self).monitoring_manager.transaction_logs@
                            == old(self).monitoring_manager.transaction_logs@,
                    }
                    &&& final(self).monitoring_manager.cycles_observed == if old(self).monitoring_manager.cycles_observed < u64::MAX {
                        old(self).monitoring_manager.cycles_observed + 1
                    } else {
                        old(self).monitoring_manager.cycles_observed as int
                    }
                } else {
                    old(self).unchanged(*final(self))
                },
                CycleEvent::Woke => if old(self).phase == CyclePhase::Sleeping {
                    &&& final(self).phase == CyclePhase::AwaitingSnapshot
                    &&& final(self).monitoring_manager == old(self).monitoring_manager
                    &&& final(self).pending == old(self).pending
                } else {
                    old(self).unchanged(*final(self))
                },
            },
    {
        match event {
            CycleEvent::SnapshotTaken(mc) => {
                if self.phase == CyclePhase::AwaitingSnapshot {
                    self.take_snapshot(mc);
                }
            },
            CycleEvent::SnapshotFailed => {
                if self.phase == CyclePhase::AwaitingSnapshot {
                    self.skip_cycle();
                }
            },
            CycleEvent::OpportunitiesFound(found) => {
                if self.phase == CyclePhase::AwaitingOpportunities {
                    self.gather(found);
                }
            },
            CycleEvent::Simulated(assessments) => {
                if self.phase == CyclePhase::AwaitingSimulations {
                    self.approve(assessments);
                }
            },
            CycleEvent::Submitted(receipts) => {
                if self.phase == CyclePhase::AwaitingReceipts {
                    self.record(receipts);
                }
            },
            CycleEvent::Woke => {
                if self.phase == CyclePhase::Sleeping {
                    self.phase = CyclePhase::AwaitingSnapshot;
                }
            },
        }
        self.next_action()
    }

    /// The cycle has not moved: same phase, same pending transactions, same
    /// snapshot and the same monitor.
    pub open spec fn unchanged(&self, after: Self) -> bool {
        &&& after.phase == self.phase
        &&& after.pending == self.pending
        &&& after.snapshot == self.snapshot
        &&& after.monitoring_manager == self.monitoring_manager
    }

    /// The action the current phase waits on.
    pub fn next_action(&self) -> (r: CycleAction)
        ensures
            r == action_for(self.phase, self.poll_interval_ms),
    {
        match self.phase {
            CyclePhase::AwaitingSnapshot => CycleAction::TakeSnapshot,
            CyclePhase::AwaitingOpportunities => CycleAction::FindOpportunities,
            CyclePhase::AwaitingSimulations => CycleAction::Simulate,
            CyclePhase::AwaitingReceipts => CycleAction::Submit,
            CyclePhase::Sleeping => CycleAction::Sleep(self.poll_interval_ms),
        }
    }

    /// The transactions the current action concerns.
    pub fn pending(&self) -> (r: &Vec<T>)
        ensures
            r@ == self.pending@,
    {
        &self.pending
    }
}

} // verus!
