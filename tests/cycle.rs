use solana_mev_bot::address::Address;
use solana_mev_bot::address_map::AddressMap;
use solana_mev_bot::gas_optimizer::GasOptimizer;
use solana_mev_bot::market_conditions::MarketConditions;
use solana_mev_bot::monitoring_manager::MonitoringManager;
use solana_mev_bot::opportunity::MevOpportunity;
use solana_mev_bot::solana_mev_bot::{Assessment, CycleAction, CycleEvent, CyclePhase, SolanaMevBot, DEFAULT_POLL_INTERVAL_MS};
use solana_mev_bot::strategy::{SandwichStrategy, StrategyManager};
use solana_mev_bot::trade_executor::TradeExecutor;

fn addr(n: u8) -> Address {
    Address::new([n; 32])
}

fn snapshot(balances: &[(Address, u64)]) -> MarketConditions {
    let mut map = AddressMap::new();
    for (a, b) in balances {
        map.insert(*a, *b);
    }
    MarketConditions::new(1_000_000, 500_000, 200, map)
}

fn bot() -> SolanaMevBot<&'static str, SandwichStrategy> {
    let mut strategies = StrategyManager::new();
    strategies.add_strategy(SandwichStrategy {});
    SolanaMevBot::new(AddressMap::new(), 10_000_000, strategies)
}

fn safe(profit: i64) -> Assessment {
    Assessment { balance_deltas: Some(vec![100, 101]), profit: Some(profit) }
}

#[test]
fn failed_snapshot_still_reports_to_monitor() {
    let mut bot = bot();
    assert_eq!(bot.next_action(), CycleAction::TakeSnapshot);
    let action = bot.step(CycleEvent::SnapshotFailed);
    assert_eq!(action, CycleAction::Sleep(DEFAULT_POLL_INTERVAL_MS));
    assert_eq!(bot.monitoring_manager.cycles_observed, 1);
    assert_eq!(bot.monitoring_manager.transaction_count(), 0);
    assert_eq!(bot.step(CycleEvent::Woke), CycleAction::TakeSnapshot);
    assert_eq!(bot.phase, CyclePhase::AwaitingSnapshot);
}

#[test]
fn full_cycle_records_accepted_transactions() {
    let a = addr(1);
    let mut bot = bot();
    assert_eq!(bot.step(CycleEvent::SnapshotTaken(snapshot(&[(a, 1500)]))), CycleAction::FindOpportunities);
    assert_eq!(bot.sniping_manager.targets(), vec![a]);
    assert_eq!(bot.copy_trade_manager.targets(), vec![a]);

    let found = vec![
        MevOpportunity::new(vec![("t1", 20_000_000), ("t2", 5_000_000)], 10_000_000),
        MevOpportunity::new(vec![("t3", 30_000_000), ("t4", 40_000_000), ("t5", 50_000_000)], 0),
    ];
    assert_eq!(bot.step(CycleEvent::OpportunitiesFound(found)), CycleAction::Simulate);
    assert_eq!(bot.pending(), &vec!["t1", "t3", "t4", "t5"]);

    let assessments = vec![
        safe(20_000_000),
        Assessment { balance_deltas: None, profit: Some(90_000_000) },
        safe(1),
        safe(10_000_000),
    ];
    assert_eq!(bot.step(CycleEvent::Simulated(assessments)), CycleAction::Submit);
    assert_eq!(bot.pending(), &vec!["t1", "t5"]);

    let action = bot.step(CycleEvent::Submitted(vec![None, Some("sig5".to_string())]));
    assert_eq!(action, CycleAction::Sleep(500));
    assert!(bot.pending().is_empty());
    assert_eq!(bot.monitoring_manager.transaction_count(), 1);
    let log = &bot.monitoring_manager.transaction_logs[0];
    assert_eq!(log.signature, "sig5");
    assert_eq!(log.market_conditions.account_balances.get(&a), Some(1500));
    assert_eq!(log.market_conditions.liquidity, 1_000_000);
    assert_eq!(bot.monitoring_manager.cycles_observed, 1);
}

#[test]
fn events_out_of_turn_change_nothing() {
    let mut bot = bot();
    assert_eq!(bot.step(CycleEvent::Woke), CycleAction::TakeSnapshot);
    assert_eq!(bot.step(CycleEvent::Submitted(vec![Some("x".to_string())])), CycleAction::TakeSnapshot);
    assert_eq!(bot.step(CycleEvent::OpportunitiesFound(vec![MevOpportunity::new(vec![("t", 1)], 0)])), CycleAction::TakeSnapshot);
    assert!(bot.pending().is_empty());
    assert_eq!(bot.monitoring_manager.cycles_observed, 0);
    assert_eq!(bot.step(CycleEvent::SnapshotTaken(snapshot(&[]))), CycleAction::FindOpportunities);
    assert_eq!(bot.step(CycleEvent::SnapshotFailed), CycleAction::FindOpportunities);
    assert_eq!(bot.phase, CyclePhase::AwaitingOpportunities);
}

#[test]
fn missing_assessments_reject_the_rest() {
    let mut bot = bot();
    bot.step(CycleEvent::SnapshotTaken(snapshot(&[])));
    bot.step(CycleEvent::OpportunitiesFound(vec![MevOpportunity::new(vec![("a", 1), ("b", 1)], 0)]));
    assert_eq!(bot.step(CycleEvent::Simulated(vec![safe(10_000_000)])), CycleAction::Submit);
    assert_eq!(bot.pending(), &vec!["a"]);
}

#[test]
fn executor_keeps_accepted_with_receipts() {
    let out = TradeExecutor::new().execute_transactions(
        vec!["a", "b", "c", "d"],
        vec![Some("ra".to_string()), None, Some("rc".to_string())],
    );
    assert_eq!(out, vec![("a", "ra".to_string()), ("c", "rc".to_string())]);
}

#[test]
fn gas_optimizer_keeps_transactions() {
    assert_eq!(GasOptimizer::new().optimize(vec![3, 1, 2]), vec![3, 1, 2]);
}

#[test]
fn monitor_appends_one_record_per_transaction() {
    let mut monitor = MonitoringManager::new();
    let snap = snapshot(&[(addr(2), 9)]);
    monitor.log_and_monitor(&vec![(0u8, "s1".to_string()), (1u8, "s2".to_string())], &snap);
    monitor.log_and_monitor(&Vec::<(u8, String)>::new(), &snap);
    assert_eq!(monitor.transaction_count(), 2);
    assert_eq!(monitor.transaction_logs[1].signature, "s2");
    assert_eq!(monitor.cycles_observed, 2);
    monitor.cycles_observed = u64::MAX;
    monitor.note_cycle();
    assert_eq!(monitor.cycles_observed, u64::MAX);
}
