use solana_mev_bot::address::Address;
use solana_mev_bot::address_map::AddressMap;
use solana_mev_bot::copy_trade_manager::CopyTradeManager;
use solana_mev_bot::market_conditions::MarketConditions;
use solana_mev_bot::opportunity::MevOpportunity;
use solana_mev_bot::path_finder::{CrossChainManager, PathFinder};
use solana_mev_bot::sniping_manager::SnipingManager;
use solana_mev_bot::strategy::{ArbitrageStrategy, SandwichStrategy, StrategyManager};
use solana_mev_bot::watch_list::{WatchList, DEFAULT_WATCH_THRESHOLD};

fn addr(n: u8) -> Address {
    let mut bytes = [0u8; 32];
    bytes[0] = n;
    bytes[31] = 255 - n;
    Address::new(bytes)
}

fn snapshot(balances: &[(Address, u64)]) -> MarketConditions {
    let mut map = AddressMap::new();
    for (a, b) in balances {
        map.insert(*a, *b);
    }
    MarketConditions::new(1_000_000, 500_000, 200, map)
}

#[test]
fn sniping_threshold_decides_targets() {
    let a = addr(1);
    let mut low = SnipingManager::with_threshold(1000);
    low.update(&snapshot(&[(a, 1500)]));
    assert!(low.targets().contains(&a));

    let mut high = SnipingManager::with_threshold(2000);
    high.update(&snapshot(&[(a, 1500)]));
    assert!(!high.targets().contains(&a));
}

#[test]
fn default_threshold_is_reached_exactly() {
    let (a, b) = (addr(1), addr(2));
    let mut manager = SnipingManager::new();
    assert_eq!(manager.watch_list.threshold, DEFAULT_WATCH_THRESHOLD);
    manager.update(&snapshot(&[(a, 1000), (b, 999)]));
    assert_eq!(manager.targets(), vec![a]);
}

#[test]
fn update_twice_with_same_snapshot_is_idempotent() {
    let (a, b, c) = (addr(1), addr(2), addr(3));
    let mut list = WatchList::new(10);
    list.update(&snapshot(&[(c, 4)]));
    let snap = snapshot(&[(a, 50), (b, 7)]);
    list.update(&snap);
    let mut first = list.accounts.to_vec();
    list.update(&snap);
    let mut second = list.accounts.to_vec();
    first.sort_by_key(|e| e.0.bytes);
    second.sort_by_key(|e| e.0.bytes);
    assert_eq!(first, second);
    assert_eq!(first.len(), 3);
}

#[test]
fn later_snapshot_replaces_balance() {
    let a = addr(4);
    let mut manager = CopyTradeManager::new();
    manager.update(&snapshot(&[(a, 5000)]));
    assert_eq!(manager.targets(), vec![a]);
    manager.update(&snapshot(&[(a, 10)]));
    assert!(manager.targets().is_empty());
    assert_eq!(manager.watch_list.accounts.get(&a), Some(10));
    assert_eq!(manager.watch_list.accounts.len(), 1);
}

#[test]
fn probes_that_found_nothing_are_dropped() {
    let manager = SnipingManager::new();
    let found = vec![
        None,
        MevOpportunity::from_found(Some(vec![("tx", 3i64)])),
        None,
        MevOpportunity::from_found(Some(Vec::new())),
    ];
    let out = manager.find_opportunities(found);
    assert_eq!(out.len(), 2);
    assert_eq!(out[0].transactions, vec![("tx", 3i64)]);
    assert!(out[1].transactions.is_empty());
}

#[test]
fn address_map_insert_and_get() {
    let mut map: AddressMap<u64> = AddressMap::new();
    assert_eq!(map.len(), 0);
    map.insert(addr(1), 5);
    map.insert(addr(2), 6);
    map.insert(addr(1), 7);
    assert_eq!(map.len(), 2);
    assert_eq!(map.get(&addr(1)), Some(7));
    assert_eq!(map.get(&addr(2)), Some(6));
    assert_eq!(map.get(&addr(3)), None);
    let copy = map.duplicate();
    assert_eq!(copy.get(&addr(1)), Some(7));
    let mut keys = map.keys_at_least(6);
    keys.sort_by_key(|a| a.bytes);
    assert_eq!(keys, vec![addr(1), addr(2)]);
    assert_eq!(map.keys_at_least(7), vec![addr(1)]);
}

#[test]
fn addresses_compare_by_every_byte() {
    let mut bytes = [9u8; 32];
    let a = Address::new(bytes);
    bytes[31] = 8;
    let b = Address::new(bytes);
    assert!(a.same_as(&a));
    assert!(!a.same_as(&b));
    assert!(a != b);
    assert!(a == Address::new([9u8; 32]));
}

#[test]
fn registry_concatenates_sources() {
    let mut sandwiches: StrategyManager<SandwichStrategy> = StrategyManager::new();
    sandwiches.add_strategy(SandwichStrategy {});
    sandwiches.add_strategy(SandwichStrategy {});
    sandwiches.update::<u8>(&snapshot(&[]));
    assert_eq!(sandwiches.strategies.len(), 2);
    let found: Vec<MevOpportunity<u8>> = sandwiches.find_opportunities(&AddressMap::new());
    assert!(found.is_empty());

    let mut arbitrage: StrategyManager<ArbitrageStrategy> = StrategyManager::new();
    arbitrage.add_strategy(ArbitrageStrategy {});
    let found: Vec<MevOpportunity<u8>> = arbitrage.find_opportunities(&AddressMap::new());
    assert!(found.is_empty());
}

#[test]
fn stub_sources_report_nothing() {
    let found: Vec<MevOpportunity<u8>> = PathFinder::new().find_opportunities(&AddressMap::new());
    assert!(found.is_empty());
    let found: Vec<MevOpportunity<u8>> = CrossChainManager::new().find_opportunities();
    assert!(found.is_empty());
}
