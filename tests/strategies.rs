use solana_mev_bot::address::Address;
use solana_mev_bot::arbitrage_strategy::{ArbitrageOpportunity, ArbitrageStrategy};
use solana_mev_bot::copy_trade_strategy::CopyTradeStrategy;
use solana_mev_bot::dashboard::Dashboard;
use solana_mev_bot::dex::Orca;
use solana_mev_bot::market_analyzer::MarketAnalyzer;
use solana_mev_bot::address_map::AddressMap;
use solana_mev_bot::metrics::Metrics;
use solana_mev_bot::models::{Market, Order, OrderSide, OrderStatus, OrderType};
use solana_mev_bot::solana_mev_bot::Assessment;
use solana_mev_bot::sniping_strategy::{Orderbook, SnipingOpportunity, SnipingStrategy};

fn addr(n: u8) -> Address {
    Address::new([n; 32])
}

fn order(side: OrderSide, price: u64, quantity: u64) -> Order {
    Order { id: 1, market: addr(1), side, order_type: OrderType::Limit, price, quantity, status: OrderStatus::Open }
}

fn market(n: u8, base_decimals: u8, quote_decimals: u8) -> Market {
    Market {
        address: addr(n),
        name: "TOKEN/USDC".to_string(),
        base_asset: addr(20),
        quote_asset: addr(21),
        base_decimals,
        quote_decimals,
    }
}

#[test]
fn test_copy_trade_strategy() {
    let trader_account = addr(3);
    let mut strategy = CopyTradeStrategy::new(vec![trader_account], 0, 0);
    strategy.set_trade_threshold(1000);
    strategy.set_max_trade_amount(10000);
    let trades = vec![(trader_account, order(OrderSide::Bid, 2, 5000))];
    let targets = strategy.find_opportunities(trades);
    assert_eq!(targets.len(), 1);
    assert_eq!(targets[0].trader, trader_account);
    assert_eq!(targets[0].trade.quantity, 5000);
}

#[test]
fn copy_trade_band_is_inclusive() {
    let strategy = CopyTradeStrategy::new(vec![addr(1)], 1000, 10000);
    let trades = vec![
        (addr(1), order(OrderSide::Bid, 1, 999)),
        (addr(1), order(OrderSide::Bid, 1, 1000)),
        (addr(2), order(OrderSide::Ask, 1, 10000)),
        (addr(2), order(OrderSide::Ask, 1, 10001)),
    ];
    let found = strategy.find_opportunities(trades);
    assert_eq!(found.iter().map(|o| o.trade.quantity).collect::<Vec<_>>(), vec![1000, 10000]);
    assert_eq!(found[1].trader, addr(2));
}

#[test]
fn test_sniping_strategy() {
    let token_mint = addr(4);
    let mut strategy = SnipingStrategy::new(Vec::new(), 0, 0);
    strategy.add_target_token(token_mint);
    strategy.set_max_price(10);
    strategy.set_min_liquidity(1000);
    let book = Orderbook { bids: vec![order(OrderSide::Bid, 8, 5000)], asks: vec![order(OrderSide::Ask, 12, 0)] };
    let opportunities = strategy.find_opportunities(vec![(market(4, 0, 0), book)]);
    assert_eq!(opportunities.len(), 1);
    assert_eq!(opportunities[0].market, token_mint);
    assert_eq!(opportunities[0].price, 8);
    // 5000 base units plus 5000 * 10 quote units at the mid price.
    assert_eq!(opportunities[0].liquidity, 55000);
}

#[test]
fn sniping_liquidity_scales_by_decimals() {
    let strategy = SnipingStrategy::new(vec![addr(1)], 100, 0);
    let book = Orderbook {
        bids: vec![order(OrderSide::Bid, 4, 1_500), order(OrderSide::Bid, 3, 500)],
        asks: vec![order(OrderSide::Ask, 6, 1_000)],
    };
    // base 3000 / 10^3 = 3; quote 3000 * 5 / 10^2 = 150.
    assert_eq!(strategy.calculate_liquidity(&market(1, 3, 2), &book), Some(153));
    let one_sided = Orderbook { bids: vec![order(OrderSide::Bid, 4, 1)], asks: Vec::new() };
    assert_eq!(strategy.calculate_liquidity(&market(1, 0, 0), &one_sided), None);
    assert_eq!(strategy.calculate_liquidity(&market(1, 40, 0), &book), None);
}

#[test]
fn sniping_skips_expensive_or_shallow_markets() {
    let strategy = SnipingStrategy::new(vec![addr(1), addr(2), addr(3)], 10, 100);
    let books = vec![
        (market(1, 0, 0), Orderbook { bids: vec![order(OrderSide::Bid, 11, 500)], asks: vec![order(OrderSide::Ask, 12, 0)] }),
        (market(2, 0, 0), Orderbook { bids: vec![order(OrderSide::Bid, 2, 10)], asks: vec![order(OrderSide::Ask, 4, 0)] }),
        (market(3, 0, 0), Orderbook { bids: Vec::new(), asks: vec![order(OrderSide::Ask, 4, 9)] }),
    ];
    assert!(strategy.find_opportunities(books).is_empty());
}

#[test]
fn arbitrage_pairs_and_threshold() {
    let strategy = ArbitrageStrategy::new(5);
    let tokens = vec!["SOL".to_string(), "USDC".to_string(), "RAY".to_string()];
    let pairs = strategy.generate_token_pairs(&tokens);
    let expected: Vec<(String, String)> = vec![
        ("SOL", "USDC"), ("SOL", "RAY"), ("USDC", "SOL"), ("USDC", "RAY"), ("RAY", "SOL"), ("RAY", "USDC"),
    ]
    .into_iter()
    .map(|(a, b)| (a.to_string(), b.to_string()))
    .collect();
    assert_eq!(pairs, expected);
    assert!(strategy.generate_token_pairs(&vec!["SOL".to_string()]).is_empty());
    assert_eq!(ArbitrageStrategy::pair_key("SOL", "USDC"), "SOL/USDC");
    let found = vec![
        ArbitrageOpportunity { token_a: "A".to_string(), token_b: "B".to_string(), expected_profit: 4 },
        ArbitrageOpportunity { token_a: "B".to_string(), token_b: "A".to_string(), expected_profit: 5 },
    ];
    let kept = strategy.find_arbitrage_opportunities(found);
    assert_eq!(kept.len(), 1);
    assert_eq!(kept[0].token_a, "B");
}

#[test]
fn orca_swap_amounts() {
    assert_eq!(Orca::swap_amounts(OrderSide::Bid, 3, 100), Some((100, 297)));
    assert_eq!(Orca::swap_amounts(OrderSide::Ask, 3, 100), Some((33, 32)));
    assert_eq!(Orca::swap_amounts(OrderSide::Ask, 0, 100), None);
    assert_eq!(Orca::swap_amounts(OrderSide::Bid, u64::MAX, u64::MAX), None);
    let orca = Orca::new(addr(1), addr(2));
    let filled = orca.filled_order(&market(5, 0, 0), OrderType::ImmediateOrCancel, OrderSide::Ask, 7, 9);
    assert_eq!(filled.market, addr(5));
    assert_eq!(filled.status, OrderStatus::Filled);
    assert_eq!((filled.price, filled.quantity), (7, 9));
}

#[test]
fn assessment_from_balances() {
    let a = Assessment::from_balances(&vec![100, 50], &vec![130, 40]);
    assert_eq!(a.balance_deltas, Some(vec![30, -10]));
    assert_eq!(a.profit, Some(30));
    let empty = Assessment::from_balances(&Vec::new(), &Vec::new());
    assert_eq!(empty.balance_deltas, Some(Vec::new()));
    assert_eq!(empty.profit, None);
    let mismatched = Assessment::from_balances(&vec![1], &vec![1, 2]);
    assert!(mismatched.balance_deltas.is_none() && mismatched.profit.is_none());
    let huge = Assessment::from_balances(&vec![0], &vec![u64::MAX]);
    assert!(huge.balance_deltas.is_none());
}

#[test]
fn analyzer_and_dashboard() {
    let mut balances = AddressMap::new();
    balances.insert(addr(1), 42);
    let snapshot = MarketAnalyzer::new().analyze(balances);
    assert_eq!((snapshot.liquidity, snapshot.volume, snapshot.volatility_bps), (1_000_000, 500_000, 200));
    assert_eq!(snapshot.account_balances.get(&addr(1)), Some(42));
    let dashboard = Dashboard::new(Metrics::new());
    assert!(dashboard.metrics.get_orders().is_empty());
}

#[test]
fn sniping_order_quantity() {
    let o = SnipingOpportunity { market: addr(1), price: 8, liquidity: 55000 };
    assert_eq!(SnipingStrategy::order_quantity(&o), Some(6875));
    let free = SnipingOpportunity { market: addr(1), price: 0, liquidity: 5 };
    assert_eq!(SnipingStrategy::order_quantity(&free), None);
}
