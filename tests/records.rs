use solana_mev_bot::address::Address;
use solana_mev_bot::api::{coingecko_price_url, lunarcrush_sentiment_url, FlipsideApi, ParsecApi, TheGraphApi};
use solana_mev_bot::error::MevBotError;
use solana_mev_bot::metrics::Metrics;
use solana_mev_bot::models::{Instruction, Market, Order, OrderSide, OrderStatus, OrderType, Transfer};
use solana_mev_bot::profit_calculator::calculate_profit;
use solana_mev_bot::solana::{analyze_transaction, calculate_profit as calculate_transfer_profit};
use solana_mev_bot::transaction_utils::{get_instruction_accounts, get_instruction_data};

fn addr(n: u8) -> Address {
    Address::new([n; 32])
}

fn order(side: OrderSide, price: u64, quantity: u64) -> Order {
    Order {
        id: 7,
        market: addr(1),
        side,
        order_type: OrderType::Limit,
        price,
        quantity,
        status: OrderStatus::Filled,
    }
}

fn market(n: u8) -> Market {
    Market {
        address: addr(n),
        name: "SOL/USDC".to_string(),
        base_asset: addr(10),
        quote_asset: addr(11),
        base_decimals: 9,
        quote_decimals: 6,
    }
}

#[test]
fn profit_of_buy_then_sell() {
    assert_eq!(calculate_profit(&order(OrderSide::Bid, 100, 3), &order(OrderSide::Ask, 110, 9)).unwrap(), 30);
    assert_eq!(calculate_profit(&order(OrderSide::Bid, 110, 2), &order(OrderSide::Ask, 100, 2)).unwrap(), -20);
}

#[test]
fn profit_needs_bid_then_ask() {
    let r = calculate_profit(&order(OrderSide::Ask, 100, 3), &order(OrderSide::Ask, 110, 3));
    assert!(matches!(r, Err(MevBotError::InvalidOrderSides)));
    let r = calculate_profit(&order(OrderSide::Bid, 100, 3), &order(OrderSide::Bid, 110, 3));
    assert!(matches!(r, Err(MevBotError::InvalidOrderSides)));
}

#[test]
fn profit_out_of_range() {
    let r = calculate_profit(&order(OrderSide::Bid, 0, u64::MAX), &order(OrderSide::Ask, u64::MAX, 1));
    assert!(matches!(r, Err(MevBotError::ProfitOutOfRange)));
    let r = calculate_profit(&order(OrderSide::Bid, 0, 1 << 62), &order(OrderSide::Ask, 1 << 62, 1));
    assert_eq!(r.unwrap(), 1i128 << 124);
}

#[test]
fn transfer_profit_counts_signer_side() {
    let transfers = vec![
        Transfer { amount: 50, from_is_signer: true, to_is_signer: false },
        Transfer { amount: 80, from_is_signer: false, to_is_signer: true },
        Transfer { amount: 7, from_is_signer: false, to_is_signer: false },
        Transfer { amount: 5, from_is_signer: true, to_is_signer: true },
    ];
    assert_eq!(calculate_transfer_profit(&transfers), 25);
    assert_eq!(calculate_transfer_profit(&Vec::new()), 0);
}

#[test]
fn first_matching_instruction_is_used() {
    let instructions = vec![
        Instruction { program_id: addr(1), accounts: vec![addr(5)], data: vec![1, 2] },
        Instruction { program_id: addr(2), accounts: vec![addr(6), addr(7)], data: vec![3] },
        Instruction { program_id: addr(2), accounts: vec![], data: vec![4] },
    ];
    assert_eq!(get_instruction_data(&instructions, &addr(2)).unwrap(), vec![3]);
    assert_eq!(get_instruction_accounts(&instructions, &addr(2)).unwrap(), vec![addr(6), addr(7)]);
    assert_eq!(get_instruction_data(&instructions, &addr(1)).unwrap(), vec![1, 2]);
    match get_instruction_data(&instructions, &addr(9)) {
        Err(MevBotError::InstructionNotFound(p)) => assert_eq!(p, addr(9)),
        _ => panic!("expected no instruction for the program"),
    }
    assert!(get_instruction_accounts(&Vec::new(), &addr(1)).is_err());
}

#[test]
fn metrics_accumulate_per_market() {
    let mut metrics = Metrics::new();
    metrics.add_order(order(OrderSide::Bid, 1, 1));
    metrics.update_profit(&market(1), 40);
    metrics.update_profit(&market(1), -15);
    metrics.update_profit(&market(2), 3);
    metrics.update_volume(&market(1), 1000);
    metrics.update_volume(&market(1), 24);
    assert_eq!(metrics.get_orders().len(), 1);
    assert_eq!(metrics.get_profits().get(&addr(1)), Some(25));
    assert_eq!(metrics.get_profits().get(&addr(2)), Some(3));
    assert_eq!(metrics.get_volumes().get(&addr(1)), Some(1024));
    assert_eq!(metrics.get_volumes().get(&addr(2)), None);
}

#[test]
fn metrics_saturate() {
    let mut metrics = Metrics::new();
    metrics.profits.insert(addr(1), i128::MAX - 1);
    metrics.update_profit(&market(1), 5);
    assert_eq!(metrics.get_profits().get(&addr(1)), Some(i128::MAX));
    metrics.profits.insert(addr(2), i128::MIN + 1);
    metrics.update_profit(&market(2), -5);
    assert_eq!(metrics.get_profits().get(&addr(2)), Some(i128::MIN));
    metrics.volumes.insert(addr(1), u128::MAX - 2);
    metrics.update_volume(&market(1), 9);
    assert_eq!(metrics.get_volumes().get(&addr(1)), Some(u128::MAX));
}

#[test]
fn service_addresses() {
    let flipside = FlipsideApi::new("key".to_string(), "https://f.example".to_string());
    assert_eq!(flipside.volume_url("MINT"), "https://f.example/volume?token_mint=MINT");
    let parsec = ParsecApi::new("key".to_string(), "https://p.example".to_string());
    assert_eq!(parsec.prices_url(), "https://p.example/prices");
    let graph = TheGraphApi::new("https://g.example".to_string());
    assert_eq!(
        graph.trader_transactions_query("T1"),
        "{ traderTransactions(trader: \"T1\") { id tokenAmount tokenMint } }"
    );
    assert_eq!(
        coingecko_price_url(&vec!["bitcoin".to_string(), "solana".to_string()]),
        "https://api.coingecko.com/api/v3/simple/price?ids=bitcoin,solana&vs_currencies=usd"
    );
    assert_eq!(
        coingecko_price_url(&Vec::new()),
        "https://api.coingecko.com/api/v3/simple/price?ids=&vs_currencies=usd"
    );
    assert_eq!(lunarcrush_sentiment_url("SOL"), "https://lunarcrush.com/api3/coinsentiment?symbol=SOL");
}

#[test]
fn transaction_analysis_lists_instructions() {
    let instructions = vec![
        Instruction { program_id: addr(1), accounts: vec![addr(5), addr(6)], data: vec![] },
        Instruction { program_id: addr(2), accounts: vec![], data: vec![9] },
    ];
    let analysis = analyze_transaction("sig".to_string(), &instructions);
    assert_eq!(analysis.signature, "sig");
    assert_eq!(analysis.num_instructions, 2);
    assert_eq!(analysis.instructions[0].index, 0);
    assert_eq!(analysis.instructions[0].num_accounts, 2);
    assert_eq!(analysis.instructions[1].index, 1);
    assert_eq!(analysis.instructions[1].num_accounts, 0);
    assert_eq!(analysis.instructions[1].program_id, addr(2));
}
