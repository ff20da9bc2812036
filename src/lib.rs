//! Core of an opportunity-discovery-and-execution pipeline for on-chain
//! trading: market snapshots, watch-lists, strategy sources, the
//! profitability and risk gates, execution bookkeeping and the control loop
//! that sequences them. Ledger access, network reads and timing are left to
//! the caller, which hands their outcomes to the verified decision functions
//! of this crate.
pub mod address;
pub mod address_map;
pub mod market_conditions;
pub mod opportunity;
pub mod optimizer;
pub mod risk_manager;
pub mod watch_list;
pub mod sniping_manager;
pub mod copy_trade_manager;
pub mod gas_optimizer;
pub mod order_manager;
pub mod path_finder;
pub mod trade_executor;
pub mod monitoring_manager;
pub mod strategy;
pub mod solana_mev_bot;
pub mod error;
pub mod models;
pub mod profit_calculator;
pub mod transaction_utils;
pub mod metrics;
pub mod api;
pub mod config;
pub mod dashboard;
pub mod market_analyzer;
pub mod copy_trade_strategy;
pub mod arbitrage_strategy;
pub mod sniping_strategy;
pub mod dex;
pub mod solana;
