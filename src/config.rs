use vstd::prelude::*;
use crate::address::Address;

verus! {

/// The settings of the process, as loaded at startup.
#[derive(Debug)]
pub struct Config {
    pub solana: SolanaConfig,
    pub bot: BotConfig,
    pub dexes: DexesConfig,
    pub monitoring: MonitoringConfig,
    pub logging: LoggingConfig,
}

/// Where and how to reach the ledger.
#[derive(Debug)]
pub struct SolanaConfig {
    pub rpc_url: String,
    pub ws_url: String,
    pub commitment: String,
}

/// The trading tunables. The profit threshold is in lamports; the largest
/// position in base units.
#[derive(Debug)]
pub struct BotConfig {
    pub keypair_path: String,
    pub profit_threshold: i64,
    pub max_position_size: u64,
}

/// The programs of the venues traded on.
#[derive(Debug)]
pub struct DexesConfig {
    pub raydium_program_id: Address,
    pub serum_program_id: Address,
    pub orca_program_id: Address,
}

/// The report: where it is served and how often it is refreshed, in seconds.
#[derive(Debug)]
pub struct MonitoringConfig {
    pub dashboard_port: u16,
    pub update_interval: u64,
}

#[derive(Debug)]
pub struct LoggingConfig {
    pub level: String,
}

} // verus!
