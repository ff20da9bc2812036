use solana_mev_bot::opportunity::{MevOpportunity, DEFAULT_MIN_PROFIT};
use solana_mev_bot::optimizer::Optimizer;
use solana_mev_bot::risk_manager::{
    slippage_ok, total_exposure, RiskManager, DEFAULT_MAX_CAPITAL_PER_TRADE, DEFAULT_MAX_SLIPPAGE_BPS,
};

#[test]
fn optimizer_keeps_only_first_of_two_candidates() {
    // Profits 0.02 and 0.005 SOL against a minimum of 0.01 SOL, in lamports.
    let opportunity = MevOpportunity::new(vec![("first", 20_000_000i64), ("second", 5_000_000i64)], 10_000_000);
    let out = Optimizer::new().optimize(opportunity);
    assert_eq!(out, vec!["first"]);
}

#[test]
fn optimizer_keeps_profit_equal_to_minimum_and_order() {
    let opportunity = MevOpportunity::new(vec![(1u32, 5), (2, -3), (3, 10), (4, 4), (5, 7)], 5);
    let out = Optimizer::new().optimize(opportunity);
    assert_eq!(out, vec![1, 3, 5]);
}

#[test]
fn optimizer_never_emits_below_minimum() {
    let pairs: Vec<(i64, i64)> = vec![(-7, 3), (0, 9), (12, 2), (3, 3), (-1, -1)];
    for (profit, min_profit) in pairs {
        let out = Optimizer::new().optimize(MevOpportunity::new(vec![(profit, profit)], min_profit));
        if profit >= min_profit {
            assert_eq!(out, vec![profit]);
        } else {
            assert!(out.is_empty());
        }
    }
}

#[test]
fn optimizer_on_empty_opportunity() {
    let out: Vec<u8> = Optimizer::new().optimize(MevOpportunity::new(Vec::new(), 0));
    assert!(out.is_empty());
}

#[test]
fn found_opportunity_carries_default_minimum() {
    let found = MevOpportunity::from_found(Some(vec![(7u8, 1i64)])).unwrap();
    assert_eq!(found.min_profit, DEFAULT_MIN_PROFIT);
    assert_eq!(found.min_profit, 10_000_000);
    assert_eq!(found.transactions, vec![(7u8, 1i64)]);
    assert!(MevOpportunity::<u8>::from_found(None).is_none());
}

#[test]
fn slippage_example_is_rejected() {
    // (10 - (-2)) / -2 = -6, six times the bound of 0.5 in magnitude.
    let risk = RiskManager { max_capital_per_trade: 1_000, max_slippage_bps: 5_000 };
    let deltas = vec![10i64, -2, 5];
    assert!(!slippage_ok(&deltas, 5_000));
    assert!(!risk.is_safe(&Some(deltas)));
}

#[test]
fn zero_minimum_change_is_rejected() {
    let risk = RiskManager { max_capital_per_trade: u64::MAX, max_slippage_bps: u64::MAX };
    assert!(!risk.is_safe(&Some(vec![0i64, 5, 9])));
    assert!(!slippage_ok(&vec![0i64], u64::MAX));
}

#[test]
fn missing_simulation_is_unsafe() {
    let risk = RiskManager { max_capital_per_trade: u64::MAX, max_slippage_bps: u64::MAX };
    assert!(!risk.is_safe(&None));
    assert!(!risk.is_safe(&Some(Vec::new())));
}

#[test]
fn over_exposure_is_unsafe_whatever_the_slippage() {
    let risk = RiskManager { max_capital_per_trade: 20, max_slippage_bps: u64::MAX };
    assert_eq!(total_exposure(&vec![10i64, -8, 3]), 21);
    assert!(!risk.is_safe(&Some(vec![10i64, -8, 3])));
    let relaxed = RiskManager { max_capital_per_trade: 21, max_slippage_bps: u64::MAX };
    assert!(relaxed.is_safe(&Some(vec![10i64, -8, 3])));
}

#[test]
fn small_slippage_is_safe() {
    // (110 - 100) / 100 = 0.1, within 0.1 and beyond 0.09.
    let deltas = vec![100i64, 110, 105];
    assert!(slippage_ok(&deltas, 1_000));
    assert!(!slippage_ok(&deltas, 900));
    let risk = RiskManager { max_capital_per_trade: 315, max_slippage_bps: 1_000 };
    assert!(risk.is_safe(&Some(deltas)));
}

#[test]
fn exposure_of_extreme_changes() {
    assert_eq!(total_exposure(&vec![i64::MIN, i64::MAX]), (1u128 << 64) - 1);
    assert_eq!(total_exposure(&Vec::new()), 0);
}

#[test]
fn risk_manager_defaults_and_update() {
    let mut risk = RiskManager::new();
    assert_eq!(risk.max_capital_per_trade, DEFAULT_MAX_CAPITAL_PER_TRADE);
    assert_eq!(risk.max_slippage_bps, DEFAULT_MAX_SLIPPAGE_BPS);
    risk.update(5, 7);
    assert_eq!(risk.max_capital_per_trade, 5);
    assert_eq!(risk.max_slippage_bps, 7);
}

/// A small deterministic generator for sweeping many inputs.
fn next(state: &mut u64) -> u64 {
    *state = state.wrapping_mul(6364136223846793005).wrapping_add(1442695040888963407);
    *state >> 33
}

#[test]
fn optimizer_sweep_over_profit_pairs() {
    let mut state = 42u64;
    for _ in 0..200 {
        let min_profit = (next(&mut state) % 2001) as i64 - 1000;
        let n = (next(&mut state) % 8) as usize;
        let candidates: Vec<(usize, i64)> = (0..n).map(|i| (i, (next(&mut state) % 2001) as i64 - 1000)).collect();
        let expected: Vec<usize> = candidates.iter().filter(|c| c.1 >= min_profit).map(|c| c.0).collect();
        let profits: Vec<i64> = candidates.iter().map(|c| c.1).collect();
        let out = Optimizer::new().optimize(MevOpportunity::new(candidates, min_profit));
        for i in &out {
            assert!(profits[*i] >= min_profit);
        }
        assert_eq!(out, expected);
    }
}

#[test]
fn risk_sweep_over_exposure() {
    let mut state = 7u64;
    for _ in 0..200 {
        let deltas: Vec<i64> = (0..1 + next(&mut state) % 5).map(|_| (next(&mut state) % 201) as i64 - 100).collect();
        let exposure: u128 = deltas.iter().map(|d| d.unsigned_abs() as u128).sum();
        let bound = next(&mut state) % 300;
        let risk = RiskManager { max_capital_per_trade: bound, max_slippage_bps: u64::MAX };
        assert_eq!(total_exposure(&deltas), exposure);
        if exposure > bound as u128 {
            assert!(!risk.is_safe(&Some(deltas)));
        }
    }
}
