use vstd::prelude::*;

verus! {

/// The default bound on capital exposed by one transaction: 1000 SOL, in lamports.
pub const DEFAULT_MAX_CAPITAL_PER_TRADE: u64 = 1_000_000_000_000;

/// The default bound on slippage: 5%, in basis points.
pub const DEFAULT_MAX_SLIPPAGE_BPS: u64 = 500;

/// Basis points in a whole.
pub const BPS_PER_UNIT: u64 = 10_000;

pub open spec fn abs(x: int) -> int {
    if x < 0 { -x } else { x }
}

/// Capital exposed by a simulated transaction: the sum of the absolute
/// balance changes of the accounts it touches.
pub open spec fn capital_exposure(deltas: Seq<i64>) -> int
    decreases deltas.len(),
{
    if deltas.len() == 0 {
        0
    } else {
        capital_exposure(deltas.drop_last()) + abs(deltas.last() as int)
    }
}

pub open spec fn max_change(deltas: Seq<i64>) -> int
    recommends deltas.len() > 0,
    decreases deltas.len(),
{
    if deltas.len() <= 1 {
        deltas[0] as int
    } else {
        let m = max_change(deltas.drop_last());
        if deltas.last() > m { deltas.last() as int } else { m }
    }
}

pub open spec fn min_change(deltas: Seq<i64>) -> int
    recommends deltas.len() > 0,
    decreases deltas.len(),
{
    if deltas.len() <= 1 {
        deltas[0] as int
    } else {
        let m = min_change(deltas.drop_last());
        if deltas.last() < m { deltas.last() as int } else { m }
    }
}

/// Slippage is `(max - min) / min` over the balance changes. It is within a
/// bound of `max_slippage_bps` basis points when its magnitude is at most
/// that bound. It is undefined, and so never within bound, when there are no
/// changes or the smallest change is zero.
pub open spec fn slippage_within(deltas: Seq<i64>, max_slippage_bps: u64) -> bool {
    &&& deltas.len() > 0
    &&& min_change(deltas) != 0
    &&& (max_change(deltas) - min_change(deltas)) * BPS_PER_UNIT <= max_slippage_bps * abs(min_change(deltas))
}

/// The risk rule: a simulated transaction is safe when both its capital
/// exposure and its slippage are within bounds.
pub open spec fn within_risk_bounds(deltas: Seq<i64>, max_capital_per_trade: u64, max_slippage_bps: u64) -> bool {
    &&& capital_exposure(deltas) <= max_capital_per_trade
    &&& slippage_within(deltas, max_slippage_bps)
}

/// Rejects transactions that expose too much capital or slip too far.
#[derive(Debug)]
pub struct RiskManager {
    pub max_capital_per_trade: u64,
    pub max_slippage_bps: u64,
}

/// Computes the capital exposure of a list of balance changes.
pub fn total_exposure(deltas: &Vec<i64>) -> (r: u128)
    ensures
        r == capital_exposure(deltas@),
{
    let mut total: u128 = 0;
    let n = deltas.len();
    for i in 0..n
        invariant
            n == deltas@.len(),
            total == capital_exposure(deltas@.subrange(0, i as int)),
            total <= i * 0x8000_0000_0000_0000,
    {
        let d = deltas[i];
        let magnitude: u128 = if d < 0 { (0 - (d as i128)) as u128 } else { d as u128 };
        proof {
            assert(deltas@.subrange(0, i + 1).drop_last() =~= deltas@.subrange(0, i as int));
            assert(i < 0x1_0000_0000_0000_0000) by {
                assert(n <= usize::MAX);
            }
            assert(total + magnitude <= (i + 1) * 0x8000_0000_0000_0000) by (nonlinear_arith)
                requires
                    total <= i * 0x8000_0000_0000_0000,
                    magnitude <= 0x8000_0000_0000_0000;
            assert((i + 1) * 0x8000_0000_0000_0000 <= 0x1_0000_0000_0000_0000 * 0x8000_0000_0000_0000) by (nonlinear_arith)
                requires
                    i < 0x1_0000_0000_0000_0000;
        }
        total = total + magnitude;
    }
    proof {
        assert(deltas@.subrange(0, n as int) =~= deltas@);
    }
    total
}

/// Decides whether simulated balance changes stay within the slippage bound.
pub fn slippage_ok(deltas: &Vec<i64>, max_slippage_bps: u64) -> (r: bool)
    ensures
        r == slippage_within(deltas@, max_slippage_bps),
{
    let n = deltas.len();
    if n == 0 {
        return false;
    }
    let mut lo: i64 = deltas[0];
    let mut hi: i64 = deltas[0];
    for i in 1..n
        invariant
            n == deltas@.len(),
            n > 0,
            lo == min_change(deltas@.subrange(0, i as int)),
            hi == max_change(deltas@.subrange(0, i as int)),
    {
        proof {
            assert(deltas@.subrange(0, i + 1).drop_last() =~= deltas@.subrange(0, i as int));
        }
        let d = deltas[i];
        if d < lo {
            lo = d;
        }
        if d > hi {
            hi = d;
        }
    }
    proof {
        assert(deltas@.subrange(0, n as int) =~= deltas@);
    }
    if lo == 0 {
        return false;
    }
    proof {
        lemma_min_le_max(deltas@);
    }
    let spread: u128 = ((hi as i128) - (lo as i128)) as u128;
    let magnitude: u128 = if lo < 0 { (0 - (lo as i128)) as u128 } else { lo as u128 };
    proof {
        assert(spread * 10_000 <= 0x1_0000_0000_0000_0000 * 10_000) by (nonlinear_arith)
            requires
                spread <= 0x1_0000_0000_0000_0000;
        assert(max_slippage_bps * magnitude <= 0x1_0000_0000_0000_0000 * 0x8000_0000_0000_0000) by (nonlinear_arith)
            requires
                max_slippage_bps <= 0x1_0000_0000_0000_0000,
                magnitude <= 0x8000_0000_0000_0000;
    }
    spread * (BPS_PER_UNIT as u128) <= (max_slippage_bps as u128) * magnitude
}

proof fn lemma_min_le_max(deltas: Seq<i64>)
    requires
        deltas.len() > 0,
    ensures
        min_change(deltas) <= max_change(deltas),
        i64::MIN <= min_change(deltas),
        max_change(deltas) <= i64::MAX,
    decreases deltas.len(),
{
    if deltas.len() > 1 {
        lemma_min_le_max(deltas.drop_last());
    }
}

impl RiskManager {
    /// A risk manager with the default bounds.
    pub fn new() -> (r: RiskManager)
        ensures
            r.max_capital_per_trade == DEFAULT_MAX_CAPITAL_PER_TRADE,
            r.max_slippage_bps == DEFAULT_MAX_SLIPPAGE_BPS,
    {
        RiskManager {
            max_capital_per_trade: DEFAULT_MAX_CAPITAL_PER_TRADE,
            max_slippage_bps: DEFAULT_MAX_SLIPPAGE_BPS,
        }
    }

    /// Replaces both bounds.
    pub fn update(&mut self, max_capital_per_trade: u64, max_slippage_bps: u64)
        ensures
            final(self).max_capital_per_trade == max_capital_per_trade,
            final(self).max_slippage_bps == max_slippage_bps,
    {
        self.max_capital_per_trade = max_capital_per_trade;
        self.max_slippage_bps = max_slippage_bps;
    }

    /// Judges a transaction from its simulation: the balance changes it would
    /// cause, or `None` where no simulation could be had. Without a simulation
    /// the transaction is unsafe.
    pub fn is_safe(&self, simulation: &Option<Vec<i64>>) -> (r: bool)
        ensures
            r == match simulation {
                Some(deltas) => within_risk_bounds(deltas@, self.max_capital_per_trade, self.max_slippage_bps),
                None => false,
            },
    {
        match simulation {
            Some(deltas) => {
                let exposure = total_exposure(deltas);
                exposure <= self.max_capital_per_trade as u128 && slippage_ok(deltas, self.max_slippage_bps)
            },
            None => false,
        }
    }
}

/// A transaction whose simulated capital exposure exceeds the bound is
/// unsafe, whatever its profit.
pub proof fn lemma_over_exposure_is_unsafe(deltas: Seq<i64>, max_capital_per_trade: u64, max_slippage_bps: u64)
    requires
        capital_exposure(deltas) > max_capital_per_trade,
    ensures
        !within_risk_bounds(deltas, max_capital_per_trade, max_slippage_bps),
{
}

/// A transaction whose smallest simulated balance change is zero is unsafe:
/// its slippage is undefined.
pub proof fn lemma_zero_min_change_is_unsafe(deltas: Seq<i64>, max_capital_per_trade: u64, max_slippage_bps: u64)
    requires
        deltas.len() > 0,
        min_change(deltas) == 0,
    ensures
        !within_risk_bounds(deltas, max_capital_per_trade, max_slippage_bps),
{
}

} // verus!
