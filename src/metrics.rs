use vstd::prelude::*;
use crate::address::Address;
use crate::address_map::AddressMap;
use crate::models::{Market, Order};

verus! {

/// `x`, held to the range of `i128`.
pub open spec fn clamp_i128(x: int) -> int {
    if x > i128::MAX {
        i128::MAX as int
    } else if x < i128::MIN {
        i128::MIN as int
    } else {
        x
    }
}

/// `x`, held under the largest `u128`.
pub open spec fn clamp_u128(x: int) -> int {
    if x > u128::MAX { u128::MAX as int } else { x }
}

pub open spec fn profit_so_far(profits: Map<Address, i128>, a: Address) -> int {
    if profits.contains_key(a) { profits[a] as int } else { 0 }
}

pub open spec fn volume_so_far(volumes: Map<Address, u128>, a: Address) -> int {
    if volumes.contains_key(a) { volumes[a] as int } else { 0 }
}

/// Aggregate figures of what was executed: the orders placed, and the
/// cumulative profit and volume of each market, by its address. Sums
/// saturate at the bounds of their integer types.
#[derive(Debug)]
pub struct Metrics {
    pub orders: Vec<Order>,
    pub profits: AddressMap<i128>,
    pub volumes: AddressMap<u128>,
}

impl Metrics {
    pub fn new() -> (r: Metrics)
        ensures
            r.orders@.len() == 0,
            r.profits@ == Map::<Address, i128>::empty(),
            r.volumes@ == Map::<Address, u128>::empty(),
    {
        Metrics { orders: Vec::new(), profits: AddressMap::new(), volumes: AddressMap::new() }
    }

    pub fn add_order(&mut self, order: Order)
        ensures
            final(self).orders@ == old(self).orders@.push(order),
            final(self).profits@ == old(self).profits@,
            final(self).volumes@ == old(self).volumes@,
    {
        self.orders.push(order);
    }

    /// Adds `profit` to the market's cumulative profit.
    pub fn update_profit(&mut self, market: &Market, profit: i64)
        ensures
            final(self).profits@ == old(self).profits@.insert(
                market.address,
                clamp_i128(profit_so_far(old(self).profits@, market.address) + profit) as i128,
            ),
            final(self).orders@ == old(self).orders@,
            final(self).volumes@ == old(self).volumes@,
    {
        let so_far: i128 = match self.profits.get(&market.address) {
            Some(p) => p,
            None => 0,
        };
        let total: i128 = match so_far.checked_add(profit as i128) {
            Some(t) => t,
            None => if profit < 0 { i128::MIN } else { i128::MAX },
        };
        self.profits.insert(market.address, total);
    }

    /// Adds `volume` to the market's cumulative volume.
    pub fn update_volume(&mut self, market: &Market, volume: u64)
        ensures
            final(self).volumes@ == old(self).volumes@.insert(
                market.address,
                clamp_u128(volume_so_far(old(self).volumes@, market.address) + volume) as u128,
            ),
            final(self).orders@ == old(self).orders@,
            final(self).profits@ == old(self).profits@,
    {
        let so_far: u128 = match self.volumes.get(&market.address) {
            Some(v) => v,
            None => 0,
        };
        self.volumes.insert(market.address, so_far.saturating_add(volume as u128));
    }

    pub fn get_orders(&self) -> (r: &Vec<Order>)
        ensures
            r@ == self.orders@,
    {
        &self.orders
    }

    pub fn get_profits(&self) -> (r: &AddressMap<i128>)
        ensures
            r@ == self.profits@,
    {
        &self.profits
    }

    pub fn get_volumes(&self) -> (r: &AddressMap<u128>)
        ensures
            r@ == self.volumes@,
    {
        &self.volumes
    }
}

} // verus!
