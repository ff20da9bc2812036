use vstd::prelude::*;
use crate::address::Address;
use crate::models::{Market, Order, OrderSide, OrderStatus, OrderType};

verus! {

/// Relies on rand::random: a value drawn from the thread-local generator.
/// Nothing is promised of the value.
pub assume_specification<T>[ rand::random::<T> ]() -> (r: T)
    where
        rand::distributions::Standard: rand::distributions::Distribution<T>,
;

/// The share of the expected output, in percent, below which a swap must not
/// settle.
pub const MIN_OUT_PERCENT: u64 = 99;

/// The amount a swap puts in and the least it must get out, for an order of
/// `quantity` base units at `price` quote units each: a bid spends base
/// units for quote units, an ask spends what its quote units buy. None where
/// the price is zero for an ask, or an amount does not fit a `u64`.
pub open spec fn swap_amounts_of(side: OrderSide, price: u64, quantity: u64) -> Option<(int, int)> {
    match side {
        OrderSide::Bid => {
            let out: int = quantity * price;
            if out * MIN_OUT_PERCENT / 100 <= u64::MAX {
                Some((quantity as int, out * MIN_OUT_PERCENT / 100))
            } else {
                None
            }
        },
        OrderSide::Ask => if price == 0 {
            None
        } else {
            let amount_in: int = quantity as int / price as int;
            Some((amount_in, amount_in * MIN_OUT_PERCENT / 100))
        },
    }
}

/// The Orca venue: swaps against its pools, signed by `authority`.
#[derive(Debug)]
pub struct Orca {
    pub program_id: Address,
    pub authority: Address,
}

impl Orca {
    pub fn new(program_id: Address, authority: Address) -> (r: Orca)
        ensures
            r.program_id == program_id,
            r.authority == authority,
    {
        Orca { program_id, authority }
    }

    /// A fresh random identifier for an order.
    pub fn create_order_id(&self) -> u64 {
        rand::random::<u64>()
    }

    /// The amounts of the swap that carries out an order.
    pub fn swap_amounts(side: OrderSide, price: u64, quantity: u64) -> (r: Option<(u64, u64)>)
        ensures
            match swap_amounts_of(side, price, quantity) {
                Some((amount_in, min_out)) => r == Some((amount_in as u64, min_out as u64)),
                None => r is None,
            },
    {
        match side {
            OrderSide::Bid => {
                proof {
                    assert(quantity * price <= 0xffff_ffff_ffff_ffff * 0xffff_ffff_ffff_ffff) by (nonlinear_arith)
                        requires quantity <= 0xffff_ffff_ffff_ffff, price <= 0xffff_ffff_ffff_ffff, quantity >= 0, price >= 0;
                }
                let out: u128 = (quantity as u128) * (price as u128);
                let min_out: u128 = out / 100 * 99 + out % 100 * 99 / 100;
                proof {
                    assert(min_out == out * 99 / 100) by (nonlinear_arith)
                        requires min_out == out / 100 * 99 + out % 100 * 99 / 100, out >= 0;
                }
                if min_out > u64::MAX as u128 {
                    None
                } else {
                    Some((quantity, min_out as u64))
                }
            },
            OrderSide::Ask => {
                if price == 0 {
                    None
                } else {
                    let amount_in: u64 = quantity / price;
                    let min_out: u128 = (amount_in as u128) * 99 / 100;
                    proof {
                        assert(min_out <= amount_in) by (nonlinear_arith)
                            requires min_out == amount_in * 99 / 100, amount_in >= 0;
                    }
                    Some((amount_in, min_out as u64))
                }
            },
        }
    }

    /// The record of an order once its swap has settled, under a fresh
    /// identifier.
    pub fn filled_order(&self, market: &Market, order_type: OrderType, side: OrderSide, price: u64, quantity: u64) -> (r: Order)
        ensures
            r.market == market.address,
            r.order_type == order_type,
            r.side == side,
            r.price == price,
            r.quantity == quantity,
            r.status == OrderStatus::Filled,
    {
        Order {
            id: self.create_order_id(),
            market: market.address,
            side,
            order_type,
            price,
            quantity,
            status: OrderStatus::Filled,
        }
    }
}

} // verus!
