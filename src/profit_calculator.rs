use vstd::prelude::*;
use crate::error::MevBotError;
use crate::models::{Order, OrderSide};

verus! {

/// The profit of buying at one price and selling at another, the same
/// quantity.
pub open spec fn round_trip_profit(buy_price: u64, sell_price: u64, quantity: u64) -> int {
    sell_price * quantity - buy_price * quantity
}

/// The profit of a buy order closed by a sell order, over the buy order's
/// quantity, in smallest units of the quote asset. Fails unless the first
/// order is a bid and the second an ask, and when the profit does not fit an
/// `i128`.
pub fn calculate_profit(buy_order: &Order, sell_order: &Order) -> (r: Result<i128, MevBotError>)
    ensures
        !(buy_order.side == OrderSide::Bid && sell_order.side == OrderSide::Ask) <==> (r is Err && r->Err_0 is InvalidOrderSides),
        r is Ok <==> (buy_order.side == OrderSide::Bid && sell_order.side == OrderSide::Ask
            && i128::MIN <= round_trip_profit(buy_order.price, sell_order.price, buy_order.quantity) <= i128::MAX),
        r is Ok ==> r->Ok_0 == round_trip_profit(buy_order.price, sell_order.price, buy_order.quantity),
        r is Err ==> (r->Err_0 is InvalidOrderSides || r->Err_0 is ProfitOutOfRange),
{
    if buy_order.side != OrderSide::Bid || sell_order.side != OrderSide::Ask {
        return Err(MevBotError::InvalidOrderSides);
    }
    let spread: i128 = (sell_order.price as i128) - (buy_order.price as i128);
    let quantity: i128 = buy_order.quantity as i128;
    proof {
        assert(spread * quantity == round_trip_profit(buy_order.price, sell_order.price, buy_order.quantity)) by (nonlinear_arith)
            requires
                spread == sell_order.price - buy_order.price,
                quantity == buy_order.quantity;
    }
    match spread.checked_mul(quantity) {
        Some(profit) => Ok(profit),
        None => Err(MevBotError::ProfitOutOfRange),
    }
}

} // verus!
