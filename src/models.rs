use vstd::prelude::*;
use crate::address::Address;

verus! {

/// A trading pair on a venue. Amounts of each asset are counted in its
/// smallest unit, `10^decimals` of which make one whole token.
#[derive(Debug)]
pub struct Market {
    pub address: Address,
    pub name: String,
    pub base_asset: Address,
    pub quote_asset: Address,
    pub base_decimals: u8,
    pub quote_decimals: u8,
}

#[derive(Clone, Copy, Debug, PartialEq, Eq, Structural)]
pub enum OrderSide {
    Bid,
    Ask,
}

#[derive(Clone, Copy, Debug, PartialEq, Eq, Structural)]
pub enum OrderType {
    Limit,
    ImmediateOrCancel,
    PostOnly,
}

#[derive(Clone, Copy, Debug, PartialEq, Eq, Structural)]
pub enum OrderStatus {
    Open,
    Filled,
    Cancelled,
}

/// An order on a venue. The price is in smallest units of the quote asset
/// per smallest unit of the base asset; the quantity in smallest units of the
/// base asset.
#[derive(Debug)]
pub struct Order {
    pub id: u64,
    pub market: Address,
    pub side: OrderSide,
    pub order_type: OrderType,
    pub price: u64,
    pub quantity: u64,
    pub status: OrderStatus,
}

/// A trader whose trades in a token are replayed, up to an amount in base
/// units.
#[derive(Clone, Copy, Debug)]
pub struct CopyTradeTarget {
    pub trader_account: Address,
    pub target_token: Address,
    pub trade_amount: u64,
}

/// One instruction of a transaction: the program it is addressed to, the
/// accounts it names and its data.
#[derive(Debug)]
pub struct Instruction {
    pub program_id: Address,
    pub accounts: Vec<Address>,
    pub data: Vec<u8>,
}

/// A token transfer found in a transaction, with whether its source and its
/// destination accounts signed the transaction.
#[derive(Clone, Copy, Debug, PartialEq, Eq, Structural)]
pub struct Transfer {
    pub amount: u64,
    pub from_is_signer: bool,
    pub to_is_signer: bool,
}

} // verus!
