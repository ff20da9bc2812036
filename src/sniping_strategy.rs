use vstd::prelude::*;
use vstd::arithmetic::power::pow;
use crate::address::Address;
use crate::models::{Market, Order};

verus! {

/// The resting orders of a market, best first on each side.
#[derive(Debug)]
pub struct Orderbook {
    pub bids: Vec<Order>,
    pub asks: Vec<Order>,
}

/// A market whose best bid is cheap enough and whose book is deep enough.
#[derive(Clone, Copy, Debug)]
pub struct SnipingOpportunity {
    pub market: Address,
    pub price: u64,
    pub liquidity: u128,
}

pub open spec fn total_quantity(orders: Seq<Order>) -> int
    decreases orders.len(),
{
    if orders.len() == 0 {
        0
    } else {
        total_quantity(orders.drop_last()) + orders.last().quantity
    }
}

/// The depth of a book in whole tokens: its volume in the base asset plus
/// its volume in the quote asset at the mid price, each divided down from
/// smallest units. Needs a best bid and a best ask.
pub open spec fn book_liquidity(market: Market, bids: Seq<Order>, asks: Seq<Order>) -> int {
    let base = total_quantity(bids) + total_quantity(asks);
    let mid = (bids[0].price + asks[0].price) / 2;
    base / pow(10, market.base_decimals as nat) + (base * mid) / pow(10, market.quote_decimals as nat)
}

/// The depth of a book can be computed in `u128`.
pub open spec fn liquidity_fits(market: Market, bids: Seq<Order>, asks: Seq<Order>) -> bool {
    let base = total_quantity(bids) + total_quantity(asks);
    let mid = (bids[0].price + asks[0].price) / 2;
    &&& bids.len() > 0
    &&& asks.len() > 0
    &&& base <= u128::MAX
    &&& base * mid <= u128::MAX
    &&& pow(10, market.base_decimals as nat) <= u128::MAX
    &&& pow(10, market.quote_decimals as nat) <= u128::MAX
    &&& book_liquidity(market, bids, asks) <= u128::MAX
}

/// What sniping makes of one market and its book.
pub open spec fn snipe(market: Market, book: Orderbook, max_price: u64, min_liquidity: u128) -> Option<SnipingOpportunity> {
    if book.bids@.len() > 0 && book.bids@[0].price <= max_price && liquidity_fits(market, book.bids@, book.asks@)
        && book_liquidity(market, book.bids@, book.asks@) >= min_liquidity {
        Some(SnipingOpportunity {
            market: market.address,
            price: book.bids@[0].price,
            liquidity: book_liquidity(market, book.bids@, book.asks@) as u128,
        })
    } else {
        None
    }
}

pub open spec fn snipes(books: Seq<(Market, Orderbook)>, max_price: u64, min_liquidity: u128) -> Seq<SnipingOpportunity>
    decreases books.len(),
{
    if books.len() == 0 {
        Seq::empty()
    } else {
        let rest = snipes(books.drop_last(), max_price, min_liquidity);
        match snipe(books.last().0, books.last().1, max_price, min_liquidity) {
            Some(o) => rest.push(o),
            None => rest,
        }
    }
}

proof fn lemma_total_monotone(orders: Seq<Order>, k: int)
    requires
        0 <= k <= orders.len(),
    ensures
        0 <= total_quantity(orders.subrange(0, k)) <= total_quantity(orders),
    decreases orders.len(),
{
    if k < orders.len() {
        assert(orders.drop_last().subrange(0, k) =~= orders.subrange(0, k));
        lemma_total_monotone(orders.drop_last(), k);
    } else {
        assert(orders.subrange(0, k) =~= orders);
    }
    if orders.len() > 0 {
        lemma_total_monotone(orders.drop_last(), orders.len() - 1);
        assert(orders.drop_last().subrange(0, orders.len() - 1) =~= orders.drop_last());
    }
}

/// The total quantity of some orders, where it fits a `u128`.
fn sum_quantities(orders: &Vec<Order>) -> (r: Option<u128>)
    ensures
        r == if total_quantity(orders@) <= u128::MAX { Some(total_quantity(orders@) as u128) } else { None::<u128> },
{
    let mut total: u128 = 0;
    let n = orders.len();
    for i in 0..n
        invariant
            n == orders@.len(),
            total == total_quantity(orders@.subrange(0, i as int)),
    {
        proof {
            assert(orders@.subrange(0, i + 1).drop_last() =~= orders@.subrange(0, i as int));
            lemma_total_monotone(orders@, i + 1);
        }
        match total.checked_add(orders[i].quantity as u128) {
            Some(t) => total = t,
            None => return None,
        }
    }
    proof {
        assert(orders@.subrange(0, n as int) =~= orders@);
    }
    Some(total)
}

/// Ten to the power `e`, where it fits a `u128`.
fn power_of_ten(e: u8) -> (r: Option<u128>)
    ensures
        r == if pow(10, e as nat) <= u128::MAX { Some(pow(10, e as nat) as u128) } else { None::<u128> },
{
    let mut p: u128 = 1;
    let mut i: u8 = 0;
    proof {
        vstd::arithmetic::power::lemma_pow0(10);
    }
    while i < e
        invariant
            i <= e,
            p == pow(10, i as nat),
        decreases e - i,
    {
        proof {
            vstd::arithmetic::power::lemma_pow_adds(10, i as nat, 1);
            vstd::arithmetic::power::lemma_pow1(10);
        }
        match p.checked_mul(10) {
            Some(q) => p = q,
            None => {
                proof {
                    vstd::arithmetic::power::lemma_pow_increases(10, (i + 1) as nat, e as nat);
                }
                return None;
            },
        }
        i = i + 1;
    }
    Some(p)
}

/// The sniping strategy: acts on target markets whose best bid is at most
/// `max_price` and whose book holds at least `min_liquidity` whole tokens.
#[derive(Debug)]
pub struct SnipingStrategy {
    pub target_markets: Vec<Address>,
    pub max_price: u64,
    pub min_liquidity: u128,
}

impl SnipingStrategy {
    pub fn new(target_markets: Vec<Address>, max_price: u64, min_liquidity: u128) -> (r: SnipingStrategy)
        ensures
            r.target_markets@ == target_markets@,
            r.max_price == max_price,
            r.min_liquidity == min_liquidity,
    {
        SnipingStrategy { target_markets, max_price, min_liquidity }
    }

    pub fn add_target_token(&mut self, market: Address)
        ensures
            final(self).target_markets@ == old(self).target_markets@.push(market),
            final(self).max_price == old(self).max_price,
            final(self).min_liquidity == old(self).min_liquidity,
    {
        self.target_markets.push(market);
    }

    pub fn set_max_price(&mut self, max_price: u64)
        ensures
            final(self).max_price == max_price,
            final(self).min_liquidity == old(self).min_liquidity,
            final(self).target_markets@ == old(self).target_markets@,
    {
        self.max_price = max_price;
    }

    pub fn set_min_liquidity(&mut self, min_liquidity: u128)
        ensures
            final(self).min_liquidity == min_liquidity,
            final(self).max_price == old(self).max_price,
            final(self).target_markets@ == old(self).target_markets@,
    {
        self.min_liquidity = min_liquidity;
    }

    /// The depth of a market's book in whole tokens; none without a best bid
    /// and a best ask, or where it does not fit a `u128`.
    pub fn calculate_liquidity(&self, market: &Market, orderbook: &Orderbook) -> (r: Option<u128>)
        ensures
            r == if liquidity_fits(*market, orderbook.bids@, orderbook.asks@) {
                Some(book_liquidity(*market, orderbook.bids@, orderbook.asks@) as u128)
            } else {
                None::<u128>
            },
            r matches Some(l) ==> l == book_liquidity(*market, orderbook.bids@, orderbook.asks@),
    {
        if orderbook.bids.len() == 0 || orderbook.asks.len() == 0 {
            return None;
        }
        proof {
            lemma_total_monotone(orderbook.bids@, 0);
            lemma_total_monotone(orderbook.asks@, 0);
            assert(orderbook.bids@.subrange(0, 0) =~= Seq::<Order>::empty());
            assert(orderbook.asks@.subrange(0, 0) =~= Seq::<Order>::empty());
        }
        let bids_volume = sum_quantities(&orderbook.bids);
        let asks_volume = sum_quantities(&orderbook.asks);
        let (bv, av) = match (bids_volume, asks_volume) {
            (Some(b), Some(a)) => (b, a),
            _ => return None,
        };
        let base_volume = match bv.checked_add(av) {
            Some(v) => v,
            None => return None,
        };
        let mid_price: u128 = ((orderbook.bids[0].price as u128) + (orderbook.asks[0].price as u128)) / 2;
        let quote_volume = match base_volume.checked_mul(mid_price) {
            Some(v) => v,
            None => return None,
        };
        let base_scale = match power_of_ten(market.base_decimals) {
            Some(p) => p,
            None => return None,
        };
        let quote_scale = match power_of_ten(market.quote_decimals) {
            Some(p) => p,
            None => return None,
        };
        proof {
            vstd::arithmetic::power::lemma_pow_positive(10, market.base_decimals as nat);
            vstd::arithmetic::power::lemma_pow_positive(10, market.quote_decimals as nat);
        }
        (base_volume / base_scale).checked_add(quote_volume / quote_scale)
    }

    /// The quantity of the bid that acts on an opportunity: its liquidity
    /// bought at its price. None at a zero price.
    pub fn order_quantity(opportunity: &SnipingOpportunity) -> (r: Option<u128>)
        ensures
            r == if opportunity.price == 0 {
                None::<u128>
            } else {
                Some((opportunity.liquidity / opportunity.price as u128) as u128)
            },
    {
        if opportunity.price == 0 {
            None
        } else {
            Some(opportunity.liquidity / (opportunity.price as u128))
        }
    }

    /// The opportunities among the target markets, each given with its book,
    /// in order.
    pub fn find_opportunities(&self, books: Vec<(Market, Orderbook)>) -> (r: Vec<SnipingOpportunity>)
        ensures
            r@ == snipes(books@, self.max_price, self.min_liquidity),
    {
        let ghost all = books@;
        let mut r: Vec<SnipingOpportunity> = Vec::new();
        for entry in it: books.into_iter()
            invariant
                it.seq() == all,
                r@ == snipes(all.subrange(0, it.index() as int), self.max_price, self.min_liquidity),
        {
            let ghost i = it.index();
            proof {
                assert(entry == all[i as int]);
                assert(all.subrange(0, i + 1).drop_last() =~= all.subrange(0, i as int));
            }
            let ghost prefix = all.subrange(0, i + 1);
            let ghost before = r@;
            proof {
                assert(prefix.last() == entry);
            }
            let (market, orderbook) = entry;
            if orderbook.bids.len() > 0 && orderbook.bids[0].price <= self.max_price {
                match self.calculate_liquidity(&market, &orderbook) {
                    Some(liquidity) => {
                        if liquidity >= self.min_liquidity {
                            let o = SnipingOpportunity { market: market.address, price: orderbook.bids[0].price, liquidity };
                            proof {
                                assert(snipe(market, orderbook, self.max_price, self.min_liquidity) == Some(o));
                            }
                            r.push(o);
                        } else {
                            proof {
                                assert(snipe(market, orderbook, self.max_price, self.min_liquidity) is None);
                            }
                        }
                    },
                    None => {},
                }
            }
            proof {
                assert(snipes(prefix, self.max_price, self.min_liquidity) == match snipe(market, orderbook, self.max_price, self.min_liquidity) {
                    Some(o) => before.push(o),
                    None => before,
                });
            }
        }
        proof {
            assert(all.subrange(0, all.len() as int) =~= all);
        }
        r
    }
}

} // verus!
