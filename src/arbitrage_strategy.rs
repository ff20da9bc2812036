use vstd::prelude::*;
use vstd::string::StringExecFns;

verus! {

/// A two-leg arbitrage found between two tokens, with its expected profit in
/// lamports.
#[derive(Debug)]
pub struct ArbitrageOpportunity {
    pub token_a: String,
    pub token_b: String,
    pub expected_profit: i64,
}

/// The pairs that start with `a`: `a` with each token other than itself, in
/// the order of `tokens`.
pub open spec fn pairs_from(a: Seq<char>, tokens: Seq<Seq<char>>) -> Seq<(Seq<char>, Seq<char>)>
    decreases tokens.len(),
{
    if tokens.len() == 0 {
        Seq::empty()
    } else {
        let rest = pairs_from(a, tokens.drop_last());
        if tokens.last() != a { rest.push((a, tokens.last())) } else { rest }
    }
}

/// Every ordered pair of two different tokens: for each token in order, its
/// pairs with the others in order.
pub open spec fn token_pairs(firsts: Seq<Seq<char>>, tokens: Seq<Seq<char>>) -> Seq<(Seq<char>, Seq<char>)>
    decreases firsts.len(),
{
    if firsts.len() == 0 {
        Seq::empty()
    } else {
        token_pairs(firsts.drop_last(), tokens) + pairs_from(firsts.last(), tokens)
    }
}

pub open spec fn views(strings: Seq<String>) -> Seq<Seq<char>> {
    strings.map_values(|s: String| s@)
}

pub open spec fn pair_views(pairs: Seq<(String, String)>) -> Seq<(Seq<char>, Seq<char>)> {
    pairs.map_values(|p: (String, String)| (p.0@, p.1@))
}

/// The arbitrage strategy: looks for price gaps between the two directions
/// of a token pair, and keeps those whose profit reaches its threshold.
#[derive(Debug)]
pub struct ArbitrageStrategy {
    pub min_profit_threshold: i64,
}

impl ArbitrageStrategy {
    pub fn new(min_profit_threshold: i64) -> (r: ArbitrageStrategy)
        ensures
            r.min_profit_threshold == min_profit_threshold,
    {
        ArbitrageStrategy { min_profit_threshold }
    }

    /// Every ordered pair of two different tokens.
    pub fn generate_token_pairs(&self, tokens: &Vec<String>) -> (r: Vec<(String, String)>)
        ensures
            pair_views(r@) == token_pairs(views(tokens@), views(tokens@)),
    {
        let ghost all = views(tokens@);
        let mut pairs: Vec<(String, String)> = Vec::new();
        let n = tokens.len();
        for i in 0..n
            invariant
                n == tokens@.len(),
                all == views(tokens@),
                pair_views(pairs@) == token_pairs(all.subrange(0, i as int), all),
        {
            let ghost before = pairs@;
            for j in 0..n
                invariant
                    n == tokens@.len(),
                    all == views(tokens@),
                    0 <= i < n,
                    pairs@.len() >= before.len(),
                    pairs@.subrange(0, before.len() as int) == before,
                    pair_views(pairs@) == pair_views(before) + pairs_from(all[i as int], all.subrange(0, j as int)),
            {
                proof {
                    assert(all.subrange(0, j + 1).drop_last() =~= all.subrange(0, j as int));
                    assert(all.subrange(0, j + 1).last() == tokens@[j as int]@);
                }
                if tokens[i] != tokens[j] {
                    let ghost mid = pairs@;
                    pairs.push((tokens[i].clone(), tokens[j].clone()));
                    proof {
                        assert(pairs@.subrange(0, before.len() as int) =~= mid.subrange(0, before.len() as int));
                        assert(pair_views(pairs@) =~= pair_views(mid).push((all[i as int], all[j as int])));
                    }
                }
            }
            proof {
                assert(all.subrange(0, n as int) =~= all);
                assert(all.subrange(0, i + 1).drop_last() =~= all.subrange(0, i as int));
                assert(all.subrange(0, i + 1).last() == all[i as int]);
            }
        }
        proof {
            assert(all.subrange(0, n as int) =~= all);
        }
        pairs
    }

    /// The key under which the price of `token_a` in `token_b` is listed.
    pub fn pair_key(token_a: &str, token_b: &str) -> (r: String)
        ensures
            r@ == token_a@ + "/"@ + token_b@,
    {
        let mut key = String::from_str(token_a);
        key.append("/");
        key.append(token_b);
        key
    }

    /// The opportunities whose expected profit reaches the threshold, in order.
    pub fn find_arbitrage_opportunities(&self, found: Vec<ArbitrageOpportunity>) -> (r: Vec<ArbitrageOpportunity>)
        ensures
            r@ == found@.filter(|o: ArbitrageOpportunity| o.expected_profit >= self.min_profit_threshold),
    {
        let ghost all = found@;
        let ghost pred = |o: ArbitrageOpportunity| o.expected_profit >= self.min_profit_threshold;
        let mut r: Vec<ArbitrageOpportunity> = Vec::new();
        for o in it: found.into_iter()
            invariant
                it.seq() == all,
                pred == (|o: ArbitrageOpportunity| o.expected_profit >= self.min_profit_threshold),
                r@ == all.subrange(0, it.index() as int).filter(pred),
        {
            let ghost i = it.index();
            proof {
                assert(o == all[i as int]);
                assert(all.subrange(0, i + 1).drop_last() =~= all.subrange(0, i as int));
                reveal(Seq::filter);
            }
            if o.expected_profit >= self.min_profit_threshold {
                r.push(o);
            }
        }
        proof {
            assert(all.subrange(0, all.len() as int) =~= all);
        }
        r
    }
}

} // verus!
