use vstd::prelude::*;

verus! {

/// The profit, in lamports, below which the built-in strategy sources do not
/// want a candidate executed.
pub const DEFAULT_MIN_PROFIT: i64 = 10_000_000;

/// A candidate profitable action: transactions, each with the profit its
/// source expects from it in lamports, and the source's own minimum profit.
#[derive(Debug)]
pub struct MevOpportunity<T> {
    pub transactions: Vec<(T, i64)>,
    pub min_profit: i64,
}

/// The candidates whose expected profit reaches `min_profit`, in order.
pub open spec fn profitable_candidates<T>(candidates: Seq<(T, i64)>, min_profit: i64) -> Seq<(T, i64)> {
    candidates.filter(|c: (T, i64)| c.1 >= min_profit)
}

/// The transactions of a list of candidates, in order.
pub open spec fn transactions_of<T>(candidates: Seq<(T, i64)>) -> Seq<T> {
    candidates.map_values(|c: (T, i64)| c.0)
}

/// What the optimizer emits for an opportunity.
pub open spec fn optimized<T>(opportunity: &MevOpportunity<T>) -> Seq<T> {
    transactions_of(profitable_candidates(opportunity.transactions@, opportunity.min_profit))
}

impl<T> MevOpportunity<T> {
    pub fn new(transactions: Vec<(T, i64)>, min_profit: i64) -> (r: MevOpportunity<T>)
        ensures
            r.transactions@ == transactions@,
            r.min_profit == min_profit,
    {
        MevOpportunity { transactions, min_profit }
    }

    /// The opportunity a strategy source reports for the transactions it
    /// built, with the default minimum profit; none when it found nothing
    /// profitable to act on.
    pub fn from_found(found: Option<Vec<(T, i64)>>) -> (r: Option<MevOpportunity<T>>)
        ensures
            found is None ==> r is None,
            found is Some ==> r is Some && r->0.transactions@ == found->0@
                && r->0.min_profit == DEFAULT_MIN_PROFIT,
    {
        match found {
            Some(transactions) => Some(MevOpportunity { transactions, min_profit: DEFAULT_MIN_PROFIT }),
            None => None,
        }
    }
}

/// Every transaction the optimizer emits for an opportunity comes from a
/// candidate whose expected profit reaches the opportunity's minimum, and no
/// candidate below that minimum is ever emitted.
pub proof fn lemma_optimizer_respects_min_profit<T>(candidates: Seq<(T, i64)>, min_profit: i64)
    ensures
        forall|i: int| 0 <= i < profitable_candidates(candidates, min_profit).len()
            ==> #[trigger] profitable_candidates(candidates, min_profit)[i].1 >= min_profit,
        forall|c: (T, i64)| c.1 < min_profit ==> !#[trigger] profitable_candidates(candidates, min_profit).contains(c),
        transactions_of(profitable_candidates(candidates, min_profit)).len()
            == profitable_candidates(candidates, min_profit).len(),
        forall|i: int| 0 <= i < profitable_candidates(candidates, min_profit).len()
            ==> #[trigger] transactions_of(profitable_candidates(candidates, min_profit))[i]
                == profitable_candidates(candidates, min_profit)[i].0,
{
    let pred = |c: (T, i64)| c.1 >= min_profit;
    assert forall|i: int| 0 <= i < profitable_candidates(candidates, min_profit).len()
        implies #[trigger] profitable_candidates(candidates, min_profit)[i].1 >= min_profit by {
        candidates.lemma_filter_pred(pred, i);
    }
    assert forall|c: (T, i64)| c.1 < min_profit implies !#[trigger] profitable_candidates(candidates, min_profit).contains(c) by {
        if profitable_candidates(candidates, min_profit).contains(c) {
            let i = choose|i: int| 0 <= i < candidates.filter(pred).len() && candidates.filter(pred)[i] == c;
            candidates.lemma_filter_pred(pred, i);
        }
    }
}

} // verus!

verus! {

/// The opportunities that were found, in order, dropping the probes that
/// found none.
pub open spec fn found_only<T>(found: Seq<Option<MevOpportunity<T>>>) -> Seq<MevOpportunity<T>>
    decreases found.len(),
{
    if found.len() == 0 {
        Seq::empty()
    } else {
        let rest = found_only(found.drop_last());
        match found.last() {
            Some(o) => rest.push(o),
            None => rest,
        }
    }
}

/// Gathers the opportunities that the probes of a strategy source found.
pub fn collect_found<T>(found: Vec<Option<MevOpportunity<T>>>) -> (r: Vec<MevOpportunity<T>>)
    ensures
        r@ == found_only(found@),
{
    let ghost all = found@;
    let mut r: Vec<MevOpportunity<T>> = Vec::new();
    for probe in it: found.into_iter()
        invariant
            it.seq() == all,
            r@ == found_only(all.subrange(0, it.index() as int)),
    {
        let ghost i = it.index();
        proof {
            assert(probe == all[i as int]);
            assert(all.subrange(0, i + 1).drop_last() =~= all.subrange(0, i as int));
        }
        match probe {
            Some(o) => r.push(o),
            None => {},
        }
    }
    proof {
        assert(all.subrange(0, all.len() as int) =~= all);
    }
    r
}

} // verus!
