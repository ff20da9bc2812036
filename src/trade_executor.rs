use vstd::prelude::*;

verus! {

/// The transactions the ledger accepted, in submission order, each with the
/// receipt (its signature) that came back. A transaction with no receipt, or
/// past the end of the receipts, was not accepted.
pub open spec fn accepted<T>(txs: Seq<T>, receipts: Seq<Option<String>>) -> Seq<(T, String)>
    decreases txs.len(),
{
    if txs.len() == 0 {
        Seq::empty()
    } else {
        let rest = accepted(txs.drop_last(), receipts);
        let i = txs.len() - 1;
        if i < receipts.len() && receipts[i] is Some {
            rest.push((txs.last(), receipts[i]->0))
        } else {
            rest
        }
    }
}

/// Submits transactions one by one. The submissions themselves are made by
/// the caller; a rejected one does not stop the others.
#[derive(Debug)]
pub struct TradeExecutor {}

impl TradeExecutor {
    pub fn new() -> (r: TradeExecutor) {
        TradeExecutor {}
    }

    /// Pairs each submitted transaction with the outcome of its submission,
    /// `receipts[i]` being that of `txs[i]`, and keeps the accepted ones.
    pub fn execute_transactions<T>(&self, txs: Vec<T>, receipts: Vec<Option<String>>) -> (r: Vec<(T, String)>)
        ensures
            r@ == accepted(txs@, receipts@),
    {
        let ghost all = txs@;
        let ghost outcomes = receipts@;
        let mut receipts = receipts;
        let mut r: Vec<(T, String)> = Vec::new();
        let n = txs.len();
        let mut k: usize = 0;
        for tx in it: txs.into_iter()
            invariant
                it.seq() == all,
                k == it.index(),
                n == all.len(),
                receipts@.len() == outcomes.len(),
                forall|j: int| k <= j < outcomes.len() ==> receipts@[j] == outcomes[j],
                r@ == accepted(all.subrange(0, k as int), outcomes),
        {
            proof {
                assert(tx == all[k as int]);
                assert(k < all.len());
                assert(all.subrange(0, k + 1).drop_last() =~= all.subrange(0, k as int));
            }
            if k < receipts.len() {
                let receipt = receipts[k].take();
                match receipt {
                    Some(signature) => r.push((tx, signature)),
                    None => {},
                }
            }
            k = k + 1;
        }
        proof {
            assert(all.subrange(0, all.len() as int) =~= all);
        }
        r
    }
}

} // verus!
