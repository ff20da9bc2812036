use vstd::prelude::*;
use crate::address::Address;
use crate::models::{Instruction, Transfer};

verus! {

/// What is known of one instruction of a transaction.
#[derive(Clone, Copy, Debug, PartialEq, Eq)]
pub struct InstructionAnalysis {
    pub index: u64,
    pub num_accounts: u64,
    pub program_id: Address,
}

/// A summary of a transaction: its signature and, for each instruction, its
/// position, how many accounts it names and its program.
#[derive(Debug)]
pub struct TransactionAnalysis {
    pub signature: String,
    pub num_instructions: u64,
    pub instructions: Vec<InstructionAnalysis>,
}

/// Summarizes a transaction from its signature and its instructions.
pub fn analyze_transaction(signature: String, instructions: &Vec<Instruction>) -> (r: TransactionAnalysis)
    ensures
        r.signature@ == signature@,
        r.num_instructions == instructions@.len(),
        r.instructions@.len() == instructions@.len(),
        forall|i: int| #![trigger r.instructions@[i]] 0 <= i < instructions@.len() ==> {
            &&& r.instructions@[i].index == i
            &&& r.instructions@[i].num_accounts == instructions@[i].accounts@.len()
            &&& r.instructions@[i].program_id == instructions@[i].program_id
        },
{
    let n = instructions.len();
    let mut analyses: Vec<InstructionAnalysis> = Vec::new();
    for i in 0..n
        invariant
            n == instructions@.len(),
            analyses@.len() == i,
            forall|k: int| #![trigger analyses@[k]] 0 <= k < i ==> {
                &&& analyses@[k].index == k
                &&& analyses@[k].num_accounts == instructions@[k].accounts@.len()
                &&& analyses@[k].program_id == instructions@[k].program_id
            },
    {
        let instruction = &instructions[i];
        analyses.push(InstructionAnalysis {
            index: i as u64,
            num_accounts: instruction.accounts.len() as u64,
            program_id: instruction.program_id,
        });
    }
    TransactionAnalysis { signature, num_instructions: n as u64, instructions: analyses }
}

/// The net gain of the signer over a transaction's transfers: what it sends
/// counts against it, what it receives for it. A transfer between two
/// signers counts as sent.
pub open spec fn transfer_profit(transfers: Seq<Transfer>) -> int
    decreases transfers.len(),
{
    if transfers.len() == 0 {
        0
    } else {
        let t = transfers.last();
        let rest = transfer_profit(transfers.drop_last());
        if t.from_is_signer {
            rest - t.amount
        } else if t.to_is_signer {
            rest + t.amount
        } else {
            rest
        }
    }
}

/// Computes the signer's net gain over the transfers of a transaction.
pub fn calculate_profit(transfers: &Vec<Transfer>) -> (r: i128)
    requires
        transfers@.len() <= i64::MAX,
    ensures
        r == transfer_profit(transfers@),
{
    let mut profit: i128 = 0;
    let n = transfers.len();
    for i in 0..n
        invariant
            n == transfers@.len(),
            profit == transfer_profit(transfers@.subrange(0, i as int)),
            n <= i64::MAX,
            -(i * 0x1_0000_0000_0000_0000) <= profit <= i * 0x1_0000_0000_0000_0000,
    {
        let t = transfers[i];
        proof {
            assert(transfers@.subrange(0, i + 1).drop_last() =~= transfers@.subrange(0, i as int));
            assert((i + 1) * 0x1_0000_0000_0000_0000 <= 0x8000_0000_0000_0000 * 0x1_0000_0000_0000_0000) by (nonlinear_arith)
                requires i < 0x8000_0000_0000_0000;
            assert((i + 1) * 0x1_0000_0000_0000_0000 == i * 0x1_0000_0000_0000_0000 + 0x1_0000_0000_0000_0000) by (nonlinear_arith);
        }
        if t.from_is_signer {
            profit = profit - t.amount as i128;
        } else if t.to_is_signer {
            profit = profit + t.amount as i128;
        }
    }
    proof {
        assert(transfers@.subrange(0, n as int) =~= transfers@);
    }
    profit
}

} // verus!
