use vstd::prelude::*;
use crate::address::Address;
use crate::error::MevBotError;
use crate::models::Instruction;

verus! {

/// `i` is the position of the first instruction addressed to `program_id`.
pub open spec fn is_first_for(instructions: Seq<Instruction>, program_id: Address, i: int) -> bool {
    &&& 0 <= i < instructions.len()
    &&& instructions[i].program_id == program_id
    &&& forall|j: int| 0 <= j < i ==> instructions[j].program_id != program_id
}

pub open spec fn addresses_program(instructions: Seq<Instruction>, program_id: Address) -> bool {
    exists|i: int| 0 <= i < instructions.len() && instructions[i].program_id == program_id
}

fn first_for(instructions: &Vec<Instruction>, program_id: &Address) -> (r: Option<usize>)
    ensures
        match r {
            Some(i) => is_first_for(instructions@, *program_id, i as int),
            None => !addresses_program(instructions@, *program_id),
        },
{
    let n = instructions.len();
    for i in 0..n
        invariant
            n == instructions@.len(),
            forall|j: int| 0 <= j < i ==> instructions@[j].program_id != *program_id,
    {
        if instructions[i].program_id.same_as(program_id) {
            return Some(i);
        }
    }
    None
}

fn copy_of<U: Copy>(v: &Vec<U>) -> (r: Vec<U>)
    ensures
        r@ == v@,
{
    let mut r: Vec<U> = Vec::new();
    for i in 0..v.len()
        invariant
            r@ == v@.subrange(0, i as int),
    {
        r.push(v[i]);
        proof {
            assert(r@ =~= v@.subrange(0, i + 1));
        }
    }
    proof {
        assert(r@ =~= v@);
    }
    r
}

/// The data of the first instruction addressed to `program_id`.
pub fn get_instruction_data(instructions: &Vec<Instruction>, program_id: &Address) -> (r: Result<Vec<u8>, MevBotError>)
    ensures
        r is Ok <==> addresses_program(instructions@, *program_id),
        r is Ok ==> exists|i: int| is_first_for(instructions@, *program_id, i) && r->Ok_0@ == instructions@[i].data@,
        r is Err ==> r->Err_0 == MevBotError::InstructionNotFound(*program_id),
{
    match first_for(instructions, program_id) {
        Some(i) => Ok(copy_of(&instructions[i].data)),
        None => Err(MevBotError::InstructionNotFound(*program_id)),
    }
}

/// The accounts named by the first instruction addressed to `program_id`.
pub fn get_instruction_accounts(instructions: &Vec<Instruction>, program_id: &Address) -> (r: Result<Vec<Address>, MevBotError>)
    ensures
        r is Ok <==> addresses_program(instructions@, *program_id),
        r is Ok ==> exists|i: int| is_first_for(instructions@, *program_id, i) && r->Ok_0@ == instructions@[i].accounts@,
        r is Err ==> r->Err_0 == MevBotError::InstructionNotFound(*program_id),
{
    match first_for(instructions, program_id) {
        Some(i) => Ok(copy_of(&instructions[i].accounts)),
        None => Err(MevBotError::InstructionNotFound(*program_id)),
    }
}

} // verus!
