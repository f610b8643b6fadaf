//! Depositing into the pending confidential balance.
use crate::commands::{follows_recipe, Operation};
use crate::instruction::{deposit_instruction, deposit_of, Address, Instruction};
use crate::transaction::{assemble, steps, ProofReference, TransactionPlan};
use vstd::prelude::*;

verus! {

/// Plans a deposit of `amount` base units from the public balance of
/// `account` to its pending confidential balance. `payer` pays the fee and
/// authorises the deposit as the owner of the account. The amount is not
/// encrypted by the client: the token program does that. No proof is
/// involved.
pub fn plan(payer: &Address, account: &Address, mint: &Address, amount: u64, decimals: u8) -> (plan:
    TransactionPlan)
    ensures
        steps(plan.instructions@) == seq![
            deposit_instruction(account.bytes@, mint.bytes@, amount, decimals, payer.bytes@),
        ],
        plan.action == 0,
        plan.references@.len() == 0,
        plan.fee_payer == *payer,
        plan.well_formed(),
        follows_recipe(plan, Operation::Deposit),
{
    let mut instructions: Vec<Instruction> = Vec::new();
    instructions.push(deposit_of(account, mint, amount, decimals, payer));
    let references: Vec<ProofReference> = Vec::new();
    match assemble(*payer, instructions, 0, references) {
        Ok(plan) => plan,
        Err(_) => {
            assert(false);
            vstd::pervasive::unreached()
        },
    }
}

} // verus!
