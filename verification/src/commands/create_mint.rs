//! Creating a mint that supports confidential transfers.
use crate::account::{confidential_mint_space, CONFIDENTIAL_MINT_SPACE};
use crate::commands::{follows_recipe, Operation};
use crate::instruction::{
    confidential_mint_initialization, create_account_instruction,
    initialize_confidential_mint_instruction, initialize_mint_instruction, mint_initialization,
    system_create_account, Address, Instruction, TOKEN_PROGRAM_ID,
};
use crate::transaction::{assemble, steps, ProofReference, TransactionPlan};
use vstd::prelude::*;

verus! {

/// Plans the creation of a mint: the system program allocates the account
/// at `mint` for the token program and funds it with `rent` from `payer`;
/// the confidential-transfer extension is initialised so that new accounts
/// are approved at once, without an authority and without an auditor; the
/// mint itself is initialised with `authority` and `decimals`. No proof is
/// involved.
pub fn plan(payer: &Address, mint: &Address, authority: &Address, decimals: u8, rent: u64) -> (plan:
    TransactionPlan)
    ensures
        steps(plan.instructions@) == seq![
            create_account_instruction(
                payer.bytes@,
                mint.bytes@,
                rent,
                CONFIDENTIAL_MINT_SPACE,
                TOKEN_PROGRAM_ID@,
            ),
            initialize_confidential_mint_instruction(mint.bytes@, true),
            initialize_mint_instruction(mint.bytes@, authority.bytes@, decimals),
        ],
        plan.action == 2,
        plan.references@.len() == 0,
        plan.fee_payer == *payer,
        plan.well_formed(),
        follows_recipe(plan, Operation::CreateMint),
{
    let token = Address { bytes: TOKEN_PROGRAM_ID };
    let mut instructions: Vec<Instruction> = Vec::new();
    instructions.push(system_create_account(payer, mint, rent, confidential_mint_space(), &token));
    instructions.push(confidential_mint_initialization(mint, true));
    instructions.push(mint_initialization(mint, authority, decimals));
    let references: Vec<ProofReference> = Vec::new();
    match assemble(*payer, instructions, 2, references) {
        Ok(plan) => plan,
        Err(_) => {
            assert(false);
            vstd::pervasive::unreached()
        },
    }
}

} // verus!
