//! Withdrawing from the available confidential balance.
use crate::account::ConfidentialAccountState;
use crate::commands::{follows_recipe, Operation};
use crate::crypto::{
    commit_amount, decrypted_balance, try_derive_aes_key, try_derive_elgamal_keypair, derived_ae_key,
    derived_elgamal_keypair, elgamal_encrypted, encrypt_amount_hk, encrypt_balance_ak,
    fresh_opening, pedersen_committed, AkCipher, SigningKey,
};
use crate::error::{Error, ProofKind};
use crate::instruction::{
    offset_byte, withdraw_instruction, withdrawal, Address, Instruction, InstructionView,
};
use crate::proofs::{
    binds_equality, binds_range, equality_proof, range_proof_u64, verify_instruction,
    verify_proof_instruction, ProofData, BALANCE_BITS,
};
use crate::transaction::{
    assemble, offsets_match, relative_offset, steps, ProofReference, TransactionPlan,
};
use crate::utils::check_funds;
use vstd::bytes::lemma_auto_spec_u64_to_from_le_bytes;
use vstd::prelude::*;

verus! {

/// The place of the instruction that verifies the equality proof.
pub const EQUALITY_AT: usize = 0;

/// The place of the instruction that verifies the range proof.
pub const RANGE_AT: usize = 1;

/// The place of the withdrawing instruction, which acts on both proofs.
pub const WITHDRAW_AT: usize = 2;

/// The index, in the data of the withdrawing instruction, of the byte that
/// holds the equality proof's offset: behind two tags, the amount in 8
/// bytes, the decimals and a ciphertext of 36 bytes.
pub const EQUALITY_OFFSET_AT: usize = 47;

/// The index of the byte that holds the range proof's offset.
pub const RANGE_OFFSET_AT: usize = 48;

/// A planned withdrawal, with what went into it.
#[derive(Clone, Debug, PartialEq, Eq)]
pub struct Withdrawal {
    /// The transaction.
    pub plan: TransactionPlan,
    /// The available balance before the withdrawal.
    pub available: u64,
    /// The available balance after it.
    pub remaining: u64,
    /// The balance after the withdrawal under the authenticated key.
    pub new_decryptable_available_balance: AkCipher,
    /// The proof that a ciphertext and a commitment hold the amount.
    pub equality: ProofData,
    /// The proof that the remaining balance has at most 64 bits.
    pub range: ProofData,
}

/// The three instructions of a withdrawal, in order: verify the equality
/// proof, verify the range proof, withdraw. The withdrawing instruction
/// refers to the equality proof two places back and to the range proof one
/// place back.
pub open spec fn withdrawal_steps(
    account: Seq<u8>,
    mint: Seq<u8>,
    amount: u64,
    decimals: u8,
    new_decryptable_available_balance: Seq<u8>,
    authority: Seq<u8>,
    equality: Seq<u8>,
    range: Seq<u8>,
) -> Seq<InstructionView> {
    seq![
        verify_proof_instruction(ProofKind::CiphertextCommitmentEquality, equality),
        verify_proof_instruction(ProofKind::BatchedRangeU64, range),
        withdraw_instruction(
            account,
            mint,
            amount,
            decimals,
            new_decryptable_available_balance,
            authority,
            -2i8,
            -1i8,
        ),
    ]
}

/// The proofs that the withdrawing instruction relies on, with their
/// offsets and the places where the instruction holds them.
pub open spec fn withdrawal_references() -> Seq<ProofReference> {
    seq![
        (ProofReference {
            kind: ProofKind::CiphertextCommitmentEquality,
            offset: -2i8,
            encoded_at: EQUALITY_OFFSET_AT,
        }),
        (ProofReference {
            kind: ProofKind::BatchedRangeU64,
            offset: -1i8,
            encoded_at: RANGE_OFFSET_AT,
        }),
    ]
}

/// Which of the two proofs is unfit for a withdrawal, the equality proof
/// first: each must be of its kind and have the length of its kind.
pub open spec fn unfit_proof(equality: ProofData, range: ProofData) -> Option<ProofKind> {
    if equality.kind != ProofKind::CiphertextCommitmentEquality || !equality.well_formed() {
        Some(ProofKind::CiphertextCommitmentEquality)
    } else if range.kind != ProofKind::BatchedRangeU64 || !range.well_formed() {
        Some(ProofKind::BatchedRangeU64)
    } else {
        None
    }
}

/// Whether equality proof data is about the ciphertext and the commitment
/// that `amount` has under `public` and `opening`.
pub open spec fn proves_equality(
    data: Seq<u8>,
    public: Seq<u8>,
    amount: u64,
    opening: Seq<u8>,
) -> bool {
    match (elgamal_encrypted(public, amount, opening), pedersen_committed(amount, opening)) {
        (Some(ciphertext), Some(commitment)) => binds_equality(
            data,
            public,
            ciphertext,
            commitment,
        ),
        _ => false,
    }
}

/// Whether range proof data is about the commitment that `amount` has
/// under `opening`, with 64 bits.
pub open spec fn proves_range(data: Seq<u8>, amount: u64, opening: Seq<u8>) -> bool {
    match pedersen_committed(amount, opening) {
        Some(commitment) => binds_range(data, commitment, BALANCE_BITS),
        None => false,
    }
}

/// Lays out the transaction of a withdrawal from its ingredients. The
/// proofs' offsets are computed from the places of the instructions and
/// cross-checked against the final list. `payer` pays the fee and
/// authorises the withdrawal as the owner of the account. Data that is no
/// proof of the kind in question is refused as a failed construction.
pub fn recipe(
    payer: &Address,
    account: &Address,
    mint: &Address,
    amount: u64,
    decimals: u8,
    new_decryptable_available_balance: &AkCipher,
    equality: &ProofData,
    range: &ProofData,
) -> (plan: Result<TransactionPlan, Error>)
    ensures
        match plan {
            Ok(p) => {
                &&& unfit_proof(*equality, *range) is None
                &&& steps(p.instructions@) == withdrawal_steps(
                    account.bytes@,
                    mint.bytes@,
                    amount,
                    decimals,
                    new_decryptable_available_balance.bytes@,
                    payer.bytes@,
                    equality.bytes@,
                    range.bytes@,
                )
                &&& p.action == WITHDRAW_AT
                &&& p.references@ == withdrawal_references()
                &&& p.fee_payer == *payer
                &&& p.well_formed()
                &&& follows_recipe(p, Operation::Withdraw)
            },
            Err(e) => unfit_proof(*equality, *range) matches Some(kind) && e
                == Error::ProofConstructionFailed(kind),
        },
{
    match equality.kind {
        ProofKind::CiphertextCommitmentEquality => {},
        _ => {
            return Err(Error::ProofConstructionFailed(ProofKind::CiphertextCommitmentEquality));
        },
    }
    let verify_equality = match verify_instruction(equality) {
        Ok(verify) => verify,
        Err(e) => {
            return Err(e);
        },
    };
    match range.kind {
        ProofKind::BatchedRangeU64 => {},
        _ => {
            return Err(Error::ProofConstructionFailed(ProofKind::BatchedRangeU64));
        },
    }
    let verify_range = match verify_instruction(range) {
        Ok(verify) => verify,
        Err(e) => {
            return Err(e);
        },
    };
    let equality_offset = match relative_offset(WITHDRAW_AT, EQUALITY_AT) {
        Some(offset) => offset,
        None => {
            assert(false);
            vstd::pervasive::unreached()
        },
    };
    let range_offset = match relative_offset(WITHDRAW_AT, RANGE_AT) {
        Some(offset) => offset,
        None => {
            assert(false);
            vstd::pervasive::unreached()
        },
    };
    let mut instructions: Vec<Instruction> = Vec::new();
    instructions.push(verify_equality);
    instructions.push(verify_range);
    instructions.push(
        withdrawal(
            account,
            mint,
            amount,
            decimals,
            new_decryptable_available_balance,
            payer,
            equality_offset,
            range_offset,
        ),
    );
    let mut references: Vec<ProofReference> = Vec::new();
    references.push(
        ProofReference {
            kind: ProofKind::CiphertextCommitmentEquality,
            offset: equality_offset,
            encoded_at: EQUALITY_OFFSET_AT,
        },
    );
    references.push(
        ProofReference {
            kind: ProofKind::BatchedRangeU64,
            offset: range_offset,
            encoded_at: RANGE_OFFSET_AT,
        },
    );
    proof {
        lemma_auto_spec_u64_to_from_le_bytes();
        let action = instructions@[2]@;
        assert(action.data.len() == 49);
        assert(action.data[47] == offset_byte(-2i8));
        assert(action.data[48] == offset_byte(-1i8));
        assert(references@ =~= withdrawal_references());
        assert(offsets_match(instructions@, WITHDRAW_AT, references@));
    }
    match assemble(*payer, instructions, WITHDRAW_AT, references) {
        Ok(plan) => Ok(plan),
        Err(_) => {
            assert(false);
            vstd::pervasive::unreached()
        },
    }
}

/// Plans the withdrawal of `amount` base units from the account at
/// `account`, whose confidential state is `state`, by its owner `signer`.
///
/// The available balance is read with the owner's authenticated key and
/// must cover the amount. The amount is encrypted under the owner's
/// homomorphic key and committed to with one fresh opening, and the two are
/// proved equal; what remains is committed to with another fresh opening
/// and proved to have at most 64 bits; what remains is encrypted under the
/// authenticated key.
///
/// Which failure is reported is decided in this order: a signing key from
/// which no keys can be derived, an available balance that cannot be read,
/// an insufficient balance, a proof that cannot be built. Whether a proof
/// can be built is decided by the proof constructors; what is planned with
/// the proofs is stated by `recipe`.
pub fn plan(
    signer: &SigningKey,
    account: &Address,
    mint: &Address,
    decimals: u8,
    state: &ConfidentialAccountState,
    amount: u64,
) -> (planned: Result<Withdrawal, Error>)
    ensures
        match planned {
            Ok(w) => {
                &&& derived_elgamal_keypair(signer.bytes@) matches Some(keys)
                &&& derived_ae_key(signer.bytes@) matches Some(key)
                &&& state.available_under(key) == Ok::<u64, Error>(w.available)
                &&& amount <= w.available
                &&& w.remaining == w.available - amount
                &&& decrypted_balance(key, w.new_decryptable_available_balance.bytes@) == Ok::<
                    u64,
                    Error,
                >(w.remaining)
                &&& w.equality.kind == ProofKind::CiphertextCommitmentEquality
                &&& w.range.kind == ProofKind::BatchedRangeU64
                &&& exists|opening: Seq<u8>| #[trigger]
                    proves_equality(w.equality.bytes@, keys.0, amount, opening)
                &&& exists|opening: Seq<u8>| #[trigger]
                    proves_range(w.range.bytes@, w.remaining, opening)
                &&& steps(w.plan.instructions@) == withdrawal_steps(
                    account.bytes@,
                    mint.bytes@,
                    amount,
                    decimals,
                    w.new_decryptable_available_balance.bytes@,
                    signer.bytes@.subrange(32, 64),
                    w.equality.bytes@,
                    w.range.bytes@,
                )
                &&& w.plan.action == WITHDRAW_AT
                &&& w.plan.references@ == withdrawal_references()
                &&& w.plan.fee_payer.bytes@ == signer.bytes@.subrange(32, 64)
                &&& w.plan.well_formed()
                &&& follows_recipe(w.plan, Operation::Withdraw)
            },
            Err(e) => match (derived_elgamal_keypair(signer.bytes@), derived_ae_key(signer.bytes@)) {
                (Some(keys), Some(key)) => match state.available_under(key) {
                    Err(unreadable) => e == unreadable,
                    Ok(available) => if amount > available {
                        e == Error::InsufficientBalance
                    } else {
                        e == Error::ProofConstructionFailed(
                            ProofKind::CiphertextCommitmentEquality,
                        ) || e == Error::ProofConstructionFailed(ProofKind::BatchedRangeU64)
                    },
                },
                _ => e == Error::KeypairIo,
            },
        },
{
    let keys = match try_derive_elgamal_keypair(signer) {
        Ok(keys) => keys,
        Err(e) => {
            return Err(e);
        },
    };
    let key = match try_derive_aes_key(signer) {
        Ok(key) => key,
        Err(e) => {
            return Err(e);
        },
    };
    let available = match state.available(&key) {
        Ok(available) => available,
        Err(e) => {
            return Err(e);
        },
    };
    let remaining = match check_funds(available, amount) {
        Ok(remaining) => remaining,
        Err(e) => {
            return Err(e);
        },
    };
    let failed_equality = Error::ProofConstructionFailed(ProofKind::CiphertextCommitmentEquality);
    let failed_range = Error::ProofConstructionFailed(ProofKind::BatchedRangeU64);
    let amount_opening = fresh_opening();
    let Some(ciphertext) = encrypt_amount_hk(&keys.public, amount, &amount_opening) else {
        return Err(failed_equality);
    };
    let Some(commitment) = commit_amount(amount, &amount_opening) else {
        return Err(failed_equality);
    };
    let equality = match equality_proof(&keys, &ciphertext, &commitment, &amount_opening, amount) {
        Ok(equality) => equality,
        Err(e) => {
            return Err(e);
        },
    };
    let remaining_opening = fresh_opening();
    let Some(remaining_commitment) = commit_amount(remaining, &remaining_opening) else {
        return Err(failed_range);
    };
    let range = match range_proof_u64(&remaining_commitment, remaining, &remaining_opening) {
        Ok(range) => range,
        Err(e) => {
            return Err(e);
        },
    };
    let new_decryptable_available_balance = encrypt_balance_ak(&key, remaining);
    let payer = signer.address();
    let planned = recipe(
        &payer,
        account,
        mint,
        amount,
        decimals,
        &new_decryptable_available_balance,
        &equality,
        &range,
    );
    match planned {
        Ok(plan) => {
            let w = Withdrawal {
                plan,
                available,
                remaining,
                new_decryptable_available_balance,
                equality,
                range,
            };
            proof {
                assert(proves_equality(
                    w.equality.bytes@,
                    keys.public@,
                    amount,
                    amount_opening.bytes@,
                ));
                assert(proves_range(w.range.bytes@, w.remaining, remaining_opening.bytes@));
            }
            Ok(w)
        },
        Err(e) => Err(e),
    }
}

} // verus!
