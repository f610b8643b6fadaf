//! Creating a token account and configuring it for confidential transfers.
use crate::account::{confidential_account_space, CONFIDENTIAL_ACCOUNT_SPACE};
use crate::commands::{follows_recipe, Operation};
use crate::crypto::{
    decrypted_balance, try_derive_aes_key, try_derive_elgamal_keypair, derived_ae_key,
    derived_elgamal_keypair, encrypt_balance_ak, AkCipher, SigningKey,
};
use crate::error::{Error, ProofKind};
use crate::instruction::{
    account_configuration, account_initialization, configure_account_instruction,
    create_account_instruction, initialize_account_instruction, offset_byte,
    system_create_account, Address, Instruction, InstructionView, TOKEN_PROGRAM_ID,
};
use crate::proofs::{
    binds_pubkey, pubkey_validity_proof, verify_instruction, verify_proof_instruction, ProofData,
};
use crate::transaction::{
    assemble, offsets_match, relative_offset, steps, ProofReference, TransactionPlan,
};
use vstd::bytes::lemma_auto_spec_u64_to_from_le_bytes;
use vstd::prelude::*;

verus! {

/// The place of the allocating instruction in the plan.
pub const CREATE_AT: usize = 0;

/// The place of the instruction that initialises the token account.
pub const INITIALIZE_AT: usize = 1;

/// The place of the instruction that verifies the public key.
pub const VERIFY_AT: usize = 2;

/// The place of the configuring instruction, which acts on the proof.
pub const CONFIGURE_AT: usize = 3;

/// The index, in the data of the configuring instruction, of the byte that
/// holds the proof's offset: behind two tags, a ciphertext of 36 bytes and
/// a counter of 8.
pub const CONFIGURE_OFFSET_AT: usize = 46;

/// The most credits that a new account lets gather before they must be
/// applied.
pub const MAXIMUM_PENDING_CREDITS: u64 = u64::MAX;

/// A planned account, with what went into it.
#[derive(Clone, Debug, PartialEq, Eq)]
pub struct AccountCreation {
    /// The transaction.
    pub plan: TransactionPlan,
    /// The homomorphic public key that the account is bound to.
    pub elgamal_pubkey: [u8; 32],
    /// The zero balance under the owner's authenticated key.
    pub decryptable_zero_balance: AkCipher,
    /// The proof that the homomorphic public key is well formed.
    pub validity: ProofData,
}

/// The four instructions that create and configure an account, in order:
/// allocate, initialise, verify the key's proof, configure. The configuring
/// instruction refers to the proof one place back.
pub open spec fn creation_steps(
    payer: Seq<u8>,
    account: Seq<u8>,
    mint: Seq<u8>,
    owner: Seq<u8>,
    rent: u64,
    decryptable_zero_balance: Seq<u8>,
    validity: Seq<u8>,
) -> Seq<InstructionView> {
    seq![
        create_account_instruction(
            payer,
            account,
            rent,
            CONFIDENTIAL_ACCOUNT_SPACE,
            TOKEN_PROGRAM_ID@,
        ),
        initialize_account_instruction(account, mint, owner),
        verify_proof_instruction(ProofKind::PubkeyValidity, validity),
        configure_account_instruction(
            account,
            mint,
            decryptable_zero_balance,
            MAXIMUM_PENDING_CREDITS,
            owner,
            -1i8,
        ),
    ]
}

/// Lays out the transaction for a new account from its ingredients. The
/// proof's offset is computed from the places of the two instructions and
/// cross-checked against the final list. Data that is no public-key
/// validity proof is refused as a failed construction.
pub fn recipe(
    payer: &Address,
    account: &Address,
    mint: &Address,
    owner: &Address,
    rent: u64,
    decryptable_zero_balance: &AkCipher,
    validity: &ProofData,
) -> (plan: Result<TransactionPlan, Error>)
    ensures
        match plan {
            Ok(p) => {
                &&& validity.kind == ProofKind::PubkeyValidity
                &&& validity.well_formed()
                &&& steps(p.instructions@) == creation_steps(
                    payer.bytes@,
                    account.bytes@,
                    mint.bytes@,
                    owner.bytes@,
                    rent,
                    decryptable_zero_balance.bytes@,
                    validity.bytes@,
                )
                &&& p.action == CONFIGURE_AT
                &&& p.references@ == seq![
                    (ProofReference {
                        kind: ProofKind::PubkeyValidity,
                        offset: -1i8,
                        encoded_at: CONFIGURE_OFFSET_AT,
                    }),
                ]
                &&& p.fee_payer == *payer
                &&& p.well_formed()
                &&& follows_recipe(p, Operation::CreateAccount)
            },
            Err(e) => {
                &&& e == Error::ProofConstructionFailed(ProofKind::PubkeyValidity)
                &&& (validity.kind != ProofKind::PubkeyValidity || !validity.well_formed())
            },
        },
{
    match validity.kind {
        ProofKind::PubkeyValidity => {},
        _ => {
            return Err(Error::ProofConstructionFailed(ProofKind::PubkeyValidity));
        },
    }
    let verify = match verify_instruction(validity) {
        Ok(verify) => verify,
        Err(e) => {
            return Err(e);
        },
    };
    let offset = match relative_offset(CONFIGURE_AT, VERIFY_AT) {
        Some(offset) => offset,
        None => {
            assert(false);
            vstd::pervasive::unreached()
        },
    };
    let token = Address { bytes: TOKEN_PROGRAM_ID };
    let space = confidential_account_space();
    let mut instructions: Vec<Instruction> = Vec::new();
    instructions.push(system_create_account(payer, account, rent, space, &token));
    instructions.push(account_initialization(account, mint, owner));
    instructions.push(verify);
    instructions.push(
        account_configuration(
            account,
            mint,
            decryptable_zero_balance,
            MAXIMUM_PENDING_CREDITS,
            owner,
            offset,
        ),
    );
    let mut references: Vec<ProofReference> = Vec::new();
    references.push(
        ProofReference {
            kind: ProofKind::PubkeyValidity,
            offset,
            encoded_at: CONFIGURE_OFFSET_AT,
        },
    );
    proof {
        lemma_auto_spec_u64_to_from_le_bytes();
        let configure = instructions@[3]@;
        assert(configure.data.len() == 47);
        assert(configure.data[46] == offset_byte(-1i8));
        assert(offsets_match(instructions@, CONFIGURE_AT, references@));
    }
    match assemble(*payer, instructions, CONFIGURE_AT, references) {
        Ok(plan) => Ok(plan),
        Err(_) => {
            assert(false);
            vstd::pervasive::unreached()
        },
    }
}

/// Plans the creation of a token account of `mint` at `account`, owned by
/// `owner` and paid for by `payer`. The owner's two encryption keys are
/// derived from the signing key; the zero balance is encrypted under the
/// authenticated key; the homomorphic public key is proved well formed.
///
/// The account is planned for every signing key from which the two keys
/// can be derived: the derived keypair always has its proof. A signing key
/// from which they cannot be derived is a keypair failure.
pub fn plan(payer: &Address, account: &Address, mint: &Address, owner: &SigningKey, rent: u64) -> (
    creation: Result<AccountCreation, Error>)
    ensures
        match creation {
            Ok(c) => {
                &&& derived_elgamal_keypair(owner.bytes@) matches Some(keys)
                &&& derived_ae_key(owner.bytes@) matches Some(key)
                &&& c.elgamal_pubkey@ == keys.0
                &&& decrypted_balance(key, c.decryptable_zero_balance.bytes@) == Ok::<u64, Error>(
                    0u64,
                )
                &&& c.validity.kind == ProofKind::PubkeyValidity
                &&& binds_pubkey(c.validity.bytes@, c.elgamal_pubkey@)
                &&& steps(c.plan.instructions@) == creation_steps(
                    payer.bytes@,
                    account.bytes@,
                    mint.bytes@,
                    owner.bytes@.subrange(32, 64),
                    rent,
                    c.decryptable_zero_balance.bytes@,
                    c.validity.bytes@,
                )
                &&& c.plan.action == CONFIGURE_AT
                &&& c.plan.references@ == seq![
                    (ProofReference {
                        kind: ProofKind::PubkeyValidity,
                        offset: -1i8,
                        encoded_at: CONFIGURE_OFFSET_AT,
                    }),
                ]
                &&& c.plan.fee_payer == *payer
                &&& c.plan.well_formed()
                &&& follows_recipe(c.plan, Operation::CreateAccount)
            },
            Err(e) => e == Error::KeypairIo && (derived_elgamal_keypair(owner.bytes@) is None
                || derived_ae_key(owner.bytes@) is None),
        },
{
    let keys = match try_derive_elgamal_keypair(owner) {
        Ok(keys) => keys,
        Err(e) => {
            return Err(e);
        },
    };
    let key = match try_derive_aes_key(owner) {
        Ok(key) => key,
        Err(e) => {
            return Err(e);
        },
    };
    let decryptable_zero_balance = encrypt_balance_ak(&key, 0);
    let validity = match pubkey_validity_proof(&keys) {
        Ok(validity) => validity,
        Err(e) => {
            return Err(e);
        },
    };
    let owner_address = owner.address();
    match recipe(payer, account, mint, &owner_address, rent, &decryptable_zero_balance, &validity) {
        Ok(plan) => Ok(
            AccountCreation {
                plan,
                elgamal_pubkey: keys.public,
                decryptable_zero_balance,
                validity,
            },
        ),
        Err(e) => Err(e),
    }
}

} // verus!
