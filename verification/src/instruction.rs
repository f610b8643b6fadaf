//! Instructions as plain values, the addresses of the programs and system
//! accounts that they name, and the constructors of the instructions that
//! the operations emit.
//!
//! The constructors are outside code. Each is called in a private function
//! whose contract states, byte for byte, what the outside constructor
//! returns; those contracts are taken on trust.
use crate::crypto::AkCipher;
use solana_sdk::pubkey::Pubkey;
use solana_sdk::system_instruction::create_account;
use spl_token_2022::extension::confidential_transfer::instruction::{
    apply_pending_balance, deposit, initialize_mint as initialize_confidential_mint,
    inner_configure_account, inner_withdraw,
};
use spl_token_2022::instruction::{initialize_account, initialize_mint};
use spl_token_2022::solana_zk_sdk::encryption::pod::auth_encryption::PodAeCiphertext;
use spl_token_confidential_transfer_proof_extraction::instruction::{ProofData, ProofLocation};
use bytemuck::Zeroable;
use std::num::NonZeroI8;
use vstd::bytes::spec_u64_to_le_bytes;
use vstd::prelude::*;

verus! {

/// The address of an account or a program: 32 bytes.
#[derive(Clone, Copy, Debug, PartialEq, Eq)]
pub struct Address {
    pub bytes: [u8; 32],
}

/// The token program, `TokenzQdBNbLqP5VEhdkAS6EPFLC1PHnBqCXEpPxuEb`.
pub const TOKEN_PROGRAM_ID: [u8; 32] = [
    6, 221, 246, 225, 238, 117, 143, 222, 24, 66, 93, 188, 228, 108, 205, 218, 182, 26, 252, 77,
    131, 185, 13, 39, 254, 189, 249, 40, 216, 161, 139, 252,
];

/// The proof-verification program,
/// `ZkE1Gama1Proof11111111111111111111111111111`.
pub const PROOF_PROGRAM_ID: [u8; 32] = [
    8, 99, 117, 172, 226, 174, 234, 40, 26, 107, 55, 77, 104, 27, 167, 106, 83, 204, 246, 56,
    192, 116, 85, 147, 108, 5, 208, 101, 64, 0, 0, 0,
];

/// The system program, `11111111111111111111111111111111`.
pub const SYSTEM_PROGRAM_ID: [u8; 32] = [
    0, 0, 0, 0, 0, 0, 0, 0, 0, 0, 0, 0, 0, 0, 0, 0, 0, 0, 0, 0, 0, 0, 0, 0, 0, 0, 0, 0, 0, 0, 0, 0,
];

/// The system account that lists the instructions of the running
/// transaction, `Sysvar1nstructions1111111111111111111111111`.
pub const INSTRUCTIONS_SYSVAR_ID: [u8; 32] = [
    6, 167, 213, 23, 24, 123, 209, 102, 53, 218, 212, 4, 85, 253, 194, 192, 193, 36, 198, 143,
    33, 86, 117, 165, 219, 186, 203, 95, 8, 0, 0, 0,
];

/// The system account that holds the rent parameters,
/// `SysvarRent111111111111111111111111111111111`.
pub const RENT_SYSVAR_ID: [u8; 32] = [
    6, 167, 213, 23, 25, 44, 92, 81, 33, 140, 201, 76, 61, 74, 241, 127, 88, 218, 238, 8, 155,
    161, 253, 68, 227, 219, 217, 138, 0, 0, 0, 0,
];

/// The first byte of every instruction of the token program that belongs to
/// the confidential-transfer extension.
pub const CONFIDENTIAL_TRANSFER_TAG: u8 = 27;

/// An account that an instruction names, and how it uses it.
#[derive(Clone, Copy, Debug, PartialEq, Eq)]
pub struct AccountMeta {
    pub pubkey: [u8; 32],
    pub is_signer: bool,
    pub is_writable: bool,
}

/// The mathematical value of an `AccountMeta`.
pub struct AccountMetaView {
    pub pubkey: Seq<u8>,
    pub is_signer: bool,
    pub is_writable: bool,
}

/// One instruction of a transaction.
#[derive(Clone, Debug, PartialEq, Eq)]
pub struct Instruction {
    pub program_id: [u8; 32],
    pub accounts: Vec<AccountMeta>,
    pub data: Vec<u8>,
}

/// The mathematical value of an `Instruction`.
pub struct InstructionView {
    pub program_id: Seq<u8>,
    pub accounts: Seq<AccountMetaView>,
    pub data: Seq<u8>,
}

impl View for AccountMeta {
    type V = AccountMetaView;

    open spec fn view(&self) -> AccountMetaView {
        AccountMetaView {
            pubkey: self.pubkey@,
            is_signer: self.is_signer,
            is_writable: self.is_writable,
        }
    }
}

impl View for Instruction {
    type V = InstructionView;

    open spec fn view(&self) -> InstructionView {
        InstructionView {
            program_id: self.program_id@,
            accounts: self.accounts@.map_values(|m: AccountMeta| m@),
            data: self.data@,
        }
    }
}

impl AccountMeta {
    /// An account with the given use.
    pub fn new(pubkey: [u8; 32], is_signer: bool, is_writable: bool) -> (meta: AccountMeta)
        ensures
            meta.pubkey == pubkey,
            meta.is_signer == is_signer,
            meta.is_writable == is_writable,
    {
        AccountMeta { pubkey, is_signer, is_writable }
    }
}

/// An account that is written and does not sign.
pub open spec fn writable(pubkey: Seq<u8>) -> AccountMetaView {
    AccountMetaView { pubkey, is_signer: false, is_writable: true }
}

/// An account that is written and signs.
pub open spec fn writable_signer(pubkey: Seq<u8>) -> AccountMetaView {
    AccountMetaView { pubkey, is_signer: true, is_writable: true }
}

/// An account that is only read and does not sign.
pub open spec fn readonly(pubkey: Seq<u8>) -> AccountMetaView {
    AccountMetaView { pubkey, is_signer: false, is_writable: false }
}

/// An account that is only read and signs.
pub open spec fn readonly_signer(pubkey: Seq<u8>) -> AccountMetaView {
    AccountMetaView { pubkey, is_signer: true, is_writable: false }
}

/// A signed 8-bit offset as the byte that encodes it.
pub open spec fn offset_byte(offset: i8) -> u8 {
    if offset >= 0 {
        offset as u8
    } else {
        (offset + 256) as u8
    }
}

/// The instruction of the system program that allocates `space` bytes for
/// `new_account`, funds it with `lamports` from `payer` and hands it to
/// `owner`. Both accounts sign.
pub open spec fn create_account_instruction(
    payer: Seq<u8>,
    new_account: Seq<u8>,
    lamports: u64,
    space: u64,
    owner: Seq<u8>,
) -> InstructionView {
    InstructionView {
        program_id: SYSTEM_PROGRAM_ID@,
        accounts: seq![writable_signer(payer), writable_signer(new_account)],
        data: seq![0u8, 0u8, 0u8, 0u8] + spec_u64_to_le_bytes(lamports) + spec_u64_to_le_bytes(
            space,
        ) + owner,
    }
}

/// The instruction that initialises the confidential-transfer extension of
/// a mint without an authority and without an auditor.
pub open spec fn initialize_confidential_mint_instruction(
    mint: Seq<u8>,
    auto_approve_new_accounts: bool,
) -> InstructionView {
    InstructionView {
        program_id: TOKEN_PROGRAM_ID@,
        accounts: seq![writable(mint)],
        data: seq![CONFIDENTIAL_TRANSFER_TAG, 0u8] + Seq::new(32, |i: int| 0u8) + seq![
            if auto_approve_new_accounts {
                1u8
            } else {
                0u8
            },
        ] + Seq::new(32, |i: int| 0u8),
    }
}

/// The instruction that initialises a mint with `decimals` and with
/// `authority` as both its mint authority and its freeze authority.
pub open spec fn initialize_mint_instruction(
    mint: Seq<u8>,
    authority: Seq<u8>,
    decimals: u8,
) -> InstructionView {
    InstructionView {
        program_id: TOKEN_PROGRAM_ID@,
        accounts: seq![writable(mint), readonly(RENT_SYSVAR_ID@)],
        data: seq![0u8, decimals] + authority + seq![1u8] + authority,
    }
}

/// The instruction that initialises a token account of `mint` for `owner`.
pub open spec fn initialize_account_instruction(
    account: Seq<u8>,
    mint: Seq<u8>,
    owner: Seq<u8>,
) -> InstructionView {
    InstructionView {
        program_id: TOKEN_PROGRAM_ID@,
        accounts: seq![
            writable(account),
            readonly(mint),
            readonly(owner),
            readonly(RENT_SYSVAR_ID@),
        ],
        data: seq![1u8],
    }
}

/// The instruction that configures an account for confidential transfers.
/// Its last byte is the position of the instruction that verifies the
/// public key, relative to this one.
pub open spec fn configure_account_instruction(
    account: Seq<u8>,
    mint: Seq<u8>,
    decryptable_zero_balance: Seq<u8>,
    maximum_pending_balance_credit_counter: u64,
    authority: Seq<u8>,
    proof_offset: i8,
) -> InstructionView {
    InstructionView {
        program_id: TOKEN_PROGRAM_ID@,
        accounts: seq![
            writable(account),
            readonly(mint),
            readonly(INSTRUCTIONS_SYSVAR_ID@),
            readonly_signer(authority),
        ],
        data: seq![CONFIDENTIAL_TRANSFER_TAG, 2u8] + decryptable_zero_balance
            + spec_u64_to_le_bytes(maximum_pending_balance_credit_counter) + seq![
            offset_byte(proof_offset),
        ],
    }
}

/// The instruction that moves `amount` from the public balance of an account
/// to its pending confidential balance.
pub open spec fn deposit_instruction(
    account: Seq<u8>,
    mint: Seq<u8>,
    amount: u64,
    decimals: u8,
    authority: Seq<u8>,
) -> InstructionView {
    InstructionView {
        program_id: TOKEN_PROGRAM_ID@,
        accounts: seq![writable(account), readonly(mint), readonly_signer(authority)],
        data: seq![CONFIDENTIAL_TRANSFER_TAG, 5u8] + spec_u64_to_le_bytes(amount) + seq![decimals],
    }
}

/// The instruction that moves `amount` from the available confidential
/// balance of an account to its public balance. Its last two bytes are the
/// positions of the instructions that verify the equality proof and the
/// range proof, relative to this one.
pub open spec fn withdraw_instruction(
    account: Seq<u8>,
    mint: Seq<u8>,
    amount: u64,
    decimals: u8,
    new_decryptable_available_balance: Seq<u8>,
    authority: Seq<u8>,
    equality_proof_offset: i8,
    range_proof_offset: i8,
) -> InstructionView {
    InstructionView {
        program_id: TOKEN_PROGRAM_ID@,
        accounts: seq![
            writable(account),
            readonly(mint),
            readonly(INSTRUCTIONS_SYSVAR_ID@),
            readonly_signer(authority),
        ],
        data: seq![CONFIDENTIAL_TRANSFER_TAG, 6u8] + spec_u64_to_le_bytes(amount) + seq![decimals]
            + new_decryptable_available_balance + seq![
            offset_byte(equality_proof_offset),
            offset_byte(range_proof_offset),
        ],
    }
}

/// The instruction that folds the pending balance of an account into its
/// available balance, provided that the account's credit counter still has
/// the expected value.
pub open spec fn apply_pending_balance_instruction(
    account: Seq<u8>,
    expected_pending_balance_credit_counter: u64,
    new_decryptable_available_balance: Seq<u8>,
    authority: Seq<u8>,
) -> InstructionView {
    InstructionView {
        program_id: TOKEN_PROGRAM_ID@,
        accounts: seq![writable(account), readonly_signer(authority)],
        data: seq![CONFIDENTIAL_TRANSFER_TAG, 8u8] + spec_u64_to_le_bytes(
            expected_pending_balance_credit_counter,
        ) + new_decryptable_available_balance,
    }
}

/// Calls `system_instruction::create_account`. The data is the `bincode`
/// form of the variant `CreateAccount`: its index 0 in four bytes, the two
/// integers in little-endian order, and the owner.
#[verifier::external_body]
pub(crate) fn system_create_account(
    payer: &Address,
    new_account: &Address,
    lamports: u64,
    space: u64,
    owner: &Address,
) -> (ix: Instruction)
    ensures
        ix@ == create_account_instruction(
            payer.bytes@,
            new_account.bytes@,
            lamports,
            space,
            owner.bytes@,
        ),
{
    let ix = create_account(
        &Pubkey::from(payer.bytes),
        &Pubkey::from(new_account.bytes),
        lamports,
        space,
        &Pubkey::from(owner.bytes),
    );
    let accounts = ix.accounts.iter().map(
        |m| AccountMeta::new(m.pubkey.to_bytes(), m.is_signer, m.is_writable),
    ).collect();
    Instruction { program_id: ix.program_id.to_bytes(), accounts, data: ix.data }
}

/// Calls the constructor of `InitializeMint` of the confidential-transfer
/// extension with no authority and no auditor key; with those two absent
/// the constructor cannot fail. The data is the extension's tag, the
/// instruction's index 0, 32 zero bytes for the absent authority, the flag,
/// and 32 zero bytes for the absent auditor key.
#[verifier::external_body]
pub(crate) fn confidential_mint_initialization(
    mint: &Address,
    auto_approve_new_accounts: bool,
) -> (ix: Instruction)
    ensures
        ix@ == initialize_confidential_mint_instruction(mint.bytes@, auto_approve_new_accounts),
{
    let mint = Pubkey::from(mint.bytes);
    let ix = initialize_confidential_mint(
        &spl_token_2022::id(), &mint, None, auto_approve_new_accounts, None,
    ).unwrap();
    let accounts = ix.accounts.iter().map(
        |m| AccountMeta::new(m.pubkey.to_bytes(), m.is_signer, m.is_writable),
    ).collect();
    Instruction { program_id: ix.program_id.to_bytes(), accounts, data: ix.data }
}

/// Calls `spl_token_2022::instruction::initialize_mint` with `authority` as
/// mint authority and as freeze authority. The data is the index 0, the
/// decimals, the mint authority, the byte 1 for a present freeze authority,
/// and that authority.
#[verifier::external_body]
pub(crate) fn mint_initialization(mint: &Address, authority: &Address, decimals: u8) -> (ix:
    Instruction)
    ensures
        ix@ == initialize_mint_instruction(mint.bytes@, authority.bytes@, decimals),
{
    let authority = Pubkey::from(authority.bytes);
    let ix = initialize_mint(
        &spl_token_2022::id(), &Pubkey::from(mint.bytes), &authority, Some(&authority), decimals,
    ).unwrap();
    let accounts = ix.accounts.iter().map(
        |m| AccountMeta::new(m.pubkey.to_bytes(), m.is_signer, m.is_writable),
    ).collect();
    Instruction { program_id: ix.program_id.to_bytes(), accounts, data: ix.data }
}

/// Calls `spl_token_2022::instruction::initialize_account`. The data is
/// the single byte 1.
#[verifier::external_body]
pub(crate) fn account_initialization(account: &Address, mint: &Address, owner: &Address) -> (ix:
    Instruction)
    ensures
        ix@ == initialize_account_instruction(account.bytes@, mint.bytes@, owner.bytes@),
{
    let ix = initialize_account(
        &spl_token_2022::id(),
        &Pubkey::from(account.bytes),
        &Pubkey::from(mint.bytes),
        &Pubkey::from(owner.bytes),
    ).unwrap();
    let accounts = ix.accounts.iter().map(
        |m| AccountMeta::new(m.pubkey.to_bytes(), m.is_signer, m.is_writable),
    ).collect();
    Instruction { program_id: ix.program_id.to_bytes(), accounts, data: ix.data }
}

/// Calls `inner_configure_account`, the constructor that takes the proof's
/// position as it is given. The proof data that it is handed is not read
/// for a proof that stands in the transaction, so an all-zero value is
/// passed. An offset of zero, which would stand for a proof held in an
/// account, is left out. The data is the extension's tag, the
/// instruction's index 2, the ciphertext, the counter in little-endian
/// order, and the offset.
#[verifier::external_body]
pub(crate) fn account_configuration(
    account: &Address,
    mint: &Address,
    decryptable_zero_balance: &AkCipher,
    maximum_pending_balance_credit_counter: u64,
    authority: &Address,
    proof_offset: i8,
) -> (ix: Instruction)
    requires
        proof_offset != 0,
    ensures
        ix@ == configure_account_instruction(
            account.bytes@,
            mint.bytes@,
            decryptable_zero_balance.bytes@,
            maximum_pending_balance_credit_counter,
            authority.bytes@,
            proof_offset,
        ),
{
    let ix = inner_configure_account(
        &spl_token_2022::id(), &Pubkey::from(account.bytes), &Pubkey::from(mint.bytes),
        &PodAeCiphertext::from(decryptable_zero_balance.bytes),
        maximum_pending_balance_credit_counter, &Pubkey::from(authority.bytes), &[],
        ProofLocation::InstructionOffset(
            NonZeroI8::new(proof_offset).unwrap(),
            ProofData::InstructionData(&Zeroable::zeroed()))).unwrap();
    let accounts = ix.accounts.iter().map(
        |m| AccountMeta::new(m.pubkey.to_bytes(), m.is_signer, m.is_writable),
    ).collect();
    Instruction { program_id: ix.program_id.to_bytes(), accounts, data: ix.data }
}

/// Calls the constructor of `Deposit`. The data is the extension's tag,
/// the instruction's index 5, the amount in little-endian order, and the
/// decimals.
#[verifier::external_body]
pub(crate) fn deposit_of(
    account: &Address,
    mint: &Address,
    amount: u64,
    decimals: u8,
    authority: &Address,
) -> (ix: Instruction)
    ensures
        ix@ == deposit_instruction(
            account.bytes@,
            mint.bytes@,
            amount,
            decimals,
            authority.bytes@,
        ),
{
    let ix = deposit(
        &spl_token_2022::id(), &Pubkey::from(account.bytes), &Pubkey::from(mint.bytes),
        amount, decimals, &Pubkey::from(authority.bytes), &[],
    ).unwrap();
    let accounts = ix.accounts.iter().map(
        |m| AccountMeta::new(m.pubkey.to_bytes(), m.is_signer, m.is_writable),
    ).collect();
    Instruction { program_id: ix.program_id.to_bytes(), accounts, data: ix.data }
}

/// Calls `inner_withdraw`, the constructor that takes the proofs' positions
/// as they are given. The proof data that it is handed is not read for
/// proofs that stand in the transaction, so all-zero values are passed.
/// Offsets of zero, which would stand for proofs held in accounts, are left
/// out. The data is the extension's tag, the instruction's index 6, the
/// amount in little-endian order, the decimals, the ciphertext, and the two
/// offsets.
#[verifier::external_body]
pub(crate) fn withdrawal(
    account: &Address,
    mint: &Address,
    amount: u64,
    decimals: u8,
    new_decryptable_available_balance: &AkCipher,
    authority: &Address,
    equality_proof_offset: i8,
    range_proof_offset: i8,
) -> (ix: Instruction)
    requires
        equality_proof_offset != 0,
        range_proof_offset != 0,
    ensures
        ix@ == withdraw_instruction(
            account.bytes@,
            mint.bytes@,
            amount,
            decimals,
            new_decryptable_available_balance.bytes@,
            authority.bytes@,
            equality_proof_offset,
            range_proof_offset,
        ),
{
    let ix = inner_withdraw(
        &spl_token_2022::id(), &Pubkey::from(account.bytes), &Pubkey::from(mint.bytes),
        amount, decimals, &PodAeCiphertext::from(new_decryptable_available_balance.bytes),
        &Pubkey::from(authority.bytes), &[],
        ProofLocation::InstructionOffset(
            NonZeroI8::new(equality_proof_offset).unwrap(),
            ProofData::InstructionData(&Zeroable::zeroed())),
        ProofLocation::InstructionOffset(
            NonZeroI8::new(range_proof_offset).unwrap(),
            ProofData::InstructionData(&Zeroable::zeroed()))).unwrap();
    let accounts = ix.accounts.iter().map(
        |m| AccountMeta::new(m.pubkey.to_bytes(), m.is_signer, m.is_writable),
    ).collect();
    Instruction { program_id: ix.program_id.to_bytes(), accounts, data: ix.data }
}

/// Calls the constructor of `ApplyPendingBalance`. The data is the
/// extension's tag, the instruction's index 8, the expected counter in
/// little-endian order, and the ciphertext.
#[verifier::external_body]
pub(crate) fn pending_balance_application(
    account: &Address,
    expected_pending_balance_credit_counter: u64,
    new_decryptable_available_balance: &AkCipher,
    authority: &Address,
) -> (ix: Instruction)
    ensures
        ix@ == apply_pending_balance_instruction(
            account.bytes@,
            expected_pending_balance_credit_counter,
            new_decryptable_available_balance.bytes@,
            authority.bytes@,
        ),
{
    let ix = apply_pending_balance(
        &spl_token_2022::id(), &Pubkey::from(account.bytes),
        expected_pending_balance_credit_counter,
        &PodAeCiphertext::from(new_decryptable_available_balance.bytes),
        &Pubkey::from(authority.bytes), &[],
    ).unwrap();
    let accounts = ix.accounts.iter().map(
        |m| AccountMeta::new(m.pubkey.to_bytes(), m.is_signer, m.is_writable),
    ).collect();
    Instruction { program_id: ix.program_id.to_bytes(), accounts, data: ix.data }
}

} // verus!
