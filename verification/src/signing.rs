//! Compiling a plan into a transaction and signing it.
//!
//! The transaction is built and signed by outside code. Both steps are
//! functions of their arguments: the compiler orders the keys by value, and
//! the signature scheme is deterministic. So the message and the signatures
//! that come back are named, and the transaction is handed on beside them.
//! What is decided here is whether the call is made: a plan that names too
//! many keys for the outside compiler, or keys that are not those of the
//! plan's signers, is refused before it.
use crate::bytes::bytes_equal;
use crate::crypto::SigningKey;
use crate::instruction::{Address, Instruction, InstructionView};
use crate::transaction::{steps, TransactionPlan};
use solana_sdk::instruction::{AccountMeta as ChainMeta, Instruction as ChainInstruction};
use solana_sdk::signature::Keypair;
use solana_sdk::transaction::Transaction;
use vstd::prelude::*;

verus! {

#[verifier::external_type_specification]
#[verifier::external_body]
pub struct ExTransaction(Transaction);

/// The most keys that the instructions of a transaction and its fee payer
/// may name, counted with repetitions: the compiler counts the distinct
/// ones in a byte.
pub const MAX_KEY_SLOTS: usize = 255;

/// The most bytes that the data of one instruction may have: the message
/// writes its length in 16 bits.
pub const MAX_INSTRUCTION_DATA: usize = 65_535;

/// Why a plan was not signed.
#[derive(Clone, Copy, Debug, PartialEq, Eq, Structural)]
pub enum SigningFault {
    /// The plan names more keys than a transaction can hold.
    TooManyKeys,
    /// An instruction of the plan has more data than a message can hold.
    DataTooLong,
    /// The signing keys are not those of the plan's signers, in order.
    WrongKeys,
    /// The signing code refused the keys or the plan.
    Refused,
}

/// How many keys the first `count` instructions name, counted with
/// repetitions: each instruction its program and its accounts.
pub open spec fn key_slots(instructions: Seq<Instruction>, count: nat) -> nat
    decreases count,
{
    if count == 0 {
        0
    } else {
        key_slots(instructions, (count - 1) as nat) + 1 + instructions[count
            - 1].accounts@.len()
    }
}

/// Whether a plan's keys fit in a transaction: the fee payer and every key
/// that an instruction names, counted with repetitions.
pub open spec fn fits(instructions: Seq<Instruction>) -> bool {
    1 + key_slots(instructions, instructions.len()) <= MAX_KEY_SLOTS
}

/// Whether the data of every instruction fits in a message.
pub open spec fn data_fits(instructions: Seq<Instruction>) -> bool {
    forall|i: int|
        0 <= i < instructions.len() ==> (#[trigger] instructions[i]).data@.len()
            <= MAX_INSTRUCTION_DATA
}

/// Whether `keys` are the signing keys of `signers`, in order: the public
/// half of each key is the signer's address.
pub open spec fn keys_match(signers: Seq<Address>, keys: Seq<SigningKey>) -> bool {
    &&& signers.len() == keys.len()
    &&& forall|k: int|
        0 <= k < signers.len() ==> (#[trigger] signers[k]).bytes@ == keys[k].bytes@.subrange(32, 64)
}

/// A signed transaction: the outside value, and beside it the bytes of the
/// message that was signed and the signatures, one for each signer in the
/// order of the message's keys.
pub struct SignedTransaction {
    /// The transaction, as the sending code takes it.
    pub transaction: Transaction,
    /// The serialised message.
    pub message: Vec<u8>,
    /// The signatures.
    pub signatures: Vec<[u8; 64]>,
}

/// The serialised message and the signatures of the transaction that
/// `Transaction::new_with_payer` compiles from the instructions and the fee
/// payer and that `Transaction::try_sign` signs with the keys under the
/// block hash; `None` where a key is no keypair or the signing is refused.
pub uninterp spec fn signed_form(
    instructions: Seq<InstructionView>,
    fee_payer: Seq<u8>,
    keys: Seq<Seq<u8>>,
    blockhash: Seq<u8>,
) -> Option<(Seq<u8>, Seq<Seq<u8>>)>;

/// The bytes of each of a list of signing keys.
pub open spec fn key_bytes(keys: Seq<SigningKey>) -> Seq<Seq<u8>> {
    keys.map_values(|key: SigningKey| key.bytes@)
}

/// The bytes of each of a list of signatures.
pub open spec fn signature_bytes(signatures: Seq<[u8; 64]>) -> Seq<Seq<u8>> {
    signatures.map_values(|signature: [u8; 64]| signature@)
}

/// Calls `Transaction::new_with_payer` on the instructions, each handed
/// over field by field, and then `Transaction::try_sign` with the keypairs
/// that `Keypair::try_from` reads; hands out the transaction with what
/// `message_data` and its `signatures` hold. The compiler panics where it
/// counts more than 255 distinct keys of one class: lists that name more
/// keys than that, repetitions counted, are left out. The signing panics
/// where the message cannot be serialised, which is where a list is longer
/// than 16 bits can say: the keys, the instructions and the accounts of
/// each are within that by the bound on the keys, and lists with an
/// instruction of more than 65,535 data bytes are left out.
#[verifier::external_body]
fn compile_and_sign(
    instructions: &Vec<Instruction>,
    payer: [u8; 32],
    keys: &Vec<SigningKey>,
    blockhash: [u8; 32],
) -> (signed: Option<(Vec<u8>, Vec<[u8; 64]>, Transaction)>)
    requires
        fits(instructions@),
        data_fits(instructions@),
    ensures
        match signed_form(steps(instructions@), payer@, key_bytes(keys@), blockhash@) {
            Some(form) => signed matches Some(s) && s.0@ == form.0 && signature_bytes(s.1@)
                == form.1,
            None => signed is None,
        },
{
    let mut signed = Transaction::new_with_payer(
        &Vec::from_iter(instructions.iter().map(|ix| ChainInstruction::new_with_bytes(
            ix.program_id.into(),
            &ix.data,
            ix.accounts.iter().map(|m| ChainMeta {
                pubkey: m.pubkey.into(), is_signer: m.is_signer, is_writable: m.is_writable
            }).collect()
        ))),
        Some(&payer.into())
    );
    let keys = keys.iter().map(|k| Keypair::try_from(k.bytes.as_slice()).ok());
    signed.try_sign(&Option::<Vec<_>>::from_iter(keys)?, blockhash.into()).ok()?;
    Some((signed.message_data(), signed.signatures.iter().copied().map(Into::into).collect(), signed))
}

/// Counts the keys that the instructions name, with repetitions, as far as
/// the count stays within the limit.
fn count_key_slots(instructions: &Vec<Instruction>) -> (slots: Option<usize>)
    ensures
        match slots {
            Some(n) => n == key_slots(instructions@, instructions@.len()) && n < MAX_KEY_SLOTS,
            None => key_slots(instructions@, instructions@.len()) >= MAX_KEY_SLOTS,
        },
{
    let mut slots: usize = 0;
    let mut i: usize = 0;
    while i < instructions.len()
        invariant
            i <= instructions@.len(),
            slots == key_slots(instructions@, i as nat),
            slots < MAX_KEY_SLOTS,
        decreases instructions@.len() - i,
    {
        let named = instructions[i].accounts.len();
        if named >= MAX_KEY_SLOTS - slots - 1 {
            proof {
                lemma_key_slots_grow(instructions@, (i + 1) as nat, instructions@.len());
            }
            return None;
        }
        slots = slots + 1 + named;
        i = i + 1;
    }
    Some(slots)
}

proof fn lemma_key_slots_grow(instructions: Seq<Instruction>, fewer: nat, more: nat)
    requires
        fewer <= more,
    ensures
        key_slots(instructions, fewer) <= key_slots(instructions, more),
    decreases more,
{
    if fewer < more {
        lemma_key_slots_grow(instructions, fewer, (more - 1) as nat);
    }
}

/// Whether the data of every instruction fits in a message.
fn check_data(instructions: &Vec<Instruction>) -> (fitting: bool)
    ensures
        fitting == data_fits(instructions@),
{
    let mut i: usize = 0;
    while i < instructions.len()
        invariant
            i <= instructions@.len(),
            forall|m: int|
                0 <= m < i ==> (#[trigger] instructions@[m]).data@.len() <= MAX_INSTRUCTION_DATA,
        decreases instructions@.len() - i,
    {
        if instructions[i].data.len() > MAX_INSTRUCTION_DATA {
            return false;
        }
        i = i + 1;
    }
    true
}

/// Whether `keys` are the signing keys of `signers`, in order.
fn check_keys(signers: &Vec<Address>, keys: &Vec<SigningKey>) -> (matching: bool)
    ensures
        matching == keys_match(signers@, keys@),
{
    if signers.len() != keys.len() {
        return false;
    }
    let mut k: usize = 0;
    while k < signers.len()
        invariant
            k <= signers@.len(),
            signers@.len() == keys@.len(),
            forall|m: int|
                0 <= m < k ==> (#[trigger] signers@[m]).bytes@ == keys@[m].bytes@.subrange(32, 64),
        decreases signers@.len() - k,
    {
        let address = keys[k].address();
        if !bytes_equal(signers[k].bytes.as_slice(), address.bytes.as_slice()) {
            return false;
        }
        k = k + 1;
    }
    true
}

/// Whether one of `available` is the signing key of `address`.
pub open spec fn has_key(available: Seq<SigningKey>, address: Seq<u8>) -> bool {
    exists|j: int|
        0 <= j < available.len() && (#[trigger] available[j]).bytes@.subrange(32, 64) == address
}

/// Looks among `available` for the signing key of `address`: the first one
/// whose public half is the address.
fn find_key(available: &Vec<SigningKey>, address: &Address) -> (found: Option<SigningKey>)
    ensures
        match found {
            Some(key) => key.bytes@.subrange(32, 64) == address.bytes@ && exists|j: int|
                0 <= j < available@.len() && available@[j] == key,
            None => !has_key(available@, address.bytes@),
        },
{
    let mut j: usize = 0;
    while j < available.len()
        invariant
            j <= available@.len(),
            forall|m: int|
                0 <= m < j ==> (#[trigger] available@[m]).bytes@.subrange(32, 64)
                    != address.bytes@,
        decreases available@.len() - j,
    {
        let candidate = available[j].address();
        if bytes_equal(candidate.bytes.as_slice(), address.bytes.as_slice()) {
            return Some(available[j]);
        }
        j = j + 1;
    }
    None
}

/// Picks, among `available`, the signing keys of `signers`, in the order of
/// `signers`; `None` where a signer has no key among them.
pub fn select_keys(signers: &Vec<Address>, available: &Vec<SigningKey>) -> (keys: Option<
    Vec<SigningKey>,
>)
    ensures
        match keys {
            Some(keys) => keys_match(signers@, keys@) && forall|k: int|
                0 <= k < signers@.len() ==> has_key(available@, (#[trigger] signers@[k]).bytes@),
            None => exists|k: int|
                0 <= k < signers@.len() && !has_key(available@, (#[trigger] signers@[k]).bytes@),
        },
{
    let mut keys: Vec<SigningKey> = Vec::new();
    let mut k: usize = 0;
    while k < signers.len()
        invariant
            k <= signers@.len(),
            keys@.len() == k,
            forall|m: int|
                0 <= m < k ==> (#[trigger] signers@[m]).bytes@ == keys@[m].bytes@.subrange(32, 64),
            forall|m: int| 0 <= m < k ==> has_key(available@, (#[trigger] signers@[m]).bytes@),
        decreases signers@.len() - k,
    {
        match find_key(available, &signers[k]) {
            Some(key) => {
                proof {
                    let j = choose|j: int| 0 <= j < available@.len() && available@[j] == key;
                    assert(available@[j].bytes@.subrange(32, 64) == signers@[k as int].bytes@);
                }
                keys.push(key);
            },
            None => {
                return None;
            },
        }
        k = k + 1;
    }
    Some(keys)
}

/// What signing a plan gives: a plan that names too many keys is refused
/// first, then one with an instruction whose data is too long, then keys
/// that are not those of the plan's signers; for every other plan the
/// transaction with the message and the signatures that the signing code
/// computes, or a refusal where it computes none.
pub open spec fn is_signed(
    plan: TransactionPlan,
    keys: Seq<SigningKey>,
    blockhash: Seq<u8>,
    signed: Result<SignedTransaction, SigningFault>,
) -> bool {
    if !fits(plan.instructions@) {
        signed matches Err(fault) && fault == SigningFault::TooManyKeys
    } else if !data_fits(plan.instructions@) {
        signed matches Err(fault) && fault == SigningFault::DataTooLong
    } else if !keys_match(plan.signers@, keys) {
        signed matches Err(fault) && fault == SigningFault::WrongKeys
    } else {
        match signed_form(
            steps(plan.instructions@),
            plan.fee_payer.bytes@,
            key_bytes(keys),
            blockhash,
        ) {
            Some(form) => signed matches Ok(s) && s.message@ == form.0 && signature_bytes(
                s.signatures@,
            ) == form.1,
            None => signed matches Err(fault) && fault == SigningFault::Refused,
        }
    }
}

/// Compiles the instructions of a plan into a transaction that `blockhash`
/// makes current, and signs it with `keys`, which must be the signing keys
/// of the plan's signers in the plan's order.
pub fn sign(plan: &TransactionPlan, keys: &Vec<SigningKey>, blockhash: &[u8; 32]) -> (signed: Result<
    SignedTransaction,
    SigningFault,
>)
    ensures
        is_signed(*plan, keys@, blockhash@, signed),
{
    if count_key_slots(&plan.instructions).is_none() {
        return Err(SigningFault::TooManyKeys);
    }
    if !check_data(&plan.instructions) {
        return Err(SigningFault::DataTooLong);
    }
    if !check_keys(&plan.signers, keys) {
        return Err(SigningFault::WrongKeys);
    }
    match compile_and_sign(&plan.instructions, plan.fee_payer.bytes, keys, *blockhash) {
        Some((message, signatures, transaction)) => Ok(
            SignedTransaction { transaction, message, signatures },
        ),
        None => Err(SigningFault::Refused),
    }
}

} // verus!
