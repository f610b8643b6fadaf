//! Folding the pending balance into the available balance.
use crate::account::ConfidentialAccountState;
use crate::commands::{follows_recipe, Operation};
use crate::crypto::{
    decrypted_balance, try_derive_aes_key, try_derive_elgamal_keypair, derived_ae_key,
    derived_elgamal_keypair, encrypt_balance_ak, AkCipher, SigningKey,
};
use crate::error::Error;
use crate::instruction::{
    apply_pending_balance_instruction, pending_balance_application, Address, Instruction,
};
use crate::transaction::{assemble, steps, ProofReference, TransactionPlan};
use vstd::prelude::*;

verus! {

/// A planned application of the pending balance, with what went into it.
#[derive(Clone, Debug, PartialEq, Eq)]
pub struct Application {
    /// The transaction.
    pub plan: TransactionPlan,
    /// The available balance before the application.
    pub available: u64,
    /// The pending balance that is applied.
    pub pending: u64,
    /// The available balance after the application.
    pub new_available: u64,
    /// The balance after the application under the authenticated key.
    pub new_decryptable_available_balance: AkCipher,
}

/// What applying a pending balance comes to.
#[derive(Clone, Debug, PartialEq, Eq)]
pub enum Outcome {
    /// The pending balance is zero: there is nothing to submit.
    NothingPending { available: u64 },
    /// The pending balance is to be applied.
    Apply(Application),
}

/// The available balance that results from applying `pending`: nothing
/// where there is nothing pending; a malformed account where the two
/// balances together do not fit in 64 bits, which no account of a token
/// with a 64-bit supply can hold.
pub open spec fn applied(available: u64, pending: u64) -> Result<Option<u64>, Error> {
    if pending == 0 {
        Ok(None)
    } else if available + pending > u64::MAX {
        Err(Error::MalformedAccount)
    } else {
        Ok(Some((available + pending) as u64))
    }
}

/// The available balance that results from applying the pending balance of
/// `state`, as the holder of the two keys reads them. The available balance
/// is read first, then the pending balance.
pub open spec fn applied_state(
    key: Seq<u8>,
    secret: Seq<u8>,
    state: ConfidentialAccountState,
) -> Result<Option<u64>, Error> {
    match state.available_under(key) {
        Err(e) => Err(e),
        Ok(available) => match state.pending_under(secret) {
            Err(e) => Err(e),
            Ok(pending) => applied(available, pending),
        },
    }
}

/// Decides what applying `pending` to `available` comes to.
pub fn apply_pending(available: u64, pending: u64) -> (sum: Result<Option<u64>, Error>)
    ensures
        sum == applied(available, pending),
{
    if pending == 0 {
        return Ok(None);
    }
    match available.checked_add(pending) {
        Some(sum) => Ok(Some(sum)),
        None => Err(Error::MalformedAccount),
    }
}

/// Lays out the transaction that applies the pending balance: the one
/// instruction, which carries the credit counter that the account had when
/// it was read, so that a credit that arrives in between is not lost, and
/// the new available balance under the authenticated key. `payer` pays the
/// fee and authorises as the owner of the account. No proof is involved.
pub fn recipe(
    payer: &Address,
    account: &Address,
    expected_pending_balance_credit_counter: u64,
    new_decryptable_available_balance: &AkCipher,
) -> (plan: TransactionPlan)
    ensures
        steps(plan.instructions@) == seq![
            apply_pending_balance_instruction(
                account.bytes@,
                expected_pending_balance_credit_counter,
                new_decryptable_available_balance.bytes@,
                payer.bytes@,
            ),
        ],
        plan.action == 0,
        plan.references@.len() == 0,
        plan.fee_payer == *payer,
        plan.well_formed(),
        follows_recipe(plan, Operation::ApplyBalance),
{
    let mut instructions: Vec<Instruction> = Vec::new();
    instructions.push(
        pending_balance_application(
            account,
            expected_pending_balance_credit_counter,
            new_decryptable_available_balance,
            payer,
        ),
    );
    let references: Vec<ProofReference> = Vec::new();
    match assemble(*payer, instructions, 0, references) {
        Ok(plan) => plan,
        Err(_) => {
            assert(false);
            vstd::pervasive::unreached()
        },
    }
}

/// Plans the application of the pending balance of the account at
/// `account`, whose confidential state is `state`, by its owner `signer`.
///
/// Both balances are read with the owner's keys. Where nothing is pending,
/// nothing is planned: applying twice in a row submits once. Otherwise the
/// sum is encrypted under the authenticated key and the one instruction is
/// planned with the account's credit counter.
///
/// A signing key from which no keys can be derived is a keypair failure; a
/// balance that cannot be read fails with its own kind.
pub fn plan(signer: &SigningKey, account: &Address, state: &ConfidentialAccountState) -> (outcome:
    Result<Outcome, Error>)
    ensures
        match (derived_elgamal_keypair(signer.bytes@), derived_ae_key(signer.bytes@)) {
            (Some(keys), Some(key)) => match applied_state(key, keys.1, *state) {
                Err(e) => outcome == Err::<Outcome, Error>(e),
                Ok(None) => outcome matches Ok(Outcome::NothingPending { available })
                    && state.available_under(key) == Ok::<u64, Error>(available),
                Ok(Some(sum)) => {
                    &&& outcome matches Ok(Outcome::Apply(a))
                    &&& state.available_under(key) == Ok::<u64, Error>(a.available)
                    &&& state.pending_under(keys.1) == Ok::<u64, Error>(a.pending)
                    &&& a.pending > 0
                    &&& a.new_available == sum
                    &&& sum == a.available + a.pending
                    &&& decrypted_balance(key, a.new_decryptable_available_balance.bytes@) == Ok::<
                        u64,
                        Error,
                    >(sum)
                    &&& steps(a.plan.instructions@) == seq![
                        apply_pending_balance_instruction(
                            account.bytes@,
                            state.pending_balance_credit_counter,
                            a.new_decryptable_available_balance.bytes@,
                            signer.bytes@.subrange(32, 64),
                        ),
                    ]
                    &&& a.plan.action == 0
                    &&& a.plan.references@.len() == 0
                    &&& a.plan.fee_payer.bytes@ == signer.bytes@.subrange(32, 64)
                    &&& a.plan.well_formed()
                    &&& follows_recipe(a.plan, Operation::ApplyBalance)
                },
            },
            _ => outcome == Err::<Outcome, Error>(Error::KeypairIo),
        },
{
    let keys = match try_derive_elgamal_keypair(signer) {
        Ok(keys) => keys,
        Err(e) => {
            return Err(e);
        },
    };
    let key = match try_derive_aes_key(signer) {
        Ok(key) => key,
        Err(e) => {
            return Err(e);
        },
    };
    let available = match state.available(&key) {
        Ok(available) => available,
        Err(e) => {
            return Err(e);
        },
    };
    let pending = match state.pending(&keys.secret) {
        Ok(pending) => pending,
        Err(e) => {
            return Err(e);
        },
    };
    let new_available = match apply_pending(available, pending) {
        Ok(Some(sum)) => sum,
        Ok(None) => {
            return Ok(Outcome::NothingPending { available });
        },
        Err(e) => {
            return Err(e);
        },
    };
    let new_decryptable_available_balance = encrypt_balance_ak(&key, new_available);
    let payer = signer.address();
    let plan = recipe(
        &payer,
        account,
        state.pending_balance_credit_counter,
        &new_decryptable_available_balance,
    );
    let application = Application {
        plan,
        available,
        pending,
        new_available,
        new_decryptable_available_balance,
    };
    Ok(Outcome::Apply(application))
}

/// Applying is idempotent for the client: where the pending balance of a
/// state reads as zero, as it does once an application has gone through,
/// nothing is to be applied, whatever the available balance is.
pub proof fn lemma_nothing_pending_nothing_applied(available: u64)
    ensures
        applied(available, 0) == Ok::<Option<u64>, Error>(None),
{
}

} // verus!
