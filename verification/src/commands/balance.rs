//! Reporting the confidential balances of an account.
use crate::account::ConfidentialAccountState;
use crate::crypto::{
    try_derive_aes_key, try_derive_elgamal_keypair, derived_ae_key, derived_elgamal_keypair, SigningKey,
};
use crate::error::Error;
use vstd::prelude::*;

verus! {

/// What the owner of an account sees of its confidential state.
#[derive(Clone, Copy, Debug, PartialEq, Eq)]
pub struct BalanceReport {
    /// Whether the account is approved for confidential operations.
    pub approved: bool,
    /// The homomorphic public key that the account is bound to.
    pub elgamal_pubkey: [u8; 32],
    /// The spendable balance.
    pub available: u64,
    /// What was credited and not yet applied.
    pub pending: u64,
    /// Both together.
    pub total: u64,
    /// How many credits the pending balance holds.
    pub credit_counter: u64,
    /// How many it may hold.
    pub maximum_credit_counter: u64,
    /// Whether there is a pending balance to apply.
    pub apply_needed: bool,
    /// Whether the credit counter has passed half of its maximum.
    pub counter_warning: bool,
}

/// The report on `state` for balances `available` and `pending`. The two
/// together must fit in 64 bits, as they do in every account of a token
/// with a 64-bit supply; else the account is malformed.
pub open spec fn reported(
    state: ConfidentialAccountState,
    available: u64,
    pending: u64,
) -> Result<BalanceReport, Error> {
    if available + pending > u64::MAX {
        Err(Error::MalformedAccount)
    } else {
        Ok(
            BalanceReport {
                approved: state.approved,
                elgamal_pubkey: state.elgamal_pubkey,
                available,
                pending,
                total: (available + pending) as u64,
                credit_counter: state.pending_balance_credit_counter,
                maximum_credit_counter: state.maximum_pending_balance_credit_counter,
                apply_needed: pending > 0,
                counter_warning: state.pending_balance_credit_counter
                    > state.maximum_pending_balance_credit_counter / 2,
            },
        )
    }
}

/// The report on `state` as the holder of the two keys reads it. The
/// available balance is read first, then the pending balance.
pub open spec fn reported_state(
    key: Seq<u8>,
    secret: Seq<u8>,
    state: ConfidentialAccountState,
) -> Result<BalanceReport, Error> {
    match state.available_under(key) {
        Err(e) => Err(e),
        Ok(available) => match state.pending_under(secret) {
            Err(e) => Err(e),
            Ok(pending) => reported(state, available, pending),
        },
    }
}

/// Puts the report together from the two balances.
pub fn summarize(state: &ConfidentialAccountState, available: u64, pending: u64) -> (report: Result<
    BalanceReport,
    Error,
>)
    ensures
        report == reported(*state, available, pending),
{
    let total = match available.checked_add(pending) {
        Some(total) => total,
        None => {
            return Err(Error::MalformedAccount);
        },
    };
    Ok(
        BalanceReport {
            approved: state.approved,
            elgamal_pubkey: state.elgamal_pubkey,
            available,
            pending,
            total,
            credit_counter: state.pending_balance_credit_counter,
            maximum_credit_counter: state.maximum_pending_balance_credit_counter,
            apply_needed: pending > 0,
            counter_warning: state.pending_balance_credit_counter
                > state.maximum_pending_balance_credit_counter / 2,
        },
    )
}

/// Reads the balances of `state` with the keys of its owner `signer`.
/// Nothing is submitted. A signing key from which no keys can be derived is
/// a keypair failure; a balance that cannot be read fails with its own
/// kind.
pub fn report(signer: &SigningKey, state: &ConfidentialAccountState) -> (report: Result<
    BalanceReport,
    Error,
>)
    ensures
        match (derived_elgamal_keypair(signer.bytes@), derived_ae_key(signer.bytes@)) {
            (Some(keys), Some(key)) => report == reported_state(key, keys.1, *state),
            _ => report == Err::<BalanceReport, Error>(Error::KeypairIo),
        },
{
    let keys = match try_derive_elgamal_keypair(signer) {
        Ok(keys) => keys,
        Err(e) => {
            return Err(e);
        },
    };
    let key = match try_derive_aes_key(signer) {
        Ok(key) => key,
        Err(e) => {
            return Err(e);
        },
    };
    let available = match state.available(&key) {
        Ok(available) => available,
        Err(e) => {
            return Err(e);
        },
    };
    let pending = match state.pending(&keys.secret) {
        Ok(pending) => pending,
        Err(e) => {
            return Err(e);
        },
    };
    summarize(state, available, pending)
}

} // verus!
