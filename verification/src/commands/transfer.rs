//! Preparing a confidential transfer. The transfer itself is not carried
//! out: the proofs that it needs are not built here. Its inputs are
//! validated, and then it is refused.
use crate::account::ConfidentialAccountState;
use crate::bytes::bytes_equal;
use crate::crypto::{try_derive_aes_key, derived_ae_key, SigningKey};
use crate::error::Error;
use crate::instruction::Address;
use crate::transaction::TransactionPlan;
use crate::utils::{amount_hi, amount_lo, split_amount, MAX_TRANSFER_AMOUNT};
use vstd::prelude::*;

verus! {

/// What a transfer would do to the sender, had it been carried out.
#[derive(Clone, Copy, Debug, PartialEq, Eq, Structural)]
pub struct TransferPreview {
    /// The sender's available balance.
    pub available: u64,
    /// The low 16 bits of the amount.
    pub amount_lo: u16,
    /// The 32 bits of the amount above them.
    pub amount_hi: u32,
    /// What would remain with the sender.
    pub new_source_balance: u64,
}

/// What validating an amount against a balance gives: an amount of more
/// than 48 bits is out of range; a balance that is smaller than the amount
/// is insufficient; else the preview.
pub open spec fn validated(available: u64, amount: u64) -> Result<TransferPreview, Error> {
    if amount > MAX_TRANSFER_AMOUNT {
        Err(Error::AmountOutOfRange)
    } else if amount > available {
        Err(Error::InsufficientBalance)
    } else {
        Ok(
            TransferPreview {
                available,
                amount_lo: amount_lo(amount),
                amount_hi: amount_hi(amount) as u32,
                new_source_balance: (available - amount) as u64,
            },
        )
    }
}

/// What preparing a transfer gives, in the order in which it is decided:
/// the two accounts must belong to the same mint, which is checked before
/// any key is used; the amount must fit in 48 bits; the signing key must
/// give an authenticated key; the sender's balance must be readable and
/// cover the amount.
pub open spec fn prepared(
    signer: Seq<u8>,
    from_mint: Seq<u8>,
    to_mint: Seq<u8>,
    source: ConfidentialAccountState,
    amount: u64,
) -> Result<TransferPreview, Error> {
    if from_mint != to_mint {
        Err(Error::MintMismatch)
    } else if amount > MAX_TRANSFER_AMOUNT {
        Err(Error::AmountOutOfRange)
    } else {
        match derived_ae_key(signer) {
            None => Err(Error::KeypairIo),
            Some(key) => match source.available_under(key) {
                Err(e) => Err(e),
                Ok(available) => validated(available, amount),
            },
        }
    }
}

/// Checks that the two ends of a transfer belong to the same mint.
pub fn check_mints(from_mint: &Address, to_mint: &Address) -> (same: Result<(), Error>)
    ensures
        same == if from_mint.bytes@ == to_mint.bytes@ {
            Ok::<(), Error>(())
        } else {
            Err::<(), Error>(Error::MintMismatch)
        },
{
    if bytes_equal(from_mint.bytes.as_slice(), to_mint.bytes.as_slice()) {
        Ok(())
    } else {
        Err(Error::MintMismatch)
    }
}

/// Validates an amount against the sender's available balance.
pub fn validate(available: u64, amount: u64) -> (preview: Result<TransferPreview, Error>)
    ensures
        preview == validated(available, amount),
{
    if amount > MAX_TRANSFER_AMOUNT {
        return Err(Error::AmountOutOfRange);
    }
    if amount > available {
        return Err(Error::InsufficientBalance);
    }
    let (lo, hi) = split_amount(amount);
    Ok(
        TransferPreview {
            available,
            amount_lo: lo,
            amount_hi: hi as u32,
            new_source_balance: available - amount,
        },
    )
}

/// Validates a transfer of `amount` from an account of `from_mint` with
/// confidential state `source` to an account of `to_mint`, by the sender
/// `signer`.
pub fn prepare(
    signer: &SigningKey,
    from_mint: &Address,
    to_mint: &Address,
    source: &ConfidentialAccountState,
    amount: u64,
) -> (preview: Result<TransferPreview, Error>)
    ensures
        preview == prepared(signer.bytes@, from_mint.bytes@, to_mint.bytes@, *source, amount),
        from_mint.bytes@ != to_mint.bytes@ ==> preview == Err::<TransferPreview, Error>(
            Error::MintMismatch,
        ),
{
    match check_mints(from_mint, to_mint) {
        Ok(()) => {},
        Err(e) => {
            return Err(e);
        },
    }
    if amount > MAX_TRANSFER_AMOUNT {
        return Err(Error::AmountOutOfRange);
    }
    let key = match try_derive_aes_key(signer) {
        Ok(key) => key,
        Err(e) => {
            return Err(e);
        },
    };
    let available = match source.available(&key) {
        Ok(available) => available,
        Err(e) => {
            return Err(e);
        },
    };
    validate(available, amount)
}

/// Plans a confidential transfer: never. A transfer whose inputs are in
/// order is refused as unsupported; one whose inputs are not is refused
/// with what is wrong with them.
pub fn plan(
    signer: &SigningKey,
    from_mint: &Address,
    to_mint: &Address,
    source: &ConfidentialAccountState,
    amount: u64,
) -> (plan: Result<TransactionPlan, Error>)
    ensures
        plan is Err,
        match prepared(signer.bytes@, from_mint.bytes@, to_mint.bytes@, *source, amount) {
            Ok(_) => plan == Err::<TransactionPlan, Error>(Error::UnsupportedOperation),
            Err(e) => plan == Err::<TransactionPlan, Error>(e),
        },
{
    match prepare(signer, from_mint, to_mint, source, amount) {
        Ok(_) => Err(Error::UnsupportedOperation),
        Err(e) => Err(e),
    }
}

/// The limit of a transfer amount lies between 2^48 - 1 and 2^48: the
/// first is in range for every balance that covers it, the second is out of
/// range whatever the balance.
pub proof fn lemma_amount_limit(available: u64)
    ensures
        validated(available, 0x1_0000_0000_0000) == Err::<TransferPreview, Error>(
            Error::AmountOutOfRange,
        ),
        available >= 0xFFFF_FFFF_FFFF ==> validated(available, 0xFFFF_FFFF_FFFF) is Ok,
{
}

} // verus!
