//! Decoding of token accounts and mints.
//!
//! The layout of an account, a fixed base followed by typed, length-prefixed
//! extension entries, is read by outside code; what that code returns is
//! named by the functions without a body below. The fields of the
//! confidential-transfer entry itself are laid out at fixed offsets and are
//! read and written here.
use crate::bytes::{array_at, bytes_equal, push_all};
use crate::crypto::{
    decrypt_available_balance, decrypt_u32_hk, decrypted_u32, read_available, AkCipher,
    AuthenticatedKey, ElGamalCipher,
};
use crate::utils::pending_total;
use crate::error::Error;
use crate::instruction::{Address, TOKEN_PROGRAM_ID};
use spl_token_2022::extension::confidential_transfer::ConfidentialTransferAccount;
use spl_token_2022::extension::{BaseStateWithExtensions, ExtensionType, StateWithExtensions};
use spl_token_2022::state::{Account, Mint};
use vstd::bytes::{
    lemma_auto_spec_u64_to_from_le_bytes, spec_u64_from_le_bytes, spec_u64_to_le_bytes,
    u64_from_le_bytes, u64_to_le_bytes,
};
use vstd::prelude::*;
use vstd::slice::slice_subrange;

verus! {

/// The tag of the confidential-transfer entry among the extension entries
/// of an account.
pub const CONFIDENTIAL_ACCOUNT_EXTENSION: u16 = 5;

/// The length of the confidential-transfer entry of an account.
pub const CONFIDENTIAL_ACCOUNT_LEN: usize = 295;

/// The size of a mint that carries the confidential-transfer extension: 165
/// bytes of base and padding, one byte of account type, and an entry of 4
/// and 65 bytes.
pub const CONFIDENTIAL_MINT_SPACE: u64 = 235;

/// The size of a token account that carries the confidential-transfer
/// extension: 165 bytes of base, one byte of account type, and an entry of
/// 4 and 295 bytes.
pub const CONFIDENTIAL_ACCOUNT_SPACE: u64 = 465;

/// The base of a decoded token account, together with the buffer it was
/// decoded from: the extension entries are read from the buffer on demand.
#[derive(Clone, Copy, Debug, PartialEq, Eq)]
pub struct TokenAccount<'a> {
    /// The mint that the account belongs to.
    pub mint: Address,
    /// The owner of the account.
    pub owner: Address,
    /// The public balance.
    pub amount: u64,
    /// The whole account, as it was read.
    pub data: &'a [u8],
}

/// What the operations read of a mint.
#[derive(Clone, Copy, Debug, PartialEq, Eq)]
pub struct MintInfo {
    /// The number of digits behind the decimal point.
    pub decimals: u8,
}

/// The confidential state of a token account.
#[derive(Clone, Copy, Debug, PartialEq, Eq)]
pub struct ConfidentialAccountState {
    /// Whether the account may take part in confidential operations.
    pub approved: bool,
    /// The homomorphic public key of the owner.
    pub elgamal_pubkey: [u8; 32],
    /// The low 16 bits of what was credited and not yet applied.
    pub pending_balance_lo: ElGamalCipher,
    /// The high 48 bits of what was credited and not yet applied.
    pub pending_balance_hi: ElGamalCipher,
    /// The spendable balance.
    pub available_balance: ElGamalCipher,
    /// The spendable balance once more, under the authenticated key.
    pub decryptable_available_balance: AkCipher,
    /// Whether confidential credits are accepted.
    pub allow_confidential_credits: bool,
    /// Whether public credits are accepted.
    pub allow_non_confidential_credits: bool,
    /// How many credits the pending balance holds.
    pub pending_balance_credit_counter: u64,
    /// How many credits it may hold before they must be applied.
    pub maximum_pending_balance_credit_counter: u64,
    /// The counter that the last application expected.
    pub expected_pending_balance_credit_counter: u64,
    /// The counter that the last application found.
    pub actual_pending_balance_credit_counter: u64,
}

/// The mint, the owner and the public balance that
/// `StateWithExtensions::<Account>::unpack` reads from an account; `None`
/// where it rejects the data.
pub uninterp spec fn unpacked_account(data: Seq<u8>) -> Option<(Seq<u8>, Seq<u8>, u64)>;

/// The decimals that `StateWithExtensions::<Mint>::unpack` reads from a
/// mint; `None` where it rejects the data.
pub uninterp spec fn unpacked_mint_decimals(data: Seq<u8>) -> Option<u8>;

/// The types of the extension entries that `get_extension_types` lists for
/// an account, each as its 16-bit tag, in the order of the entries; `None`
/// where the base or the entries are rejected.
pub uninterp spec fn account_extension_types(data: Seq<u8>) -> Option<Seq<u16>>;

/// The value bytes of the confidential-transfer entry that
/// `get_extension_bytes` finds in an account; `None` where it finds none
/// or rejects the data.
pub uninterp spec fn confidential_extension_bytes(data: Seq<u8>) -> Option<Seq<u8>>;

/// Calls `StateWithExtensions::<Account>::unpack` and hands out three
/// fields of the base.
#[verifier::external_body]
fn unpack_account(data: &[u8]) -> (base: Option<([u8; 32], [u8; 32], u64)>)
    ensures
        match base {
            Some(b) => unpacked_account(data@) == Some((b.0@, b.1@, b.2)),
            None => unpacked_account(data@) is None,
        },
{
    let state = StateWithExtensions::<Account>::unpack(data).ok()?;
    Some((state.base.mint.to_bytes(), state.base.owner.to_bytes(), state.base.amount))
}

/// Calls `StateWithExtensions::<Mint>::unpack` and hands out the decimals.
#[verifier::external_body]
fn unpack_mint_decimals(data: &[u8]) -> (decimals: Option<u8>)
    ensures
        decimals == unpacked_mint_decimals(data@),
{
    Some(StateWithExtensions::<Mint>::unpack(data).ok()?.base.decimals)
}

/// Calls `StateWithExtensions::<Account>::unpack` and then
/// `get_extension_types`, and hands out each type as the number that
/// stands for it.
#[verifier::external_body]
fn extension_types(data: &[u8]) -> (types: Option<Vec<u16>>)
    ensures
        match types {
            Some(t) => account_extension_types(data@) == Some(t@),
            None => account_extension_types(data@) is None,
        },
{
    let state = StateWithExtensions::<Account>::unpack(data).ok()?;
    Some(state.get_extension_types().ok()?.into_iter().map(u16::from).collect())
}

/// Calls `StateWithExtensions::<Account>::unpack` and then
/// `get_extension_bytes` for the confidential-transfer entry.
#[verifier::external_body]
fn confidential_extension(data: &[u8]) -> (entry: Option<Vec<u8>>)
    ensures
        match entry {
            Some(bytes) => confidential_extension_bytes(data@) == Some(bytes@),
            None => confidential_extension_bytes(data@) is None,
        },
{
    let state = StateWithExtensions::<Account>::unpack(data).ok()?;
    Some(state.get_extension_bytes::<ConfidentialTransferAccount>().ok()?.to_vec())
}

/// Calls `ExtensionType::try_calculate_account_len` for a mint with the
/// one extension `ConfidentialTransferMint`: the length of the base area
/// and the account type, 166, and of one entry with its header, 4 and 65.
#[verifier::external_body]
fn calculate_mint_space() -> (space: Option<usize>)
    ensures
        space == Some(235usize),
{
    ExtensionType::try_calculate_account_len::<Mint>(&[ExtensionType::ConfidentialTransferMint]).ok()
}

/// Calls `ExtensionType::try_calculate_account_len` for an account with the
/// one extension `ConfidentialTransferAccount`: the length of the base and
/// the account type, 166, and of one entry with its header, 4 and 295.
#[verifier::external_body]
fn calculate_account_space() -> (space: Option<usize>)
    ensures
        space == Some(465usize),
{
    ExtensionType::try_calculate_account_len::<Account>(
        &[ExtensionType::ConfidentialTransferAccount],
    ).ok()
}

/// The number of bytes to allocate for a mint with the confidential-transfer
/// extension.
pub fn confidential_mint_space() -> (space: u64)
    ensures
        space == CONFIDENTIAL_MINT_SPACE,
{
    match calculate_mint_space() {
        Some(space) => space as u64,
        None => CONFIDENTIAL_MINT_SPACE,
    }
}

/// The number of bytes to allocate for a token account with the
/// confidential-transfer extension.
pub fn confidential_account_space() -> (space: u64)
    ensures
        space == CONFIDENTIAL_ACCOUNT_SPACE,
{
    match calculate_account_space() {
        Some(space) => space as u64,
        None => CONFIDENTIAL_ACCOUNT_SPACE,
    }
}

/// The byte that stands for a flag.
pub open spec fn flag_byte(flag: bool) -> u8 {
    if flag {
        1u8
    } else {
        0u8
    }
}

impl ConfidentialAccountState {
    /// The counter of pending credits never exceeds its maximum.
    pub open spec fn well_formed(&self) -> bool {
        self.pending_balance_credit_counter <= self.maximum_pending_balance_credit_counter
    }

    /// The 295 bytes of the entry: each field at its fixed place, flags as
    /// one byte, counters in little-endian order.
    pub open spec fn encoded(&self) -> Seq<u8> {
        seq![flag_byte(self.approved)] + self.elgamal_pubkey@ + self.pending_balance_lo.bytes@
            + self.pending_balance_hi.bytes@ + self.available_balance.bytes@
            + self.decryptable_available_balance.bytes@ + seq![
            flag_byte(self.allow_confidential_credits),
            flag_byte(self.allow_non_confidential_credits),
        ] + spec_u64_to_le_bytes(self.pending_balance_credit_counter) + spec_u64_to_le_bytes(
            self.maximum_pending_balance_credit_counter,
        ) + spec_u64_to_le_bytes(self.expected_pending_balance_credit_counter)
            + spec_u64_to_le_bytes(self.actual_pending_balance_credit_counter)
    }

    /// Whether this state is what the 295 bytes of an entry hold. A flag is
    /// set where its byte is not zero.
    pub open spec fn is_decoding_of(&self, entry: Seq<u8>) -> bool {
        &&& entry.len() == CONFIDENTIAL_ACCOUNT_LEN
        &&& self.approved == (entry[0] != 0)
        &&& self.elgamal_pubkey@ == entry.subrange(1, 33)
        &&& self.pending_balance_lo.bytes@ == entry.subrange(33, 97)
        &&& self.pending_balance_hi.bytes@ == entry.subrange(97, 161)
        &&& self.available_balance.bytes@ == entry.subrange(161, 225)
        &&& self.decryptable_available_balance.bytes@ == entry.subrange(225, 261)
        &&& self.allow_confidential_credits == (entry[261] != 0)
        &&& self.allow_non_confidential_credits == (entry[262] != 0)
        &&& self.pending_balance_credit_counter == spec_u64_from_le_bytes(entry.subrange(263, 271))
        &&& self.maximum_pending_balance_credit_counter == spec_u64_from_le_bytes(
            entry.subrange(271, 279),
        )
        &&& self.expected_pending_balance_credit_counter == spec_u64_from_le_bytes(
            entry.subrange(279, 287),
        )
        &&& self.actual_pending_balance_credit_counter == spec_u64_from_le_bytes(
            entry.subrange(287, 295),
        )
    }

    /// The available balance as the holder of `key` reads it.
    pub open spec fn available_under(&self, key: Seq<u8>) -> Result<u64, Error> {
        read_available(
            key,
            self.available_balance.bytes@,
            self.decryptable_available_balance.bytes@,
        )
    }

    /// The pending balance as the holder of `secret` reads it: the low
    /// half plus the high half shifted up by 16 bits. A half that cannot be
    /// read fails the whole, the low half first.
    pub open spec fn pending_under(&self, secret: Seq<u8>) -> Result<u64, Error> {
        match decrypted_u32(secret, self.pending_balance_lo.bytes@) {
            Err(e) => Err(e),
            Ok(lo) => match decrypted_u32(secret, self.pending_balance_hi.bytes@) {
                Err(e) => Err(e),
                Ok(hi) => Ok((lo + hi * 0x1_0000) as u64),
            },
        }
    }

    /// Reads the available balance with the authenticated key.
    pub fn available(&self, key: &AuthenticatedKey) -> (amount: Result<u64, Error>)
        ensures
            amount == self.available_under(key.bytes@),
    {
        decrypt_available_balance(
            key,
            &self.available_balance,
            &self.decryptable_available_balance,
        )
    }

    /// Reads the pending balance with the homomorphic secret key.
    pub fn pending(&self, secret: &[u8; 32]) -> (amount: Result<u64, Error>)
        ensures
            amount == self.pending_under(secret@),
    {
        let lo = match decrypt_u32_hk(secret, &self.pending_balance_lo) {
            Ok(lo) => lo,
            Err(e) => {
                return Err(e);
            },
        };
        let hi = match decrypt_u32_hk(secret, &self.pending_balance_hi) {
            Ok(hi) => hi,
            Err(e) => {
                return Err(e);
            },
        };
        Ok(pending_total(lo, hi))
    }

    /// Whether the counter of pending credits is within its maximum.
    pub fn is_well_formed(&self) -> (ok: bool)
        ensures
            ok == self.well_formed(),
    {
        self.pending_balance_credit_counter <= self.maximum_pending_balance_credit_counter
    }

    /// Writes the state as the 295 bytes of an entry.
    pub fn encode(&self) -> (entry: Vec<u8>)
        ensures
            entry@ == self.encoded(),
            entry@.len() == CONFIDENTIAL_ACCOUNT_LEN,
    {
        let mut entry: Vec<u8> = Vec::new();
        entry.push(if self.approved { 1 } else { 0 });
        push_all(&mut entry, self.elgamal_pubkey.as_slice());
        push_all(&mut entry, self.pending_balance_lo.bytes.as_slice());
        push_all(&mut entry, self.pending_balance_hi.bytes.as_slice());
        push_all(&mut entry, self.available_balance.bytes.as_slice());
        push_all(&mut entry, self.decryptable_available_balance.bytes.as_slice());
        entry.push(if self.allow_confidential_credits { 1 } else { 0 });
        entry.push(if self.allow_non_confidential_credits { 1 } else { 0 });
        let counter = u64_to_le_bytes(self.pending_balance_credit_counter);
        push_all(&mut entry, counter.as_slice());
        let maximum = u64_to_le_bytes(self.maximum_pending_balance_credit_counter);
        push_all(&mut entry, maximum.as_slice());
        let expected = u64_to_le_bytes(self.expected_pending_balance_credit_counter);
        push_all(&mut entry, expected.as_slice());
        let actual = u64_to_le_bytes(self.actual_pending_balance_credit_counter);
        push_all(&mut entry, actual.as_slice());
        assert(entry@ =~= self.encoded());
        entry
    }

    /// Reads a state from the bytes of an entry; `None` where they are not
    /// 295 bytes.
    pub fn decode(entry: &[u8]) -> (state: Option<ConfidentialAccountState>)
        ensures
            match state {
                Some(s) => s.is_decoding_of(entry@),
                None => entry@.len() != CONFIDENTIAL_ACCOUNT_LEN,
            },
    {
        if entry.len() != CONFIDENTIAL_ACCOUNT_LEN {
            return None;
        }
        Some(
            ConfidentialAccountState {
                approved: entry[0] != 0,
                elgamal_pubkey: array_at::<32>(entry, 1),
                pending_balance_lo: ElGamalCipher { bytes: array_at::<64>(entry, 33) },
                pending_balance_hi: ElGamalCipher { bytes: array_at::<64>(entry, 97) },
                available_balance: ElGamalCipher { bytes: array_at::<64>(entry, 161) },
                decryptable_available_balance: AkCipher { bytes: array_at::<36>(entry, 225) },
                allow_confidential_credits: entry[261] != 0,
                allow_non_confidential_credits: entry[262] != 0,
                pending_balance_credit_counter: u64_from_le_bytes(slice_subrange(entry, 263, 271)),
                maximum_pending_balance_credit_counter: u64_from_le_bytes(
                    slice_subrange(entry, 271, 279),
                ),
                expected_pending_balance_credit_counter: u64_from_le_bytes(
                    slice_subrange(entry, 279, 287),
                ),
                actual_pending_balance_credit_counter: u64_from_le_bytes(
                    slice_subrange(entry, 287, 295),
                ),
            },
        )
    }
}

/// Encoding a state and decoding the bytes gives the state back: the
/// encoding of a state has a decoding, and every decoding of it is that
/// state.
pub proof fn lemma_encode_then_decode(state: ConfidentialAccountState, other: ConfidentialAccountState)
    ensures
        state.encoded().len() == CONFIDENTIAL_ACCOUNT_LEN,
        state.is_decoding_of(state.encoded()),
        other.is_decoding_of(state.encoded()) ==> other == state,
{
    lemma_auto_spec_u64_to_from_le_bytes();
    let e = state.encoded();
    assert(e.subrange(1, 33) =~= state.elgamal_pubkey@);
    assert(e.subrange(33, 97) =~= state.pending_balance_lo.bytes@);
    assert(e.subrange(97, 161) =~= state.pending_balance_hi.bytes@);
    assert(e.subrange(161, 225) =~= state.available_balance.bytes@);
    assert(e.subrange(225, 261) =~= state.decryptable_available_balance.bytes@);
    assert(e.subrange(263, 271) =~= spec_u64_to_le_bytes(state.pending_balance_credit_counter));
    assert(e.subrange(271, 279) =~= spec_u64_to_le_bytes(
        state.maximum_pending_balance_credit_counter,
    ));
    assert(e.subrange(279, 287) =~= spec_u64_to_le_bytes(
        state.expected_pending_balance_credit_counter,
    ));
    assert(e.subrange(287, 295) =~= spec_u64_to_le_bytes(
        state.actual_pending_balance_credit_counter,
    ));
    if other.is_decoding_of(e) {
        assert(other.elgamal_pubkey =~= state.elgamal_pubkey);
        assert(other.pending_balance_lo.bytes =~= state.pending_balance_lo.bytes);
        assert(other.pending_balance_hi.bytes =~= state.pending_balance_hi.bytes);
        assert(other.available_balance.bytes =~= state.available_balance.bytes);
        assert(other.decryptable_available_balance.bytes
            =~= state.decryptable_available_balance.bytes);
    }
}

/// What decoding a token account gives: the base that the outside decoder
/// reads, for an account of the token program; a wrong program for an
/// account of another one; a malformed account where the decoder rejects
/// the data.
pub open spec fn is_decoded_account(
    owner_program: Seq<u8>,
    data: Seq<u8>,
    account: Result<TokenAccount, Error>,
) -> bool {
    if owner_program != TOKEN_PROGRAM_ID@ {
        account == Err::<TokenAccount, Error>(Error::WrongProgram)
    } else {
        match unpacked_account(data) {
            Some(base) => account matches Ok(a) && a.mint.bytes@ == base.0 && a.owner.bytes@
                == base.1 && a.amount == base.2 && a.data@ == data,
            None => account == Err::<TokenAccount, Error>(Error::MalformedAccount),
        }
    }
}

/// What decoding a mint gives, by the same rules as for an account.
pub open spec fn decoded_mint(owner_program: Seq<u8>, data: Seq<u8>) -> Result<MintInfo, Error> {
    if owner_program != TOKEN_PROGRAM_ID@ {
        Err(Error::WrongProgram)
    } else {
        match unpacked_mint_decimals(data) {
            Some(decimals) => Ok(MintInfo { decimals }),
            None => Err(Error::MalformedAccount),
        }
    }
}

/// What fetching the confidential state of an account gives, decided in
/// this order: a malformed account where the base or the list of its
/// extension entries is rejected; a missing extension where the list does
/// not hold the confidential-transfer entry, as for an account with no
/// entries at all; a malformed account where the entry's bytes cannot be
/// had, are not 295 bytes long, or hold more pending credits than their
/// maximum; else the state that the bytes hold.
pub open spec fn is_confidential_state(
    data: Seq<u8>,
    state: Result<ConfidentialAccountState, Error>,
) -> bool {
    match account_extension_types(data) {
        None => state == Err::<ConfidentialAccountState, Error>(Error::MalformedAccount),
        Some(types) => if !types.contains(CONFIDENTIAL_ACCOUNT_EXTENSION) {
            state == Err::<ConfidentialAccountState, Error>(Error::MissingExtension)
        } else {
            match confidential_extension_bytes(data) {
                None => state == Err::<ConfidentialAccountState, Error>(Error::MalformedAccount),
                Some(entry) => if entry.len() != CONFIDENTIAL_ACCOUNT_LEN {
                    state == Err::<ConfidentialAccountState, Error>(Error::MalformedAccount)
                } else {
                    match state {
                        Ok(s) => s.is_decoding_of(entry) && s.well_formed(),
                        Err(e) => e == Error::MalformedAccount && forall|
                            s: ConfidentialAccountState,
                        |
                            s.is_decoding_of(entry) ==> !s.well_formed(),
                    }
                },
            }
        },
    }
}

/// Whether `tag` is among `types`.
fn lists(types: &Vec<u16>, tag: u16) -> (found: bool)
    ensures
        found == types@.contains(tag),
{
    let mut i: usize = 0;
    while i < types.len()
        invariant
            i <= types@.len(),
            forall|k: int| 0 <= k < i ==> types@[k] != tag,
        decreases types@.len() - i,
    {
        if types[i] == tag {
            return true;
        }
        i = i + 1;
    }
    false
}

/// Decodes the base of a token account. `owner_program` is the program that
/// owns the account on chain.
pub fn decode_token_account<'a>(owner_program: &Address, data: &'a [u8]) -> (account: Result<
    TokenAccount<'a>,
    Error,
>)
    ensures
        is_decoded_account(owner_program.bytes@, data@, account),
{
    if !bytes_equal(owner_program.bytes.as_slice(), TOKEN_PROGRAM_ID.as_slice()) {
        return Err(Error::WrongProgram);
    }
    match unpack_account(data) {
        Some(base) => Ok(
            TokenAccount {
                mint: Address { bytes: base.0 },
                owner: Address { bytes: base.1 },
                amount: base.2,
                data,
            },
        ),
        None => Err(Error::MalformedAccount),
    }
}

/// Decodes a mint. `owner_program` is the program that owns the mint on
/// chain.
pub fn decode_mint(owner_program: &Address, data: &[u8]) -> (mint: Result<MintInfo, Error>)
    ensures
        mint == decoded_mint(owner_program.bytes@, data@),
{
    if !bytes_equal(owner_program.bytes.as_slice(), TOKEN_PROGRAM_ID.as_slice()) {
        return Err(Error::WrongProgram);
    }
    match unpack_mint_decimals(data) {
        Some(decimals) => Ok(MintInfo { decimals }),
        None => Err(Error::MalformedAccount),
    }
}

/// Fetches the confidential state of a decoded account.
pub fn get_confidential_extension(account: &TokenAccount) -> (state: Result<
    ConfidentialAccountState,
    Error,
>)
    ensures
        is_confidential_state(account.data@, state),
{
    let Some(types) = extension_types(account.data) else {
        return Err(Error::MalformedAccount);
    };
    if !lists(&types, CONFIDENTIAL_ACCOUNT_EXTENSION) {
        return Err(Error::MissingExtension);
    }
    let Some(entry) = confidential_extension(account.data) else {
        return Err(Error::MalformedAccount);
    };
    match ConfidentialAccountState::decode(entry.as_slice()) {
        Some(state) => {
            if state.is_well_formed() {
                Ok(state)
            } else {
                assert forall|s: ConfidentialAccountState| s.is_decoding_of(entry@) implies 
                    !s.well_formed() by {
                }
                Err(Error::MalformedAccount)
            }
        },
        None => Err(Error::MalformedAccount),
    }
}

} // verus!
