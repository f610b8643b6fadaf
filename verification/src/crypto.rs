//! Key derivation and the balance codec.
//!
//! The ciphers themselves are outside code. Each call into them stands in a
//! private function whose contract is taken on trust; what those calls
//! return is named by the functions without a body below, and the public
//! functions of this module are proved against those names.
use crate::bytes::{array_at, is_all_zero, zeros};
use crate::error::Error;
use crate::instruction::Address;
use solana_sdk::signature::Keypair;
use spl_token_2022::solana_zk_sdk::encryption::auth_encryption::{AeCiphertext, AeKey};
use spl_token_2022::solana_zk_sdk::encryption::elgamal::{
    ElGamalCiphertext, ElGamalPubkey, ElGamalSecretKey,
};
use spl_token_2022::solana_zk_sdk::encryption::pedersen::{Pedersen, PedersenOpening};
use vstd::prelude::*;

verus! {

/// A signing identity: the 64 bytes of an ed25519 keypair, the secret seed
/// first and the public key behind it.
#[derive(Clone, Copy, Debug, PartialEq, Eq)]
pub struct SigningKey {
    pub bytes: [u8; 64],
}

impl SigningKey {
    /// The address of the signing key: its public half, the last 32 bytes.
    pub fn address(&self) -> (address: Address)
        ensures
            address.bytes@ == self.bytes@.subrange(32, 64),
    {
        Address { bytes: array_at::<32>(self.bytes.as_slice(), 32) }
    }
}

/// The homomorphic (twisted ElGamal) keypair of an account owner.
#[derive(Clone, Copy, Debug, PartialEq, Eq)]
pub struct HomomorphicKeypair {
    /// The compressed group element that others encrypt to.
    pub public: [u8; 32],
    /// The scalar that decrypts.
    pub secret: [u8; 32],
}

/// The key of the authenticated cipher.
#[derive(Clone, Copy, Debug, PartialEq, Eq)]
pub struct AuthenticatedKey {
    pub bytes: [u8; 16],
}

/// A balance under the authenticated cipher: a nonce and the sealed amount.
#[derive(Clone, Copy, Debug, PartialEq, Eq)]
pub struct AkCipher {
    pub bytes: [u8; 36],
}

/// An amount under the homomorphic cipher: a commitment and a decryption
/// handle.
#[derive(Clone, Copy, Debug, PartialEq, Eq)]
pub struct ElGamalCipher {
    pub bytes: [u8; 64],
}

/// The blinding scalar of a Pedersen commitment.
#[derive(Clone, Copy, Debug, PartialEq, Eq)]
pub struct Opening {
    pub bytes: [u8; 32],
}

/// A Pedersen commitment to an amount.
#[derive(Clone, Copy, Debug, PartialEq, Eq)]
pub struct Commitment {
    pub bytes: [u8; 32],
}

/// What the homomorphic cipher made of a ciphertext.
#[derive(Clone, Copy, Debug, PartialEq, Eq, Structural)]
pub enum Decryption {
    /// The key or the ciphertext is not a valid encoding.
    Undecodable,
    /// The plaintext lies outside the 32 bits that are searched.
    NotFound,
    /// The plaintext.
    Found(u64),
}

/// The ElGamal secret scalar that `ElGamalSecretKey::new_from_signer`
/// derives from a signing keypair and a public seed; `None` where the bytes
/// are no keypair or the derivation fails.
pub uninterp spec fn elgamal_secret_of_signer(signer: Seq<u8>, seed: Seq<u8>) -> Option<Seq<u8>>;

/// The ElGamal public key that `ElGamalPubkey::new` computes for a secret
/// scalar; `None` where the bytes are no canonical scalar.
pub uninterp spec fn elgamal_public_of_secret(secret: Seq<u8>) -> Option<Seq<u8>>;

/// The key that `AeKey::new_from_signer` derives from a signing keypair and
/// a public seed; `None` where the bytes are no keypair or the derivation
/// fails.
pub uninterp spec fn ae_key_of_signer(signer: Seq<u8>, seed: Seq<u8>) -> Option<Seq<u8>>;

/// What `AeKey::decrypt` returns for a key and a ciphertext.
pub uninterp spec fn ae_decrypted(key: Seq<u8>, ciphertext: Seq<u8>) -> Option<u64>;

/// What `ElGamalSecretKey::decrypt_u32` makes of a ciphertext.
pub uninterp spec fn elgamal_decrypted(secret: Seq<u8>, ciphertext: Seq<u8>) -> Decryption;

/// The ciphertext that `ElGamalPubkey::encrypt_with` computes; `None` where
/// the key or the opening is not a valid encoding.
pub uninterp spec fn elgamal_encrypted(public: Seq<u8>, amount: u64, opening: Seq<u8>) -> Option<
    Seq<u8>,
>;

/// The commitment that `Pedersen::with` computes; `None` where the opening
/// is no canonical scalar.
pub uninterp spec fn pedersen_committed(amount: u64, opening: Seq<u8>) -> Option<Seq<u8>>;

/// Calls `ElGamalSecretKey::new_from_signer` on the keypair that
/// `Keypair::try_from` reads from `signer`. The derivation signs a fixed
/// message with a deterministic signature scheme and hashes the signature,
/// so the result depends on the two arguments alone.
#[verifier::external_body]
fn derive_elgamal_secret(signer: &[u8; 64], seed: &[u8]) -> (secret: Option<[u8; 32]>)
    ensures
        match secret {
            Some(s) => elgamal_secret_of_signer(signer@, seed@) == Some(s@),
            None => elgamal_secret_of_signer(signer@, seed@) is None,
        },
{
    let keypair = Keypair::try_from(&signer[..]).ok()?;
    let secret = ElGamalSecretKey::new_from_signer(&keypair, seed).ok()?;
    Some(*secret.as_bytes())
}

/// Calls `ElGamalPubkey::new`, which asserts that the scalar is not zero:
/// the zero scalar is left out.
#[verifier::external_body]
fn elgamal_public(secret: &[u8; 32]) -> (public: Option<[u8; 32]>)
    requires
        secret@ != zeros(32),
    ensures
        match public {
            Some(p) => elgamal_public_of_secret(secret@) == Some(p@),
            None => elgamal_public_of_secret(secret@) is None,
        },
{
    let key = ElGamalSecretKey::try_from(&secret[..]).ok()?;
    Some(ElGamalPubkey::new(&key).into())
}

/// Calls `AeKey::new_from_signer` on the keypair that `Keypair::try_from`
/// reads from `signer`; deterministic for the same reason as the ElGamal
/// derivation.
#[verifier::external_body]
fn derive_ae_key(signer: &[u8; 64], seed: &[u8]) -> (key: Option<[u8; 16]>)
    ensures
        match key {
            Some(k) => ae_key_of_signer(signer@, seed@) == Some(k@),
            None => ae_key_of_signer(signer@, seed@) is None,
        },
{
    let keypair = Keypair::try_from(&signer[..]).ok()?;
    let key = AeKey::new_from_signer(&keypair, seed).ok()?;
    Some(key.into())
}

/// Calls `AeKey::encrypt`, which draws a fresh nonce: two calls differ. The
/// outside documentation says of `decrypt` that it returns the amount that was
/// encrypted; that is all this contract claims.
#[verifier::external_body]
fn ae_encrypt(key: &[u8; 16], amount: u64) -> (ciphertext: [u8; 36])
    ensures
        ae_decrypted(key@, ciphertext@) == Some(amount),
{
    AeKey::from(*key).encrypt(amount).to_bytes()
}

/// Calls `AeKey::decrypt`. A ciphertext of 36 bytes always deserialises.
#[verifier::external_body]
fn ae_decrypt(key: &[u8; 16], ciphertext: &[u8; 36]) -> (amount: Option<u64>)
    ensures
        amount == ae_decrypted(key@, ciphertext@),
{
    AeKey::from(*key).decrypt(&AeCiphertext::from_bytes(ciphertext)?)
}

/// Whether `ciphertext` is what `amount` has, under `opening`, for the
/// public key that belongs to the secret scalar `secret`.
pub open spec fn encrypts(
    secret: Seq<u8>,
    ciphertext: Seq<u8>,
    amount: u64,
    opening: Seq<u8>,
) -> bool {
    &&& secret != zeros(32)
    &&& elgamal_public_of_secret(secret) matches Some(public)
    &&& elgamal_encrypted(public, amount, opening) == Some(ciphertext)
}

/// Calls `ElGamalSecretKey::decrypt_u32`, a search with a fixed table and
/// one thread. A value that it finds is the sum of an index below 2^16 and
/// 2^16 times a 16-bit table entry, so it has at most 32 bits. The outside
/// documentation says of the call that it returns the amount that was
/// encrypted where that amount has at most 32 bits; the last clause says
/// this of a ciphertext that was made for the public key of this secret
/// scalar, and no more.
#[verifier::external_body]
fn elgamal_decrypt_u32(secret: &[u8; 32], ciphertext: &[u8; 64]) -> (found: Decryption)
    ensures
        found == elgamal_decrypted(secret@, ciphertext@),
        found matches Decryption::Found(v) ==> v <= u32::MAX,
        forall|amount: u64, opening: Seq<u8>|
            amount <= u32::MAX && #[trigger] encrypts(secret@, ciphertext@, amount, opening)
                ==> found == Decryption::Found(amount),
{
    let Ok(key) = ElGamalSecretKey::try_from(&secret[..]) else {
        return Decryption::Undecodable;
    };
    let Some(ciphertext) = ElGamalCiphertext::from_bytes(ciphertext) else {
        return Decryption::Undecodable;
    };
    match key.decrypt_u32(&ciphertext) {
        Some(v) => Decryption::Found(v),
        None => Decryption::NotFound,
    }
}

/// Whether `public` is the public key that belongs to the secret scalar
/// `secret`, which is not zero.
pub open spec fn belongs_to(public: Seq<u8>, secret: Seq<u8>) -> bool {
    secret != zeros(32) && elgamal_public_of_secret(secret) == Some(public)
}

/// Calls `ElGamalPubkey::encrypt_with`, which is deterministic given the
/// opening. The ciphertext is the commitment `amount * G + opening * H` and
/// the handle `opening * public`, each as the 32 bytes of a group element,
/// of which only the neutral element is all zero. Under a public key that
/// belongs to a secret scalar other than zero, which is a multiple of `H`
/// and not neutral, the handle is neutral only for the opening zero, and
/// the commitment is then neutral only for the amount zero: this is what
/// the last clause says.
#[verifier::external_body]
fn elgamal_encrypt_with(public: &[u8; 32], amount: u64, opening: &[u8; 32]) -> (ciphertext: Option<
    [u8; 64],
>)
    ensures
        match ciphertext {
            Some(c) => elgamal_encrypted(public@, amount, opening@) == Some(c@),
            None => elgamal_encrypted(public@, amount, opening@) is None,
        },
        ciphertext matches Some(c) ==> (c@ == zeros(64) ==> forall|secret: Seq<u8>| #[trigger]
            belongs_to(public@, secret) ==> amount == 0),
{
    let key = ElGamalPubkey::try_from(&public[..]).ok()?;
    let opening = PedersenOpening::from_bytes(opening)?;
    Some(key.encrypt_with(amount, &opening).to_bytes())
}

/// Calls `Pedersen::with`.
#[verifier::external_body]
fn pedersen_commit(amount: u64, opening: &[u8; 32]) -> (commitment: Option<[u8; 32]>)
    ensures
        match commitment {
            Some(c) => pedersen_committed(amount, opening@) == Some(c@),
            None => pedersen_committed(amount, opening@) is None,
        },
{
    let opening = PedersenOpening::from_bytes(opening)?;
    Some(Pedersen::with(amount, &opening).to_bytes())
}

/// Calls `PedersenOpening::new_rand`: a random scalar, of which nothing is
/// known beforehand.
#[verifier::external_body]
pub(crate) fn fresh_opening() -> (opening: Opening) {
    Opening { bytes: PedersenOpening::new_rand().to_bytes() }
}

/// The homomorphic keypair that belongs to a signing key, as public key and
/// secret scalar: the secret derived with the empty seed, which must not be
/// the zero scalar, and the public key computed from it.
pub open spec fn derived_elgamal_keypair(signer: Seq<u8>) -> Option<(Seq<u8>, Seq<u8>)> {
    match elgamal_secret_of_signer(signer, Seq::<u8>::empty()) {
        Some(secret) => if secret == zeros(32) {
            None
        } else {
            match elgamal_public_of_secret(secret) {
                Some(public) => Some((public, secret)),
                None => None,
            }
        },
        None => None,
    }
}

/// The authenticated key that belongs to a signing key: derived with the
/// empty seed.
pub open spec fn derived_ae_key(signer: Seq<u8>) -> Option<Seq<u8>> {
    ae_key_of_signer(signer, Seq::<u8>::empty())
}

/// Whether `keys` is what trying to derive the homomorphic keypair of
/// `signer` gives: the derived keypair, or a keypair failure where there is
/// none.
pub open spec fn is_derived_keypair(
    signer: SigningKey,
    keys: Result<HomomorphicKeypair, Error>,
) -> bool {
    match derived_elgamal_keypair(signer.bytes@) {
        Some((public, secret)) => keys matches Ok(k) && k.public@ == public && k.secret@ == secret,
        None => keys == Err::<HomomorphicKeypair, Error>(Error::KeypairIo),
    }
}

/// Whether `key` is what trying to derive the authenticated key of `signer`
/// gives: the derived key, or a keypair failure where there is none.
pub open spec fn is_derived_key(signer: SigningKey, key: Result<AuthenticatedKey, Error>) -> bool {
    match derived_ae_key(signer.bytes@) {
        Some(bytes) => key matches Ok(k) && k.bytes@ == bytes,
        None => key == Err::<AuthenticatedKey, Error>(Error::KeypairIo),
    }
}

/// Derives the homomorphic keypair, if the signing key has one.
fn elgamal_derivation(signer: &SigningKey) -> (keys: Option<HomomorphicKeypair>)
    ensures
        match derived_elgamal_keypair(signer.bytes@) {
            Some((public, secret)) => keys matches Some(k) && k.public@ == public && k.secret@
                == secret,
            None => keys is None,
        },
{
    let seed: [u8; 0] = [];
    assert(seed@ =~= Seq::<u8>::empty());
    let secret = derive_elgamal_secret(&signer.bytes, seed.as_slice())?;
    if is_all_zero(secret.as_slice()) {
        return None;
    }
    let public = elgamal_public(&secret)?;
    Some(HomomorphicKeypair { public, secret })
}

/// Derives the authenticated key, if the signing key has one.
fn ae_derivation(signer: &SigningKey) -> (key: Option<AuthenticatedKey>)
    ensures
        match derived_ae_key(signer.bytes@) {
            Some(bytes) => key matches Some(k) && k.bytes@ == bytes,
            None => key is None,
        },
{
    let seed: [u8; 0] = [];
    assert(seed@ =~= Seq::<u8>::empty());
    match derive_ae_key(&signer.bytes, seed.as_slice()) {
        Some(bytes) => Some(AuthenticatedKey { bytes }),
        None => None,
    }
}

/// Derives the homomorphic keypair of a signing key. The same signing key
/// always gives the same keypair. A signing key from which no keypair can
/// be derived is not admitted: the derivation has nothing to return for it.
pub fn derive_elgamal_keypair(signer: &SigningKey) -> (keys: HomomorphicKeypair)
    requires
        derived_elgamal_keypair(signer.bytes@) is Some,
    ensures
        derived_elgamal_keypair(signer.bytes@) == Some((keys.public@, keys.secret@)),
{
    match elgamal_derivation(signer) {
        Some(keys) => keys,
        None => {
            assert(false);
            vstd::pervasive::unreached()
        },
    }
}

/// Derives the authenticated key of a signing key. The same signing key
/// always gives the same key. A signing key from which no key can be
/// derived is not admitted.
pub fn derive_aes_key(signer: &SigningKey) -> (key: AuthenticatedKey)
    requires
        derived_ae_key(signer.bytes@) is Some,
    ensures
        derived_ae_key(signer.bytes@) == Some(key.bytes@),
{
    match ae_derivation(signer) {
        Some(key) => key,
        None => {
            assert(false);
            vstd::pervasive::unreached()
        },
    }
}

/// Derives the homomorphic keypair of a signing key where it has one, and
/// reports a keypair failure where it has none.
pub fn try_derive_elgamal_keypair(signer: &SigningKey) -> (keys: Result<HomomorphicKeypair, Error>)
    ensures
        is_derived_keypair(*signer, keys),
{
    if elgamal_derivation(signer).is_some() {
        Ok(derive_elgamal_keypair(signer))
    } else {
        Err(Error::KeypairIo)
    }
}

/// Derives the authenticated key of a signing key where it has one, and
/// reports a keypair failure where it has none.
pub fn try_derive_aes_key(signer: &SigningKey) -> (key: Result<AuthenticatedKey, Error>)
    ensures
        is_derived_key(*signer, key),
{
    if ae_derivation(signer).is_some() {
        Ok(derive_aes_key(signer))
    } else {
        Err(Error::KeypairIo)
    }
}

/// What decrypting a balance under the authenticated key gives: the amount,
/// or an authentication failure where the ciphertext does not verify.
pub open spec fn decrypted_balance(key: Seq<u8>, ciphertext: Seq<u8>) -> Result<u64, Error> {
    match ae_decrypted(key, ciphertext) {
        Some(amount) => Ok(amount),
        None => Err(Error::AuthFailure),
    }
}

/// What decrypting a small amount under the homomorphic key gives. The
/// all-zero ciphertext stands for "no ciphertext" and is 0 whatever the key;
/// the cipher is asked about every other ciphertext only.
pub open spec fn decrypted_u32(secret: Seq<u8>, ciphertext: Seq<u8>) -> Result<u32, Error> {
    if ciphertext == zeros(64) {
        Ok(0u32)
    } else {
        match elgamal_decrypted(secret, ciphertext) {
            Decryption::Found(amount) => Ok(amount as u32),
            Decryption::NotFound => Err(Error::BalanceUnsearchable),
            Decryption::Undecodable => Err(Error::MalformedAccount),
        }
    }
}

/// The available balance that an account's two encodings give: 0 where the
/// homomorphic ciphertext is all zero, else the authenticated copy
/// decrypted.
pub open spec fn read_available(key: Seq<u8>, available: Seq<u8>, decryptable: Seq<u8>) -> Result<
    u64,
    Error,
> {
    if available == zeros(64) {
        Ok(0u64)
    } else {
        decrypted_balance(key, decryptable)
    }
}

/// Encrypts a balance under the authenticated key. The ciphertext holds a
/// fresh nonce, so two calls differ; each result decrypts to `amount` under
/// the same key.
pub fn encrypt_balance_ak(key: &AuthenticatedKey, amount: u64) -> (cipher: AkCipher)
    ensures
        decrypted_balance(key.bytes@, cipher.bytes@) == Ok::<u64, Error>(amount),
{
    AkCipher { bytes: ae_encrypt(&key.bytes, amount) }
}

/// Decrypts a balance under the authenticated key.
pub fn decrypt_balance_ak(key: &AuthenticatedKey, cipher: &AkCipher) -> (amount: Result<u64, Error>)
    ensures
        amount == decrypted_balance(key.bytes@, cipher.bytes@),
{
    match ae_decrypt(&key.bytes, &cipher.bytes) {
        Some(amount) => Ok(amount),
        None => Err(Error::AuthFailure),
    }
}

/// Whether a homomorphic ciphertext is the all-zero pattern that stands for
/// "no ciphertext".
pub fn is_zero_ciphertext(cipher: &ElGamalCipher) -> (zero: bool)
    ensures
        zero <==> cipher.bytes@ == zeros(64),
{
    is_all_zero(cipher.bytes.as_slice())
}

/// Whether `cipher` is what encrypting `amount` under a homomorphic public
/// key with `opening` gives: the ciphertext that the cipher computes, or
/// nothing where the key or the opening is not a valid encoding; and under
/// a public key that belongs to a secret key, the all-zero ciphertext for
/// the amount zero only.
pub open spec fn is_encryption(
    public: Seq<u8>,
    amount: u64,
    opening: Seq<u8>,
    cipher: Option<ElGamalCipher>,
) -> bool {
    &&& match elgamal_encrypted(public, amount, opening) {
        Some(bytes) => cipher matches Some(c) && c.bytes@ == bytes,
        None => cipher is None,
    }
    &&& cipher matches Some(c) ==> (c.bytes@ == zeros(64) ==> forall|secret: Seq<u8>| #[trigger]
        belongs_to(public, secret) ==> amount == 0)
}

/// Encrypts an amount under a homomorphic public key with the given
/// opening. The result is a function of the three arguments; `None` where
/// the key or the opening is not a valid encoding.
pub fn encrypt_amount_hk(public: &[u8; 32], amount: u64, opening: &Opening) -> (cipher: Option<
    ElGamalCipher,
>)
    ensures
        is_encryption(public@, amount, opening.bytes@, cipher),
{
    match elgamal_encrypt_with(public, amount, &opening.bytes) {
        Some(bytes) => Some(ElGamalCipher { bytes }),
        None => None,
    }
}

/// Whether `amount` is what decrypting a ciphertext under the homomorphic
/// secret key gives: what the cipher, or the shortcut for the all-zero
/// ciphertext, makes of it; and, for every other ciphertext that was made
/// of an amount of at most 32 bits for the public key of this secret key,
/// that amount.
pub open spec fn is_decrypted_u32(
    secret: Seq<u8>,
    ciphertext: Seq<u8>,
    amount: Result<u32, Error>,
) -> bool {
    &&& amount == decrypted_u32(secret, ciphertext)
    &&& ciphertext != zeros(64) ==> forall|encrypted: u64, opening: Seq<u8>|
        encrypted <= u32::MAX && #[trigger] encrypts(secret, ciphertext, encrypted, opening)
            ==> amount == Ok::<u32, Error>(encrypted as u32)
}

/// Decrypts an amount of at most 32 bits under the homomorphic secret key.
/// The all-zero ciphertext gives 0 without the cipher being called.
pub fn decrypt_u32_hk(secret: &[u8; 32], cipher: &ElGamalCipher) -> (amount: Result<u32, Error>)
    ensures
        is_decrypted_u32(secret@, cipher.bytes@, amount),
        cipher.bytes@ == zeros(64) ==> amount == Ok::<u32, Error>(0u32),
{
    if is_zero_ciphertext(cipher) {
        return Ok(0);
    }
    match elgamal_decrypt_u32(secret, &cipher.bytes) {
        Decryption::Found(amount) => Ok(amount as u32),
        Decryption::NotFound => Err(Error::BalanceUnsearchable),
        Decryption::Undecodable => Err(Error::MalformedAccount),
    }
}

/// Reads the available balance of an account from its two encodings. Where
/// the homomorphic ciphertext is all zero the balance is 0 and the
/// authenticated copy is not looked at.
pub fn decrypt_available_balance(
    key: &AuthenticatedKey,
    available: &ElGamalCipher,
    decryptable: &AkCipher,
) -> (amount: Result<u64, Error>)
    ensures
        amount == read_available(key.bytes@, available.bytes@, decryptable.bytes@),
        available.bytes@ == zeros(64) ==> amount == Ok::<u64, Error>(0u64),
{
    if is_zero_ciphertext(available) {
        Ok(0)
    } else {
        decrypt_balance_ak(key, decryptable)
    }
}

/// Commits to an amount under the given opening; `None` where the opening
/// is not a valid encoding.
pub fn commit_amount(amount: u64, opening: &Opening) -> (commitment: Option<Commitment>)
    ensures
        match pedersen_committed(amount, opening.bytes@) {
            Some(bytes) => commitment matches Some(c) && c.bytes@ == bytes,
            None => commitment is None,
        },
{
    match pedersen_commit(amount, &opening.bytes) {
        Some(bytes) => Some(Commitment { bytes }),
        None => None,
    }
}

/// Two derivations from the same signing key agree: whatever two calls of
/// `try_derive_elgamal_keypair` and of `try_derive_aes_key` return for equal
/// signing keys, the results are byte for byte the same.
pub proof fn lemma_derivation_is_pure(
    first: SigningKey,
    second: SigningKey,
    keys_first: Result<HomomorphicKeypair, Error>,
    keys_second: Result<HomomorphicKeypair, Error>,
    key_first: Result<AuthenticatedKey, Error>,
    key_second: Result<AuthenticatedKey, Error>,
)
    requires
        first.bytes@ == second.bytes@,
        is_derived_keypair(first, keys_first),
        is_derived_keypair(second, keys_second),
        is_derived_key(first, key_first),
        is_derived_key(second, key_second),
    ensures
        keys_first is Ok <==> keys_second is Ok,
        keys_first matches Ok(a) ==> keys_second matches Ok(b) && a.public@ == b.public@
            && a.secret@ == b.secret@,
        keys_first is Err ==> keys_first == keys_second,
        key_first is Ok <==> key_second is Ok,
        key_first matches Ok(a) ==> key_second matches Ok(b) && a.bytes@ == b.bytes@,
        key_first is Err ==> key_first == key_second,
{
}

/// The all-zero homomorphic ciphertext reads as zero under every key: as a
/// small amount, and as the available balance whatever the authenticated
/// copy holds. What the ciphers would make of it does not enter.
pub proof fn lemma_zero_ciphertext_reads_zero(secret: Seq<u8>, key: Seq<u8>, decryptable: Seq<u8>)
    ensures
        decrypted_u32(secret, zeros(64)) == Ok::<u32, Error>(0u32),
        read_available(key, zeros(64), decryptable) == Ok::<u64, Error>(0u64),
{
}

/// The derivations that return the keys themselves are functions of the
/// signing key: what `derive_elgamal_keypair` and `derive_aes_key` return
/// for equal signing keys is byte for byte the same.
pub proof fn lemma_derived_keys_agree(
    first: SigningKey,
    second: SigningKey,
    keys_first: HomomorphicKeypair,
    keys_second: HomomorphicKeypair,
    key_first: AuthenticatedKey,
    key_second: AuthenticatedKey,
)
    requires
        first.bytes@ == second.bytes@,
        derived_elgamal_keypair(first.bytes@) == Some((keys_first.public@, keys_first.secret@)),
        derived_elgamal_keypair(second.bytes@) == Some((keys_second.public@, keys_second.secret@)),
        derived_ae_key(first.bytes@) == Some(key_first.bytes@),
        derived_ae_key(second.bytes@) == Some(key_second.bytes@),
    ensures
        keys_first.public@ == keys_second.public@,
        keys_first.secret@ == keys_second.secret@,
        key_first.bytes@ == key_second.bytes@,
{
}

/// An amount of at most 32 bits that was encrypted under the public key of
/// a keypair decrypts to itself under the secret key, whatever the opening:
/// whatever ciphertext `encrypt_amount_hk` returned, `decrypt_u32_hk` gives
/// the amount back. This holds of the all-zero ciphertext too, which is
/// read as 0 without the cipher and is the ciphertext of 0 alone.
pub proof fn lemma_hk_round_trip(
    keys: HomomorphicKeypair,
    amount: u64,
    opening: Opening,
    cipher: ElGamalCipher,
    opened: Result<u32, Error>,
)
    requires
        amount <= u32::MAX,
        belongs_to(keys.public@, keys.secret@),
        is_encryption(keys.public@, amount, opening.bytes@, Some(cipher)),
        is_decrypted_u32(keys.secret@, cipher.bytes@, opened),
    ensures
        opened == Ok::<u32, Error>(amount as u32),
{
    if cipher.bytes@ == zeros(64) {
        assert(belongs_to(keys.public@, keys.secret@));
    } else {
        assert(encrypts(keys.secret@, cipher.bytes@, amount, opening.bytes@));
    }
}

/// A balance encrypted under the authenticated key decrypts to itself:
/// whatever ciphertext `encrypt_balance_ak` returned for `amount`,
/// `decrypt_balance_ak` gives `amount` back under the same key.
pub proof fn lemma_ak_round_trip(
    key: AuthenticatedKey,
    amount: u64,
    cipher: AkCipher,
    opened: Result<u64, Error>,
)
    requires
        decrypted_balance(key.bytes@, cipher.bytes@) == Ok::<u64, Error>(amount),
        opened == decrypted_balance(key.bytes@, cipher.bytes@),
    ensures
        opened == Ok::<u64, Error>(amount),
{
}

} // verus!
