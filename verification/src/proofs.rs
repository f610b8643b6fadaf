//! Zero-knowledge proof data and the instructions that have it verified.
//!
//! The proofs are built by outside code that draws random scalars: two
//! calls on one input differ. The private functions that make those calls
//! claim only what the outside constructors show of every result: its
//! length and the public inputs that it starts with.
use crate::bytes::{bytes_equal, is_all_zero, zeros};
use crate::crypto::{
    belongs_to, commit_amount, elgamal_encrypted, elgamal_public_of_secret, encrypt_amount_hk,
    pedersen_committed, Commitment, ElGamalCipher, HomomorphicKeypair, Opening,
};
use crate::error::{Error, ProofKind};
use crate::instruction::{AccountMeta, Instruction, InstructionView, PROOF_PROGRAM_ID};
use spl_token_2022::solana_zk_sdk::encryption::elgamal::{ElGamalCiphertext, ElGamalKeypair};
use spl_token_2022::solana_zk_sdk::encryption::pedersen::{PedersenCommitment, PedersenOpening};
use spl_token_2022::solana_zk_sdk::zk_elgamal_proof_program::instruction::ProofInstruction;
use spl_token_2022::solana_zk_sdk::zk_elgamal_proof_program::proof_data::{
    BatchedRangeProofU64Data, CiphertextCommitmentEqualityProofData, PubkeyValidityProofData,
};
use vstd::prelude::*;

verus! {

/// The length of the data of a public-key validity proof: the key and the
/// proof proper.
pub const PUBKEY_VALIDITY_DATA_LEN: usize = 96;

/// The length of the data of a ciphertext-commitment equality proof: the
/// key, the ciphertext, the commitment and the proof proper.
pub const EQUALITY_DATA_LEN: usize = 320;

/// The length of the data of a batched range proof of 64 bits: eight
/// commitments, eight bit lengths and the proof proper.
pub const RANGE_U64_DATA_LEN: usize = 936;

/// The number of bits that a withdrawal proves of the remaining balance.
pub const BALANCE_BITS: usize = 64;

/// Proof data: the public inputs followed by the proof proper. It is
/// consumed by being placed in a verify instruction.
#[derive(Clone, Debug, PartialEq, Eq)]
pub struct ProofData {
    pub kind: ProofKind,
    pub bytes: Vec<u8>,
}

impl ProofKind {
    /// The first byte of the instruction that verifies a proof of this kind.
    pub open spec fn spec_discriminator(self) -> u8 {
        match self {
            ProofKind::CiphertextCommitmentEquality => 3u8,
            ProofKind::PubkeyValidity => 4u8,
            ProofKind::BatchedRangeU64 => 6u8,
        }
    }

    /// The length of the data of a proof of this kind.
    pub open spec fn spec_data_len(self) -> usize {
        match self {
            ProofKind::PubkeyValidity => PUBKEY_VALIDITY_DATA_LEN,
            ProofKind::CiphertextCommitmentEquality => EQUALITY_DATA_LEN,
            ProofKind::BatchedRangeU64 => RANGE_U64_DATA_LEN,
        }
    }

    /// The first byte of the instruction that verifies a proof of this kind.
    #[verifier::when_used_as_spec(spec_discriminator)]
    pub fn discriminator(self) -> (tag: u8)
        ensures
            tag == self.spec_discriminator(),
    {
        match self {
            ProofKind::CiphertextCommitmentEquality => 3,
            ProofKind::PubkeyValidity => 4,
            ProofKind::BatchedRangeU64 => 6,
        }
    }

    /// The length of the data of a proof of this kind.
    #[verifier::when_used_as_spec(spec_data_len)]
    pub fn data_len(self) -> (len: usize)
        ensures
            len == self.spec_data_len(),
    {
        match self {
            ProofKind::PubkeyValidity => PUBKEY_VALIDITY_DATA_LEN,
            ProofKind::CiphertextCommitmentEquality => EQUALITY_DATA_LEN,
            ProofKind::BatchedRangeU64 => RANGE_U64_DATA_LEN,
        }
    }
}

impl ProofData {
    /// The data has the length of its kind.
    pub open spec fn well_formed(&self) -> bool {
        self.bytes@.len() == self.kind.spec_data_len()
    }
}

/// The instruction that has proof data verified: addressed to the
/// proof-verification program, naming no account, its data the kind's tag
/// followed by the proof data.
pub open spec fn verify_proof_instruction(kind: ProofKind, datum: Seq<u8>) -> InstructionView {
    InstructionView {
        program_id: PROOF_PROGRAM_ID@,
        accounts: Seq::empty(),
        data: seq![kind.spec_discriminator()] + datum,
    }
}

/// Whether an instruction asks the proof-verification program to verify a
/// proof of the given kind: this is what the token program looks for at the
/// position that an offset names.
pub open spec fn is_verify_instruction(ix: InstructionView, kind: ProofKind) -> bool {
    &&& ix.program_id == PROOF_PROGRAM_ID@
    &&& ix.data.len() >= 1
    &&& ix.data[0] == kind.spec_discriminator()
}

/// Whether proof data of public-key validity starts with the key that it
/// is about.
pub open spec fn binds_pubkey(datum: Seq<u8>, public: Seq<u8>) -> bool {
    datum.len() == PUBKEY_VALIDITY_DATA_LEN && datum.subrange(0, 32) == public
}

/// Whether proof data of equality starts with the key, the ciphertext and
/// the commitment that it is about.
pub open spec fn binds_equality(
    datum: Seq<u8>,
    public: Seq<u8>,
    ciphertext: Seq<u8>,
    commitment: Seq<u8>,
) -> bool {
    &&& datum.len() == EQUALITY_DATA_LEN
    &&& datum.subrange(0, 32) == public
    &&& datum.subrange(32, 96) == ciphertext
    &&& datum.subrange(96, 128) == commitment
}

/// Whether proof data of a range is about the one commitment and gives it
/// the stated number of bits: the first of its eight commitments is that
/// one and the other seven are empty, and so with the eight bit lengths
/// that follow.
pub open spec fn binds_range(datum: Seq<u8>, commitment: Seq<u8>, bits: usize) -> bool {
    &&& datum.len() == RANGE_U64_DATA_LEN
    &&& datum.subrange(0, 32) == commitment
    &&& datum.subrange(32, 256) == zeros(224)
    &&& datum[256] == bits
    &&& datum.subrange(257, 264) == zeros(7)
}

/// Whether `ciphertext` and `commitment` are what `amount` has under the
/// public key and `opening`: this is what the equality prover is to be
/// handed.
pub open spec fn is_equality_instance(
    public: Seq<u8>,
    ciphertext: Seq<u8>,
    commitment: Seq<u8>,
    opening: Seq<u8>,
    amount: u64,
) -> bool {
    &&& elgamal_encrypted(public, amount, opening) == Some(ciphertext)
    &&& pedersen_committed(amount, opening) == Some(commitment)
}

/// Calls `PubkeyValidityProofData::new` on the keypair that
/// `ElGamalKeypair::try_from` reads. The constructor asserts that the
/// secret scalar is not zero: the zero scalar is left out. The data is the
/// context, which is the public key, and 64 bytes of proof. The
/// constructor itself never fails; nothing comes back only where the bytes
/// are no keypair, which they are where the public key is the one computed
/// from the secret scalar.
#[verifier::external_body]
fn prove_pubkey_validity(keypair: &HomomorphicKeypair) -> (datum: Option<Vec<u8>>)
    requires
        keypair.secret@ != zeros(32),
    ensures
        datum matches Some(p) ==> binds_pubkey(p@, keypair.public@),
        elgamal_public_of_secret(keypair.secret@) == Some(keypair.public@) ==> datum is Some,
{
    let bytes = [keypair.public, keypair.secret].concat();
    let keys = ElGamalKeypair::try_from(bytes.as_slice()).ok()?;
    let data = PubkeyValidityProofData::new(&keys).ok()?;
    Some(bytemuck::bytes_of(&data).to_vec())
}

/// Calls `CiphertextCommitmentEqualityProofData::new`, on a ciphertext and
/// a commitment that hold the amount under the opening. The data is the
/// context, which is the public key, the ciphertext and the commitment as
/// they were handed in, and 192 bytes of proof. The constructor itself
/// never fails; nothing comes back only where an input does not decode.
/// The ciphertext, commitment and opening do, being what the cipher made
/// and took, and the keypair does where the public key is the one computed
/// from the secret scalar.
#[verifier::external_body]
fn prove_equality(
    keypair: &HomomorphicKeypair,
    ciphertext: &ElGamalCipher,
    commitment: &Commitment,
    opening: &Opening,
    amount: u64,
) -> (datum: Option<Vec<u8>>)
    requires
        is_equality_instance(
            keypair.public@,
            ciphertext.bytes@,
            commitment.bytes@,
            opening.bytes@,
            amount,
        ),
    ensures
        datum matches Some(p) ==> binds_equality(
            p@,
            keypair.public@,
            ciphertext.bytes@,
            commitment.bytes@,
        ),
        elgamal_public_of_secret(keypair.secret@) == Some(keypair.public@) ==> datum is Some,
{
    let bytes = [keypair.public, keypair.secret].concat();
    let keys = ElGamalKeypair::try_from(bytes.as_slice()).ok()?;
    let ciphertext = ElGamalCiphertext::from_bytes(&ciphertext.bytes)?;
    let commitment = PedersenCommitment::from_bytes(&commitment.bytes)?;
    let opening = PedersenOpening::from_bytes(&opening.bytes)?;
    let data = CiphertextCommitmentEqualityProofData::new(
        &keys, &ciphertext, &commitment, &opening, amount,
    ).ok()?;
    Some(bytemuck::bytes_of(&data).to_vec())
}

/// Calls `BatchedRangeProofU64Data::new` with one commitment, which holds
/// the amount under the opening. The constructor fails unless the bit
/// lengths add up to 64. The data is the context, which is eight
/// commitments, the first as handed in and the others all zero, and eight
/// bit lengths, the first as handed in and the others zero, and 672 bytes
/// of proof.
#[verifier::external_body]
fn prove_range_u64(commitment: &Commitment, amount: u64, bits: usize, opening: &Opening) -> (datum:
    Option<Vec<u8>>)
    requires
        pedersen_committed(amount, opening.bytes@) == Some(commitment.bytes@),
    ensures
        datum matches Some(p) ==> binds_range(p@, commitment.bytes@, bits) && bits == 64,
{
    let commitment = PedersenCommitment::from_bytes(&commitment.bytes)?;
    let opening = PedersenOpening::from_bytes(&opening.bytes)?;
    let data = BatchedRangeProofU64Data::new(
        vec![&commitment], vec![amount], vec![bits], vec![&opening],
    ).ok()?;
    Some(bytemuck::bytes_of(&data).to_vec())
}

/// Calls `ProofInstruction::VerifyPubkeyValidity.encode_verify_proof`
/// without a context account.
#[verifier::external_body]
fn encode_pubkey_validity(datum: &[u8]) -> (ix: Instruction)
    requires
        datum@.len() == PUBKEY_VALIDITY_DATA_LEN,
    ensures
        ix@ == verify_proof_instruction(ProofKind::PubkeyValidity, datum@),
{
    let data: PubkeyValidityProofData = bytemuck::pod_read_unaligned(datum);
    let ix = ProofInstruction::VerifyPubkeyValidity.encode_verify_proof(None, &data);
    let accounts = ix.accounts.iter().map(
        |m| AccountMeta::new(m.pubkey.to_bytes(), m.is_signer, m.is_writable),
    ).collect();
    Instruction { program_id: ix.program_id.to_bytes(), accounts, data: ix.data }
}

/// Calls
/// `ProofInstruction::VerifyCiphertextCommitmentEquality.encode_verify_proof`
/// without a context account.
#[verifier::external_body]
fn encode_equality(datum: &[u8]) -> (ix: Instruction)
    requires
        datum@.len() == EQUALITY_DATA_LEN,
    ensures
        ix@ == verify_proof_instruction(ProofKind::CiphertextCommitmentEquality, datum@),
{
    let data: CiphertextCommitmentEqualityProofData = bytemuck::pod_read_unaligned(datum);
    let ix = ProofInstruction::VerifyCiphertextCommitmentEquality.encode_verify_proof(None, &data);
    let accounts = ix.accounts.iter().map(
        |m| AccountMeta::new(m.pubkey.to_bytes(), m.is_signer, m.is_writable),
    ).collect();
    Instruction { program_id: ix.program_id.to_bytes(), accounts, data: ix.data }
}

/// Calls `ProofInstruction::VerifyBatchedRangeProofU64.encode_verify_proof`
/// without a context account.
#[verifier::external_body]
fn encode_range_u64(datum: &[u8]) -> (ix: Instruction)
    requires
        datum@.len() == RANGE_U64_DATA_LEN,
    ensures
        ix@ == verify_proof_instruction(ProofKind::BatchedRangeU64, datum@),
{
    let data: BatchedRangeProofU64Data = bytemuck::pod_read_unaligned(datum);
    let ix = ProofInstruction::VerifyBatchedRangeProofU64.encode_verify_proof(None, &data);
    let accounts = ix.accounts.iter().map(
        |m| AccountMeta::new(m.pubkey.to_bytes(), m.is_signer, m.is_writable),
    ).collect();
    Instruction { program_id: ix.program_id.to_bytes(), accounts, data: ix.data }
}

/// Turns what a proof constructor returned into proof data of the given
/// kind: data of the kind's length is accepted, anything else, and no data
/// at all, is a failed construction.
pub fn accept_proof(kind: ProofKind, built: Option<Vec<u8>>) -> (datum: Result<ProofData, Error>)
    ensures
        match built {
            Some(bytes) => if bytes@.len() == kind.spec_data_len() {
                datum matches Ok(p) && p.kind == kind && p.bytes@ == bytes@
            } else {
                datum == Err::<ProofData, Error>(Error::ProofConstructionFailed(kind))
            },
            None => datum == Err::<ProofData, Error>(Error::ProofConstructionFailed(kind)),
        },
{
    match built {
        Some(bytes) => {
            if bytes.len() == kind.data_len() {
                Ok(ProofData { kind, bytes })
            } else {
                Err(Error::ProofConstructionFailed(kind))
            }
        },
        None => Err(Error::ProofConstructionFailed(kind)),
    }
}

/// Proves that the public key of `keypair` is well formed. A keypair whose
/// secret scalar is zero has no proof; a keypair whose public key is the
/// one that belongs to its secret scalar has one; for any other keypair the
/// outside constructor decides. Every proof that comes back is bound to the
/// public key.
pub fn pubkey_validity_proof(keypair: &HomomorphicKeypair) -> (datum: Result<ProofData, Error>)
    ensures
        match datum {
            Ok(p) => p.kind == ProofKind::PubkeyValidity && binds_pubkey(
                p.bytes@,
                keypair.public@,
            ) && keypair.secret@ != zeros(32),
            Err(e) => e == Error::ProofConstructionFailed(ProofKind::PubkeyValidity),
        },
        belongs_to(keypair.public@, keypair.secret@) ==> datum is Ok,
{
    if is_all_zero(keypair.secret.as_slice()) {
        return Err(Error::ProofConstructionFailed(ProofKind::PubkeyValidity));
    }
    accept_proof(ProofKind::PubkeyValidity, prove_pubkey_validity(keypair))
}

/// Proves that `ciphertext` and `commitment` hold the same `amount` under
/// the same `opening` and the public key of `keypair`. The two must be what
/// the amount has under the key and the opening. There is a proof where the
/// public key is the one that belongs to the secret scalar; else the
/// outside constructor decides. Every proof that comes back is bound to the
/// key, the ciphertext and the commitment.
pub fn equality_proof(
    keypair: &HomomorphicKeypair,
    ciphertext: &ElGamalCipher,
    commitment: &Commitment,
    opening: &Opening,
    amount: u64,
) -> (datum: Result<ProofData, Error>)
    requires
        is_equality_instance(
            keypair.public@,
            ciphertext.bytes@,
            commitment.bytes@,
            opening.bytes@,
            amount,
        ),
    ensures
        match datum {
            Ok(p) => p.kind == ProofKind::CiphertextCommitmentEquality && binds_equality(
                p.bytes@,
                keypair.public@,
                ciphertext.bytes@,
                commitment.bytes@,
            ),
            Err(e) => e == Error::ProofConstructionFailed(ProofKind::CiphertextCommitmentEquality),
        },
        elgamal_public_of_secret(keypair.secret@) == Some(keypair.public@) ==> datum is Ok,
{
    accept_proof(
        ProofKind::CiphertextCommitmentEquality,
        prove_equality(keypair, ciphertext, commitment, opening, amount),
    )
}

/// Proves that `commitment`, which must hold `amount` under `opening`,
/// holds an amount of at most 64 bits. The outside constructor decides
/// whether there is a proof. Every proof that comes back is bound to the
/// commitment alone and to 64 bits.
pub fn range_proof_u64(commitment: &Commitment, amount: u64, opening: &Opening) -> (datum: Result<
    ProofData,
    Error,
>)
    requires
        pedersen_committed(amount, opening.bytes@) == Some(commitment.bytes@),
    ensures
        match datum {
            Ok(p) => p.kind == ProofKind::BatchedRangeU64 && binds_range(
                p.bytes@,
                commitment.bytes@,
                BALANCE_BITS,
            ),
            Err(e) => e == Error::ProofConstructionFailed(ProofKind::BatchedRangeU64),
        },
{
    accept_proof(
        ProofKind::BatchedRangeU64,
        prove_range_u64(commitment, amount, BALANCE_BITS, opening),
    )
}

/// Proves equality for any ciphertext and commitment: where the two are
/// not what `amount` has under the key and `opening`, the inputs do not
/// belong together and the construction fails; where they are, the proof is
/// that of `equality_proof`.
pub fn try_equality_proof(
    keypair: &HomomorphicKeypair,
    ciphertext: &ElGamalCipher,
    commitment: &Commitment,
    opening: &Opening,
    amount: u64,
) -> (datum: Result<ProofData, Error>)
    ensures
        match datum {
            Ok(p) => {
                &&& is_equality_instance(
                    keypair.public@,
                    ciphertext.bytes@,
                    commitment.bytes@,
                    opening.bytes@,
                    amount,
                )
                &&& p.kind == ProofKind::CiphertextCommitmentEquality
                &&& binds_equality(
                    p.bytes@,
                    keypair.public@,
                    ciphertext.bytes@,
                    commitment.bytes@,
                )
            },
            Err(e) => e == Error::ProofConstructionFailed(ProofKind::CiphertextCommitmentEquality),
        },
{
    let failed = Error::ProofConstructionFailed(ProofKind::CiphertextCommitmentEquality);
    let Some(expected) = encrypt_amount_hk(&keypair.public, amount, opening) else {
        return Err(failed);
    };
    if !bytes_equal(expected.bytes.as_slice(), ciphertext.bytes.as_slice()) {
        return Err(failed);
    }
    let Some(committed) = commit_amount(amount, opening) else {
        return Err(failed);
    };
    if !bytes_equal(committed.bytes.as_slice(), commitment.bytes.as_slice()) {
        return Err(failed);
    }
    equality_proof(keypair, ciphertext, commitment, opening, amount)
}

/// Proves a range for any commitment: where it is not what `amount` has
/// under `opening`, the inputs do not belong together and the construction
/// fails; where it is, the proof is that of `range_proof_u64`.
pub fn try_range_proof_u64(commitment: &Commitment, amount: u64, opening: &Opening) -> (datum:
    Result<ProofData, Error>)
    ensures
        match datum {
            Ok(p) => {
                &&& pedersen_committed(amount, opening.bytes@) == Some(commitment.bytes@)
                &&& p.kind == ProofKind::BatchedRangeU64
                &&& binds_range(p.bytes@, commitment.bytes@, BALANCE_BITS)
            },
            Err(e) => e == Error::ProofConstructionFailed(ProofKind::BatchedRangeU64),
        },
{
    let failed = Error::ProofConstructionFailed(ProofKind::BatchedRangeU64);
    let Some(committed) = commit_amount(amount, opening) else {
        return Err(failed);
    };
    if !bytes_equal(committed.bytes.as_slice(), commitment.bytes.as_slice()) {
        return Err(failed);
    }
    range_proof_u64(commitment, amount, opening)
}

/// Wraps proof data in the instruction that has it verified. Data that
/// does not have the length of its kind is no proof and is refused as a
/// failed construction.
pub fn verify_instruction(datum: &ProofData) -> (ix: Result<Instruction, Error>)
    ensures
        match ix {
            Ok(ix) => datum.well_formed() && ix@ == verify_proof_instruction(
                datum.kind,
                datum.bytes@,
            ) && is_verify_instruction(ix@, datum.kind),
            Err(e) => !datum.well_formed() && e == Error::ProofConstructionFailed(datum.kind),
        },
{
    if datum.bytes.len() != datum.kind.data_len() {
        return Err(Error::ProofConstructionFailed(datum.kind));
    }
    Ok(
        match datum.kind {
            ProofKind::PubkeyValidity => encode_pubkey_validity(datum.bytes.as_slice()),
            ProofKind::CiphertextCommitmentEquality => encode_equality(datum.bytes.as_slice()),
            ProofKind::BatchedRangeU64 => encode_range_u64(datum.bytes.as_slice()),
        },
    )
}

} // verus!
