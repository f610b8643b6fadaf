//! The failure kinds of every operation.
use vstd::prelude::*;

verus! {

/// Which zero-knowledge proof a failure refers to.
#[derive(Clone, Copy, Debug, PartialEq, Eq, Structural)]
pub enum ProofKind {
    /// Validity of a homomorphic public key.
    PubkeyValidity,
    /// Equality of a ciphertext and a commitment.
    CiphertextCommitmentEquality,
    /// Range of a batch of commitments with 64 bits in total.
    BatchedRangeU64,
}

/// Why an operation was aborted. No failure is retried; each one ends the
/// operation in which it occurs.
#[derive(Clone, Copy, Debug, PartialEq, Eq, Structural)]
pub enum Error {
    /// The configuration file is absent or unreadable.
    ConfigMissing,
    /// A keypair is missing, malformed or of the wrong length.
    KeypairIo,
    /// An argument is not a public key.
    InvalidPubkey,
    /// The node or the transport reported an error.
    RpcFailure,
    /// The account data cannot be decoded.
    MalformedAccount,
    /// The account carries no confidential-transfer extension.
    MissingExtension,
    /// The account is not owned by the token program.
    WrongProgram,
    /// A homomorphic ciphertext holds a value outside the searched range.
    BalanceUnsearchable,
    /// An authenticated ciphertext did not verify under the key.
    AuthFailure,
    /// A proof primitive rejected its inputs.
    ProofConstructionFailed(ProofKind),
    /// The available balance is smaller than the requested amount.
    InsufficientBalance,
    /// The two ends of a transfer belong to different mints.
    MintMismatch,
    /// A transfer amount does not fit in 48 bits.
    AmountOutOfRange,
    /// The operation is deliberately not carried out.
    UnsupportedOperation,
}

impl ProofKind {
    /// The name of the kind.
    pub open spec fn spec_name(self) -> Seq<char> {
        match self {
            ProofKind::PubkeyValidity => "pubkey_validity"@,
            ProofKind::CiphertextCommitmentEquality => "ciphertext_commitment_equality"@,
            ProofKind::BatchedRangeU64 => "batched_range_u64"@,
        }
    }

    /// The name of the kind.
    pub fn name(self) -> (name: &'static str)
        ensures
            name@ == self.spec_name(),
    {
        match self {
            ProofKind::PubkeyValidity => "pubkey_validity",
            ProofKind::CiphertextCommitmentEquality => "ciphertext_commitment_equality",
            ProofKind::BatchedRangeU64 => "batched_range_u64",
        }
    }
}

impl Error {
    /// The name of the failure kind.
    pub open spec fn spec_kind(self) -> Seq<char> {
        match self {
            Error::ConfigMissing => "config_missing"@,
            Error::KeypairIo => "keypair_io"@,
            Error::InvalidPubkey => "invalid_pubkey"@,
            Error::RpcFailure => "rpc_failure"@,
            Error::MalformedAccount => "malformed_account"@,
            Error::MissingExtension => "missing_extension"@,
            Error::WrongProgram => "wrong_program"@,
            Error::BalanceUnsearchable => "balance_unsearchable"@,
            Error::AuthFailure => "auth_failure"@,
            Error::ProofConstructionFailed(_) => "proof_construction_failed"@,
            Error::InsufficientBalance => "insufficient_balance"@,
            Error::MintMismatch => "mint_mismatch"@,
            Error::AmountOutOfRange => "amount_out_of_range"@,
            Error::UnsupportedOperation => "unsupported_operation"@,
        }
    }

    /// The name of the failure kind.
    pub fn kind(self) -> (name: &'static str)
        ensures
            name@ == self.spec_kind(),
    {
        match self {
            Error::ConfigMissing => "config_missing",
            Error::KeypairIo => "keypair_io",
            Error::InvalidPubkey => "invalid_pubkey",
            Error::RpcFailure => "rpc_failure",
            Error::MalformedAccount => "malformed_account",
            Error::MissingExtension => "missing_extension",
            Error::WrongProgram => "wrong_program",
            Error::BalanceUnsearchable => "balance_unsearchable",
            Error::AuthFailure => "auth_failure",
            Error::ProofConstructionFailed(_) => "proof_construction_failed",
            Error::InsufficientBalance => "insufficient_balance",
            Error::MintMismatch => "mint_mismatch",
            Error::AmountOutOfRange => "amount_out_of_range",
            Error::UnsupportedOperation => "unsupported_operation",
        }
    }
}

} // verus!
