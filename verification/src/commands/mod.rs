//! The operations, one module each, and the table of what each of them
//! submits. Every operation is planned from plain values that the caller
//! has read from the chain and is handed back as a transaction plan;
//! reading and submitting are the caller's part.
pub mod apply_balance;
pub mod balance;
pub mod create_account;
pub mod create_mint;
pub mod deposit;
pub mod transfer;
pub mod withdraw;

use crate::bytes::bytes_equal;
use crate::error::ProofKind;
use crate::instruction::{
    Instruction, InstructionView, CONFIDENTIAL_TRANSFER_TAG, PROOF_PROGRAM_ID, SYSTEM_PROGRAM_ID,
    TOKEN_PROGRAM_ID,
};
use crate::proofs::is_verify_instruction;
use crate::transaction::TransactionPlan;
use vstd::prelude::*;

verus! {

/// The operations and their arguments, as they are given on the command
/// line. Public keys are base58 text, amounts are raw base units.
#[derive(Clone, Debug, PartialEq, Eq)]
pub enum Commands {
    /// Create a mint that supports confidential transfers.
    CreateMint { authority: Option<String>, decimals: u8 },
    /// Create a token account and configure it for confidential transfers.
    CreateAccount { mint: String, owner: Option<String> },
    /// Move tokens from the public to the pending confidential balance.
    Deposit { account: String, amount: u64 },
    /// Fold the pending balance into the available balance.
    ApplyBalance { account: String },
    /// Prepare a confidential transfer.
    ConfidentialTransfer { from: String, to: String, amount: u64 },
    /// Move tokens from the available confidential to the public balance.
    Withdraw { account: String, amount: u64 },
    /// Report the confidential balances of an account.
    Balance { account: String },
}

/// The kinds of operation.
#[derive(Clone, Copy, Debug, PartialEq, Eq, Structural)]
pub enum Operation {
    CreateMint,
    CreateAccount,
    Deposit,
    ApplyBalance,
    ConfidentialTransfer,
    Withdraw,
    Balance,
}

/// The kinds of instruction that the operations submit.
#[derive(Clone, Copy, Debug, PartialEq, Eq, Structural)]
pub enum Step {
    /// The system program allocates and funds an account.
    Allocate,
    /// The confidential-transfer extension of a mint is initialised.
    InitializeConfidentialMint,
    /// A mint is initialised.
    InitializeMint,
    /// A token account is initialised.
    InitializeAccount,
    /// A proof of the given kind is verified.
    Verify(ProofKind),
    /// A token account is configured for confidential transfers.
    ConfigureAccount,
    /// Tokens are deposited into the pending balance.
    Deposit,
    /// The pending balance is applied.
    ApplyPendingBalance,
    /// Tokens are withdrawn from the available balance.
    Withdraw,
}

impl Commands {
    /// The kind of operation that a command asks for.
    pub open spec fn spec_operation(&self) -> Operation {
        match self {
            Commands::CreateMint { .. } => Operation::CreateMint,
            Commands::CreateAccount { .. } => Operation::CreateAccount,
            Commands::Deposit { .. } => Operation::Deposit,
            Commands::ApplyBalance { .. } => Operation::ApplyBalance,
            Commands::ConfidentialTransfer { .. } => Operation::ConfidentialTransfer,
            Commands::Withdraw { .. } => Operation::Withdraw,
            Commands::Balance { .. } => Operation::Balance,
        }
    }

    /// The kind of operation that a command asks for.
    pub fn operation(&self) -> (operation: Operation)
        ensures
            operation == self.spec_operation(),
    {
        match self {
            Commands::CreateMint { .. } => Operation::CreateMint,
            Commands::CreateAccount { .. } => Operation::CreateAccount,
            Commands::Deposit { .. } => Operation::Deposit,
            Commands::ApplyBalance { .. } => Operation::ApplyBalance,
            Commands::ConfidentialTransfer { .. } => Operation::ConfidentialTransfer,
            Commands::Withdraw { .. } => Operation::Withdraw,
            Commands::Balance { .. } => Operation::Balance,
        }
    }
}

impl Operation {
    /// The instructions that an operation submits, in order. The last one
    /// acts; the verify instructions stand before it. Reporting a balance
    /// reads only, and a confidential transfer is never submitted.
    pub open spec fn spec_recipe(self) -> Seq<Step> {
        match self {
            Operation::CreateMint => seq![
                Step::Allocate,
                Step::InitializeConfidentialMint,
                Step::InitializeMint,
            ],
            Operation::CreateAccount => seq![
                Step::Allocate,
                Step::InitializeAccount,
                Step::Verify(ProofKind::PubkeyValidity),
                Step::ConfigureAccount,
            ],
            Operation::Deposit => seq![Step::Deposit],
            Operation::ApplyBalance => seq![Step::ApplyPendingBalance],
            Operation::Withdraw => seq![
                Step::Verify(ProofKind::CiphertextCommitmentEquality),
                Step::Verify(ProofKind::BatchedRangeU64),
                Step::Withdraw,
            ],
            Operation::ConfidentialTransfer => Seq::empty(),
            Operation::Balance => Seq::empty(),
        }
    }

    /// The offsets by which the acting instruction of an operation refers
    /// to its proofs, in the order of the proofs.
    pub open spec fn spec_offsets(self) -> Seq<i8> {
        match self {
            Operation::CreateAccount => seq![-1i8],
            Operation::Withdraw => seq![-2i8, -1i8],
            _ => Seq::empty(),
        }
    }

    /// The instructions that an operation submits, in order.
    pub fn recipe(self) -> (steps: Vec<Step>)
        ensures
            steps@ == self.spec_recipe(),
    {
        let mut steps: Vec<Step> = Vec::new();
        match self {
            Operation::CreateMint => {
                steps.push(Step::Allocate);
                steps.push(Step::InitializeConfidentialMint);
                steps.push(Step::InitializeMint);
            },
            Operation::CreateAccount => {
                steps.push(Step::Allocate);
                steps.push(Step::InitializeAccount);
                steps.push(Step::Verify(ProofKind::PubkeyValidity));
                steps.push(Step::ConfigureAccount);
            },
            Operation::Deposit => {
                steps.push(Step::Deposit);
            },
            Operation::ApplyBalance => {
                steps.push(Step::ApplyPendingBalance);
            },
            Operation::Withdraw => {
                steps.push(Step::Verify(ProofKind::CiphertextCommitmentEquality));
                steps.push(Step::Verify(ProofKind::BatchedRangeU64));
                steps.push(Step::Withdraw);
            },
            Operation::ConfidentialTransfer => {},
            Operation::Balance => {},
        }
        assert(steps@ =~= self.spec_recipe());
        steps
    }

    /// The offsets by which the acting instruction of an operation refers
    /// to its proofs.
    pub fn offsets(self) -> (offsets: Vec<i8>)
        ensures
            offsets@ == self.spec_offsets(),
    {
        let mut offsets: Vec<i8> = Vec::new();
        match self {
            Operation::CreateAccount => {
                offsets.push(-1);
            },
            Operation::Withdraw => {
                offsets.push(-2);
                offsets.push(-1);
            },
            _ => {},
        }
        assert(offsets@ =~= self.spec_offsets());
        offsets
    }
}

/// Whether an instruction is addressed to the token program and starts
/// with the tag of the confidential-transfer extension and the given index.
pub open spec fn is_confidential(ix: InstructionView, index: u8) -> bool {
    &&& ix.program_id == TOKEN_PROGRAM_ID@
    &&& ix.data.len() >= 2
    &&& ix.data[0] == CONFIDENTIAL_TRANSFER_TAG
    &&& ix.data[1] == index
}

/// Whether an instruction is of the given kind, judged by the program it is
/// addressed to and by the tags that its data starts with.
pub open spec fn is_step(ix: InstructionView, step: Step) -> bool {
    match step {
        Step::Allocate => {
            &&& ix.program_id == SYSTEM_PROGRAM_ID@
            &&& ix.data.len() >= 4
            &&& ix.data[0] == 0
            &&& ix.data[1] == 0
            &&& ix.data[2] == 0
            &&& ix.data[3] == 0
        },
        Step::InitializeConfidentialMint => is_confidential(ix, 0),
        Step::InitializeMint => {
            &&& ix.program_id == TOKEN_PROGRAM_ID@
            &&& ix.data.len() >= 1
            &&& ix.data[0] == 0
        },
        Step::InitializeAccount => {
            &&& ix.program_id == TOKEN_PROGRAM_ID@
            &&& ix.data.len() >= 1
            &&& ix.data[0] == 1
        },
        Step::Verify(kind) => is_verify_instruction(ix, kind),
        Step::ConfigureAccount => is_confidential(ix, 2),
        Step::Deposit => is_confidential(ix, 5),
        Step::Withdraw => is_confidential(ix, 6),
        Step::ApplyPendingBalance => is_confidential(ix, 8),
    }
}

/// Whether a plan is laid out as the table says of the operation: its
/// instructions are of the kinds of the recipe, in order; the last one
/// acts; the offsets of its references are those of the table.
pub open spec fn follows_recipe(plan: TransactionPlan, operation: Operation) -> bool {
    let recipe = operation.spec_recipe();
    let offsets = operation.spec_offsets();
    &&& plan.instructions@.len() == recipe.len()
    &&& forall|i: int|
        0 <= i < recipe.len() ==> is_step((#[trigger] plan.instructions@[i])@, recipe[i])
    &&& plan.action + 1 == recipe.len()
    &&& plan.references@.len() == offsets.len()
    &&& forall|k: int|
        0 <= k < offsets.len() ==> (#[trigger] plan.references@[k]).offset == offsets[k]
}

/// Whether an instruction is of the given kind.
pub fn check_step(ix: &Instruction, step: Step) -> (fits: bool)
    ensures
        fits == is_step(ix@, step),
{
    let data = &ix.data;
    let confidential = bytes_equal(ix.program_id.as_slice(), TOKEN_PROGRAM_ID.as_slice())
        && data.len() >= 2 && data[0] == CONFIDENTIAL_TRANSFER_TAG;
    match step {
        Step::Allocate => bytes_equal(ix.program_id.as_slice(), SYSTEM_PROGRAM_ID.as_slice())
            && data.len() >= 4 && data[0] == 0 && data[1] == 0 && data[2] == 0 && data[3] == 0,
        Step::InitializeConfidentialMint => confidential && data[1] == 0,
        Step::InitializeMint => bytes_equal(
            ix.program_id.as_slice(),
            TOKEN_PROGRAM_ID.as_slice(),
        ) && data.len() >= 1 && data[0] == 0,
        Step::InitializeAccount => bytes_equal(
            ix.program_id.as_slice(),
            TOKEN_PROGRAM_ID.as_slice(),
        ) && data.len() >= 1 && data[0] == 1,
        Step::Verify(kind) => bytes_equal(ix.program_id.as_slice(), PROOF_PROGRAM_ID.as_slice())
            && data.len() >= 1 && data[0] == kind.discriminator(),
        Step::ConfigureAccount => confidential && data[1] == 2,
        Step::Deposit => confidential && data[1] == 5,
        Step::Withdraw => confidential && data[1] == 6,
        Step::ApplyPendingBalance => confidential && data[1] == 8,
    }
}

/// Whether a plan is laid out as the table says of the operation.
pub fn check_recipe(plan: &TransactionPlan, operation: Operation) -> (follows: bool)
    ensures
        follows == follows_recipe(*plan, operation),
{
    let recipe = operation.recipe();
    let offsets = operation.offsets();
    if plan.instructions.len() != recipe.len() || plan.references.len() != offsets.len() {
        return false;
    }
    if recipe.len() == 0 || plan.action != recipe.len() - 1 {
        return false;
    }
    let mut i: usize = 0;
    while i < recipe.len()
        invariant
            i <= recipe@.len(),
            recipe@ == operation.spec_recipe(),
            plan.instructions@.len() == recipe@.len(),
            forall|m: int| 0 <= m < i ==> is_step((#[trigger] plan.instructions@[m])@, recipe@[m]),
        decreases recipe@.len() - i,
    {
        if !check_step(&plan.instructions[i], recipe[i]) {
            return false;
        }
        i = i + 1;
    }
    let mut k: usize = 0;
    while k < offsets.len()
        invariant
            k <= offsets@.len(),
            offsets@ == operation.spec_offsets(),
            plan.references@.len() == offsets@.len(),
            forall|m: int| 0 <= m < k ==> (#[trigger] plan.references@[m]).offset == offsets@[m],
        decreases offsets@.len() - k,
    {
        if plan.references[k].offset != offsets[k] {
            return false;
        }
        k = k + 1;
    }
    true
}

} // verus!
