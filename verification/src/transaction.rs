//! Transaction plans: an ordered list of instructions together with the map
//! of where the acting instruction expects its proofs.
//!
//! The token program finds a proof by a signed offset that the acting
//! instruction carries: the position of the verify instruction relative to
//! the acting one. A plan is accepted only if every such offset, as it is
//! encoded in the acting instruction's data, names a verify instruction of
//! the right kind in the final list.
use crate::bytes::bytes_equal;
use crate::error::ProofKind;
use crate::instruction::{offset_byte, Address, Instruction, InstructionView, PROOF_PROGRAM_ID};
use crate::proofs::is_verify_instruction;
use vstd::prelude::*;

verus! {

/// One proof that the acting instruction of a plan relies on.
#[derive(Clone, Copy, Debug, PartialEq, Eq)]
pub struct ProofReference {
    /// The kind of proof that is expected.
    pub kind: ProofKind,
    /// The position of the verify instruction, relative to the acting one.
    pub offset: i8,
    /// The index, in the acting instruction's data, of the byte that holds
    /// the offset.
    pub encoded_at: usize,
}

/// Why a plan was refused.
#[derive(Clone, Copy, Debug, PartialEq, Eq, Structural)]
pub enum PlanFault {
    /// The plan names an acting instruction that is not in its list.
    NoAction,
    /// An offset is zero or leads outside the list.
    OffsetOutOfRange,
    /// The instruction that an offset leads to does not verify a proof of
    /// the expected kind.
    NotAVerifyInstruction,
    /// The acting instruction does not hold the offset at the stated place.
    OffsetNotEncoded,
}

/// A transaction that is ready to be signed and submitted.
#[derive(Clone, Debug, PartialEq, Eq)]
pub struct TransactionPlan {
    /// The instructions, in the order in which they run.
    pub instructions: Vec<Instruction>,
    /// The index of the acting instruction.
    pub action: usize,
    /// The proofs that the acting instruction relies on.
    pub references: Vec<ProofReference>,
    /// The account that pays the fee. It signs first.
    pub fee_payer: Address,
    /// Every account that has to sign, the fee payer first.
    pub signers: Vec<Address>,
}

/// The mathematical values of a list of instructions.
pub open spec fn steps(instructions: Seq<Instruction>) -> Seq<InstructionView> {
    instructions.map_values(|ix: Instruction| ix@)
}

/// Whether the account `account` of instruction `instruction` signs.
pub open spec fn signs_at(instructions: Seq<Instruction>, instruction: int, account: int) -> bool {
    &&& 0 <= instruction < instructions.len()
    &&& 0 <= account < instructions[instruction].accounts@.len()
    &&& instructions[instruction].accounts@[account].is_signer
}

/// The address of the account `account` of instruction `instruction`.
pub open spec fn key_at(instructions: Seq<Instruction>, instruction: int, account: int) -> Seq<u8> {
    instructions[instruction].accounts@[account].pubkey@
}

/// Whether some instruction names `key` as a signing account.
pub open spec fn signs(instructions: Seq<Instruction>, key: Seq<u8>) -> bool {
    exists|i: int, j: int| #[trigger]
        signs_at(instructions, i, j) && key_at(instructions, i, j) == key
}

/// Whether `key` is among `signers`.
pub open spec fn listed(signers: Seq<Address>, key: Seq<u8>) -> bool {
    exists|k: int| 0 <= k < signers.len() && (#[trigger] signers[k]).bytes@ == key
}

/// Whether `signers` is the list of accounts that have to sign
/// `instructions`: the fee payer first, then every account that an
/// instruction names as signing, each account once and no other.
pub open spec fn is_signer_list(
    signers: Seq<Address>,
    fee_payer: Address,
    instructions: Seq<Instruction>,
) -> bool {
    &&& signers.len() >= 1
    &&& signers[0].bytes@ == fee_payer.bytes@
    &&& forall|a: int, b: int|
        0 <= a < b < signers.len() ==> (#[trigger] signers[a]).bytes@ != (#[trigger] signers[b]).bytes@
    &&& forall|k: int| 1 <= k < signers.len() ==> signs(instructions, (#[trigger] signers[k]).bytes@)
    &&& forall|i: int, j: int| #[trigger]
        signs_at(instructions, i, j) ==> listed(signers, key_at(instructions, i, j))
}

/// What is wrong with one reference, if anything: the offset must be
/// non-zero and lead to an instruction of the list, that instruction must
/// verify a proof of the expected kind, and the acting instruction must hold
/// the offset at the stated place.
pub open spec fn reference_fault(
    instructions: Seq<Instruction>,
    action: int,
    reference: ProofReference,
) -> Option<PlanFault> {
    let target = action + reference.offset;
    if reference.offset == 0 || target < 0 || target >= instructions.len() {
        Some(PlanFault::OffsetOutOfRange)
    } else if !is_verify_instruction(instructions[target]@, reference.kind) {
        Some(PlanFault::NotAVerifyInstruction)
    } else if reference.encoded_at >= instructions[action].data@.len()
        || instructions[action].data@[reference.encoded_at as int] != offset_byte(
        reference.offset,
    ) {
        Some(PlanFault::OffsetNotEncoded)
    } else {
        None
    }
}

/// The fault of the first faulty reference among the first `count`, if
/// there is one.
pub open spec fn first_fault(
    instructions: Seq<Instruction>,
    action: int,
    references: Seq<ProofReference>,
    count: nat,
) -> Option<PlanFault>
    decreases count,
{
    if count == 0 {
        None
    } else {
        match first_fault(instructions, action, references, (count - 1) as nat) {
            Some(fault) => Some(fault),
            None => reference_fault(instructions, action, references[count - 1]),
        }
    }
}

/// What is wrong with a plan, if anything.
pub open spec fn plan_fault(
    instructions: Seq<Instruction>,
    action: usize,
    references: Seq<ProofReference>,
) -> Option<PlanFault> {
    if action >= instructions.len() {
        Some(PlanFault::NoAction)
    } else {
        first_fault(instructions, action as int, references, references.len())
    }
}

/// Whether every offset that the acting instruction encodes is the actual
/// position, relative to it, of a verify instruction of the expected kind.
pub open spec fn offsets_match(
    instructions: Seq<Instruction>,
    action: usize,
    references: Seq<ProofReference>,
) -> bool {
    &&& action < instructions.len()
    &&& forall|k: int|
        0 <= k < references.len() ==> reference_fault(
            instructions,
            action as int,
            #[trigger] references[k],
        ) is None
}

impl TransactionPlan {
    /// The offsets match the placement, and the signers are those of the
    /// instructions.
    pub open spec fn well_formed(&self) -> bool {
        &&& offsets_match(self.instructions@, self.action, self.references@)
        &&& is_signer_list(self.signers@, self.fee_payer, self.instructions@)
    }
}

/// A plan has no fault exactly if its offsets match its placement.
pub proof fn lemma_no_fault_iff_offsets_match(
    instructions: Seq<Instruction>,
    action: usize,
    references: Seq<ProofReference>,
)
    ensures
        plan_fault(instructions, action, references) is None <==> offsets_match(
            instructions,
            action,
            references,
        ),
{
    if action < instructions.len() {
        lemma_first_fault(instructions, action as int, references, references.len());
    }
}

proof fn lemma_first_fault(
    instructions: Seq<Instruction>,
    action: int,
    references: Seq<ProofReference>,
    count: nat,
)
    requires
        count <= references.len(),
    ensures
        first_fault(instructions, action, references, count) is None <==> forall|k: int|
            0 <= k < count ==> reference_fault(instructions, action, #[trigger] references[k])
                is None,
    decreases count,
{
    if count > 0 {
        lemma_first_fault(instructions, action, references, (count - 1) as nat);
    }
}

/// The position of the instruction at `target` relative to the one at
/// `action`, where it fits in a signed byte and is not zero.
pub fn relative_offset(action: usize, target: usize) -> (offset: Option<i8>)
    ensures
        match offset {
            Some(d) => d == target - action && d != 0,
            None => target == action || target - action < -128 || target - action > 127,
        },
{
    if target > action {
        let ahead = target - action;
        if ahead <= 127 {
            Some(ahead as i8)
        } else {
            None
        }
    } else if target < action {
        let back = action - target;
        if back <= 128 {
            Some((0 - (back as i16)) as i8)
        } else {
            None
        }
    } else {
        None
    }
}

/// The byte that encodes a signed offset.
pub fn encode_offset(offset: i8) -> (byte: u8)
    ensures
        byte == offset_byte(offset),
{
    if offset >= 0 {
        offset as u8
    } else {
        ((offset as i16) + 256) as u8
    }
}

/// Looks for a fault in one reference.
fn check_reference(instructions: &Vec<Instruction>, action: usize, reference: &ProofReference) -> (fault:
    Option<PlanFault>)
    requires
        action < instructions@.len(),
    ensures
        fault == reference_fault(instructions@, action as int, *reference),
{
    if reference.offset == 0 {
        return Some(PlanFault::OffsetOutOfRange);
    }
    let target: usize = if reference.offset > 0 {
        let ahead = reference.offset as usize;
        if ahead >= instructions.len() - action {
            return Some(PlanFault::OffsetOutOfRange);
        }
        action + ahead
    } else {
        let back = (0 - (reference.offset as i16)) as usize;
        if back > action {
            return Some(PlanFault::OffsetOutOfRange);
        }
        action - back
    };
    assert(target == action + reference.offset);
    let verify = &instructions[target];
    if !bytes_equal(verify.program_id.as_slice(), PROOF_PROGRAM_ID.as_slice()) || verify.data.len()
        < 1 || verify.data[0] != reference.kind.discriminator() {
        return Some(PlanFault::NotAVerifyInstruction);
    }
    let data = &instructions[action].data;
    if reference.encoded_at >= data.len() || data[reference.encoded_at] != encode_offset(
        reference.offset,
    ) {
        return Some(PlanFault::OffsetNotEncoded);
    }
    None
}

/// Cross-checks the offsets of a plan against its final instruction list.
pub fn check_offsets(
    instructions: &Vec<Instruction>,
    action: usize,
    references: &Vec<ProofReference>,
) -> (fault: Option<PlanFault>)
    ensures
        fault == plan_fault(instructions@, action, references@),
        fault is None <==> offsets_match(instructions@, action, references@),
{
    proof {
        lemma_no_fault_iff_offsets_match(instructions@, action, references@);
    }
    if action >= instructions.len() {
        return Some(PlanFault::NoAction);
    }
    let mut k: usize = 0;
    while k < references.len()
        invariant
            k <= references@.len(),
            action < instructions@.len(),
            first_fault(instructions@, action as int, references@, k as nat) is None,
        decreases references@.len() - k,
    {
        let fault = check_reference(instructions, action, &references[k]);
        if fault.is_some() {
            proof {
                lemma_fault_stays(instructions@, action as int, references@, (k + 1) as nat);
            }
            return fault;
        }
        k = k + 1;
    }
    None
}

proof fn lemma_fault_stays(
    instructions: Seq<Instruction>,
    action: int,
    references: Seq<ProofReference>,
    count: nat,
)
    requires
        count <= references.len(),
        first_fault(instructions, action, references, count) is Some,
    ensures
        first_fault(instructions, action, references, references.len()) == first_fault(
            instructions,
            action,
            references,
            count,
        ),
    decreases references.len() - count,
{
    if count < references.len() {
        lemma_fault_stays(instructions, action, references, count + 1);
    }
}

/// Whether `key` is among `signers`.
fn is_listed(signers: &Vec<Address>, key: &[u8; 32]) -> (found: bool)
    ensures
        found == listed(signers@, key@),
{
    let mut k: usize = 0;
    while k < signers.len()
        invariant
            k <= signers@.len(),
            forall|m: int| 0 <= m < k ==> (#[trigger] signers@[m]).bytes@ != key@,
        decreases signers@.len() - k,
    {
        if bytes_equal(signers[k].bytes.as_slice(), key.as_slice()) {
            return true;
        }
        k = k + 1;
    }
    false
}

/// The accounts that have to sign a list of instructions: the fee payer
/// first, then every account that an instruction names as signing, in the
/// order in which they first occur.
pub fn required_signers(fee_payer: &Address, instructions: &Vec<Instruction>) -> (signers: Vec<
    Address,
>)
    ensures
        is_signer_list(signers@, *fee_payer, instructions@),
{
    let mut signers: Vec<Address> = Vec::new();
    signers.push(*fee_payer);
    let mut i: usize = 0;
    while i < instructions.len()
        invariant
            i <= instructions@.len(),
            signers@.len() >= 1,
            signers@[0].bytes@ == fee_payer.bytes@,
            forall|a: int, b: int|
                0 <= a < b < signers@.len() ==> (#[trigger] signers@[a]).bytes@ != (
                #[trigger] signers@[b]).bytes@,
            forall|k: int|
                1 <= k < signers@.len() ==> signs(instructions@, (#[trigger] signers@[k]).bytes@),
            forall|p: int, q: int| #[trigger]
                signs_at(instructions@, p, q) && p < i ==> listed(
                    signers@,
                    key_at(instructions@, p, q),
                ),
        decreases instructions@.len() - i,
    {
        let accounts = &instructions[i].accounts;
        let mut j: usize = 0;
        while j < accounts.len()
            invariant
                i < instructions@.len(),
                accounts@ == instructions@[i as int].accounts@,
                j <= accounts@.len(),
                signers@.len() >= 1,
                signers@[0].bytes@ == fee_payer.bytes@,
                forall|a: int, b: int|
                    0 <= a < b < signers@.len() ==> (#[trigger] signers@[a]).bytes@ != (
                    #[trigger] signers@[b]).bytes@,
                forall|k: int|
                    1 <= k < signers@.len() ==> signs(
                        instructions@,
                        (#[trigger] signers@[k]).bytes@,
                    ),
                forall|p: int, q: int| #[trigger]
                    signs_at(instructions@, p, q) && (p < i || (p == i && q < j)) ==> listed(
                        signers@,
                        key_at(instructions@, p, q),
                    ),
            decreases accounts@.len() - j,
        {
            let meta = &accounts[j];
            if meta.is_signer {
                let ghost before = signers@;
                if !is_listed(&signers, &meta.pubkey) {
                    signers.push(Address { bytes: meta.pubkey });
                    proof {
                        let last = signers@.len() - 1;
                        assert(signs_at(instructions@, i as int, j as int));
                        assert(key_at(instructions@, i as int, j as int) == signers@[last].bytes@);
                        assert forall|a: int, b: int| 0 <= a < b < signers@.len() implies (
                        #[trigger] signers@[a]).bytes@ != (#[trigger] signers@[b]).bytes@ by {
                            if b == last {
                                assert(before[a].bytes@ != meta.pubkey@);
                            }
                        }
                    }
                }
                proof {
                    assert forall|p: int, q: int| #[trigger]
                        signs_at(instructions@, p, q) && (p < i || (p == i && q < j + 1)) implies listed(
                        signers@,
                        key_at(instructions@, p, q),
                    ) by {
                        if p == i && q == j {
                            if listed(before, meta.pubkey@) {
                                let k = choose|k: int|
                                    0 <= k < before.len() && (#[trigger] before[k]).bytes@
                                        == meta.pubkey@;
                                assert(signers@[k].bytes@ == meta.pubkey@);
                            } else {
                                assert(signers@[signers@.len() - 1].bytes@ == meta.pubkey@);
                            }
                        } else {
                            let key = key_at(instructions@, p, q);
                            assert(listed(before, key));
                            let k = choose|k: int|
                                0 <= k < before.len() && (#[trigger] before[k]).bytes@ == key;
                            assert(signers@[k].bytes@ == key);
                        }
                    }
                }
            }
            j = j + 1;
        }
        i = i + 1;
    }
    signers
}

/// Makes a plan of a list of instructions, after cross-checking the
/// offsets that the acting instruction encodes against the list. A list
/// whose offsets do not match is refused with its first fault.
pub fn assemble(
    fee_payer: Address,
    instructions: Vec<Instruction>,
    action: usize,
    references: Vec<ProofReference>,
) -> (plan: Result<TransactionPlan, PlanFault>)
    ensures
        match plan {
            Ok(p) => {
                &&& offsets_match(instructions@, action, references@)
                &&& p.instructions == instructions
                &&& p.action == action
                &&& p.references == references
                &&& p.fee_payer == fee_payer
                &&& p.well_formed()
            },
            Err(fault) => {
                &&& !offsets_match(instructions@, action, references@)
                &&& plan_fault(instructions@, action, references@) == Some(fault)
            },
        },
{
    match check_offsets(&instructions, action, &references) {
        Some(fault) => Err(fault),
        None => {
            let signers = required_signers(&fee_payer, &instructions);
            Ok(TransactionPlan { instructions, action, references, fee_payer, signers })
        },
    }
}

} // verus!
