use confidential_cli::error::ProofKind;
use confidential_cli::instruction::{AccountMeta, Address, Instruction, PROOF_PROGRAM_ID};
use confidential_cli::transaction::{
    assemble, check_offsets, encode_offset, relative_offset, required_signers, PlanFault,
    ProofReference,
};

fn address(byte: u8) -> Address {
    Address { bytes: [byte; 32] }
}

fn verify(tag: u8) -> Instruction {
    Instruction { program_id: PROOF_PROGRAM_ID, accounts: vec![], data: vec![tag, 1, 2, 3] }
}

fn action(data: Vec<u8>) -> Instruction {
    Instruction {
        program_id: [9; 32],
        accounts: vec![
            AccountMeta { pubkey: [2; 32], is_signer: false, is_writable: true },
            AccountMeta { pubkey: [3; 32], is_signer: true, is_writable: false },
        ],
        data,
    }
}

fn reference(kind: ProofKind, offset: i8, encoded_at: usize) -> ProofReference {
    ProofReference { kind, offset, encoded_at }
}

#[test]
fn relative_offsets_are_computed_from_positions() {
    assert_eq!(relative_offset(2, 0), Some(-2));
    assert_eq!(relative_offset(2, 1), Some(-1));
    assert_eq!(relative_offset(3, 2), Some(-1));
    assert_eq!(relative_offset(0, 1), Some(1));
    assert_eq!(relative_offset(5, 5), None);
    assert_eq!(relative_offset(128, 0), Some(-128));
    assert_eq!(relative_offset(129, 0), None);
    assert_eq!(relative_offset(0, 127), Some(127));
    assert_eq!(relative_offset(0, 128), None);
    assert_eq!(relative_offset(usize::MAX, 0), None);
    assert_eq!(relative_offset(0, usize::MAX), None);
}

#[test]
fn offsets_are_encoded_in_twos_complement() {
    assert_eq!(encode_offset(-1), 0xFF);
    assert_eq!(encode_offset(-2), 0xFE);
    assert_eq!(encode_offset(-128), 0x80);
    assert_eq!(encode_offset(0), 0);
    assert_eq!(encode_offset(1), 1);
    assert_eq!(encode_offset(127), 0x7F);
    for offset in i8::MIN..=i8::MAX {
        assert_eq!(encode_offset(offset), offset as u8);
    }
}

#[test]
fn a_plan_whose_offsets_match_is_accepted() {
    let instructions = vec![verify(3), verify(6), action(vec![0, 0xFE, 0xFF])];
    let references = vec![
        reference(ProofKind::CiphertextCommitmentEquality, -2, 1),
        reference(ProofKind::BatchedRangeU64, -1, 2),
    ];
    assert_eq!(check_offsets(&instructions, 2, &references), None);
    let plan = assemble(address(1), instructions.clone(), 2, references.clone()).unwrap();
    assert_eq!(plan.instructions, instructions);
    assert_eq!(plan.action, 2);
    assert_eq!(plan.references, references);
    assert_eq!(plan.fee_payer, address(1));
    assert_eq!(plan.signers, vec![address(1), address(3)]);
}

#[test]
fn a_proof_may_stand_behind_the_action() {
    let instructions = vec![action(vec![1, 2]), verify(4), verify(3)];
    let references = vec![
        reference(ProofKind::PubkeyValidity, 1, 0),
        reference(ProofKind::CiphertextCommitmentEquality, 2, 1),
    ];
    assert_eq!(check_offsets(&instructions, 0, &references), None);
}

#[test]
fn a_plan_without_its_action_is_refused() {
    let instructions = vec![verify(3)];
    assert_eq!(check_offsets(&instructions, 1, &vec![]), Some(PlanFault::NoAction));
    assert_eq!(check_offsets(&vec![], 0, &vec![]), Some(PlanFault::NoAction));
    assert_eq!(assemble(address(1), vec![], 0, vec![]), Err(PlanFault::NoAction));
}

#[test]
fn an_offset_that_leads_nowhere_is_refused() {
    let instructions = vec![verify(3), action(vec![0xFE, 0, 1])];
    let out = Some(PlanFault::OffsetOutOfRange);
    let kind = ProofKind::CiphertextCommitmentEquality;
    assert_eq!(check_offsets(&instructions, 1, &vec![reference(kind, -2, 0)]), out);
    assert_eq!(check_offsets(&instructions, 1, &vec![reference(kind, 0, 1)]), out);
    assert_eq!(check_offsets(&instructions, 1, &vec![reference(kind, 1, 2)]), out);
    assert_eq!(check_offsets(&instructions, 1, &vec![reference(kind, -128, 0)]), out);
    assert_eq!(check_offsets(&instructions, 1, &vec![reference(kind, 127, 0)]), out);
}

#[test]
fn an_offset_that_leads_to_another_instruction_is_refused() {
    let kind = ProofKind::CiphertextCommitmentEquality;
    let wrong = Some(PlanFault::NotAVerifyInstruction);
    let swapped = vec![verify(6), verify(3), action(vec![0xFE])];
    assert_eq!(check_offsets(&swapped, 2, &vec![reference(kind, -2, 0)]), wrong);
    let other_program = vec![action(vec![3]), action(vec![0xFF])];
    assert_eq!(check_offsets(&other_program, 1, &vec![reference(kind, -1, 0)]), wrong);
    let mut empty = verify(3);
    empty.data.clear();
    let no_data = vec![empty, action(vec![0xFF])];
    assert_eq!(check_offsets(&no_data, 1, &vec![reference(kind, -1, 0)]), wrong);
}

#[test]
fn an_offset_that_the_action_does_not_hold_is_refused() {
    let kind = ProofKind::CiphertextCommitmentEquality;
    let missing = Some(PlanFault::OffsetNotEncoded);
    let instructions = vec![verify(3), verify(6), action(vec![0xFF, 0xFE])];
    assert_eq!(check_offsets(&instructions, 2, &vec![reference(kind, -2, 0)]), missing);
    assert_eq!(check_offsets(&instructions, 2, &vec![reference(kind, -2, 2)]), missing);
    assert_eq!(check_offsets(&instructions, 2, &vec![reference(kind, -2, 1)]), None);
    let plan = assemble(address(1), instructions, 2, vec![reference(kind, -2, 0)]);
    assert_eq!(plan, Err(PlanFault::OffsetNotEncoded));
}

#[test]
fn the_first_faulty_reference_decides() {
    let instructions = vec![verify(3), verify(6), action(vec![0xFE, 0xFF])];
    let references = vec![
        reference(ProofKind::CiphertextCommitmentEquality, -2, 0),
        reference(ProofKind::PubkeyValidity, -1, 1),
        reference(ProofKind::BatchedRangeU64, -3, 1),
    ];
    assert_eq!(check_offsets(&instructions, 2, &references), Some(PlanFault::NotAVerifyInstruction));
    let references = vec![
        reference(ProofKind::BatchedRangeU64, -3, 1),
        reference(ProofKind::PubkeyValidity, -1, 1),
    ];
    assert_eq!(check_offsets(&instructions, 2, &references), Some(PlanFault::OffsetOutOfRange));
}

#[test]
fn a_reordered_recipe_is_refused() {
    let references = vec![
        reference(ProofKind::CiphertextCommitmentEquality, -2, 0),
        reference(ProofKind::BatchedRangeU64, -1, 1),
    ];
    let in_order = vec![verify(3), verify(6), action(vec![0xFE, 0xFF])];
    assert!(assemble(address(1), in_order, 2, references.clone()).is_ok());
    let proofs_swapped = vec![verify(6), verify(3), action(vec![0xFE, 0xFF])];
    assert_eq!(
        assemble(address(1), proofs_swapped, 2, references.clone()),
        Err(PlanFault::NotAVerifyInstruction)
    );
    let action_first = vec![action(vec![0xFE, 0xFF]), verify(3), verify(6)];
    assert_eq!(
        assemble(address(1), action_first, 0, references),
        Err(PlanFault::OffsetOutOfRange)
    );
}

#[test]
fn the_signers_are_the_fee_payer_and_every_signing_account_once() {
    let meta = |byte: u8, is_signer: bool| AccountMeta {
        pubkey: [byte; 32],
        is_signer,
        is_writable: false,
    };
    let first = Instruction {
        program_id: [9; 32],
        accounts: vec![meta(5, true), meta(6, false), meta(1, true)],
        data: vec![],
    };
    let second = Instruction {
        program_id: [9; 32],
        accounts: vec![meta(7, true), meta(5, true), meta(6, false), meta(8, true)],
        data: vec![],
    };
    let signers = required_signers(&address(1), &vec![first, second]);
    assert_eq!(signers, vec![address(1), address(5), address(7), address(8)]);
    assert_eq!(required_signers(&address(1), &vec![]), vec![address(1)]);
    assert_eq!(required_signers(&address(2), &vec![verify(3)]), vec![address(2)]);
}
