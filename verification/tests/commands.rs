use confidential_cli::account::ConfidentialAccountState;
use confidential_cli::commands::apply_balance::{apply_pending, Outcome};
use confidential_cli::commands::balance::summarize;
use confidential_cli::commands::transfer::{validate, TransferPreview};
use confidential_cli::commands::{apply_balance, balance, create_account, transfer, withdraw, Commands};
use confidential_cli::crypto::{
    Opening,
    decrypt_balance_ak, try_derive_aes_key, try_derive_elgamal_keypair, encrypt_amount_hk,
    encrypt_balance_ak, AkCipher, ElGamalCipher, SigningKey,
};
use spl_token_2022::solana_zk_sdk::encryption::pedersen::PedersenOpening;
use confidential_cli::error::{Error, ProofKind};
use confidential_cli::instruction::{Address, PROOF_PROGRAM_ID, TOKEN_PROGRAM_ID};
use confidential_cli::proofs::{
    equality_proof, pubkey_validity_proof, range_proof_u64, try_equality_proof,
    try_range_proof_u64,
};
use confidential_cli::transaction::check_offsets;
use confidential_cli::utils::MAX_TRANSFER_AMOUNT;
use solana_sdk::signature::{Keypair, Signer};
use spl_token_2022::solana_zk_sdk::zk_elgamal_proof_program::proof_data::{
    BatchedRangeProofU64Data, CiphertextCommitmentEqualityProofData, PubkeyValidityProofData,
    ZkProofData,
};

fn owner() -> SigningKey {
    SigningKey { bytes: Keypair::new_from_array([21; 32]).to_bytes() }
}

fn address(byte: u8) -> Address {
    Address { bytes: [byte; 32] }
}

fn zero() -> ElGamalCipher {
    ElGamalCipher { bytes: [0; 64] }
}

fn encrypted(amount: u64) -> ElGamalCipher {
    let keys = try_derive_elgamal_keypair(&owner()).unwrap();
    encrypt_amount_hk(&keys.public, amount, &fresh_opening()).unwrap()
}

fn state(available: u64, pending_lo: u64, pending_hi: u64, counter: u64) -> ConfidentialAccountState {
    let keys = try_derive_elgamal_keypair(&owner()).unwrap();
    let key = try_derive_aes_key(&owner()).unwrap();
    ConfidentialAccountState {
        approved: true,
        elgamal_pubkey: keys.public,
        pending_balance_lo: if pending_lo == 0 { zero() } else { encrypted(pending_lo) },
        pending_balance_hi: if pending_hi == 0 { zero() } else { encrypted(pending_hi) },
        available_balance: if available == 0 { zero() } else { encrypted(available) },
        decryptable_available_balance: encrypt_balance_ak(&key, available),
        allow_confidential_credits: true,
        allow_non_confidential_credits: true,
        pending_balance_credit_counter: counter,
        maximum_pending_balance_credit_counter: u64::MAX,
        expected_pending_balance_credit_counter: 0,
        actual_pending_balance_credit_counter: 0,
    }
}

fn stranger() -> SigningKey {
    let mut bytes = owner().bytes;
    bytes[33] ^= 1;
    SigningKey { bytes }
}

fn fresh_opening() -> Opening {
    Opening { bytes: PedersenOpening::new_rand().to_bytes() }
}

#[test]
fn the_commands_carry_their_arguments() {
    let command = Commands::Withdraw { account: String::from("A"), amount: 250 };
    assert_eq!(command.clone(), command);
    assert_ne!(command, Commands::Deposit { account: String::from("A"), amount: 250 });
    let mint = Commands::CreateMint { authority: None, decimals: 9 };
    assert_eq!(format!("{:?}", mint), "CreateMint { authority: None, decimals: 9 }");
    let all = vec![
        mint,
        Commands::CreateAccount { mint: String::from("M"), owner: None },
        Commands::Deposit { account: String::from("A"), amount: 1 },
        Commands::ApplyBalance { account: String::from("A") },
        Commands::ConfidentialTransfer { from: String::from("A"), to: String::from("B"), amount: 1 },
        command,
        Commands::Balance { account: String::from("A") },
    ];
    assert_eq!(all.len(), 7);
}

#[test]
fn a_new_account_reports_zero_balances() {
    let fresh = state(0, 0, 0, 0);
    let report = balance::report(&owner(), &fresh).unwrap();
    assert_eq!(report.available, 0);
    assert_eq!(report.pending, 0);
    assert_eq!(report.total, 0);
    assert!(!report.apply_needed);
    assert!(!report.counter_warning);
    assert!(report.approved);
    assert_eq!(report.elgamal_pubkey, try_derive_elgamal_keypair(&owner()).unwrap().public);
}

#[test]
fn a_deposit_shows_as_pending_until_it_is_applied() {
    let deposited = state(0, 1000, 0, 1);
    let report = balance::report(&owner(), &deposited).unwrap();
    assert_eq!((report.available, report.pending, report.total), (0, 1000, 1000));
    assert!(report.apply_needed);
    assert_eq!(report.credit_counter, 1);

    let outcome = apply_balance::plan(&owner(), &address(2), &deposited).unwrap();
    let Outcome::Apply(applied) = outcome else {
        panic!("a pending balance was not applied");
    };
    assert_eq!((applied.available, applied.pending, applied.new_available), (0, 1000, 1000));
    let key = try_derive_aes_key(&owner()).unwrap();
    assert_eq!(decrypt_balance_ak(&key, &applied.new_decryptable_available_balance), Ok(1000));
    assert_eq!(applied.plan.instructions.len(), 1);
    let data = &applied.plan.instructions[0].data;
    assert_eq!(data[..2], [27, 8]);
    assert_eq!(data[2..10], 1u64.to_le_bytes());
    assert_eq!(data[10..], applied.new_decryptable_available_balance.bytes);
    assert_eq!(applied.plan.fee_payer, owner().address());
    assert_eq!(applied.plan.signers, vec![owner().address()]);

    let afterwards = state(1000, 0, 0, 0);
    let report = balance::report(&owner(), &afterwards).unwrap();
    assert_eq!((report.available, report.pending, report.total), (1000, 0, 1000));
    assert!(!report.apply_needed);
}

#[test]
fn applying_with_nothing_pending_submits_nothing() {
    let applied = state(1000, 0, 0, 0);
    assert_eq!(
        apply_balance::plan(&owner(), &address(2), &applied),
        Ok(Outcome::NothingPending { available: 1000 })
    );
    let fresh = state(0, 0, 0, 0);
    assert_eq!(
        apply_balance::plan(&owner(), &address(2), &fresh),
        Ok(Outcome::NothingPending { available: 0 })
    );
}

#[test]
fn applying_adds_the_pending_to_the_available_balance() {
    assert_eq!(apply_pending(0, 0), Ok(None));
    assert_eq!(apply_pending(1000, 0), Ok(None));
    assert_eq!(apply_pending(0, 1000), Ok(Some(1000)));
    assert_eq!(apply_pending(750, 250), Ok(Some(1000)));
    assert_eq!(apply_pending(u64::MAX - 1, 1), Ok(Some(u64::MAX)));
    assert_eq!(apply_pending(u64::MAX, 1), Err(Error::MalformedAccount));
    assert_eq!(apply_pending(u64::MAX, 0), Ok(None));
}

#[test]
fn balances_that_exceed_64_bits_are_malformed() {
    let overfull = state(u64::MAX, 1, 0, 1);
    assert_eq!(apply_balance::plan(&owner(), &address(2), &overfull), Err(Error::MalformedAccount));
    assert_eq!(balance::report(&owner(), &overfull), Err(Error::MalformedAccount));
}

#[test]
fn pending_deposits_are_split_at_16_bits() {
    let lo = 1 + 0 + 0;
    let hi = (1 << 0) + (1 << 4);
    let gathered = state(0, lo, hi, 3);
    let report = balance::report(&owner(), &gathered).unwrap();
    assert_eq!(report.pending, 1 + (1 << 16) + (1 << 20));
    assert_eq!(report.credit_counter, 3);
    let keys = try_derive_elgamal_keypair(&owner()).unwrap();
    assert_eq!(
        confidential_cli::crypto::decrypt_u32_hk(&keys.secret, &gathered.pending_balance_lo),
        Ok(1)
    );
    assert_eq!(
        confidential_cli::crypto::decrypt_u32_hk(&keys.secret, &gathered.pending_balance_hi),
        Ok(((1u32 << 16) + (1 << 20)) >> 16)
    );
}

#[test]
fn the_counter_warning_starts_above_half_the_maximum() {
    let mut counted = state(5, 0, 0, 0);
    counted.maximum_pending_balance_credit_counter = 10;
    counted.pending_balance_credit_counter = 5;
    assert!(!summarize(&counted, 5, 0).unwrap().counter_warning);
    counted.pending_balance_credit_counter = 6;
    assert!(summarize(&counted, 5, 0).unwrap().counter_warning);
    counted.maximum_pending_balance_credit_counter = 11;
    counted.pending_balance_credit_counter = 5;
    assert!(!summarize(&counted, 5, 0).unwrap().counter_warning);
    counted.pending_balance_credit_counter = 6;
    let report = summarize(&counted, 5, 7).unwrap();
    assert!(report.counter_warning);
    assert!(report.apply_needed);
    assert_eq!(report.total, 12);
    assert_eq!(report.maximum_credit_counter, 11);
    assert_eq!(summarize(&counted, u64::MAX, 1), Err(Error::MalformedAccount));
}

#[test]
fn a_stranger_cannot_read_the_balances() {
    let held = state(1000, 5, 0, 1);
    assert_eq!(balance::report(&stranger(), &held), Err(Error::KeypairIo));
    let other = SigningKey { bytes: Keypair::new_from_array([22; 32]).to_bytes() };
    assert_eq!(balance::report(&other, &held), Err(Error::AuthFailure));
    assert_eq!(apply_balance::plan(&other, &address(2), &held), Err(Error::AuthFailure));
    assert_eq!(
        withdraw::plan(&other, &address(2), &address(3), 6, &held, 1).map(|w| w.remaining),
        Err(Error::AuthFailure)
    );
}

#[test]
fn a_partial_withdrawal_is_three_instructions_with_offsets_minus_two_and_minus_one() {
    let held = state(1000, 0, 0, 0);
    let planned = withdraw::plan(&owner(), &address(2), &address(3), 6, &held, 250).unwrap();
    assert_eq!(planned.available, 1000);
    assert_eq!(planned.remaining, 750);
    let key = try_derive_aes_key(&owner()).unwrap();
    assert_eq!(decrypt_balance_ak(&key, &planned.new_decryptable_available_balance), Ok(750));

    let plan = &planned.plan;
    assert_eq!(plan.instructions.len(), 3);
    assert_eq!(plan.instructions[0].program_id, PROOF_PROGRAM_ID);
    assert_eq!(plan.instructions[0].data[0], 3);
    assert_eq!(plan.instructions[0].data[1..], planned.equality.bytes[..]);
    assert_eq!(plan.instructions[1].program_id, PROOF_PROGRAM_ID);
    assert_eq!(plan.instructions[1].data[0], 6);
    assert_eq!(plan.instructions[1].data[1..], planned.range.bytes[..]);
    let action = &plan.instructions[2];
    assert_eq!(action.program_id, TOKEN_PROGRAM_ID);
    assert_eq!(action.data[..2], [27, 6]);
    assert_eq!(action.data[2..10], 250u64.to_le_bytes());
    assert_eq!(action.data[10], 6);
    assert_eq!(action.data[11..47], planned.new_decryptable_available_balance.bytes);
    assert_eq!(action.data[47] as i8, -2);
    assert_eq!(action.data[48] as i8, -1);
    assert_eq!(action.accounts[0].pubkey, [2; 32]);
    assert_eq!(action.accounts[1].pubkey, [3; 32]);
    assert_eq!(action.accounts[3].pubkey, owner().address().bytes);
    assert_eq!(plan.action, 2);
    assert_eq!(plan.references[0].offset, -2);
    assert_eq!(plan.references[1].offset, -1);
    assert_eq!(check_offsets(&plan.instructions, plan.action, &plan.references), None);
    assert_eq!(plan.fee_payer, owner().address());
    assert_eq!(plan.signers, vec![owner().address()]);
}

#[test]
fn the_proofs_of_a_withdrawal_verify() {
    let held = state(1000, 0, 0, 0);
    let planned = withdraw::plan(&owner(), &address(2), &address(3), 6, &held, 250).unwrap();
    let keys = try_derive_elgamal_keypair(&owner()).unwrap();
    let equality: CiphertextCommitmentEqualityProofData =
        bytemuck::pod_read_unaligned(&planned.equality.bytes);
    assert!(equality.verify_proof().is_ok());
    assert_eq!(planned.equality.bytes[..32], keys.public);
    let range: BatchedRangeProofU64Data = bytemuck::pod_read_unaligned(&planned.range.bytes);
    assert!(range.verify_proof().is_ok());
    assert_eq!(planned.range.bytes[256], 64);
    assert_eq!(planned.range.bytes[32..256], [0u8; 224]);
    assert_eq!(planned.range.bytes[257..264], [0u8; 7]);
}

#[test]
fn the_whole_balance_can_be_withdrawn_and_one_unit_more_cannot() {
    let held = state(1000, 0, 0, 0);
    let planned = withdraw::plan(&owner(), &address(2), &address(3), 6, &held, 1000).unwrap();
    assert_eq!(planned.remaining, 0);
    assert_eq!(planned.plan.instructions.len(), 3);
    let refused = withdraw::plan(&owner(), &address(2), &address(3), 6, &held, 1001);
    assert_eq!(refused.map(|w| w.remaining), Err(Error::InsufficientBalance));
}

#[test]
fn a_withdrawal_beyond_the_balance_is_refused() {
    let held = state(750, 0, 0, 0);
    let refused = withdraw::plan(&owner(), &address(2), &address(3), 6, &held, 1000);
    assert_eq!(refused.map(|w| w.remaining), Err(Error::InsufficientBalance));
    let fresh = state(0, 0, 0, 0);
    let refused = withdraw::plan(&owner(), &address(2), &address(3), 6, &fresh, 1);
    assert_eq!(refused.map(|w| w.remaining), Err(Error::InsufficientBalance));
    let nothing = withdraw::plan(&owner(), &address(2), &address(3), 6, &fresh, 0).unwrap();
    assert_eq!((nothing.available, nothing.remaining), (0, 0));
}

#[test]
fn pending_funds_cannot_be_withdrawn() {
    let held = state(0, 1000, 0, 1);
    let refused = withdraw::plan(&owner(), &address(2), &address(3), 6, &held, 1000);
    assert_eq!(refused.map(|w| w.remaining), Err(Error::InsufficientBalance));
}

#[test]
fn a_new_account_is_four_instructions_with_offset_minus_one() {
    let created =
        create_account::plan(&address(1), &address(2), &address(3), &owner(), 2_000_000).unwrap();
    let keys = try_derive_elgamal_keypair(&owner()).unwrap();
    let key = try_derive_aes_key(&owner()).unwrap();
    assert_eq!(created.elgamal_pubkey, keys.public);
    assert_eq!(decrypt_balance_ak(&key, &created.decryptable_zero_balance), Ok(0));
    let validity: PubkeyValidityProofData = bytemuck::pod_read_unaligned(&created.validity.bytes);
    assert!(validity.verify_proof().is_ok());
    assert_eq!(created.validity.bytes[..32], keys.public);

    let plan = &created.plan;
    assert_eq!(plan.instructions.len(), 4);
    assert_eq!(plan.instructions[0].program_id, [0; 32]);
    assert_eq!(plan.instructions[1].data, vec![1]);
    assert_eq!(plan.instructions[1].accounts[2].pubkey, owner().address().bytes);
    assert_eq!(plan.instructions[2].program_id, PROOF_PROGRAM_ID);
    assert_eq!(plan.instructions[2].data[0], 4);
    assert_eq!(plan.instructions[2].data[1..], created.validity.bytes[..]);
    let configure = &plan.instructions[3];
    assert_eq!(configure.data[..2], [27, 2]);
    assert_eq!(configure.data[2..38], created.decryptable_zero_balance.bytes);
    assert_eq!(configure.data[38..46], u64::MAX.to_le_bytes());
    assert_eq!(configure.data[46] as i8, -1);
    assert_eq!(plan.action, 3);
    assert_eq!(check_offsets(&plan.instructions, plan.action, &plan.references), None);
    assert_eq!(plan.fee_payer, address(1));
    assert_eq!(plan.signers, vec![address(1), address(2), owner().address()]);
}

#[test]
fn an_owner_who_pays_signs_once() {
    let payer = owner().address();
    let created = create_account::plan(&payer, &address(2), &address(3), &owner(), 5).unwrap();
    assert_eq!(created.plan.signers, vec![payer, address(2)]);
    assert_eq!(Keypair::new_from_array([21; 32]).pubkey().to_bytes(), payer.bytes);
}

#[test]
fn an_account_cannot_be_created_for_a_broken_signing_key() {
    let refused = create_account::plan(&address(1), &address(2), &address(3), &stranger(), 5);
    assert_eq!(refused.map(|c| c.elgamal_pubkey), Err(Error::KeypairIo));
}

#[test]
fn a_transfer_between_mints_is_refused_before_any_key_is_used() {
    let held = state(1000, 0, 0, 0);
    let garbage = ConfidentialAccountState {
        available_balance: ElGamalCipher { bytes: [0xEE; 64] },
        decryptable_available_balance: AkCipher { bytes: [0xEE; 36] },
        ..held
    };
    for signer in [owner(), stranger()] {
        for source in [held, garbage] {
            assert_eq!(
                transfer::plan(&signer, &address(3), &address(4), &source, 10),
                Err(Error::MintMismatch)
            );
            assert_eq!(
                transfer::prepare(&signer, &address(3), &address(4), &source, u64::MAX),
                Err(Error::MintMismatch)
            );
        }
    }
}

#[test]
fn a_transfer_of_more_than_48_bits_is_out_of_range() {
    let rich = state(u64::MAX, 0, 0, 0);
    assert_eq!(
        transfer::plan(&owner(), &address(3), &address(3), &rich, 1 << 48),
        Err(Error::AmountOutOfRange)
    );
    assert_eq!(
        transfer::plan(&owner(), &address(3), &address(3), &rich, (1 << 48) - 1),
        Err(Error::UnsupportedOperation)
    );
    let poor = state(5, 0, 0, 0);
    assert_eq!(
        transfer::plan(&owner(), &address(3), &address(3), &poor, 1 << 48),
        Err(Error::AmountOutOfRange)
    );
    assert_eq!(
        transfer::plan(&stranger(), &address(3), &address(3), &poor, u64::MAX),
        Err(Error::AmountOutOfRange)
    );
}

#[test]
fn a_transfer_in_order_is_still_not_carried_out() {
    let held = state(1000, 0, 0, 0);
    assert_eq!(
        transfer::plan(&owner(), &address(3), &address(3), &held, 1000),
        Err(Error::UnsupportedOperation)
    );
    assert_eq!(
        transfer::plan(&owner(), &address(3), &address(3), &held, 0),
        Err(Error::UnsupportedOperation)
    );
    assert_eq!(
        transfer::prepare(&owner(), &address(3), &address(3), &held, 250),
        Ok(TransferPreview { available: 1000, amount_lo: 250, amount_hi: 0, new_source_balance: 750 })
    );
}

#[test]
fn a_transfer_beyond_the_balance_is_insufficient() {
    let held = state(1000, 500, 0, 1);
    assert_eq!(
        transfer::plan(&owner(), &address(3), &address(3), &held, 1001),
        Err(Error::InsufficientBalance)
    );
    assert_eq!(
        transfer::plan(&stranger(), &address(3), &address(3), &held, 1),
        Err(Error::KeypairIo)
    );
    let unreadable = ConfidentialAccountState {
        decryptable_available_balance: AkCipher { bytes: [0xEE; 36] },
        ..held
    };
    assert_eq!(
        transfer::plan(&owner(), &address(3), &address(3), &unreadable, 1),
        Err(Error::AuthFailure)
    );
}

#[test]
fn an_amount_is_validated_against_the_limit_first() {
    assert_eq!(validate(0, 1 << 48), Err(Error::AmountOutOfRange));
    assert_eq!(validate(u64::MAX, u64::MAX), Err(Error::AmountOutOfRange));
    assert_eq!(validate(0, 1), Err(Error::InsufficientBalance));
    assert_eq!(validate(MAX_TRANSFER_AMOUNT - 1, MAX_TRANSFER_AMOUNT), Err(Error::InsufficientBalance));
    assert_eq!(
        validate(u64::MAX, MAX_TRANSFER_AMOUNT),
        Ok(TransferPreview {
            available: u64::MAX,
            amount_lo: 0xFFFF,
            amount_hi: 0xFFFF_FFFF,
            new_source_balance: u64::MAX - MAX_TRANSFER_AMOUNT,
        })
    );
    assert_eq!(
        validate(0x2_0000, 0x1_0001),
        Ok(TransferPreview {
            available: 0x2_0000,
            amount_lo: 1,
            amount_hi: 1,
            new_source_balance: 0xFFFF,
        })
    );
}

#[test]
fn proofs_are_bound_to_their_public_inputs() {
    let keys = try_derive_elgamal_keypair(&owner()).unwrap();
    let validity = pubkey_validity_proof(&keys).unwrap();
    assert_eq!(validity.kind, ProofKind::PubkeyValidity);
    assert_eq!(validity.bytes.len(), 96);
    assert_eq!(validity.bytes[..32], keys.public);

    let opening = fresh_opening();
    let ciphertext = encrypt_amount_hk(&keys.public, 250, &opening).unwrap();
    let commitment = confidential_cli::crypto::commit_amount(250, &opening).unwrap();
    let equality = equality_proof(&keys, &ciphertext, &commitment, &opening, 250).unwrap();
    assert_eq!(equality.kind, ProofKind::CiphertextCommitmentEquality);
    assert_eq!(equality.bytes.len(), 320);
    assert_eq!(equality.bytes[..32], keys.public);
    assert_eq!(equality.bytes[32..96], ciphertext.bytes);
    assert_eq!(equality.bytes[96..128], commitment.bytes);
    let outside: CiphertextCommitmentEqualityProofData = bytemuck::pod_read_unaligned(&equality.bytes);
    assert!(outside.verify_proof().is_ok());

    let range = range_proof_u64(&commitment, 250, &opening).unwrap();
    assert_eq!(range.kind, ProofKind::BatchedRangeU64);
    assert_eq!(range.bytes.len(), 936);
    assert_eq!(range.bytes[..32], commitment.bytes);
    assert_eq!(range.bytes[32..256], [0u8; 224]);
    assert_eq!(range.bytes[256], 64);
    assert_eq!(range.bytes[257..264], [0u8; 7]);
    let outside: BatchedRangeProofU64Data = bytemuck::pod_read_unaligned(&range.bytes);
    assert!(outside.verify_proof().is_ok());
}

#[test]
fn a_keypair_with_a_zero_secret_has_no_validity_proof() {
    let mut keys = try_derive_elgamal_keypair(&owner()).unwrap();
    keys.secret = [0; 32];
    assert_eq!(
        pubkey_validity_proof(&keys),
        Err(Error::ProofConstructionFailed(ProofKind::PubkeyValidity))
    );
}

#[test]
fn proofs_of_what_does_not_belong_together_fail() {
    let mut keys = try_derive_elgamal_keypair(&owner()).unwrap();
    let opening = fresh_opening();
    let ciphertext = encrypt_amount_hk(&keys.public, 250, &opening).unwrap();
    let commitment = confidential_cli::crypto::commit_amount(250, &opening).unwrap();
    let failed_equality =
        Err(Error::ProofConstructionFailed(ProofKind::CiphertextCommitmentEquality));
    let failed_range = Err(Error::ProofConstructionFailed(ProofKind::BatchedRangeU64));

    let fitting = try_equality_proof(&keys, &ciphertext, &commitment, &opening, 250).unwrap();
    assert_eq!(fitting.bytes[32..96], ciphertext.bytes);
    assert_eq!(fitting.bytes[96..128], commitment.bytes);
    let fitting = try_range_proof_u64(&commitment, 250, &opening).unwrap();
    assert_eq!(fitting.bytes[..32], commitment.bytes);

    let other_opening = fresh_opening();
    let other_commitment = confidential_cli::crypto::commit_amount(251, &opening).unwrap();
    let other_ciphertext = encrypt_amount_hk(&keys.public, 250, &other_opening).unwrap();
    let broken = confidential_cli::crypto::Commitment { bytes: [0xFF; 32] };
    assert_eq!(try_equality_proof(&keys, &ciphertext, &commitment, &opening, 251), failed_equality);
    assert_eq!(
        try_equality_proof(&keys, &ciphertext, &commitment, &other_opening, 250),
        failed_equality
    );
    assert_eq!(
        try_equality_proof(&keys, &ciphertext, &other_commitment, &opening, 250),
        failed_equality
    );
    assert_eq!(
        try_equality_proof(&keys, &other_ciphertext, &commitment, &opening, 250),
        failed_equality
    );
    assert_eq!(try_equality_proof(&keys, &ciphertext, &broken, &opening, 250), failed_equality);
    assert_eq!(try_range_proof_u64(&commitment, 251, &opening), failed_range);
    assert_eq!(try_range_proof_u64(&commitment, 250, &other_opening), failed_range);
    assert_eq!(try_range_proof_u64(&other_commitment, 250, &opening), failed_range);
    assert_eq!(try_range_proof_u64(&broken, 250, &opening), failed_range);

    keys.public = [0xFF; 32];
    assert_eq!(try_equality_proof(&keys, &ciphertext, &commitment, &opening, 250), failed_equality);
    assert_eq!(
        pubkey_validity_proof(&keys),
        Err(Error::ProofConstructionFailed(ProofKind::PubkeyValidity))
    );
}

#[test]
fn the_ends_of_a_transfer_must_share_a_mint() {
    assert_eq!(transfer::check_mints(&address(3), &address(3)), Ok(()));
    assert_eq!(transfer::check_mints(&address(3), &address(4)), Err(Error::MintMismatch));
}

#[test]
fn every_signing_key_that_derives_gets_its_account() {
    for seed in [1u8, 2, 3, 50, 200] {
        let owner = SigningKey { bytes: Keypair::new_from_array([seed; 32]).to_bytes() };
        let created = create_account::plan(&address(1), &address(2), &address(3), &owner, 7);
        let created = created.unwrap();
        assert_eq!(created.validity.kind, ProofKind::PubkeyValidity);
        assert_eq!(created.plan.instructions.len(), 4);
        let keys = try_derive_elgamal_keypair(&owner).unwrap();
        assert!(pubkey_validity_proof(&keys).is_ok());
    }
}
