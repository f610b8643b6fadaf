use confidential_cli::commands::apply_balance::{self, Outcome};
use confidential_cli::commands::{
    check_recipe, check_step, create_account, create_mint, deposit, withdraw, Commands, Operation,
    Step,
};
use confidential_cli::crypto::{
    Opening,
    try_derive_aes_key, try_derive_elgamal_keypair, encrypt_amount_hk, encrypt_balance_ak, AkCipher, ElGamalCipher, SigningKey,
};
use spl_token_2022::solana_zk_sdk::encryption::pedersen::PedersenOpening;
use confidential_cli::account::ConfidentialAccountState;
use confidential_cli::error::{Error, ProofKind};
use confidential_cli::instruction::{Address, Instruction, PROOF_PROGRAM_ID, TOKEN_PROGRAM_ID};
use confidential_cli::signing::select_keys;
use solana_sdk::signature::Keypair;

fn address(byte: u8) -> Address {
    Address { bytes: [byte; 32] }
}

fn key(seed: u8) -> SigningKey {
    SigningKey { bytes: Keypair::new_from_array([seed; 32]).to_bytes() }
}

fn held(available: u64, pending: u64) -> ConfidentialAccountState {
    let keys = try_derive_elgamal_keypair(&key(1)).unwrap();
    let ak = try_derive_aes_key(&key(1)).unwrap();
    let zero = ElGamalCipher { bytes: [0; 64] };
    ConfidentialAccountState {
        approved: true,
        elgamal_pubkey: keys.public,
        pending_balance_lo: if pending == 0 {
            zero
        } else {
            encrypt_amount_hk(&keys.public, pending, &fresh_opening()).unwrap()
        },
        pending_balance_hi: zero,
        available_balance: encrypt_amount_hk(&keys.public, available, &fresh_opening()).unwrap(),
        decryptable_available_balance: encrypt_balance_ak(&ak, available),
        allow_confidential_credits: true,
        allow_non_confidential_credits: true,
        pending_balance_credit_counter: 1,
        maximum_pending_balance_credit_counter: u64::MAX,
        expected_pending_balance_credit_counter: 0,
        actual_pending_balance_credit_counter: 0,
    }
}

fn fresh_opening() -> Opening {
    Opening { bytes: PedersenOpening::new_rand().to_bytes() }
}

#[test]
fn every_command_has_its_operation() {
    let text = || String::from("x");
    assert_eq!(
        Commands::CreateMint { authority: None, decimals: 9 }.operation(),
        Operation::CreateMint
    );
    assert_eq!(
        Commands::CreateAccount { mint: text(), owner: Some(text()) }.operation(),
        Operation::CreateAccount
    );
    assert_eq!(Commands::Deposit { account: text(), amount: 1 }.operation(), Operation::Deposit);
    assert_eq!(Commands::ApplyBalance { account: text() }.operation(), Operation::ApplyBalance);
    assert_eq!(
        Commands::ConfidentialTransfer { from: text(), to: text(), amount: 1 }.operation(),
        Operation::ConfidentialTransfer
    );
    assert_eq!(Commands::Withdraw { account: text(), amount: 1 }.operation(), Operation::Withdraw);
    assert_eq!(Commands::Balance { account: text() }.operation(), Operation::Balance);
}

#[test]
fn the_table_of_recipes() {
    assert_eq!(
        Operation::CreateMint.recipe(),
        vec![Step::Allocate, Step::InitializeConfidentialMint, Step::InitializeMint]
    );
    assert_eq!(
        Operation::CreateAccount.recipe(),
        vec![
            Step::Allocate,
            Step::InitializeAccount,
            Step::Verify(ProofKind::PubkeyValidity),
            Step::ConfigureAccount,
        ]
    );
    assert_eq!(Operation::Deposit.recipe(), vec![Step::Deposit]);
    assert_eq!(Operation::ApplyBalance.recipe(), vec![Step::ApplyPendingBalance]);
    assert_eq!(
        Operation::Withdraw.recipe(),
        vec![
            Step::Verify(ProofKind::CiphertextCommitmentEquality),
            Step::Verify(ProofKind::BatchedRangeU64),
            Step::Withdraw,
        ]
    );
    assert_eq!(Operation::Balance.recipe(), vec![]);
    assert_eq!(Operation::ConfidentialTransfer.recipe(), vec![]);
    assert_eq!(Operation::CreateMint.offsets(), Vec::<i8>::new());
    assert_eq!(Operation::CreateAccount.offsets(), vec![-1]);
    assert_eq!(Operation::Deposit.offsets(), Vec::<i8>::new());
    assert_eq!(Operation::ApplyBalance.offsets(), Vec::<i8>::new());
    assert_eq!(Operation::Withdraw.offsets(), vec![-2, -1]);
    assert_eq!(Operation::Balance.offsets(), Vec::<i8>::new());
}

#[test]
fn every_plan_follows_the_recipe_of_its_operation_and_of_no_other() {
    let all = [
        Operation::CreateMint,
        Operation::CreateAccount,
        Operation::Deposit,
        Operation::ApplyBalance,
        Operation::ConfidentialTransfer,
        Operation::Withdraw,
        Operation::Balance,
    ];
    let owner = key(1);
    let mint = create_mint::plan(&address(1), &address(2), &address(3), 6, 10);
    let account = create_account::plan(&address(1), &address(2), &address(3), &owner, 10).unwrap();
    let deposited = deposit::plan(&address(1), &address(2), &address(3), 1000, 6);
    let Ok(Outcome::Apply(applied)) = apply_balance::plan(&owner, &address(2), &held(5, 7)) else {
        panic!("a pending balance was not applied");
    };
    let withdrawn = withdraw::plan(&owner, &address(2), &address(3), 6, &held(5, 0), 4).unwrap();
    let plans = [
        (Operation::CreateMint, &mint),
        (Operation::CreateAccount, &account.plan),
        (Operation::Deposit, &deposited),
        (Operation::ApplyBalance, &applied.plan),
        (Operation::Withdraw, &withdrawn.plan),
    ];
    for (operation, plan) in plans {
        for other in all {
            assert_eq!(check_recipe(plan, other), other == operation);
        }
    }
}

#[test]
fn a_plan_that_departs_from_the_recipe_is_noticed() {
    let owner = key(1);
    let withdrawn = withdraw::plan(&owner, &address(2), &address(3), 6, &held(5, 0), 4).unwrap();
    assert!(check_recipe(&withdrawn.plan, Operation::Withdraw));
    let mut swapped = withdrawn.plan.clone();
    swapped.instructions.swap(0, 1);
    assert!(!check_recipe(&swapped, Operation::Withdraw));
    let mut retargeted = withdrawn.plan.clone();
    retargeted.references[0].offset = -1;
    assert!(!check_recipe(&retargeted, Operation::Withdraw));
    let mut other_action = withdrawn.plan.clone();
    other_action.action = 1;
    assert!(!check_recipe(&other_action, Operation::Withdraw));
    let mut shortened = withdrawn.plan.clone();
    shortened.instructions.pop();
    assert!(!check_recipe(&shortened, Operation::Withdraw));
    let mut retagged = withdrawn.plan;
    retagged.instructions[2].data[1] = 5;
    assert!(!check_recipe(&retagged, Operation::Withdraw));
}

#[test]
fn a_step_is_told_by_its_program_and_its_tags() {
    let ix = |program_id: [u8; 32], data: Vec<u8>| Instruction { program_id, accounts: vec![], data };
    assert!(check_step(&ix([0; 32], vec![0, 0, 0, 0, 9]), Step::Allocate));
    assert!(!check_step(&ix([0; 32], vec![0, 0, 0]), Step::Allocate));
    assert!(!check_step(&ix([0; 32], vec![0, 0, 0, 1]), Step::Allocate));
    assert!(!check_step(&ix(TOKEN_PROGRAM_ID, vec![0, 0, 0, 0]), Step::Allocate));
    assert!(check_step(&ix(TOKEN_PROGRAM_ID, vec![27, 0]), Step::InitializeConfidentialMint));
    assert!(check_step(&ix(TOKEN_PROGRAM_ID, vec![0, 6]), Step::InitializeMint));
    assert!(!check_step(&ix(TOKEN_PROGRAM_ID, vec![]), Step::InitializeMint));
    assert!(check_step(&ix(TOKEN_PROGRAM_ID, vec![1]), Step::InitializeAccount));
    assert!(check_step(&ix(TOKEN_PROGRAM_ID, vec![27, 2, 0]), Step::ConfigureAccount));
    assert!(check_step(&ix(TOKEN_PROGRAM_ID, vec![27, 5]), Step::Deposit));
    assert!(check_step(&ix(TOKEN_PROGRAM_ID, vec![27, 6]), Step::Withdraw));
    assert!(check_step(&ix(TOKEN_PROGRAM_ID, vec![27, 8]), Step::ApplyPendingBalance));
    assert!(!check_step(&ix(TOKEN_PROGRAM_ID, vec![27]), Step::Deposit));
    assert!(!check_step(&ix(TOKEN_PROGRAM_ID, vec![26, 5]), Step::Deposit));
    assert!(!check_step(&ix(PROOF_PROGRAM_ID, vec![27, 5]), Step::Deposit));
    assert!(check_step(&ix(PROOF_PROGRAM_ID, vec![4]), Step::Verify(ProofKind::PubkeyValidity)));
    assert!(!check_step(&ix(PROOF_PROGRAM_ID, vec![3]), Step::Verify(ProofKind::PubkeyValidity)));
    assert!(!check_step(&ix(TOKEN_PROGRAM_ID, vec![4]), Step::Verify(ProofKind::PubkeyValidity)));
    assert!(!check_step(&ix(PROOF_PROGRAM_ID, vec![]), Step::Verify(ProofKind::PubkeyValidity)));
}

#[test]
fn keys_are_selected_in_the_order_of_the_signers() {
    let (a, b, c) = (key(1), key(2), key(3));
    let signers = vec![b.address(), a.address()];
    assert_eq!(select_keys(&signers, &vec![a, b, c]), Some(vec![b, a]));
    assert_eq!(select_keys(&signers, &vec![c, b, a, b]), Some(vec![b, a]));
    assert_eq!(select_keys(&signers, &vec![a, c]), None);
    assert_eq!(select_keys(&signers, &vec![]), None);
    assert_eq!(select_keys(&vec![], &vec![a]), Some(vec![]));
    assert_eq!(select_keys(&vec![a.address(), a.address()], &vec![a]), Some(vec![a, a]));
}

#[test]
fn failures_have_the_names_of_their_kinds() {
    let named = [
        (Error::ConfigMissing, "config_missing"),
        (Error::KeypairIo, "keypair_io"),
        (Error::InvalidPubkey, "invalid_pubkey"),
        (Error::RpcFailure, "rpc_failure"),
        (Error::MalformedAccount, "malformed_account"),
        (Error::MissingExtension, "missing_extension"),
        (Error::WrongProgram, "wrong_program"),
        (Error::BalanceUnsearchable, "balance_unsearchable"),
        (Error::AuthFailure, "auth_failure"),
        (Error::ProofConstructionFailed(ProofKind::PubkeyValidity), "proof_construction_failed"),
        (Error::ProofConstructionFailed(ProofKind::BatchedRangeU64), "proof_construction_failed"),
        (Error::InsufficientBalance, "insufficient_balance"),
        (Error::MintMismatch, "mint_mismatch"),
        (Error::AmountOutOfRange, "amount_out_of_range"),
        (Error::UnsupportedOperation, "unsupported_operation"),
    ];
    for (error, name) in named {
        assert_eq!(error.kind(), name);
    }
    assert_eq!(ProofKind::PubkeyValidity.name(), "pubkey_validity");
    assert_eq!(ProofKind::CiphertextCommitmentEquality.name(), "ciphertext_commitment_equality");
    assert_eq!(ProofKind::BatchedRangeU64.name(), "batched_range_u64");
}

#[test]
fn a_zero_balance_under_the_key_is_what_a_new_account_holds() {
    let owner = key(1);
    let created = create_account::plan(&address(1), &address(2), &address(3), &owner, 10).unwrap();
    let ak = try_derive_aes_key(&owner).unwrap();
    let AkCipher { bytes } = created.decryptable_zero_balance;
    assert_eq!(
        confidential_cli::crypto::decrypt_balance_ak(&ak, &AkCipher { bytes }),
        Ok(0)
    );
}
