use confidential_cli::commands::{create_mint, deposit};
use confidential_cli::crypto::SigningKey;
use confidential_cli::instruction::{AccountMeta, Address, Instruction};
use confidential_cli::signing::{sign, SigningFault};
use confidential_cli::transaction::assemble;
use solana_sdk::pubkey::Pubkey;
use solana_sdk::signature::Keypair;

fn key(seed: u8) -> SigningKey {
    SigningKey { bytes: Keypair::new_from_array([seed; 32]).to_bytes() }
}

fn address(byte: u8) -> Address {
    Address { bytes: [byte; 32] }
}

#[test]
fn a_deposit_is_signed_by_its_payer() {
    let payer = key(1);
    let plan = deposit::plan(&payer.address(), &address(2), &address(3), 1000, 6);
    let signed = sign(&plan, &vec![payer], &[7; 32]).unwrap();
    assert_eq!(signed.message, signed.transaction.message_data());
    assert_eq!(signed.signatures.len(), 1);
    assert_eq!(signed.signatures[0][..], signed.transaction.signatures[0].as_ref()[..]);
    let again = sign(&plan, &vec![payer], &[7; 32]).unwrap();
    assert_eq!((&again.message, &again.signatures), (&signed.message, &signed.signatures));
    let later = sign(&plan, &vec![payer], &[8; 32]).unwrap();
    assert_ne!(later.message, signed.message);
    assert_ne!(later.signatures, signed.signatures);
    let signed = signed.transaction;
    assert!(signed.is_signed());
    assert!(signed.verify().is_ok());
    assert_eq!(signed.signatures.len(), 1);
    assert_eq!(signed.message.recent_blockhash.to_bytes(), [7; 32]);
    assert_eq!(signed.message.account_keys[0], Pubkey::from(payer.address().bytes));
    assert_eq!(signed.message.instructions.len(), 1);
    assert_eq!(signed.message.instructions[0].data, plan.instructions[0].data);
}

#[test]
fn a_new_mint_is_signed_by_the_payer_and_the_mint() {
    let (payer, mint) = (key(1), key(2));
    let plan = create_mint::plan(&payer.address(), &mint.address(), &address(3), 6, 10);
    assert_eq!(plan.signers, vec![payer.address(), mint.address()]);
    let signed = sign(&plan, &vec![payer, mint], &[7; 32]).unwrap();
    assert_eq!(signed.signatures.len(), 2);
    assert_eq!(signed.signatures[1][..], signed.transaction.signatures[1].as_ref()[..]);
    let signed = signed.transaction;
    assert!(signed.verify().is_ok());
    assert_eq!(signed.signatures.len(), 2);
    assert_eq!(signed.message.instructions.len(), 3);
    assert_eq!(signed.message.header.num_required_signatures, 2);
}

#[test]
fn keys_that_are_not_the_signers_are_refused() {
    let (payer, mint) = (key(1), key(2));
    let plan = create_mint::plan(&payer.address(), &mint.address(), &address(3), 6, 10);
    let refused = |keys: Vec<SigningKey>| sign(&plan, &keys, &[7; 32]).map(|_| ());
    assert_eq!(refused(vec![payer]), Err(SigningFault::WrongKeys));
    assert_eq!(refused(vec![mint, payer]), Err(SigningFault::WrongKeys));
    assert_eq!(refused(vec![payer, key(3)]), Err(SigningFault::WrongKeys));
    assert_eq!(refused(vec![payer, mint, key(3)]), Err(SigningFault::WrongKeys));
    assert_eq!(refused(vec![]), Err(SigningFault::WrongKeys));
    assert_eq!(refused(vec![payer, mint]), Ok(()));
}

#[test]
fn a_key_whose_halves_do_not_belong_together_is_refused_by_the_signing_code() {
    let mut forged = key(1);
    forged.bytes[0] ^= 1;
    let plan = deposit::plan(&forged.address(), &address(2), &address(3), 1000, 6);
    assert_eq!(sign(&plan, &vec![forged], &[7; 32]).map(|_| ()), Err(SigningFault::Refused));
}

#[test]
fn a_plan_with_too_many_keys_is_refused() {
    let payer = key(1);
    let crowded = |accounts: usize| {
        let metas = (0..accounts)
            .map(|i| {
                let mut pubkey = [0xA5; 32];
                pubkey[0] = (i % 256) as u8;
                pubkey[1] = (i / 256) as u8;
                AccountMeta { pubkey, is_signer: false, is_writable: false }
            })
            .collect();
        let ix = Instruction { program_id: [9; 32], accounts: metas, data: vec![] };
        assemble(payer.address(), vec![ix], 0, vec![]).unwrap()
    };
    assert_eq!(sign(&crowded(254), &vec![payer], &[7; 32]).map(|_| ()), Err(SigningFault::TooManyKeys));
    assert_eq!(sign(&crowded(1000), &vec![payer], &[7; 32]).map(|_| ()), Err(SigningFault::TooManyKeys));
    assert_eq!(sign(&crowded(253), &vec![payer], &[7; 32]).map(|_| ()), Ok(()));
}

#[test]
fn an_instruction_with_too_much_data_is_refused() {
    let payer = key(1);
    let sized = |len: usize| {
        let ix = Instruction { program_id: [9; 32], accounts: vec![], data: vec![7; len] };
        assemble(payer.address(), vec![ix], 0, vec![]).unwrap()
    };
    assert_eq!(
        sign(&sized(65_536), &vec![payer], &[7; 32]).map(|_| ()),
        Err(SigningFault::DataTooLong)
    );
    assert_eq!(
        sign(&sized(70_000), &vec![payer], &[7; 32]).map(|_| ()),
        Err(SigningFault::DataTooLong)
    );
    let signed = sign(&sized(65_535), &vec![payer], &[7; 32]).unwrap();
    assert_eq!(signed.message, signed.transaction.message_data());
    assert_eq!(signed.transaction.message.instructions[0].data.len(), 65_535);
    assert!(signed.transaction.verify().is_ok());
}

#[test]
fn too_many_keys_are_refused_before_too_much_data_and_that_before_wrong_keys() {
    let payer = key(1);
    let metas = |count: usize| -> Vec<AccountMeta> {
        (0..count)
            .map(|i| AccountMeta { pubkey: [i as u8; 32], is_signer: false, is_writable: false })
            .collect()
    };
    let long = Instruction { program_id: [9; 32], accounts: metas(254), data: vec![0; 65_536] };
    let both = assemble(payer.address(), vec![long], 0, vec![]).unwrap();
    assert_eq!(sign(&both, &vec![], &[7; 32]).map(|_| ()), Err(SigningFault::TooManyKeys));
    let long = Instruction { program_id: [9; 32], accounts: metas(3), data: vec![0; 65_536] };
    let data_only = assemble(payer.address(), vec![long], 0, vec![]).unwrap();
    assert_eq!(sign(&data_only, &vec![], &[7; 32]).map(|_| ()), Err(SigningFault::DataTooLong));
    let short = Instruction { program_id: [9; 32], accounts: metas(3), data: vec![0; 10] };
    let neither = assemble(payer.address(), vec![short], 0, vec![]).unwrap();
    assert_eq!(sign(&neither, &vec![], &[7; 32]).map(|_| ()), Err(SigningFault::WrongKeys));
}
