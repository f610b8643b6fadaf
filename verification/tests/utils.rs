use confidential_cli::error::Error;
use confidential_cli::instruction::{
    INSTRUCTIONS_SYSVAR_ID, PROOF_PROGRAM_ID, RENT_SYSVAR_ID, SYSTEM_PROGRAM_ID, TOKEN_PROGRAM_ID,
};
use confidential_cli::utils::{
    check_funds, format_amount, parse_pubkey, pending_total, recombine_pending, split_amount,
    MAX_TRANSFER_AMOUNT,
};

#[test]
fn format_amount_pads_the_fraction() {
    assert_eq!(format_amount(1_000, 6), "0.001000");
    assert_eq!(format_amount(1_234_567, 6), "1.234567");
    assert_eq!(format_amount(250, 2), "2.50");
    assert_eq!(format_amount(0, 9), "0.000000000");
}

#[test]
fn format_amount_without_decimals_keeps_one_zero() {
    assert_eq!(format_amount(5, 0), "5.0");
    assert_eq!(format_amount(0, 0), "0.0");
}

#[test]
fn format_amount_at_the_limits() {
    assert_eq!(format_amount(u64::MAX, 0), "18446744073709551615.0");
    assert_eq!(format_amount(u64::MAX, 19), "1.8446744073709551615");
    assert_eq!(format_amount(7, 19), "0.0000000000000000007");
}

#[test]
fn split_amount_takes_sixteen_low_bits() {
    assert_eq!(split_amount(0), (0, 0));
    assert_eq!(split_amount(0xFFFF), (0xFFFF, 0));
    assert_eq!(split_amount(0x1_0000), (0, 1));
    assert_eq!(split_amount(0x1234_5678_9ABC), (0x9ABC, 0x1234_5678));
    assert_eq!(split_amount(MAX_TRANSFER_AMOUNT), (0xFFFF, 0xFFFF_FFFF));
    assert_eq!(split_amount(u64::MAX), (0xFFFF, 0xFFFF_FFFF_FFFF));
}

#[test]
fn recombine_pending_joins_the_halves() {
    assert_eq!(recombine_pending(1, 17), 1 + (1 << 16) + (1 << 20));
    assert_eq!(recombine_pending(0xFFFF, 0xFFFF_FFFF), MAX_TRANSFER_AMOUNT);
    assert_eq!(recombine_pending(0, 0), 0);
}

#[test]
fn split_and_recombine_are_inverse_below_48_bits() {
    for amount in [0u64, 1, 0xFFFF, 0x1_0000, 1_000, 0xABCD_EF01_2345, MAX_TRANSFER_AMOUNT] {
        let (lo, hi) = split_amount(amount);
        assert_eq!(recombine_pending(lo as u32, hi as u32), amount);
    }
    for (lo, hi) in [(0u32, 0u32), (1, 17), (0xFFFF, 0), (0, 0xFFFF_FFFF), (0x8000, 0x8000_0000)] {
        let (l, h) = split_amount(recombine_pending(lo, hi));
        assert_eq!((l as u32, h), (lo, hi as u64));
    }
}

#[test]
fn pending_total_adds_where_the_low_half_has_carried() {
    assert_eq!(pending_total(0x1_0000, 1), 0x2_0000);
    assert_eq!(recombine_pending(0x1_0000, 1), 0x1_0000);
    assert_eq!(pending_total(0xFFFF_FFFF, 0xFFFF_FFFF), 0xFFFF_FFFF + (0xFFFF_FFFFu64 << 16));
    assert_eq!(pending_total(1, 17), 1 + (1 << 16) + (1 << 20));
}

#[test]
fn funds_are_checked_at_the_boundary() {
    assert_eq!(check_funds(1000, 1000), Ok(0));
    assert_eq!(check_funds(1000, 250), Ok(750));
    assert_eq!(check_funds(1000, 1001), Err(Error::InsufficientBalance));
    assert_eq!(check_funds(750, 1000), Err(Error::InsufficientBalance));
    assert_eq!(check_funds(0, 0), Ok(0));
    assert_eq!(check_funds(u64::MAX, u64::MAX), Ok(0));
}

#[test]
fn parse_pubkey_reads_base58() {
    let token = parse_pubkey("TokenzQdBNbLqP5VEhdkAS6EPFLC1PHnBqCXEpPxuEb").unwrap();
    assert_eq!(token.bytes, TOKEN_PROGRAM_ID);
    let proofs = parse_pubkey("ZkE1Gama1Proof11111111111111111111111111111").unwrap();
    assert_eq!(proofs.bytes, PROOF_PROGRAM_ID);
    let system = parse_pubkey("11111111111111111111111111111111").unwrap();
    assert_eq!(system.bytes, SYSTEM_PROGRAM_ID);
    let sysvar = parse_pubkey("Sysvar1nstructions1111111111111111111111111").unwrap();
    assert_eq!(sysvar.bytes, INSTRUCTIONS_SYSVAR_ID);
    let rent = parse_pubkey("SysvarRent111111111111111111111111111111111").unwrap();
    assert_eq!(rent.bytes, RENT_SYSVAR_ID);
}

#[test]
fn parse_pubkey_rejects_what_is_no_key() {
    assert_eq!(parse_pubkey(""), Err(Error::InvalidPubkey));
    assert_eq!(parse_pubkey("not a key"), Err(Error::InvalidPubkey));
    assert_eq!(parse_pubkey("0OIl"), Err(Error::InvalidPubkey));
    assert_eq!(
        parse_pubkey("TokenzQdBNbLqP5VEhdkAS6EPFLC1PHnBqCXEpPxuEbTokenzQdBNbLqP5VEhdkAS6EPFLC1P"),
        Err(Error::InvalidPubkey)
    );
}

#[test]
fn addresses_are_those_of_the_outside_crates() {
    assert_eq!(TOKEN_PROGRAM_ID, spl_token_2022::id().to_bytes());
    assert_eq!(
        PROOF_PROGRAM_ID,
        spl_token_2022::solana_zk_sdk::zk_elgamal_proof_program::id().to_bytes()
    );
    assert_eq!(SYSTEM_PROGRAM_ID, solana_sdk::system_program::id().to_bytes());
    assert_eq!(INSTRUCTIONS_SYSVAR_ID, solana_sdk::sysvar::instructions::id().to_bytes());
    assert_eq!(RENT_SYSVAR_ID, solana_sdk::sysvar::rent::id().to_bytes());
}
