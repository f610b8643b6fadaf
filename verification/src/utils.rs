//! Amount arithmetic and formatting.
use crate::error::Error;
use crate::instruction::Address;
use solana_sdk::pubkey::Pubkey;
use vstd::prelude::*;

verus! {

/// Largest amount a single confidential transfer can carry: 48 bits.
pub const MAX_TRANSFER_AMOUNT: u64 = 0xFFFF_FFFF_FFFF;

/// The 32 bytes that `Pubkey::from_str` reads from base58 text; `None`
/// where it rejects the text.
pub uninterp spec fn pubkey_of_text(text: Seq<char>) -> Option<Seq<u8>>;

/// Calls `Pubkey::from_str`, by way of `str::parse`.
#[verifier::external_body]
fn pubkey_from_str(text: &str) -> (key: Option<[u8; 32]>)
    ensures
        match key {
            Some(k) => pubkey_of_text(text@) == Some(k@),
            None => pubkey_of_text(text@) is None,
        },
{
    Some(text.parse::<Pubkey>().ok()?.to_bytes())
}

/// What parsing a public key gives: the address that the text encodes, or
/// an invalid public key.
pub open spec fn is_parsed_pubkey(text: Seq<char>, address: Result<Address, Error>) -> bool {
    match pubkey_of_text(text) {
        Some(bytes) => address matches Ok(a) && a.bytes@ == bytes,
        None => address == Err::<Address, Error>(Error::InvalidPubkey),
    }
}

/// Reads a public key from its base58 text.
pub fn parse_pubkey(s: &str) -> (address: Result<Address, Error>)
    ensures
        is_parsed_pubkey(s@, address),
{
    match pubkey_from_str(s) {
        Some(bytes) => Ok(Address { bytes }),
        None => Err(Error::InvalidPubkey),
    }
}

/// Ten to the power `e`.
pub open spec fn pow10(e: nat) -> nat
    decreases e,
{
    if e == 0 {
        1
    } else {
        10 * pow10((e - 1) as nat)
    }
}

/// The character of a decimal digit.
pub open spec fn digit_char(d: nat) -> char {
    if d == 0 {
        '0'
    } else if d == 1 {
        '1'
    } else if d == 2 {
        '2'
    } else if d == 3 {
        '3'
    } else if d == 4 {
        '4'
    } else if d == 5 {
        '5'
    } else if d == 6 {
        '6'
    } else if d == 7 {
        '7'
    } else if d == 8 {
        '8'
    } else {
        '9'
    }
}

/// The decimal numeral of `n`, without leading zeros.
pub open spec fn decimal(n: nat) -> Seq<char>
    decreases n,
{
    if n < 10 {
        seq![digit_char(n)]
    } else {
        decimal(n / 10).push(digit_char(n % 10))
    }
}

/// The decimal numeral of `n`, padded on the left with zeros to `width`
/// characters; a numeral that is already as wide is left as it is.
pub open spec fn zero_padded(n: nat, width: nat) -> Seq<char> {
    let d = decimal(n);
    if d.len() >= width {
        d
    } else {
        Seq::new((width - d.len()) as nat, |i: int| '0') + d
    }
}

/// An amount of base units written with a decimal point: the whole part,
/// a point, and the fraction in exactly `decimals` digits (one digit `0`
/// where `decimals` is zero).
pub open spec fn formatted_amount(amount: u64, decimals: u8) -> Seq<char> {
    let divisor = pow10(decimals as nat);
    decimal(amount as nat / divisor) + seq!['.'] + zero_padded(
        amount as nat % divisor,
        decimals as nat,
    )
}

/// The low 16 bits of an amount.
pub open spec fn amount_lo(amount: u64) -> u16 {
    (amount & 0xFFFF) as u16
}

/// The bits of an amount above the low 16.
pub open spec fn amount_hi(amount: u64) -> u64 {
    amount >> 16
}

/// The value whose bits 0 to 15 come from `lo` and whose bits from 16 on
/// come from `hi`, joined by bitwise or.
pub open spec fn recombined(lo: u32, hi: u32) -> u64 {
    (lo as u64) | ((hi as u64) << 16)
}

proof fn lemma_pow10_values()
    ensures
        pow10(0) == 1,
        pow10(1) == 10,
        pow10(2) == 100,
        pow10(3) == 1_000,
        pow10(4) == 10_000,
        pow10(5) == 100_000,
        pow10(6) == 1_000_000,
        pow10(7) == 10_000_000,
        pow10(8) == 100_000_000,
        pow10(9) == 1_000_000_000,
        pow10(10) == 10_000_000_000,
        pow10(11) == 100_000_000_000,
        pow10(12) == 1_000_000_000_000,
        pow10(13) == 10_000_000_000_000,
        pow10(14) == 100_000_000_000_000,
        pow10(15) == 1_000_000_000_000_000,
        pow10(16) == 10_000_000_000_000_000,
        pow10(17) == 100_000_000_000_000_000,
        pow10(18) == 1_000_000_000_000_000_000,
        pow10(19) == 10_000_000_000_000_000_000,
{
    reveal_with_fuel(pow10, 21);
}

/// Ten to the power `e`, for every exponent whose power fits in 64 bits.
pub fn power_of_ten(e: u8) -> (p: u64)
    requires
        e <= 19,
    ensures
        p == pow10(e as nat),
        p >= 1,
{
    let mut p: u64 = 1;
    let mut i: u8 = 0;
    while i < e
        invariant
            i <= e,
            e <= 19,
            p == pow10(i as nat),
        decreases e - i,
    {
        proof {
            lemma_pow10_values();
            assert(pow10((i + 1) as nat) == 10 * pow10(i as nat));
        }
        p = p * 10;
        i = i + 1;
    }
    proof {
        lemma_pow10_values();
    }
    p
}

fn digit_str(d: u64) -> (s: &'static str)
    requires
        d < 10,
    ensures
        s@ == seq![digit_char(d as nat)],
{
    proof {
        reveal_strlit("0");
        reveal_strlit("1");
        reveal_strlit("2");
        reveal_strlit("3");
        reveal_strlit("4");
        reveal_strlit("5");
        reveal_strlit("6");
        reveal_strlit("7");
        reveal_strlit("8");
        reveal_strlit("9");
    }
    let s = if d == 0 {
        "0"
    } else if d == 1 {
        "1"
    } else if d == 2 {
        "2"
    } else if d == 3 {
        "3"
    } else if d == 4 {
        "4"
    } else if d == 5 {
        "5"
    } else if d == 6 {
        "6"
    } else if d == 7 {
        "7"
    } else if d == 8 {
        "8"
    } else {
        "9"
    };
    assert(s@ =~= seq![digit_char(d as nat)]);
    s
}

/// Appends the decimal numeral of `n` to `out`.
fn push_decimal(out: &mut String, n: u64)
    ensures
        final(out)@ == old(out)@ + decimal(n as nat),
    decreases n,
{
    if n >= 10 {
        push_decimal(out, n / 10);
    }
    let d = digit_str(n % 10);
    out.append(d);
    assert(final(out)@ =~= old(out)@ + decimal(n as nat));
}

/// The number of digits of the decimal numeral of `n`.
fn decimal_width(n: u64) -> (w: usize)
    ensures
        w == decimal(n as nat).len(),
        1 <= w <= 20,
{
    let mut w: usize = 1;
    let mut rest: u64 = n;
    proof {
        lemma_pow10_values();
        assert(pow10((w - 1) as nat) == 1);
        assert(rest as nat * pow10((w - 1) as nat) == rest);
    }
    while rest >= 10
        invariant
            1 <= w,
            w + decimal(rest as nat).len() == decimal(n as nat).len() + 1,
            rest as nat * pow10((w - 1) as nat) <= n,
            w <= 20,
        decreases rest,
    {
        proof {
            lemma_pow10_values();
            assert(pow10(w as nat) == 10 * pow10((w - 1) as nat));
            assert((rest / 10) as nat * pow10(w as nat) <= rest as nat * pow10((w - 1) as nat))
                by (nonlinear_arith)
                requires
                    pow10(w as nat) == 10 * pow10((w - 1) as nat),
            ;
            if w == 20 {
                assert(pow10(19) == 10_000_000_000_000_000_000);
                assert(rest as nat * pow10(19) >= 10 * pow10(19)) by (nonlinear_arith)
                    requires
                        rest >= 10,
                ;
            }
        }
        rest = rest / 10;
        w = w + 1;
    }
    w
}

/// Writes an amount of base units with a decimal point, `decimals` digits
/// behind it.
pub fn format_amount(amount: u64, decimals: u8) -> (text: String)
    requires
        decimals <= 19,
    ensures
        text@ == formatted_amount(amount, decimals),
{
    let divisor = power_of_ten(decimals);
    let whole = amount / divisor;
    let fraction = amount % divisor;
    let mut text = String::new();
    push_decimal(&mut text, whole);
    proof {
        reveal_strlit(".");
        reveal_strlit("0");
    }
    text.append(".");
    let width = decimal_width(fraction);
    let ghost head = text@;
    let mut filled: usize = width;
    while filled < decimals as usize
        invariant
            width <= filled,
            filled == width || filled <= decimals,
            text@ == head + Seq::new((filled - width) as nat, |i: int| '0'),
            "0"@ == seq!['0'],
        decreases decimals - filled,
    {
        text.append("0");
        filled = filled + 1;
        assert(text@ =~= head + Seq::new((filled - width) as nat, |i: int| '0'));
    }
    push_decimal(&mut text, fraction);
    proof {
        let d = decimal(fraction as nat);
        assert(head =~= decimal(whole as nat) + seq!['.']);
        if d.len() >= decimals as nat {
            assert(filled == width);
            assert(Seq::new(0nat, |i: int| '0') =~= Seq::<char>::empty());
            assert(text@ =~= formatted_amount(amount, decimals));
        } else {
            assert(filled == decimals);
            assert(text@ =~= formatted_amount(amount, decimals));
        }
    }
    text
}

/// Splits an amount into its low 16 bits and the bits above them.
pub fn split_amount(amount: u64) -> (parts: (u16, u64))
    ensures
        parts.0 == amount_lo(amount),
        parts.1 == amount_hi(amount),
        parts.0 == amount % 0x1_0000,
        parts.1 == amount / 0x1_0000,
        parts.1 < 0x1_0000_0000_0000,
        amount <= MAX_TRANSFER_AMOUNT ==> parts.1 <= u32::MAX,
{
    let lo = (amount & 0xFFFF) as u16;
    let hi = amount >> 16;
    assert((amount & 0xFFFF) <= 0xFFFF) by (bit_vector);
    assert((amount & 0xFFFF) == amount % 0x1_0000) by (bit_vector);
    assert((amount >> 16) == amount / 0x1_0000) by (bit_vector);
    assert((amount >> 16) < 0x1_0000_0000_0000) by (bit_vector);
    (lo, hi)
}

/// Joins the two decrypted halves of a pending balance by bitwise or: `lo`
/// in bits 0 to 15, `hi` from bit 16 on.
pub fn recombine_pending(lo: u32, hi: u32) -> (amount: u64)
    ensures
        amount == recombined(lo, hi),
        lo <= u16::MAX ==> amount == lo + hi * 0x1_0000,
{
    let amount = (lo as u64) | ((hi as u64) << 16);
    assert(lo <= 0xFFFF ==> ((lo as u64) | ((hi as u64) << 16)) == (lo as u64) + (hi as u64)
        * 0x1_0000) by (bit_vector);
    amount
}

/// The sum that the two halves of a pending balance stand for: `lo` plus
/// `hi` shifted up by 16 bits. Unlike the bitwise join, this is right also
/// when repeated credits have carried `lo` past 16 bits.
pub fn pending_total(lo: u32, hi: u32) -> (amount: u64)
    ensures
        amount == lo + hi * 0x1_0000,
{
    let shifted = (hi as u64) << 16;
    assert(((hi as u64) << 16) == (hi as u64) * 0x1_0000) by (bit_vector);
    (lo as u64) + shifted
}

/// What is left of `available` once `amount` is taken from it; a balance
/// that is smaller than the amount is insufficient.
pub open spec fn remaining_after(available: u64, amount: u64) -> Result<u64, Error> {
    if amount > available {
        Err(Error::InsufficientBalance)
    } else {
        Ok((available - amount) as u64)
    }
}

/// Checks that `available` covers `amount` and gives what is left.
pub fn check_funds(available: u64, amount: u64) -> (remaining: Result<u64, Error>)
    ensures
        remaining == remaining_after(available, amount),
{
    if amount > available {
        Err(Error::InsufficientBalance)
    } else {
        Ok(available - amount)
    }
}

/// Taking the whole balance is covered and leaves nothing; taking one unit
/// more than the balance is refused as insufficient.
pub proof fn lemma_funds_boundary(available: u64)
    ensures
        remaining_after(available, available) == Ok::<u64, Error>(0u64),
        available < u64::MAX ==> remaining_after(available, (available + 1) as u64) == Err::<
            u64,
            Error,
        >(Error::InsufficientBalance),
{
}

/// Splitting an amount of at most 48 bits and joining the halves again gives
/// the amount back.
pub proof fn lemma_split_then_recombine(amount: u64)
    requires
        amount <= MAX_TRANSFER_AMOUNT,
    ensures
        amount_hi(amount) <= u32::MAX,
        recombined(amount_lo(amount) as u32, amount_hi(amount) as u32) == amount,
{
    assert(amount <= 0xFFFF_FFFF_FFFF ==> (amount >> 16) <= 0xFFFF_FFFF) by (bit_vector);
    assert(amount <= 0xFFFF_FFFF_FFFF ==> ((((amount & 0xFFFF) as u16) as u32) as u64) | ((((amount
        >> 16) as u32) as u64) << 16) == amount) by (bit_vector);
}

/// Joining a low half of at most 16 bits with a high half of 32 bits and
/// splitting the result gives the two halves back; the joined value has at
/// most 48 bits.
pub proof fn lemma_recombine_then_split(lo: u32, hi: u32)
    requires
        lo <= u16::MAX,
    ensures
        recombined(lo, hi) <= MAX_TRANSFER_AMOUNT,
        amount_lo(recombined(lo, hi)) == lo,
        amount_hi(recombined(lo, hi)) == hi,
{
    assert(lo <= 0xFFFF ==> ((lo as u64) | ((hi as u64) << 16)) <= 0xFFFF_FFFF_FFFF)
        by (bit_vector);
    assert(lo <= 0xFFFF ==> ((((lo as u64) | ((hi as u64) << 16)) & 0xFFFF) as u16) == lo)
        by (bit_vector);
    assert(lo <= 0xFFFF ==> (((lo as u64) | ((hi as u64) << 16)) >> 16) == hi) by (bit_vector);
}

} // verus!
