//! Decimal rendering of satoshi amounts as coins (1 coin = 10^8 satoshis).

use vstd::prelude::*;

verus! {

/// Number of satoshis in one coin.
pub const SATS_PER_COIN: u64 = 100_000_000;

/// Number of decimal places of a satoshi amount expressed in coins.
pub const COIN_DECIMALS: u8 = 8;

/// `String::push` appends one character to the end of the string.
pub assume_specification[ String::push ](s: &mut String, ch: char)
    ensures
        final(s)@ == old(s)@.push(ch),
;

/// The character that writes the decimal digit `d`.
pub open spec fn digit_char(d: int) -> char
    recommends
        0 <= d <= 9,
{
    if d == 0 {
        '0'
    } else if d == 1 {
        '1'
    } else if d == 2 {
        '2'
    } else if d == 3 {
        '3'
    } else if d == 4 {
        '4'
    } else if d == 5 {
        '5'
    } else if d == 6 {
        '6'
    } else if d == 7 {
        '7'
    } else if d == 8 {
        '8'
    } else {
        '9'
    }
}

/// The decimal digits of `n`, most significant first, without leading zeros
/// (`0` is written "0").
pub open spec fn nat_digits(n: nat) -> Seq<char>
    decreases n,
{
    if n < 10 {
        seq![digit_char(n as int)]
    } else {
        nat_digits(n / 10).push(digit_char((n % 10) as int))
    }
}

/// The last `width` decimal digits of `n`, most significant first, padded
/// with leading zeros.
pub open spec fn fixed_digits(n: nat, width: nat) -> Seq<char>
    decreases width,
{
    if width == 0 {
        Seq::empty()
    } else {
        fixed_digits(n / 10, (width - 1) as nat).push(digit_char((n % 10) as int))
    }
}

/// `s` without the zeros at its end.
pub open spec fn trim_trailing_zeros(s: Seq<char>) -> Seq<char>
    decreases s.len(),
{
    if s.len() > 0 && s.last() == '0' {
        trim_trailing_zeros(s.drop_last())
    } else {
        s
    }
}

/// The fractional part of a decimal number whose digits after the point are
/// the last `width` digits of `n`: empty when they are all zero, else a point
/// followed by those digits up to the last one that is not zero.
pub open spec fn fraction_text(n: nat, width: nat) -> Seq<char> {
    let digits = trim_trailing_zeros(fixed_digits(n, width));
    if digits.len() == 0 {
        Seq::empty()
    } else {
        seq!['.'] + digits
    }
}

/// The absolute value of `sats`.
pub open spec fn magnitude(sats: int) -> nat {
    if sats < 0 {
        (-sats) as nat
    } else {
        sats as nat
    }
}

/// The exact decimal text of `sats` satoshis in coins: an optional minus
/// sign, the whole coins, and the fraction where there is one. 150,000,000
/// is "1.5", 0 is "0", 1 is "0.00000001".
pub open spec fn coin_text(sats: int) -> Seq<char> {
    let sign = if sats < 0 {
        seq!['-']
    } else {
        Seq::<char>::empty()
    };
    let mag = magnitude(sats);
    sign + nat_digits(mag / 100_000_000) + fraction_text(mag % 100_000_000, 8)
}

/// The character of one decimal digit.
fn digit_to_char(d: u8) -> (c: char)
    requires
        d <= 9,
    ensures
        c == digit_char(d as int),
{
    match d {
        0 => '0',
        1 => '1',
        2 => '2',
        3 => '3',
        4 => '4',
        5 => '5',
        6 => '6',
        7 => '7',
        8 => '8',
        _ => '9',
    }
}

/// Appends the decimal digits of `n` to `out`.
fn push_nat_digits(out: &mut String, n: u64)
    ensures
        final(out)@ == old(out)@ + nat_digits(n as nat),
    decreases n,
{
    if n >= 10 {
        push_nat_digits(out, n / 10);
    }
    out.push(digit_to_char((n % 10) as u8));
}

/// Appends the last `width` decimal digits of `n` to `out`.
fn push_fixed_digits(out: &mut String, n: u64, width: u8)
    ensures
        final(out)@ == old(out)@ + fixed_digits(n as nat, width as nat),
    decreases width,
{
    if width > 0 {
        push_fixed_digits(out, n / 10, width - 1);
        out.push(digit_to_char((n % 10) as u8));
    }
}

/// Appends to `out` the fraction made of the last `width` digits of `n`:
/// nothing when they are all zero.
fn push_fraction(out: &mut String, n: u64, width: u8)
    ensures
        final(out)@ == old(out)@ + fraction_text(n as nat, width as nat),
    decreases width,
{
    if width == 0 {
        return ;
    }
    let ghost digits = fixed_digits(n as nat, width as nat);
    if n % 10 == 0 {
        assert(digits.drop_last() == fixed_digits((n / 10) as nat, (width - 1) as nat));
        push_fraction(out, n / 10, width - 1);
    } else {
        assert(digits.last() != '0');
        out.push('.');
        push_fixed_digits(out, n, width);
        assert(final(out)@ == old(out)@ + (seq!['.'] + digits));
    }
}

/// The absolute value of `sats`, which fits in a `u64` for every `i64`.
fn sats_magnitude(sats: i64) -> (mag: u64)
    ensures
        mag as nat == magnitude(sats as int),
{
    if sats >= 0 {
        sats as u64
    } else {
        let below: i64 = -(sats + 1);
        below as u64 + 1
    }
}

/// Renders `sats` satoshis as a decimal amount of coins, exactly: no digit
/// is rounded away, and no zero is written at the end of the fraction.
pub fn sats_to_coin_text(sats: i64) -> (text: String)
    ensures
        text@ == coin_text(sats as int),
{
    let mut out = String::new();
    if sats < 0 {
        out.push('-');
    }
    let mag: u64 = sats_magnitude(sats);
    push_nat_digits(&mut out, mag / SATS_PER_COIN);
    push_fraction(&mut out, mag % SATS_PER_COIN, COIN_DECIMALS);
    out
}

} // verus!
