//! Amount arithmetic and formatting: lamports and token units as decimal text, and the
//! price a swap quote implies.
use vstd::prelude::*;

verus! {

/// Relies on `String::push`, which appends one character.
pub assume_specification[ String::push ](s: &mut String, ch: char)
    ensures
        final(s)@ == old(s)@.push(ch),
;

/// Price units (thousandths of a lamport per whole token) of one lamport per smallest token
/// unit, for tokens of six decimals: a thousand times a million.
pub const QUOTE_PRICE_FACTOR: u64 = 1_000_000_000;

pub open spec fn digit_char(d: nat) -> char {
    if d == 0 {
        '0'
    } else if d == 1 {
        '1'
    } else if d == 2 {
        '2'
    } else if d == 3 {
        '3'
    } else if d == 4 {
        '4'
    } else if d == 5 {
        '5'
    } else if d == 6 {
        '6'
    } else if d == 7 {
        '7'
    } else if d == 8 {
        '8'
    } else {
        '9'
    }
}

/// Decimal digits of `n`, without leading zeros.
pub open spec fn decimal(n: nat) -> Seq<char>
    decreases n,
{
    if n < 10 {
        seq![digit_char(n)]
    } else {
        decimal(n / 10).push(digit_char(n % 10))
    }
}

/// The last `w` decimal digits of `n`, zero-padded.
pub open spec fn digits_fixed(n: nat, w: nat) -> Seq<char>
    decreases w,
{
    if w == 0 {
        Seq::empty()
    } else {
        digits_fixed(n / 10, (w - 1) as nat).push(digit_char(n % 10))
    }
}

pub open spec fn pow10(e: nat) -> nat
    decreases e,
{
    if e == 0 {
        1
    } else {
        10 * pow10((e - 1) as nat)
    }
}

/// `n` billionths as text with nine decimals: integer part, point, nine digits.
pub open spec fn nanos_text(n: nat) -> Seq<char> {
    decimal(n / 1_000_000_000) + seq!['.'] + digits_fixed(n % 1_000_000_000, 9)
}

/// `amount` units of `decimals` decimals, in billionths, rounded half to even.
pub open spec fn scaled_nanos(amount: nat, decimals: nat) -> nat {
    if decimals <= 9 {
        amount * pow10((9 - decimals) as nat)
    } else {
        let unit = pow10((decimals - 9) as nat);
        let q = amount / unit;
        let r = amount % unit;
        if r * 2 > unit || (r * 2 == unit && q % 2 == 1) {
            q + 1
        } else {
            q
        }
    }
}

fn digit(d: u128) -> (c: char)
    requires
        d < 10,
    ensures
        c == digit_char(d as nat),
{
    if d == 0 {
        '0'
    } else if d == 1 {
        '1'
    } else if d == 2 {
        '2'
    } else if d == 3 {
        '3'
    } else if d == 4 {
        '4'
    } else if d == 5 {
        '5'
    } else if d == 6 {
        '6'
    } else if d == 7 {
        '7'
    } else if d == 8 {
        '8'
    } else {
        '9'
    }
}

/// Appends the decimal digits of `n`.
pub fn push_decimal(s: &mut String, n: u128)
    ensures
        final(s)@ == old(s)@ + decimal(n as nat),
    decreases n,
{
    if n >= 10 {
        push_decimal(s, n / 10);
    }
    s.push(digit(n % 10));
}

/// Appends the last `w` decimal digits of `n`, zero-padded.
pub fn push_fixed(s: &mut String, n: u128, w: u32)
    ensures
        final(s)@ == old(s)@ + digits_fixed(n as nat, w as nat),
    decreases w,
{
    if w > 0 {
        push_fixed(s, n / 10, w - 1);
        s.push(digit(n % 10));
    }
}

fn pow10_exec(e: u32) -> (r: u128)
    requires
        e <= 19,
    ensures
        r == pow10(e as nat),
{
    proof {
        lemma_pow10_19();
    }
    let mut r: u128 = 1;
    let mut i: u32 = 0;
    while i < e
        invariant
            i <= e <= 19,
            r == pow10(i as nat),
            pow10(19) == 10_000_000_000_000_000_000,
        decreases e - i,
    {
        proof {
            lemma_pow10_monotone(i as nat + 1, 19);
        }
        r = r * 10;
        i = i + 1;
    }
    r
}

proof fn lemma_pow10_monotone(a: nat, b: nat)
    requires
        a <= b,
    ensures
        pow10(a) <= pow10(b),
        pow10(a) >= 1,
    decreases b,
{
    if b > 0 {
        if a <= (b - 1) as nat {
            lemma_pow10_monotone(a, (b - 1) as nat);
        }
        lemma_pow10_monotone(0, (b - 1) as nat);
    }
}

proof fn lemma_pow10_19()
    ensures
        pow10(19) == 10_000_000_000_000_000_000,
{
    reveal_with_fuel(pow10, 20);
}

fn push_nanos(s: &mut String, n: u128)
    ensures
        final(s)@ == old(s)@ + nanos_text(n as nat),
{
    push_decimal(s, n / 1_000_000_000);
    s.push('.');
    push_fixed(s, n % 1_000_000_000, 9);
    assert(final(s)@ == old(s)@ + nanos_text(n as nat));
}

/// Lamports as SOL with nine decimals, followed by ` SOL`.
pub fn format_sol_amount(lamports: u64) -> (r: String)
    ensures
        r@ == nanos_text(lamports as nat) + seq![' ', 'S', 'O', 'L'],
{
    let mut s = String::new();
    push_nanos(&mut s, lamports as u128);
    s.push(' ');
    s.push('S');
    s.push('O');
    s.push('L');
    s
}

/// `amount` smallest units of a token of `decimals` decimals, as text with nine decimals
/// (rounded half to even when the token has more than nine).
pub fn format_token_amount(amount: u64, decimals: u8) -> (r: String)
    requires
        decimals <= 19,
    ensures
        r@ == nanos_text(scaled_nanos(amount as nat, decimals as nat)),
{
    proof {
        lemma_pow10_19();
        reveal_with_fuel(pow10, 10);
    }
    let n: u128 = if decimals <= 9 {
        let f = pow10_exec(9 - decimals as u32);
        proof {
            lemma_pow10_monotone((9 - decimals) as nat, 9);
            assert(amount * f <= (u64::MAX as int) * 1_000_000_000) by (nonlinear_arith)
                requires
                    f <= 1_000_000_000,
                    amount <= u64::MAX,
            ;
        }
        (amount as u128) * f
    } else {
        let unit = pow10_exec(decimals as u32 - 9);
        proof {
            lemma_pow10_monotone(0, (decimals - 9) as nat);
            lemma_pow10_monotone((decimals - 9) as nat, 19);
        }
        let q = (amount as u128) / unit;
        let rem = (amount as u128) % unit;
        if rem * 2 > unit || (rem * 2 == unit && q % 2 == 1) {
            q + 1
        } else {
            q
        }
    };
    let mut s = String::new();
    push_nanos(&mut s, n);
    s
}

/// The price, in thousandths of a lamport per whole token, of a buy that spent
/// `lamports_in` for `units_out` smallest units; `None` when nothing was received or the
/// price does not fit in 64 bits.
pub open spec fn quote_price_spec(lamports_in: u64, units_out: u64) -> Option<u64> {
    if units_out == 0 {
        None
    } else {
        let p = lamports_in * QUOTE_PRICE_FACTOR / (units_out as int);
        if p <= u64::MAX {
            Some(p as u64)
        } else {
            None
        }
    }
}

/// The per-token price implied by a swap quote (see `quote_price_spec`).
pub fn quote_price(lamports_in: u64, units_out: u64) -> (r: Option<u64>)
    ensures
        r == quote_price_spec(lamports_in, units_out),
{
    if units_out == 0 {
        return None;
    }
    assert(lamports_in * 1_000_000_000 <= (u64::MAX as int) * 1_000_000_000) by (nonlinear_arith)
        requires
            lamports_in <= u64::MAX,
    ;
    let p = (lamports_in as u128) * (QUOTE_PRICE_FACTOR as u128) / (units_out as u128);
    if p <= u64::MAX as u128 {
        Some(p as u64)
    } else {
        None
    }
}

} // verus!
