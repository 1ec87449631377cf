use vstd::prelude::*;
use crate::text::string_push;

verus! {

/// `b` raised to the power `e`.
pub open spec fn pow(b: nat, e: nat) -> nat
    decreases e,
{
    if e == 0 {
        1
    } else {
        b * pow(b, (e - 1) as nat)
    }
}

/// The ASCII character of a decimal digit.
pub open spec fn digit_char(d: nat) -> char {
    (d + 48) as char
}

/// Decimal representation of `n`, most significant digit first, without leading zeros.
pub open spec fn decimal(n: nat) -> Seq<char>
    decreases n,
{
    if n < 10 {
        seq![digit_char(n)]
    } else {
        decimal(n / 10).push(digit_char(n % 10))
    }
}

/// Decimal representation of a signed integer (a leading `-` for negative values).
pub open spec fn signed_decimal(v: int) -> Seq<char> {
    if v < 0 {
        seq!['-'] + decimal((-v) as nat)
    } else {
        decimal(v as nat)
    }
}

/// The `w` lowest decimal digits of `n`, padded with leading zeros.
pub open spec fn low_digits(n: nat, w: nat) -> Seq<char>
    decreases w,
{
    if w == 0 {
        seq![]
    } else {
        low_digits(n / 10, (w - 1) as nat).push(digit_char(n % 10))
    }
}

/// `n / 10^d` written with exactly `d` digits after the decimal point.
pub open spec fn fixed_point(n: nat, d: nat) -> Seq<char> {
    if d == 0 {
        decimal(n)
    } else {
        decimal(n / pow(10, d)) + seq!['.'] + low_digits(n, d)
    }
}

/// `num / den` rounded to the nearest integer, ties to the even neighbour.
pub open spec fn round_half_even(num: nat, den: nat) -> nat {
    let q = num / den;
    let r = num % den;
    if 2 * r < den {
        q
    } else if 2 * r > den {
        q + 1
    } else if q % 2 == 0 {
        q
    } else {
        q + 1
    }
}

/// The non-negative rational `num / den` printed with `d` decimals the way `{:.d}`
/// prints a float holding exactly that value: nearest, ties to even.
pub open spec fn rounded_fixed(num: nat, den: nat, d: nat) -> Seq<char> {
    fixed_point(round_half_even(num * pow(10, d), den), d)
}

/// How many low bits a `u64` loses when converted to `f64` (53-bit significand).
pub open spec fn f64_shift(n: nat) -> nat
    decreases n,
{
    if n < 0x20_0000_0000_0000 {
        0
    } else {
        1 + f64_shift(n / 2)
    }
}

/// The exact value of `n as f64`: round to 53 significant bits, ties to even.
pub open spec fn u64_as_f64(n: nat) -> nat {
    round_half_even(n, pow(2, f64_shift(n))) * pow(2, f64_shift(n))
}

/// Powers of a base of at least 1 grow with the exponent.
pub proof fn lemma_pow_monotonic(b: nat, i: nat, j: nat)
    requires
        b >= 1,
        i <= j,
    ensures
        pow(b, i) <= pow(b, j),
    decreases j,
{
    if i < j {
        lemma_pow_monotonic(b, i, (j - 1) as nat);
        lemma_pow_positive(b, (j - 1) as nat);
        assert(pow(b, (j - 1) as nat) <= b * pow(b, (j - 1) as nat)) by (nonlinear_arith)
            requires
                b >= 1,
                pow(b, (j - 1) as nat) > 0,
        ;
    }
}

/// Powers of a positive base are positive.
pub proof fn lemma_pow_positive(b: nat, e: nat)
    requires
        b > 0,
    ensures
        pow(b, e) > 0,
    decreases e,
{
    if e > 0 {
        lemma_pow_positive(b, (e - 1) as nat);
        assert(b * pow(b, (e - 1) as nat) > 0) by (nonlinear_arith)
            requires
                b > 0,
                pow(b, (e - 1) as nat) > 0,
        ;
    }
}

/// Whole numbers below 2^53 are held exactly by an `f64`.
pub proof fn lemma_small_u64_as_f64_exact(n: nat)
    requires
        n < 0x20_0000_0000_0000,
    ensures
        u64_as_f64(n) == n,
{
    assert(f64_shift(n) == 0);
    assert(pow(2, 0) == 1);
}

fn digit_to_char(d: u8) -> (c: char)
    requires
        d < 10,
    ensures
        c == digit_char(d as nat),
{
    (d + 48) as char
}

/// Appends the decimal representation of `n`.
pub fn push_decimal(out: &mut String, n: u128)
    ensures
        final(out)@ == old(out)@ + decimal(n as nat),
    decreases n,
{
    if n < 10 {
        string_push(out, digit_to_char(n as u8));
        assert(decimal(n as nat) == seq![digit_char(n as nat)]);
        assert(old(out)@.push(digit_char(n as nat)) == old(out)@ + seq![digit_char(n as nat)]);
    } else {
        push_decimal(out, n / 10);
        string_push(out, digit_to_char((n % 10) as u8));
        assert(decimal(n as nat) == decimal((n / 10) as nat).push(digit_char((n % 10) as nat)));
        assert((old(out)@ + decimal((n / 10) as nat)).push(digit_char((n % 10) as nat))
            == old(out)@ + decimal((n / 10) as nat).push(digit_char((n % 10) as nat)));
    }
}

/// Appends the decimal representation of a signed value.
pub fn push_signed_decimal(out: &mut String, v: i64)
    ensures
        final(out)@ == old(out)@ + signed_decimal(v as int),
{
    if v < 0 {
        string_push(out, '-');
        let mag: u128 = (0i128 - v as i128) as u128;
        push_decimal(out, mag);
        assert(old(out)@.push('-') + decimal(mag as nat) == old(out)@ + (seq!['-'] + decimal(mag as nat)));
    } else {
        push_decimal(out, v as u128);
    }
}

/// Appends the `w` lowest decimal digits of `n`, zero padded.
fn push_low_digits(out: &mut String, n: u128, w: u32)
    ensures
        final(out)@ == old(out)@ + low_digits(n as nat, w as nat),
    decreases w,
{
    if w == 0 {
        assert(old(out)@ + seq![] == old(out)@);
    } else {
        push_low_digits(out, n / 10, w - 1);
        string_push(out, digit_to_char((n % 10) as u8));
        assert(low_digits(n as nat, w as nat) == low_digits((n / 10) as nat, (w - 1) as nat).push(
            digit_char((n % 10) as nat),
        ));
        assert((old(out)@ + low_digits((n / 10) as nat, (w - 1) as nat)).push(
            digit_char((n % 10) as nat),
        ) == old(out)@ + low_digits((n / 10) as nat, (w - 1) as nat).push(
            digit_char((n % 10) as nat),
        ));
    }
}

/// `10^d` for the small precisions used in this crate.
fn pow10(d: u32) -> (p: u128)
    requires
        d <= 4,
    ensures
        p == pow(10, d as nat),
        1 <= p <= 10000,
{
    proof {
        reveal_with_fuel(pow, 5);
    }
    if d == 0 {
        1
    } else if d == 1 {
        10
    } else if d == 2 {
        100
    } else if d == 3 {
        1000
    } else {
        10000
    }
}

/// Appends `n / 10^d` written with `d` decimals.
pub fn push_fixed_point(out: &mut String, n: u128, d: u32)
    requires
        d <= 4,
    ensures
        final(out)@ == old(out)@ + fixed_point(n as nat, d as nat),
{
    if d == 0 {
        push_decimal(out, n);
    } else {
        let p = pow10(d);
        push_decimal(out, n / p);
        string_push(out, '.');
        push_low_digits(out, n, d);
        assert(out@ == old(out)@ + (decimal((n / p) as nat) + seq!['.'] + low_digits(n as nat, d as nat)));
    }
}

/// `num / den` rounded to nearest, ties to even.
pub fn round_div(num: u128, den: u128) -> (r: u128)
    requires
        den > 0,
        num < u128::MAX,
    ensures
        r == round_half_even(num as nat, den as nat),
        r <= num / den + 1,
{
    let q = num / den;
    let rem = num % den;
    assert(q <= num) by (nonlinear_arith)
        requires
            den > 0,
            q == num / den,
    ;
    if rem < den - rem {
        q
    } else if rem > den - rem {
        q + 1
    } else if q % 2 == 0 {
        q
    } else {
        q + 1
    }
}

/// The exact value of `n as f64`, computed with integers.
pub fn u64_to_f64_value(n: u64) -> (v: u128)
    ensures
        v == u64_as_f64(n as nat),
        v <= 0x1_0000_0000_0000_0000,
{
    let big: u128 = 0x20_0000_0000_0000;  // 2^53
    if (n as u128) < big {
        proof {
            lemma_small_u64_as_f64_exact(n as nat);
        }
        return n as u128;
    }
    let mut p: u128 = 1;
    let mut k: u32 = 0;
    assert(pow(2, 0) == 1);
    assert((n as u128) / 1 == n as u128);
    while (n as u128) / p >= big
        invariant
            big == 0x20_0000_0000_0000,
            k <= 11,
            p == pow(2, k as nat),
            p >= 1,
            f64_shift(n as nat) == k + f64_shift((n as nat) / (p as nat)),
        decreases (n as u128) / p,
    {
        assert((n as u128) / 2048 < 0x20_0000_0000_0000) by (nonlinear_arith)
            requires
                n < 0x1_0000_0000_0000_0000,
        ;
        assert(pow(2, 11) == 2048) by {
            reveal_with_fuel(pow, 12);
        }
        if k == 11 {
            assert(p == 2048);
            assert(false);
        }
        let ghost q = (n as nat) / (p as nat);
        assert(f64_shift(q) == 1 + f64_shift(q / 2));
        assert(q / 2 == (n as nat) / ((p * 2) as nat)) by {
            vstd::arithmetic::div_mod::lemma_div_denominator(n as int, p as int, 2);
        }
        assert(q / 2 < q);
        p = p * 2;
        k = k + 1;
        assert(pow(2, k as nat) == 2 * pow(2, (k - 1) as nat));
    }
    assert(p <= 2048) by {
        lemma_pow_monotonic(2, k as nat, 11);
        reveal_with_fuel(pow, 12);
    }
    assert(f64_shift((n as nat) / (p as nat)) == 0);
    let r = round_div(n as u128, p);
    assert(r <= big) by {
        assert((n as u128) / p < big);
    }
    assert(r * p <= 0x1_0000_0000_0000_0000) by (nonlinear_arith)
        requires
            r <= 0x20_0000_0000_0000,
            p <= 2048,
    ;
    r * p
}

/// Appends the non-negative rational `num / den` with `d` decimals, as `{:.d}` prints it.
pub fn push_rounded_fixed(out: &mut String, num: u128, den: u128, d: u32)
    requires
        den > 0,
        d <= 4,
        num <= 0x1_0000_0000_0000_0000,
    ensures
        final(out)@ == old(out)@ + rounded_fixed(num as nat, den as nat, d as nat),
{
    let p = pow10(d);
    assert(num * p <= 0x1_0000_0000_0000_0000 * 10000) by (nonlinear_arith)
        requires
            num <= 0x1_0000_0000_0000_0000,
            p <= 10000,
    ;
    let scaled = num * p;
    let n = round_div(scaled, den);
    push_fixed_point(out, n, d);
}

/// A byte count in GiB with `d` decimals, as `{:.d}` prints `bytes as f64 / 1024^3`.
pub open spec fn gib_text(bytes: nat, d: nat) -> Seq<char> {
    rounded_fixed(u64_as_f64(bytes), 0x4000_0000, d)
}

/// Appends `gib_text(bytes, d)`.
pub fn push_gib(out: &mut String, bytes: u64, d: u32)
    requires
        d <= 4,
    ensures
        final(out)@ == old(out)@ + gib_text(bytes as nat, d as nat),
{
    let v = u64_to_f64_value(bytes);
    push_rounded_fixed(out, v, 0x4000_0000, d);
}

} // verus!
