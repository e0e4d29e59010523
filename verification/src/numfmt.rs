//! Fixed-point numbers written as decimals.
//!
//! A value `v` with `k` decimals stands for `v / 10^k`. `fixed_text` writes it
//! with exactly `k` decimals, as `format!("{:.k$}", x)` writes the number it
//! stands for; `short_text` writes it the way `x.to_string()` writes a float
//! (no trailing zeros, and no point for a whole number).
use vstd::prelude::*;
use crate::textutil::{decimal, digit, digit_char, push_char, push_u128, push_u64};

verus! {

/// `10^k`.
pub open spec fn pow10(k: nat) -> nat
    decreases k,
{
    if k == 0 {
        1
    } else {
        10 * pow10((k - 1) as nat)
    }
}

/// The last `k` decimal digits of `n`, with leading zeros.
pub open spec fn padded(n: nat, k: nat) -> Seq<char>
    decreases k,
{
    if k == 0 {
        Seq::empty()
    } else {
        padded(n / 10, (k - 1) as nat).push(digit_char((n % 10) as int))
    }
}

/// Absolute value.
pub open spec fn abs(v: int) -> nat {
    if v < 0 {
        (-v) as nat
    } else {
        v as nat
    }
}

/// `-` for a negative value, nothing otherwise.
pub open spec fn sign_text(v: int) -> Seq<char> {
    if v < 0 {
        seq!['-']
    } else {
        Seq::empty()
    }
}

/// `v / 10^k` written with exactly `k` decimals (`k > 0`).
pub open spec fn fixed_text(v: int, k: nat) -> Seq<char> {
    sign_text(v) + decimal(abs(v) / pow10(k)) + seq!['.'] + padded(abs(v) % pow10(k), k)
}

/// The fraction `f` with `d` digits, trailing zeros removed: the remaining
/// digits and how many there are.
pub open spec fn stripped(f: nat, d: nat) -> (nat, nat)
    decreases d,
{
    if d > 0 && f % 10 == 0 {
        stripped(f / 10, (d - 1) as nat)
    } else {
        (f, d)
    }
}

/// `v / 10^k` written with as few decimals as needed, and without a point when
/// it is whole.
pub open spec fn short_text(v: int, k: nat) -> Seq<char> {
    let (f, d) = stripped(abs(v) % pow10(k), k);
    sign_text(v) + decimal(abs(v) / pow10(k)) + (if d == 0 {
        Seq::empty()
    } else {
        seq!['.'] + padded(f, d)
    })
}

/// `n / d` rounded to the nearest integer, halves away from zero (`d > 0`), as
/// `f64::round` rounds.
pub open spec fn div_round(n: int, d: int) -> int {
    if n >= 0 {
        (2 * n + d) / (2 * d)
    } else {
        -((-2 * n + d) / (2 * d))
    }
}

fn pow10_exec(k: u32) -> (r: u64)
    requires
        k <= 19,
    ensures
        r == pow10(k as nat),
{
    let mut r: u64 = 1;
    let mut i: u32 = 0;
    while i < k
        invariant
            0 <= i <= k,
            k <= 19,
            r == pow10(i as nat),
            pow10(i as nat) <= 10_000_000_000_000_000_000u64,
        decreases k - i,
    {
        proof {
            lemma_pow10_bound((i + 1) as nat);
        }
        r = r * 10;
        i = i + 1;
    }
    r
}

proof fn lemma_pow10_bound(k: nat)
    requires
        k <= 19,
    ensures
        pow10(k) <= 10_000_000_000_000_000_000u64,
        pow10(k) >= 1,
    decreases k,
{
    reveal_with_fuel(pow10, 20);
    if k > 0 {
        lemma_pow10_bound((k - 1) as nat);
    }
}

/// Appends the last `k` digits of `n`, with leading zeros.
pub(crate) fn push_padded(s: &mut String, n: u64, k: u32)
    ensures
        final(s)@ == old(s)@ + padded(n as nat, k as nat),
    decreases k,
{
    if k > 0 {
        push_padded(s, n / 10, k - 1);
        push_char(s, digit(n % 10));
    }
}

fn abs_u64(v: i64) -> (r: u64)
    ensures
        r == abs(v as int),
{
    if v < 0 {
        (0i128 - v as i128) as u64
    } else {
        v as u64
    }
}

/// Appends `v / 10^k` with exactly `k` decimals.
pub fn push_fixed(s: &mut String, v: i64, k: u32)
    requires
        0 < k <= 18,
    ensures
        final(s)@ == old(s)@ + fixed_text(v as int, k as nat),
{
    let ghost s0 = s@;
    let p = pow10_exec(k);
    proof {
        lemma_pow10_bound(k as nat);
    }
    let a = abs_u64(v);
    if v < 0 {
        push_char(s, '-');
    }
    push_u64(s, a / p);
    push_char(s, '.');
    push_padded(s, a % p, k);
    assert(s@ =~= s0 + fixed_text(v as int, k as nat));
}

/// `v / 10^k` with exactly `k` decimals.
pub fn fixed_to_string(v: i64, k: u32) -> (r: String)
    requires
        0 < k <= 18,
    ensures
        r@ == fixed_text(v as int, k as nat),
{
    let mut s = String::new();
    push_fixed(&mut s, v, k);
    assert(s@ =~= fixed_text(v as int, k as nat));
    s
}

/// Appends `v / 10^k` with exactly `k` decimals, for a value held in 128 bits.
pub fn push_fixed_wide(s: &mut String, v: i128, k: u32)
    requires
        0 < k <= 18,
        -0x4000_0000_0000_0000_0000_0000_0000_0000 <= v,
    ensures
        final(s)@ == old(s)@ + fixed_text(v as int, k as nat),
{
    let ghost s0 = s@;
    let p = pow10_exec(k);
    proof {
        lemma_pow10_bound(k as nat);
    }
    let a: u128 = if v < 0 {
        (0 - v) as u128
    } else {
        v as u128
    };
    if v < 0 {
        push_char(s, '-');
    }
    push_u128(s, a / (p as u128));
    push_char(s, '.');
    push_padded(s, (a % (p as u128)) as u64, k);
    assert(s@ =~= s0 + fixed_text(v as int, k as nat));
}

/// `div_round(n, d)` for an amount held in 128 bits.
pub fn div_round_exec(n: i128, d: u64) -> (r: i128)
    requires
        0 < d,
        -0x4000_0000_0000_0000_0000_0000_0000_0000 <= n <= 0x4000_0000_0000_0000_0000_0000_0000_0000,
    ensures
        r == div_round(n as int, d as int),
        n >= 0 ==> 0 <= r <= n + d,
        n < 0 ==> n - d <= r <= 0,
{
    let a: u128 = if n >= 0 {
        n as u128
    } else {
        (0 - n) as u128
    };
    let dd: u128 = d as u128;
    let q: u128 = (2 * a + dd) / (2 * dd);
    assert(q <= a + dd) by (nonlinear_arith)
        requires
            dd >= 1,
            a >= 0,
            q == (2 * a + dd) / (2 * dd),
    ;
    if n >= 0 {
        q as i128
    } else {
        0 - (q as i128)
    }
}

/// Appends `v / 10^k` with as few decimals as needed.
pub fn push_short(s: &mut String, v: i64, k: u32)
    requires
        k <= 18,
    ensures
        final(s)@ == old(s)@ + short_text(v as int, k as nat),
{
    let ghost s0 = s@;
    let p = pow10_exec(k);
    proof {
        lemma_pow10_bound(k as nat);
    }
    let a = abs_u64(v);
    if v < 0 {
        push_char(s, '-');
    }
    push_u64(s, a / p);
    let mut f = a % p;
    let mut d = k;
    while d > 0 && f % 10 == 0
        invariant
            d <= k,
            stripped(f as nat, d as nat) == stripped(a as nat % pow10(k as nat), k as nat),
        decreases d,
    {
        f = f / 10;
        d = d - 1;
    }
    assert(stripped(f as nat, d as nat) == (f as nat, d as nat));
    if d > 0 {
        push_char(s, '.');
        push_padded(s, f, d);
    }
    assert(s@ =~= s0 + short_text(v as int, k as nat));
}

} // verus!
