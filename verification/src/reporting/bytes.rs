//! Human-readable byte counts with binary (1024-based) units, e.g.
//! `"1.2 GB"`, `"340.5 MB"`; counts under 1024 bytes are a bare integer
//! (`"512 B"`).
//!
//! The rendering is the one a double-precision value gives: the count is
//! first rounded to the nearest value a 53-bit significand holds (ties to
//! even), scaled down by whole powers of 1024 (exact in binary), and the
//! quotient is printed with one decimal, rounding half to even. All of it
//! is carried out here in integers, so the result is exact.

use vstd::prelude::*;
use vstd::arithmetic::div_mod::{lemma_div_denominator, lemma_fundamental_div_mod};

use crate::text::{decimal, push_decimal, push_str, string_from_chars};

verus! {

/// `1024^k`.
pub open spec fn pow1024(k: nat) -> nat
    decreases k,
{
    if k == 0 {
        1
    } else {
        1024 * pow1024((k - 1) as nat)
    }
}

/// The distance between consecutive double-precision values around `b`:
/// 1 below 2^53, doubling with each further bit.
pub open spec fn f64_spacing(b: nat) -> nat
    decreases b,
{
    if b < 0x20_0000_0000_0000 {
        1
    } else {
        2 * f64_spacing(b / 2)
    }
}

/// `n / d` rounded to the nearest integer, ties to even.
pub open spec fn div_round_half_even(n: nat, d: nat) -> nat
    recommends
        d > 0,
{
    let q = n / d;
    let r = n % d;
    if 2 * r > d || (2 * r == d && q % 2 == 1) {
        q + 1
    } else {
        q
    }
}

/// The integer a double-precision conversion of `b` holds: the nearest
/// multiple of the spacing at `b`, ties to even.
pub open spec fn f64_value(b: nat) -> nat {
    let sp = f64_spacing(b);
    div_round_half_even(b, sp) * sp
}

/// How many times `m` can be divided by 1024 while staying at least 1024,
/// starting from `k` and capped at 5 (petabytes).
pub open spec fn unit_index(m: nat, k: nat) -> nat
    decreases 5 - k,
{
    if k < 5 && m >= pow1024(k + 1) {
        unit_index(m, k + 1)
    } else {
        k
    }
}

/// The unit suffix for a power of 1024.
pub open spec fn unit_name(k: nat) -> Seq<char> {
    if k == 0 {
        "B"@
    } else if k == 1 {
        "KB"@
    } else if k == 2 {
        "MB"@
    } else if k == 3 {
        "GB"@
    } else if k == 4 {
        "TB"@
    } else {
        "PB"@
    }
}

/// The rendering of `bytes`.
pub open spec fn spec_human_bytes(bytes: nat) -> Seq<char> {
    if bytes < 1024 {
        decimal(bytes) + " B"@
    } else {
        let m = f64_value(bytes);
        let k = unit_index(m, 0);
        let tenths = div_round_half_even(10 * m, pow1024(k));
        decimal(tenths / 10) + "."@ + decimal(tenths % 10) + " "@ + unit_name(k)
    }
}

proof fn lemma_unit_index_at_least(m: nat, k: nat)
    ensures
        unit_index(m, k) >= k,
    decreases 5 - k,
{
    if k < 5 && m >= pow1024(k + 1) {
        lemma_unit_index_at_least(m, k + 1);
    }
}

fn unit_str(k: usize) -> (s: &'static str)
    requires
        1 <= k <= 5,
    ensures
        s@ == unit_name(k as nat),
{
    if k == 1 {
        "KB"
    } else if k == 2 {
        "MB"
    } else if k == 3 {
        "GB"
    } else if k == 4 {
        "TB"
    } else {
        "PB"
    }
}

/// `n / d` rounded half to even, in exact integer arithmetic.
fn round_half_even(n: u128, d: u128) -> (q: u128)
    requires
        d > 0,
        n < 0x1_0000_0000_0000_0000_0000_0000_0000,
    ensures
        q == div_round_half_even(n as nat, d as nat),
        q <= n as nat / d as nat + 1,
{
    let q = n / d;
    let r = n % d;
    if (r > d - r) || (r == d - r && q % 2 == 1) {
        q + 1
    } else {
        q
    }
}

/// The integer `bytes as f64` holds.
fn f64_value_of(bytes: u64) -> (m: u128)
    requires
        bytes >= 1,
    ensures
        m == f64_value(bytes as nat),
        m <= 2 * (bytes as nat),
        bytes >= 1024 ==> m >= 1024,
{
    let mut sp: u128 = 1;
    let mut t: u64 = bytes;
    while t >= 0x20_0000_0000_0000
        invariant
            sp >= 1,
            t >= 1,
            bytes >= 1024 ==> t >= 1024,
            t as nat == bytes as nat / sp as nat,
            sp * t <= bytes,
            f64_spacing(bytes as nat) == sp * f64_spacing(t as nat),
        decreases t,
    {
        proof {
            lemma_div_denominator(bytes as int, sp as int, 2);
            assert(2 * sp * (t / 2) <= sp * t) by (nonlinear_arith)
                requires
                    sp >= 1,
            ;
            assert(sp * 0x20_0000_0000_0000 <= sp * t) by (nonlinear_arith)
                requires
                    t >= 0x20_0000_0000_0000,
            ;
            assert(sp * f64_spacing(t as nat) == (2 * sp) * f64_spacing((t / 2) as nat)) by (nonlinear_arith)
                requires
                    f64_spacing(t as nat) == 2 * f64_spacing((t / 2) as nat),
            ;
        }
        t = t / 2;
        sp = sp * 2;
    }
    proof {
        lemma_fundamental_div_mod(bytes as int, sp as int);
        assert(sp <= sp * t) by (nonlinear_arith)
            requires
                t >= 1,
        ;
    }
    let q: u128 = t as u128;
    let r: u128 = (bytes as u128) % sp;
    assert(q * sp + r == bytes) by (nonlinear_arith)
        requires
            bytes as int == sp as int * (bytes as int / sp as int) + bytes as int % sp as int,
            q as int == bytes as int / sp as int,
            r as int == bytes as int % sp as int,
    ;
    assert(q <= q * sp) by (nonlinear_arith)
        requires
            sp >= 1,
    ;
    assert(f64_spacing(t as nat) == 1);
    assert(sp * f64_spacing(t as nat) == sp) by (nonlinear_arith)
        requires
            f64_spacing(t as nat) == 1,
    ;
    if (r > sp - r) || (r == sp - r && q % 2 == 1) {
        assert((q + 1) * sp == q * sp + sp) by (nonlinear_arith);
        (q + 1) * sp
    } else {
        q * sp
    }
}

/// Formats `bytes` with binary units and one decimal (`"1.2 GB"`), or as
/// a bare integer below 1024 (`"512 B"`).
pub fn human_bytes(bytes: u64) -> (s: String)
    ensures
        s@ == spec_human_bytes(bytes as nat),
{
    let mut out: Vec<char> = Vec::new();
    if bytes < 1024 {
        push_decimal(&mut out, bytes);
        push_str(&mut out, " B");
        return string_from_chars(out.as_slice());
    }
    let m = f64_value_of(bytes);
    let ghost mn: nat = m as nat;
    proof {
        lemma_unit_index_at_least(mn, 1);
    }
    let mut k: usize = 0;
    let mut d: u128 = 1;
    while k < 5 && m >= d * 1024
        invariant
            k <= 5,
            mn == m as nat,
            m as nat == f64_value(bytes as nat),
            m <= 2 * (bytes as nat),
            m >= 1024,
            1 <= d <= m,
            d as nat == pow1024(k as nat),
            unit_index(mn, 0) == unit_index(mn, k as nat),
        decreases 5 - k,
    {
        d = d * 1024;
        k = k + 1;
    }
    proof {
        assert(unit_index(mn, k as nat) == k as nat);
        if k == 0 {
            assert(pow1024(1) == 1024) by {
                reveal_with_fuel(pow1024, 2);
            }
            assert(false);
        }
        assert(d >= 1024) by {
            assert(pow1024(k as nat) == 1024 * pow1024((k - 1) as nat));
        }
    }
    let tenths = round_half_even(10 * m, d);
    proof {
        assert(10 * (m as nat) / (d as nat) <= 10 * (m as nat) / 1024) by {
            vstd::arithmetic::div_mod::lemma_div_is_ordered_by_denominator(10 * (m as int), 1024, d as int);
        }
    }
    let whole: u64 = (tenths / 10) as u64;
    let frac: u64 = (tenths % 10) as u64;
    push_decimal(&mut out, whole);
    push_str(&mut out, ".");
    push_decimal(&mut out, frac);
    push_str(&mut out, " ");
    push_str(&mut out, unit_str(k));
    assert(out@ =~= spec_human_bytes(bytes as nat));
    string_from_chars(out.as_slice())
}

} // verus!
