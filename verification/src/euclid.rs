//! Floor division and the matching non-negative remainder on machine
//! integers, for positive divisors.

use vstd::prelude::*;
use vstd::arithmetic::div_mod::lemma_fundamental_div_mod_converse;

verus! {

/// A quotient and a remainder below the divisor that rebuild `x` are the
/// floor quotient and its remainder.
pub proof fn lemma_floor_div_unique(x: int, d: int, q: int, r: int)
    requires
        d > 0,
        0 <= r < d,
        x == q * d + r,
    ensures
        x / d == q,
        x % d == r,
{
    lemma_fundamental_div_mod_converse(x, d, q, r);
}

/// Going one up moves to the next quotient exactly from the last
/// remainder.
pub proof fn lemma_floor_div_step(t: int, d: int)
    requires
        d > 0,
    ensures
        t % d == d - 1 ==> (t + 1) / d == t / d + 1 && (t + 1) % d == 0,
        t % d != d - 1 ==> (t + 1) / d == t / d && (t + 1) % d == t % d + 1,
{
    lemma_floor_div_bounds(t, d);
    let q = t / d;
    let r = t % d;
    if r == d - 1 {
        assert(t + 1 == (q + 1) * d + 0) by (nonlinear_arith)
            requires
                t == d * q + r,
                r == d - 1,
        ;
        lemma_floor_div_unique(t + 1, d, q + 1, 0);
    } else {
        assert(t + 1 == q * d + (r + 1)) by (nonlinear_arith)
            requires
                t == d * q + r,
        ;
        lemma_floor_div_unique(t + 1, d, q, r + 1);
    }
}

/// Dividing by `d` and then by `k` is dividing by `d * k`.
pub proof fn lemma_floor_div_refines(t: int, d: int, k: int)
    requires
        d > 0,
        k > 0,
    ensures
        d * k > 0,
        t / (d * k) == (t / d) / k,
        t % (d * k) == ((t / d) % k) * d + t % d,
{
    assert(d * k > 0) by (nonlinear_arith)
        requires
            d > 0,
            k > 0,
    ;
    lemma_floor_div_bounds(t, d);
    let q = t / d;
    let r = t % d;
    lemma_floor_div_bounds(q, k);
    let qq = q / k;
    let qr = q % k;
    assert(t == qq * (d * k) + (qr * d + r) && 0 <= qr * d + r < d * k) by (nonlinear_arith)
        requires
            t == d * q + r,
            q == k * qq + qr,
            0 <= r < d,
            0 <= qr < k,
            d > 0,
            k > 0,
    ;
    lemma_floor_div_unique(t, d * k, qq, qr * d + r);
}

/// For a positive divisor the floor quotient lies between `-|a|` and `|a|`
/// and the remainder is below the divisor.
pub proof fn lemma_floor_div_bounds(a: int, b: int)
    requires
        b > 0,
    ensures
        a >= 0 ==> 0 <= a / b <= a,
        a < 0 ==> a <= a / b < 0,
        0 <= a % b < b,
        a == b * (a / b) + a % b,
{
    assert(a == b * (a / b) + a % b && 0 <= a % b < b) by (nonlinear_arith)
        requires
            b > 0,
    ;
    let q = a / b;
    let r = a % b;
    if a >= 0 {
        assert(0 <= q <= a) by (nonlinear_arith)
            requires
                a == b * q + r,
                0 <= r < b,
                a >= 0,
                b > 0,
        ;
    } else {
        assert(a <= q < 0) by (nonlinear_arith)
            requires
                a == b * q + r,
                0 <= r < b,
                a < 0,
                b > 0,
        ;
    }
}

/// Floor quotient of `a` by a positive `b`.
pub fn div_euclid(a: i32, b: i32) -> (q: i32)
    requires
        b > 0,
    ensures
        q == a as int / b as int,
{
    proof {
        lemma_floor_div_bounds(a as int, b as int);
    }
    match a.checked_div_euclid(b) {
        Some(q) => q,
        None => 0,
    }
}

/// Remainder of the floor division of `a` by a positive `b`; never negative.
pub fn rem_euclid(a: i32, b: i32) -> (r: i32)
    requires
        b > 0,
    ensures
        r == a as int % b as int,
        0 <= r < b,
{
    proof {
        lemma_floor_div_bounds(a as int, b as int);
    }
    match a.checked_rem_euclid(b) {
        Some(r) => r,
        None => 0,
    }
}

/// Floor quotient of `a` by a positive `b`, on 64-bit integers.
pub fn div_euclid_i64(a: i64, b: i64) -> (q: i64)
    requires
        b > 0,
    ensures
        q == a as int / b as int,
{
    proof {
        lemma_floor_div_bounds(a as int, b as int);
    }
    match a.checked_div_euclid(b) {
        Some(q) => q,
        None => 0,
    }
}

/// Remainder of the floor division of `a` by a positive `b`, on 64-bit
/// integers; never negative.
pub fn rem_euclid_i64(a: i64, b: i64) -> (r: i64)
    requires
        b > 0,
    ensures
        r == a as int % b as int,
        0 <= r < b,
{
    proof {
        lemma_floor_div_bounds(a as int, b as int);
    }
    match a.checked_rem_euclid(b) {
        Some(r) => r,
        None => 0,
    }
}

/// Floor quotient of `a` by a positive `b`, on 128-bit integers.
pub fn div_euclid_i128(a: i128, b: i128) -> (q: i128)
    requires
        b > 0,
    ensures
        q == a as int / b as int,
{
    proof {
        lemma_floor_div_bounds(a as int, b as int);
    }
    match a.checked_div_euclid(b) {
        Some(q) => q,
        None => 0,
    }
}

/// Remainder of the floor division of `a` by a positive `b`, on 128-bit
/// integers; never negative.
pub fn rem_euclid_i128(a: i128, b: i128) -> (r: i128)
    requires
        b > 0,
    ensures
        r == a as int % b as int,
        0 <= r < b,
{
    proof {
        lemma_floor_div_bounds(a as int, b as int);
    }
    match a.checked_rem_euclid(b) {
        Some(r) => r,
        None => 0,
    }
}

/// The quotient of `n` by a positive `d`, rounded to the nearest integer;
/// a quotient halfway between two integers is rounded away from zero.
pub open spec fn round_div_spec(n: int, d: int) -> int {
    if n >= 0 {
        (2 * n + d) / (2 * d)
    } else {
        -((-2 * n + d) / (2 * d))
    }
}

/// The quotient of `n` by a positive `d`, rounded to the nearest integer
/// and away from zero at a half.
pub fn round_div(n: i128, d: i128) -> (q: i128)
    requires
        0 < d <= 0x4000_0000_0000_0000,
        -0x1_0000_0000_0000_0000_0000_0000 <= n <= 0x1_0000_0000_0000_0000_0000_0000,
    ensures
        q == round_div_spec(n as int, d as int),
        n >= 0 ==> 0 <= q <= n,
        n < 0 ==> n <= q <= 0,
{
    if n >= 0 {
        proof {
            lemma_floor_div_bounds(2 * n + d, 2 * d);
            let q = (2 * n + d) / (2 * d);
            let r = (2 * n + d) % (2 * d);
            assert(q <= n) by (nonlinear_arith)
                requires
                    2 * n + d == (2 * d) * q + r,
                    0 <= r,
                    d >= 1,
                    n >= 0,
                    q >= 0,
            ;
        }
        div_euclid_i128(2 * n + d, 2 * d)
    } else {
        proof {
            lemma_floor_div_bounds(-2 * n + d, 2 * d);
            let q = (-2 * n + d) / (2 * d);
            let r = (-2 * n + d) % (2 * d);
            assert(q <= -n) by (nonlinear_arith)
                requires
                    -2 * n + d == (2 * d) * q + r,
                    0 <= r,
                    d >= 1,
                    n < 0,
                    q >= 0,
            ;
        }
        -div_euclid_i128(-2 * n + d, 2 * d)
    }
}

} // verus!
