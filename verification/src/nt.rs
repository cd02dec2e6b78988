//! Elementary number theory: greatest common divisors, primes and inverses.

use vstd::arithmetic::div_mod::*;
use vstd::arithmetic::mul::*;
use vstd::prelude::*;
use vstd::set_lib::*;

verus! {

/// The greatest common divisor, by Euclid's algorithm.
pub open spec fn gcd(a: nat, b: nat) -> nat
    decreases b,
{
    if b == 0 {
        a
    } else {
        gcd(b, a % b)
    }
}

/// `p` is a prime number.
pub open spec fn is_prime(p: nat) -> bool {
    p > 1 && forall|d: nat| 1 < d < p ==> #[trigger] (p % d) != 0
}

/// The inverse of `a` modulo `m` in `[0, m)`, where one exists.
pub open spec fn inverse_mod(a: nat, m: nat) -> nat {
    choose|x: nat| x < m && #[trigger] ((a * x) % m) == 1nat % m
}

/// The greatest common divisor divides both arguments.
pub proof fn lemma_gcd_divides(a: nat, b: nat)
    ensures
        gcd(a, b) > 0 ==> a % gcd(a, b) == 0 && b % gcd(a, b) == 0,
    decreases b,
{
    if b == 0 {
        if a > 0 {
            lemma_mod_self_0(a as int);
            lemma_small_mod(0, a);
        }
    } else {
        lemma_gcd_divides(b, a % b);
        let g = gcd(a, b);
        if g > 0 {
            // a == b * (a / b) + a % b, and g divides b and a % b
            lemma_fundamental_div_mod(a as int, b as int);
            let q = a / b;
            lemma_mod_multiples_basic(b as int / g as int * q, g as int);
            lemma_fundamental_div_mod(b as int, g as int);
            lemma_fundamental_div_mod((a % b) as int, g as int);
            let bg = b as int / g as int;
            let rg = (a % b) as int / g as int;
            let ai = a as int;
            let bi = b as int;
            let gi = g as int;
            let qi = q as int;
            let ri = (a % b) as int;
            assert(ai == bi * qi + ri);
            assert(bi == gi * bg);
            assert(ri == gi * rg);
            assert(ai == gi * (bg * qi + rg)) by (nonlinear_arith)
                requires
                    ai == bi * qi + ri,
                    bi == gi * bg,
                    ri == gi * rg,
            ;
            lemma_mod_multiples_basic(bg * q + rg, g as int);
            assert((bg * q + rg) * g == g * (bg * q + rg)) by (nonlinear_arith);
        }
    }
}

/// The greatest common divisor of two numbers not both zero is positive.
pub proof fn lemma_gcd_positive(a: nat, b: nat)
    requires
        a > 0 || b > 0,
    ensures
        gcd(a, b) > 0,
    decreases b,
{
    if b > 0 {
        lemma_gcd_positive(b, a % b);
    }
}

/// A divisor `d > 0` of `n > 0` is at most `n`.
pub proof fn lemma_divisor_le(n: nat, d: nat)
    requires
        n > 0,
        d > 0,
        n % d == 0,
    ensures
        d <= n,
{
    lemma_fundamental_div_mod(n as int, d as int);
    let q = n as int / d as int;
    if q <= 0 {
        assert(d * q <= 0) by (nonlinear_arith)
            requires
                d > 0,
                q <= 0,
        ;
    } else {
        assert(d * q >= d) by (nonlinear_arith)
            requires
                d > 0,
                q >= 1,
        ;
    }
}

/// A prime is coprime to every number it does not divide.
pub proof fn lemma_prime_coprime(a: nat, p: nat)
    requires
        is_prime(p),
        a % p != 0,
    ensures
        gcd(a, p) == 1,
{
    lemma_gcd_positive(a, p);
    lemma_gcd_divides(a, p);
    let g = gcd(a, p);
    lemma_divisor_le(p, g);
    if g != 1 {
        if g < p {
            assert(p % g != 0);
        } else {
            assert(g == p);
        }
    }
}

/// Euclid's lemma in the form used here: a prime that divides `a * b` and
/// not `a`, with `0 < a < p`, divides `b`.
proof fn lemma_euclid_small(a: nat, b: nat, p: nat)
    requires
        is_prime(p),
        0 < a < p,
        (a * b) % p == 0,
    ensures
        b % p == 0,
    decreases a,
{
    if a == 1 {
        assert(a * b == b) by (nonlinear_arith)
            requires
                a == 1,
        ;
    } else {
        let q = p / a;
        let r = p % a;
        lemma_fundamental_div_mod(p as int, a as int);
        lemma_mod_bound(p as int, a as int);
        assert(p % a != 0);
        // r * b == p * b - q * (a * b), a multiple of p
        assert(r * b == p * b - q * (a * b)) by (nonlinear_arith)
            requires
                p == a * q + r,
        ;
        let k = (a * b) / p;
        lemma_fundamental_div_mod((a * b) as int, p as int);
        assert(r * b == p * (b - q * k)) by (nonlinear_arith)
            requires
                r * b == p * b - q * (a * b),
                (a * b) as int == p * k,
        ;
        lemma_mod_multiples_basic(b - q * k, p as int);
        assert((b - q * k) * p == p * (b - q * k)) by (nonlinear_arith);
        lemma_euclid_small(r, b, p);
    }
}

/// A prime dividing neither `a` nor `b` does not divide `a * b`.
pub proof fn lemma_prime_product(a: nat, b: nat, p: nat)
    requires
        is_prime(p),
        a % p != 0,
        b % p != 0,
    ensures
        (a * b) % p != 0,
{
    if (a * b) % p == 0 {
        lemma_mod_bound(a as int, p as int);
        lemma_mul_mod_noop_left(a as int, b as int, p as int);
        lemma_euclid_small(a % p, b, p);
    }
}

/// Inverses modulo `m` are unique.
pub proof fn lemma_inverse_unique(a: nat, x: nat, m: nat)
    requires
        m > 0,
        x < m,
        (a * x) % m == 1nat % m,
    ensures
        inverse_mod(a, m) == x,
{
    let y = inverse_mod(a, m);
    assert(y < m && (a * y) % m == 1nat % m);
    // y ≡ y * (a * x) = x * (a * y) ≡ x
    assert(y * (a * x) == x * (a * y)) by (nonlinear_arith);
    lemma_mul_mod_noop_right(y as int, (a * x) as int, m as int);
    lemma_mul_mod_noop_right(x as int, (a * y) as int, m as int);
    lemma_mul_mod_noop_right(y as int, 1, m as int);
    lemma_mul_mod_noop_right(x as int, 1, m as int);
    lemma_small_mod(y, m);
    lemma_small_mod(x, m);
}

/// A sequence of distinct integers in `[lo, hi)` has at most `hi - lo` elements.
pub proof fn lemma_distinct_in_range(s: Seq<int>, lo: int, hi: int)
    requires
        lo <= hi,
        s.no_duplicates(),
        forall|i: int| 0 <= i < s.len() ==> lo <= #[trigger] s[i] < hi,
    ensures
        s.len() <= hi - lo,
{
    s.unique_seq_to_set();
    lemma_int_range(lo, hi);
    assert(s.to_set().subset_of(set_int_range(lo, hi)));
    lemma_len_subset(s.to_set(), set_int_range(lo, hi));
}

/// Bezout coefficients `(x, y)` with `a * x + b * y == gcd(a, b)`.
pub open spec fn bezout(a: nat, b: nat) -> (int, int)
    decreases b,
{
    if b == 0 {
        (1, 0)
    } else {
        let (x, y) = bezout(b, a % b);
        (y, x - (a / b) as int * y)
    }
}

pub proof fn lemma_bezout(a: nat, b: nat)
    ensures
        a * bezout(a, b).0 + b * bezout(a, b).1 == gcd(a, b),
    decreases b,
{
    if b == 0 {
        assert(a * 1 + 0 * 0 == a) by (nonlinear_arith);
    } else {
        lemma_bezout(b, a % b);
        let (x, y) = bezout(b, a % b);
        let q = (a / b) as int;
        let r = (a % b) as int;
        lemma_fundamental_div_mod(a as int, b as int);
        assert(a * y + b * (x - q * y) == b * x + r * y) by (nonlinear_arith)
            requires
                a as int == b * q + r,
        ;
        assert(bezout(a, b) == (y, x - q * y));
        assert(gcd(a, b) == gcd(b, a % b));
    }
}

/// A number coprime to `m > 1` has an inverse modulo `m`.
pub proof fn lemma_inverse_exists(a: nat, m: nat)
    requires
        m > 1,
        gcd(a, m) == 1,
    ensures
        inverse_mod(a, m) < m,
        (a * inverse_mod(a, m)) % m == 1,
{
    lemma_bezout(a, m);
    let (x, y) = bezout(a, m);
    let xm = x % (m as int);
    lemma_mod_bound(x, m as int);
    // a * x ≡ 1, and a * (x % m) ≡ a * x
    lemma_mul_mod_noop_right(a as int, x, m as int);
    assert(a * x == 1 - m * y);
    lemma_mod_multiples_vanish(-y, 1, m as int);
    assert(1 - m * y == m * (-y) + 1) by (nonlinear_arith);
    lemma_small_mod(1, m);
    let w = xm as nat;
    assert(w < m && (a * w) % m == 1nat % m);
    let z = inverse_mod(a, m);
    assert(z < m && (a * z) % m == 1nat % m);
}

} // verus!
