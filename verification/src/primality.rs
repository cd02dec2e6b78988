//! Primality certificates: Pocklington's criterion, proved here, and the
//! chain of certificates that shows the order `ℓ` of the Ristretto group to
//! be prime.

use crate::group::group_order;
use crate::nt::{bezout, is_prime, lemma_bezout, lemma_distinct_in_range, lemma_divisor_le, lemma_prime_coprime, lemma_prime_product};
use vstd::arithmetic::div_mod::*;
use vstd::arithmetic::mul::*;
use vstd::arithmetic::power::*;
use vstd::prelude::*;

verus! {

/// `a^r`, for small exponents.
pub open spec fn pow_nat(a: nat, r: nat) -> nat
    decreases r,
{
    if r == 0 {
        1
    } else {
        a * pow_nat(a, (r - 1) as nat)
    }
}

/// `x^16 mod n`, by four squarings.
pub open spec fn pow16_mod(x: nat, n: nat) -> nat {
    let x2 = (x * x) % n;
    let x4 = (x2 * x2) % n;
    let x8 = (x4 * x4) % n;
    (x8 * x8) % n
}

/// `a^e mod n`, by square-and-multiply on the hexadecimal digits of `e`.
pub open spec fn pow_mod(a: nat, e: nat, n: nat) -> nat
    decreases e,
{
    if e == 0 {
        1nat % n
    } else {
        (pow16_mod(pow_mod(a, e / 16, n), n) * pow_nat(a, e % 16)) % n
    }
}

proof fn lemma_pow_nat(a: nat, r: nat)
    ensures
        pow_nat(a, r) == pow(a as int, r),
    decreases r,
{
    if r == 0 {
        lemma_pow0(a as int);
    } else {
        lemma_pow_nat(a, (r - 1) as nat);
        lemma_pow_adds(a as int, 1, (r - 1) as nat);
        lemma_pow1(a as int);
        assert(1 + (r - 1) == r);
    }
}

proof fn lemma_square_mod(x: int, e: nat, n: int)
    requires
        n > 0,
    ensures
        ((pow(x, e) % n) * (pow(x, e) % n)) % n == pow(x, e + e) % n,
{
    lemma_mul_mod_noop(pow(x, e), pow(x, e), n);
    lemma_pow_adds(x, e, e);
}

proof fn lemma_pow16_mod(x: int, n: nat)
    requires
        n > 0,
    ensures
        pow16_mod((x % (n as int)) as nat, n) == pow(x, 16) % (n as int),
{
    let ni = n as int;
    lemma_pow1(x);
    lemma_mod_bound(x, ni);
    lemma_square_mod(x, 1, ni);
    lemma_mod_bound(pow(x, 2), ni);
    lemma_square_mod(x, 2, ni);
    lemma_mod_bound(pow(x, 4), ni);
    lemma_square_mod(x, 4, ni);
    lemma_mod_bound(pow(x, 8), ni);
    lemma_square_mod(x, 8, ni);
}

proof fn lemma_pow_mod(a: nat, e: nat, n: nat)
    requires
        n > 0,
    ensures
        pow_mod(a, e, n) == pow(a as int, e) % (n as int),
    decreases e,
{
    let ai = a as int;
    let ni = n as int;
    if e == 0 {
        lemma_pow0(ai);
    } else {
        let k = e / 16;
        let r = e % 16;
        lemma_pow_mod(a, k, n);
        lemma_fundamental_div_mod(e as int, 16);
        let x = pow(ai, k);
        lemma_pow16_mod(x, n);
        lemma_pow_multiplies(ai, k, 16);
        assert(k * 16 == 16 * k) by (nonlinear_arith);
        lemma_pow_adds(ai, k * 16, r);
        assert(k * 16 + r == e);
        lemma_pow_nat(a, r);
        lemma_mul_mod_noop_left(pow(x, 16), pow(ai, r), ni);
    }
}

/// `x % n == r`, from the quotient `q`.
proof fn lemma_mod_by_quotient(x: nat, n: nat, q: nat, r: nat)
    requires
        n > 0,
        x == q * n + r,
        r < n,
    ensures
        x % n == r,
{
    lemma_fundamental_div_mod_converse(x as int, n as int, q as int, r as int);
}

proof fn lemma_pow_mod_zero(a: nat, n: nat)
    requires
        n > 1,
    ensures
        pow_mod(a, 0, n) == 1,
{
    lemma_small_mod(1, n);
}

/// One step of `pow_mod`: from `h == a^(k/16) mod n` and `d == a^(k%16)`,
/// the four squarings of `h` and the multiplication by `d`, each reduced with
/// the quotient given, yield `v == a^k mod n`.
proof fn lemma_window_step(
    a: nat,
    k: nat,
    n: nat,
    h: nat,
    d: nat,
    x2: nat,
    q2: nat,
    x4: nat,
    q4: nat,
    x8: nat,
    q8: nat,
    x16: nat,
    q16: nat,
    v: nat,
    qv: nat,
)
    requires
        n > 0,
        k > 0,
        pow_mod(a, k / 16, n) == h,
        pow_nat(a, k % 16) == d,
        h * h == q2 * n + x2,
        x2 < n,
        x2 * x2 == q4 * n + x4,
        x4 < n,
        x4 * x4 == q8 * n + x8,
        x8 < n,
        x8 * x8 == q16 * n + x16,
        x16 < n,
        x16 * d == qv * n + v,
        v < n,
    ensures
        pow_mod(a, k, n) == v,
{
    lemma_mod_by_quotient(h * h, n, q2, x2);
    lemma_mod_by_quotient(x2 * x2, n, q4, x4);
    lemma_mod_by_quotient(x4 * x4, n, q8, x8);
    lemma_mod_by_quotient(x8 * x8, n, q16, x16);
    assert(pow16_mod(h, n) == x16);
    lemma_mod_by_quotient(x16 * d, n, qv, v);
}

/// `minus_one_mod(v, n) == v - 1` for `1 <= v < n`.
proof fn lemma_minus_one_mod(v: nat, n: nat)
    requires
        1 <= v < n,
    ensures
        minus_one_mod(v, n) == v - 1,
{
    lemma_fundamental_div_mod_converse((v + n - 1) as int, n as int, 1, (v - 1) as int);
}

/// The product of a sequence of numbers.
pub open spec fn product(s: Seq<nat>) -> nat
    decreases s.len(),
{
    if s.len() == 0 {
        1
    } else {
        product(s.drop_last()) * s.last()
    }
}

/// The smallest divisor of `n` that is at least `d`, or `n`.
spec fn least_divisor_from(n: nat, d: nat) -> nat
    decreases n - d,
{
    if d >= n {
        n
    } else if n % d == 0 {
        d
    } else {
        least_divisor_from(n, d + 1)
    }
}

proof fn lemma_least_divisor(n: nat, d: nat)
    requires
        2 <= d <= n,
        forall|k: nat| 2 <= k < d ==> #[trigger] (n % k) != 0,
    ensures
        d <= least_divisor_from(n, d) <= n,
        n % least_divisor_from(n, d) == 0,
        forall|k: nat| 2 <= k < least_divisor_from(n, d) ==> #[trigger] (n % k) != 0,
    decreases n - d,
{
    if d >= n {
        lemma_mod_self_0(n as int);
    } else if n % d != 0 {
        lemma_least_divisor(n, d + 1);
    }
}

/// `d` divides `n` whenever a multiple of it does.
proof fn lemma_divides_trans(n: nat, m: nat, d: nat)
    requires
        m > 0,
        d > 0,
        n % m == 0,
        m % d == 0,
    ensures
        n % d == 0,
{
    lemma_fundamental_div_mod(n as int, m as int);
    lemma_fundamental_div_mod(m as int, d as int);
    let s = n as int / m as int;
    let t = m as int / d as int;
    assert(n == d * (t * s)) by (nonlinear_arith)
        requires
            n == m * s,
            m == d * t,
    ;
    lemma_mod_multiples_basic(t * s, d as int);
    assert((t * s) * d == d * (t * s)) by (nonlinear_arith);
}

/// A number that is not prime has a prime factor whose square is at most it.
proof fn lemma_small_prime_factor(n: nat) -> (p: nat)
    requires
        n > 1,
        !is_prime(n),
    ensures
        is_prime(p),
        n % p == 0,
        p * p <= n,
{
    lemma_least_divisor(n, 2);
    let p = least_divisor_from(n, 2);
    assert forall|k: nat| 1 < k < p implies #[trigger] (p % k) != 0 by {
        if p % k == 0 {
            lemma_divides_trans(n, p, k);
        }
    }
    let d = choose|d: nat| 1 < d < n && #[trigger] (n % d) == 0;
    assert(p <= d);
    lemma_fundamental_div_mod(n as int, p as int);
    let m = n / p;
    assert(n == p * m);
    assert(m > 1) by (nonlinear_arith)
        requires
            n == p * m,
            p < n,
            p >= 2,
    ;
    assert(m < n) by (nonlinear_arith)
        requires
            n == p * m,
            p >= 2,
            m > 1,
    ;
    lemma_mod_multiples_basic(p as int, m as int);
    assert(n % m == 0) by {
        assert(n == p * m);
        assert(p * m == m * p) by (nonlinear_arith);
    }
    assert(m >= p);
    assert(p * p <= n) by (nonlinear_arith)
        requires
            n == p * m,
            m >= p,
            p >= 0,
    ;
    p
}

/// A prime that divides neither `a` nor ... divides no power of `a`.
proof fn lemma_prime_not_dividing_pow(a: nat, e: nat, p: nat)
    requires
        is_prime(p),
        a % p != 0,
    ensures
        pow(a as int, e) > 0 ==> (pow(a as int, e) as nat) % p != 0,
        a > 0 ==> pow(a as int, e) > 0,
    decreases e,
{
    if a > 0 {
        lemma_pow_positive(a as int, e);
    }
    if e == 0 {
        lemma_pow0(a as int);
        lemma_small_mod(1, p);
    } else {
        let k = (e - 1) as nat;
        lemma_prime_not_dividing_pow(a, k, p);
        lemma_pow_adds(a as int, 1, k);
        lemma_pow1(a as int);
        assert(1 + k == e);
        if a > 0 {
            lemma_pow_positive(a as int, k);
            lemma_prime_product(a, pow(a as int, k) as nat, p);
        }
    }
}

/// The smallest `e` in `[1, k]` with `a^e ≡ 1 (mod p)`, or 0.
spec fn first_return(a: nat, p: nat, k: nat) -> nat
    decreases k,
{
    if k == 0 {
        0
    } else {
        let r = first_return(a, p, (k - 1) as nat);
        if r > 0 {
            r
        } else if pow(a as int, k) % (p as int) == 1 {
            k
        } else {
            0
        }
    }
}

proof fn lemma_first_return(a: nat, p: nat, k: nat)
    ensures
        first_return(a, p, k) == 0 ==> forall|e: nat|
            1 <= e <= k ==> #[trigger] (pow(a as int, e) % (p as int)) != 1,
        first_return(a, p, k) > 0 ==> {
            let r = first_return(a, p, k);
            &&& 1 <= r <= k
            &&& pow(a as int, r) % (p as int) == 1
            &&& forall|e: nat| 1 <= e < r ==> #[trigger] (pow(a as int, e) % (p as int)) != 1
        },
    decreases k,
{
    if k > 0 {
        lemma_first_return(a, p, (k - 1) as nat);
    }
}

/// Some power `a^e`, `1 <= e < p`, is 1 modulo the prime `p` (pigeonhole).
proof fn lemma_some_return(a: nat, p: nat)
    requires
        is_prime(p),
        a % p != 0,
    ensures
        first_return(a, p, (p - 1) as nat) > 0,
{
    lemma_first_return(a, p, (p - 1) as nat);
    if first_return(a, p, (p - 1) as nat) == 0 {
        let pi = p as int;
        assert(a > 0) by {
            if a == 0 {
                lemma_small_mod(0, p);
            }
        }
        let s = Seq::new(p, |i: int| pow(a as int, i as nat) % pi);
        assert forall|i: int| 0 <= i < s.len() implies 1 <= #[trigger] s[i] < pi by {
            lemma_prime_not_dividing_pow(a, i as nat, p);
            lemma_mod_bound(pow(a as int, i as nat), pi);
        }
        assert(s.no_duplicates()) by {
            assert forall|i: int, j: int| 0 <= i < s.len() && 0 <= j < s.len() && i != j implies s[i]
                != s[j] by {
                if s[i] == s[j] {
                    let (lo, hi) = if i < j {
                        (i, j)
                    } else {
                        (j, i)
                    };
                    lemma_return_from_collision(a, p, lo as nat, hi as nat);
                    let e = (hi - lo) as nat;
                    assert(1 <= e <= p - 1);
                    assert(pow(a as int, e) % pi != 1);
                }
            }
        }
        lemma_distinct_in_range(s, 1, pi);
    }
}

/// Equal residues of `a^i` and `a^j`, `i < j`, give `a^(j-i) ≡ 1 (mod p)`.
proof fn lemma_return_from_collision(a: nat, p: nat, i: nat, j: nat)
    requires
        is_prime(p),
        a % p != 0,
        a > 0,
        i < j,
        pow(a as int, i) % (p as int) == pow(a as int, j) % (p as int),
    ensures
        pow(a as int, (j - i) as nat) % (p as int) == 1,
{
    let pi = p as int;
    let e = (j - i) as nat;
    lemma_prime_not_dividing_pow(a, i, p);
    lemma_prime_not_dividing_pow(a, e, p);
    let x = pow(a as int, i);
    let y = pow(a as int, e);
    lemma_pow_adds(a as int, i, e);
    assert(i + e == j);
    // x * (y - 1) == x * y - x is a multiple of p
    lemma_fundamental_div_mod(x, pi);
    lemma_fundamental_div_mod(x * y, pi);
    let q1 = x / pi;
    let q2 = (x * y) / pi;
    assert(x * (y - 1) == pi * (q2 - q1)) by (nonlinear_arith)
        requires
            x == pi * q1 + x % pi,
            x * y == pi * q2 + (x * y) % pi,
            x % pi == (x * y) % pi,
    ;
    lemma_mod_multiples_basic(q2 - q1, pi);
    assert((q2 - q1) * pi == pi * (q2 - q1)) by (nonlinear_arith);
    assert(y - 1 >= 0);
    if (y - 1) % pi != 0 {
        lemma_prime_product(x as nat, (y - 1) as nat, p);
    }
    lemma_fundamental_div_mod(y - 1, pi);
    let t = (y - 1) / pi;
    assert(y == pi * t + 1);
    lemma_mod_multiples_vanish(t, 1, pi);
    lemma_small_mod(1, p);
}

/// Every exponent `m` with `a^m ≡ 1 (mod p)` is a multiple of the first such `o`.
proof fn lemma_order_divides(a: nat, p: nat, o: nat, m: nat)
    requires
        p > 1,
        o >= 1,
        pow(a as int, o) % (p as int) == 1,
        forall|e: nat| 1 <= e < o ==> #[trigger] (pow(a as int, e) % (p as int)) != 1,
        pow(a as int, m) % (p as int) == 1,
    ensures
        m % o == 0,
{
    let pi = p as int;
    let ai = a as int;
    let t = m / o;
    let r = m % o;
    lemma_fundamental_div_mod(m as int, o as int);
    lemma_mul_nonnegative(o as int, t as int);
    lemma_pow_multiplies(ai, o, t);
    lemma_pow_adds(ai, o * t, r);
    assert(o * t + r == m);
    let x = pow(ai, o);
    let xt = pow(x, t);
    lemma_pow_mod_noop(x, t, pi);
    lemma1_pow(t);
    lemma_small_mod(1, p);
    assert(xt % pi == 1);
    lemma_mul_mod_noop_left(xt, pow(ai, r), pi);
    lemma_mul_mod_noop_left(1, pow(ai, r), pi);
    assert(pow(ai, r) % pi == 1);
    if r > 0 {
        assert(pow(ai, r) % pi != 1);
    }
}

/// The multiplicative order of `a` modulo the prime `p` it does not divide:
/// `1 <= o < p`, and `a^m ≡ 1` exactly for the multiples `m` of `o`.
proof fn lemma_order(a: nat, p: nat) -> (o: nat)
    requires
        is_prime(p),
        a % p != 0,
    ensures
        1 <= o < p,
        pow(a as int, o) % (p as int) == 1,
        forall|m: nat| #[trigger] (pow(a as int, m) % (p as int)) == 1 ==> m % o == 0,
{
    lemma_some_return(a, p);
    lemma_first_return(a, p, (p - 1) as nat);
    let o = first_return(a, p, (p - 1) as nat);
    assert forall|m: nat| #[trigger] (pow(a as int, m) % (p as int)) == 1 implies m % o == 0 by {
        lemma_order_divides(a, p, o, m);
    }
    o
}

/// A prime divides a product of distinct primes only if it is one of them.
proof fn lemma_prime_divides_product(s: Seq<nat>, q: nat)
    requires
        is_prime(q),
        forall|i: int| 0 <= i < s.len() ==> is_prime(#[trigger] s[i]),
        !s.contains(q),
    ensures
        product(s) % q != 0,
    decreases s.len(),
{
    if s.len() == 0 {
        lemma_small_mod(1, q);
    } else {
        let r = s.last();
        assert(s.drop_last().contains(q) ==> s.contains(q));
        lemma_prime_divides_product(s.drop_last(), q);
        assert(s[s.len() - 1] == r);
        if r % q == 0 {
            // q divides the prime r, so q == r
            lemma_divisor_le(r, q);
            assert(q == r);
            assert(s.contains(q));
        }
        lemma_prime_product(product(s.drop_last()), r, q);
    }
}

/// A number that every one of some distinct primes divides is a multiple of their product.
proof fn lemma_product_divides(s: Seq<nat>, o: nat)
    requires
        o > 0,
        s.no_duplicates(),
        forall|i: int| 0 <= i < s.len() ==> is_prime(#[trigger] s[i]),
        forall|i: int| 0 <= i < s.len() ==> o % #[trigger] s[i] == 0,
    ensures
        product(s) > 0,
        o % product(s) == 0,
    decreases s.len(),
{
    if s.len() == 0 {
        lemma_mod_multiples_basic(o as int, 1);
    } else {
        let init = s.drop_last();
        let q = s.last();
        assert(s[s.len() - 1] == q);
        assert forall|i: int| 0 <= i < init.len() implies is_prime(#[trigger] init[i]) && o % init[i]
            == 0 by {
            assert(init[i] == s[i]);
        }
        assert(init.no_duplicates()) by {
            assert forall|i: int, j: int| 0 <= i < init.len() && 0 <= j < init.len() && i != j implies
                init[i] != init[j] by {
                assert(init[i] == s[i] && init[j] == s[j]);
            }
        }
        lemma_product_divides(init, o);
        let pp = product(init);
        assert(!init.contains(q)) by {
            if init.contains(q) {
                let k = choose|k: int| 0 <= k < init.len() && init[k] == q;
                assert(s[k] == s[s.len() - 1]);
            }
        }
        lemma_prime_divides_product(init, q);
        lemma_fundamental_div_mod(o as int, pp as int);
        let t = o as int / pp as int;
        assert(o == pp * t);
        assert(t > 0) by (nonlinear_arith)
            requires
                o == pp * t,
                o > 0,
                pp > 0,
        ;
        // q divides pp * t but not pp, so it divides t
        if (t as nat) % q != 0 {
            lemma_prime_product(pp, t as nat, q);
            assert(pp * t == o);
        }
        lemma_fundamental_div_mod(t, q as int);
        let u = t / q as int;
        assert(o == (pp * q) * u) by (nonlinear_arith)
            requires
                o == pp * t,
                t == q * u,
        ;
        assert(product(s) == pp * q);
        assert(pp * q > 0) by (nonlinear_arith)
            requires
                pp > 0,
                q > 1,
        ;
        lemma_mod_multiples_basic(u, (pp * q) as int);
        assert(u * (pp * q) == (pp * q) * u) by (nonlinear_arith);
    }
}

/// `x ≡ v - 1 (mod n)` in `[0, n)`.
pub open spec fn minus_one_mod(v: nat, n: nat) -> nat {
    ((v + n - 1) % (n as int)) as nat
}

/// A prime `p` dividing `n` divides `a^m - 1` when `a^m ≡ 1 (mod p)`, so no
/// combination of `a^m - 1` and `n` is 1.
proof fn lemma_common_factor(n: nat, p: nat, a: nat, m: nat, u: int, v: int)
    requires
        is_prime(p),
        n > 1,
        n % p == 0,
        pow(a as int, m) % (p as int) == 1,
    ensures
        minus_one_mod(pow_mod(a, m, n), n) * u + n * v != 1,
{
    let pi = p as int;
    let ni = n as int;
    lemma_pow_mod(a, m, n);
    let r = pow_mod(a, m, n) as int;
    let big = pow(a as int, m);
    lemma_fundamental_div_mod(n as int, pi);
    let w = ni / pi;
    assert(ni == pi * w);
    // r ≡ a^m ≡ 1 (mod p)
    lemma_mod_mod(big, pi, w);
    assert(pi * w == ni);
    assert(r % pi == 1);
    lemma_fundamental_div_mod(r, pi);
    let s = r / pi;
    assert(r + ni - 1 == pi * (s + w)) by (nonlinear_arith)
        requires
            r == pi * s + 1,
            ni == pi * w,
    ;
    let x = (r + ni - 1) % ni;
    lemma_mod_mod(r + ni - 1, pi, w);
    lemma_mod_multiples_basic(s + w, pi);
    assert((s + w) * pi == pi * (s + w)) by (nonlinear_arith);
    assert(x % pi == 0);
    lemma_mod_bound(r + ni - 1, ni);
    assert(minus_one_mod(pow_mod(a, m, n), n) == x);
    lemma_fundamental_div_mod(x, pi);
    let x1 = x / pi;
    if x * u + ni * v == 1 {
        assert(pi * (x1 * u + w * v) == 1) by (nonlinear_arith)
            requires
                x * u + ni * v == 1,
                x == pi * x1,
                ni == pi * w,
        ;
        let k = x1 * u + w * v;
        assert(false) by (nonlinear_arith)
            requires
                pi * k == 1,
                pi >= 2,
        ;
    }
}

/// Pocklington's criterion: `n` is prime when `a^(n-1) ≡ 1 (mod n)` and, for
/// each of some distinct primes `q` dividing `n - 1` whose product exceeds
/// `√n`, `a^((n-1)/q) - 1` is coprime to `n`.
pub proof fn lemma_pocklington(n: nat, a: nat, qs: Seq<nat>, us: Seq<int>, vs: Seq<int>)
    requires
        n > 1,
        qs.no_duplicates(),
        us.len() == qs.len(),
        vs.len() == qs.len(),
        forall|i: int| 0 <= i < qs.len() ==> is_prime(#[trigger] qs[i]),
        forall|i: int| 0 <= i < qs.len() ==> ((n - 1) as nat) % #[trigger] qs[i] == 0,
        forall|i: int|
            0 <= i < qs.len() ==> minus_one_mod(pow_mod(a, ((n - 1) as nat) / #[trigger] qs[i], n), n)
                * us[i] + n * vs[i] == 1,
        pow_mod(a, (n - 1) as nat, n) == 1,
        product(qs) * product(qs) > n,
    ensures
        is_prime(n),
{
    if !is_prime(n) {
        let p = lemma_small_prime_factor(n);
        let pi = p as int;
        let ni = n as int;
        let e = (n - 1) as nat;
        lemma_pow_mod(a, e, n);
        lemma_fundamental_div_mod(ni, pi);
        let w = ni / pi;
        lemma_mod_mod(pow(a as int, e), pi, w);
        assert(pi * w == ni);
        lemma_small_mod(1, p);
        assert(pow(a as int, e) % pi == 1);
        assert(a % p != 0) by {
            if a % p == 0 {
                lemma_pow_adds(a as int, 1, (e - 1) as nat);
                lemma_pow1(a as int);
                lemma_mul_mod_noop_left(a as int, pow(a as int, (e - 1) as nat), pi);
                assert(1 + (e - 1) == e);
                lemma_small_mod(0, p);
            }
        }
        let o = lemma_order(a, p);
        assert(e % o == 0);
        assert forall|i: int| 0 <= i < qs.len() implies o % #[trigger] qs[i] == 0 by {
            let q = qs[i];
            if o % q != 0 {
                lemma_prime_coprime(o, q);
                let mm = (e / q) as nat;
                lemma_fundamental_div_mod(e as int, q as int);
                assert(e == q * mm);
                lemma_bezout(o, q);
                let (u, v) = bezout(o, q);
                lemma_fundamental_div_mod(e as int, o as int);
                let t = e as int / o as int;
                // mm == o * (u * mm + v * t)
                assert(mm == o * (u * mm + v * t)) by (nonlinear_arith)
                    requires
                        o * u + q * v == 1,
                        e == q * mm,
                        e == o * t,
                ;
                assert(mm * (o / o) >= 0);
                let k = u * mm + v * t;
                assert(k >= 0) by (nonlinear_arith)
                    requires
                        mm == o * k,
                        o >= 1,
                        mm >= 0,
                ;
                lemma_pow_multiplies(a as int, o, k as nat);
                lemma_pow_mod_noop(pow(a as int, o), k as nat, pi);
                lemma1_pow(k as nat);
                assert(o * (k as nat) == mm);
                assert(pow(a as int, mm) % pi == 1);
                lemma_common_factor(n, p, a, mm, us[i], vs[i]);
            }
        }
        lemma_product_divides(qs, o);
        let pq = product(qs);
        lemma_divisor_le(o, pq);
        assert(pq * pq < p * p) by (nonlinear_arith)
            requires
                pq <= o,
                o < p,
                pq > 0,
        ;
    }
}

/// No number in `[2, d]` divides `n`.
spec fn no_divisor_upto(n: nat, d: nat) -> bool
    decreases d,
{
    if d < 2 {
        true
    } else {
        n % d != 0 && no_divisor_upto(n, (d - 1) as nat)
    }
}

proof fn lemma_no_divisor_upto(n: nat, d: nat, k: nat)
    requires
        no_divisor_upto(n, d),
        2 <= k <= d,
    ensures
        n % k != 0,
    decreases d,
{
    if k < d {
        lemma_no_divisor_upto(n, (d - 1) as nat, k);
    }
}

/// Trial division: `n` is prime when no number in `[2, d]` divides it and `(d + 1)² > n`.
proof fn lemma_trial_division(n: nat, d: nat)
    requires
        n > 1,
        no_divisor_upto(n, d),
        d * d + 2 * d + 1 > n,
    ensures
        is_prime(n),
{
    assert((d + 1) * (d + 1) == d * d + 2 * d + 1) by (nonlinear_arith);
    if !is_prime(n) {
        let p = lemma_small_prime_factor(n);
        assert(p <= d) by (nonlinear_arith)
            requires
                p * p <= n,
                (d + 1) * (d + 1) > n,
                p >= 0,
        ;
        lemma_no_divisor_upto(n, d, p);
    }
}

/// Pocklington's criterion with one prime `q`: `n - 1 == q·m`, `q² > n`,
/// `a^(n-1) ≡ 1`, and `x = a^m - 1 mod n` is coprime to `n` with Bezout
/// coefficients `u`, `v`.
proof fn lemma_pocklington_one(n: nat, a: nat, q: nat, m: nat, w: nat, x: nat, u: int, v: int)
    requires
        n > 1,
        is_prime(q),
        n == q * m + 1,
        q * q > n,
        pow_mod(a, (n - 1) as nat, n) == 1,
        pow_mod(a, m, n) == w,
        x + 1 == w,
        w < n,
        x * u + n * v == 1,
    ensures
        is_prime(n),
{
    let qs = seq![q];
    let us = seq![u];
    let vs = seq![v];
    assert(qs.drop_last() =~= Seq::<nat>::empty());
    assert(product(Seq::<nat>::empty()) == 1);
    assert(product(qs) == q);
    assert(q * m == m * q) by (nonlinear_arith);
    lemma_fundamental_div_mod_converse((n - 1) as int, q as int, m as int, 0);
    lemma_minus_one_mod(w, n);
    assert(qs[0] == q && us[0] == u && vs[0] == v);
    lemma_pocklington(n, a, qs, us, vs);
}

/// Pocklington's criterion with two distinct primes `q1`, `q2`, and `p == q1·q2`.
proof fn lemma_pocklington_two(
    n: nat,
    a: nat,
    q1: nat,
    m1: nat,
    w1: nat,
    x1: nat,
    u1: int,
    v1: int,
    q2: nat,
    m2: nat,
    w2: nat,
    x2: nat,
    u2: int,
    v2: int,
    p: nat,
)
    requires
        n > 1,
        is_prime(q1),
        is_prime(q2),
        q1 != q2,
        n == q1 * m1 + 1,
        n == q2 * m2 + 1,
        p == q1 * q2,
        p * p > n,
        pow_mod(a, (n - 1) as nat, n) == 1,
        pow_mod(a, m1, n) == w1,
        x1 + 1 == w1,
        w1 < n,
        x1 * u1 + n * v1 == 1,
        pow_mod(a, m2, n) == w2,
        x2 + 1 == w2,
        w2 < n,
        x2 * u2 + n * v2 == 1,
    ensures
        is_prime(n),
{
    let qs = seq![q1, q2];
    let us = seq![u1, u2];
    let vs = seq![v1, v2];
    assert(qs.drop_last() =~= seq![q1]);
    assert(seq![q1].drop_last() =~= Seq::<nat>::empty());
    assert(product(Seq::<nat>::empty()) == 1);
    assert(product(seq![q1]) == q1);
    assert(product(qs) == q1 * q2);
    assert(q1 * m1 == m1 * q1) by (nonlinear_arith);
    assert(q2 * m2 == m2 * q2) by (nonlinear_arith);
    lemma_fundamental_div_mod_converse((n - 1) as int, q1 as int, m1 as int, 0);
    lemma_fundamental_div_mod_converse((n - 1) as int, q2 as int, m2 as int, 0);
    lemma_minus_one_mod(w1, n);
    lemma_minus_one_mod(w2, n);
    assert(qs[0] == q1 && qs[1] == q2 && us[0] == u1 && us[1] == u2 && vs[0] == v1 && vs[1] == v2);
    assert(qs.no_duplicates());
    lemma_pocklington(n, a, qs, us, vs);
}

/// The powers `2^r` of the hexadecimal digits `r`.
proof fn lemma_pow_nat_two()
    ensures
        pow_nat(2, 0) == 1,
        pow_nat(2, 1) == 2,
        pow_nat(2, 2) == 4,
        pow_nat(2, 3) == 8,
        pow_nat(2, 4) == 16,
        pow_nat(2, 5) == 32,
        pow_nat(2, 6) == 64,
        pow_nat(2, 7) == 128,
        pow_nat(2, 8) == 256,
        pow_nat(2, 9) == 512,
        pow_nat(2, 10) == 1024,
        pow_nat(2, 11) == 2048,
        pow_nat(2, 12) == 4096,
        pow_nat(2, 13) == 8192,
        pow_nat(2, 14) == 16384,
        pow_nat(2, 15) == 32768,
{
    assert(pow_nat(2, 0) == 1);
    assert(pow_nat(2, 1) == 2 * pow_nat(2, 0));
    assert(pow_nat(2, 2) == 2 * pow_nat(2, 1));
    assert(pow_nat(2, 3) == 2 * pow_nat(2, 2));
    assert(pow_nat(2, 4) == 2 * pow_nat(2, 3));
    assert(pow_nat(2, 5) == 2 * pow_nat(2, 4));
    assert(pow_nat(2, 6) == 2 * pow_nat(2, 5));
    assert(pow_nat(2, 7) == 2 * pow_nat(2, 6));
    assert(pow_nat(2, 8) == 2 * pow_nat(2, 7));
    assert(pow_nat(2, 9) == 2 * pow_nat(2, 8));
    assert(pow_nat(2, 10) == 2 * pow_nat(2, 9));
    assert(pow_nat(2, 11) == 2 * pow_nat(2, 10));
    assert(pow_nat(2, 12) == 2 * pow_nat(2, 11));
    assert(pow_nat(2, 13) == 2 * pow_nat(2, 12));
    assert(pow_nat(2, 14) == 2 * pow_nat(2, 13));
    assert(pow_nat(2, 15) == 2 * pow_nat(2, 14));
}

/// 5 is prime, by trial division.
proof fn lemma_prime_5()
    ensures
        is_prime(5),
{
    assert(no_divisor_upto(5, 1));
    assert(no_divisor_upto(5, 2) == (5nat % 2 != 0 && no_divisor_upto(5, 1)));
    assert(no_divisor_upto(5, 2));
    lemma_trial_division(5, 2);
}

/// 17 is prime, by trial division.
proof fn lemma_prime_17()
    ensures
        is_prime(17),
{
    assert(no_divisor_upto(17, 1));
    assert(no_divisor_upto(17, 2) == (17nat % 2 != 0 && no_divisor_upto(17, 1)));
    assert(no_divisor_upto(17, 2));
    assert(no_divisor_upto(17, 3) == (17nat % 3 != 0 && no_divisor_upto(17, 2)));
    assert(no_divisor_upto(17, 3));
    assert(no_divisor_upto(17, 4) == (17nat % 4 != 0 && no_divisor_upto(17, 3)));
    assert(no_divisor_upto(17, 4));
    lemma_trial_division(17, 4);
}

/// 73 is prime, by trial division.
proof fn lemma_prime_73()
    ensures
        is_prime(73),
{
    assert(no_divisor_upto(73, 1));
    assert(no_divisor_upto(73, 2) == (73nat % 2 != 0 && no_divisor_upto(73, 1)));
    assert(no_divisor_upto(73, 2));
    assert(no_divisor_upto(73, 3) == (73nat % 3 != 0 && no_divisor_upto(73, 2)));
    assert(no_divisor_upto(73, 3));
    assert(no_divisor_upto(73, 4) == (73nat % 4 != 0 && no_divisor_upto(73, 3)));
    assert(no_divisor_upto(73, 4));
    assert(no_divisor_upto(73, 5) == (73nat % 5 != 0 && no_divisor_upto(73, 4)));
    assert(no_divisor_upto(73, 5));
    assert(no_divisor_upto(73, 6) == (73nat % 6 != 0 && no_divisor_upto(73, 5)));
    assert(no_divisor_upto(73, 6));
    assert(no_divisor_upto(73, 7) == (73nat % 7 != 0 && no_divisor_upto(73, 6)));
    assert(no_divisor_upto(73, 7));
    assert(no_divisor_upto(73, 8) == (73nat % 8 != 0 && no_divisor_upto(73, 7)));
    assert(no_divisor_upto(73, 8));
    lemma_trial_division(73, 8);
}

/// 2551 is prime: a Pocklington certificate with base 2.
proof fn lemma_prime_2551()
    ensures
        is_prime(2551),
{
    lemma_prime_5();
    lemma_prime_17();
    lemma_pow_nat_two();
    lemma_pow_mod_zero(2, 2551);
    lemma_window_step(2, 9, 2551, 1, 512, 1, 0, 1, 0, 1, 0, 1, 0, 512, 0);
    lemma_window_step(2, 159, 2551, 512, 32768, 1942, 102, 986, 1478, 265, 381, 1348, 27, 699, 17315);
    lemma_window_step(2, 2550, 2551, 699, 64, 1360, 191, 125, 725, 319, 6, 2272, 39, 1, 57);
    lemma_window_step(2, 1, 2551, 1, 2, 1, 0, 1, 0, 1, 0, 1, 0, 2, 0);
    lemma_window_step(2, 31, 2551, 2, 32768, 4, 0, 16, 0, 256, 0, 1761, 25, 828, 22620);
    lemma_window_step(2, 510, 2551, 828, 16384, 1916, 268, 167, 1439, 2379, 10, 1523, 2218, 1501, 9781);
    lemma_window_step(2, 150, 2551, 512, 64, 1942, 102, 986, 1478, 265, 381, 1348, 27, 2089, 33);
    lemma_pocklington_two(2551, 2, 5, 510, 1501, 1500, -767int, 451int, 17, 150, 2089, 2088, 1135int, -929int, 85);
}

/// 3797 is prime: a Pocklington certificate with base 2.
proof fn lemma_prime_3797()
    ensures
        is_prime(3797),
{
    lemma_prime_73();
    lemma_pow_nat_two();
    lemma_pow_mod_zero(2, 3797);
    lemma_window_step(2, 14, 3797, 1, 16384, 1, 0, 1, 0, 1, 0, 1, 0, 1196, 4);
    lemma_window_step(2, 237, 3797, 1196, 8192, 2744, 376, 85, 1983, 3428, 1, 3266, 3094, 1410, 7046);
    lemma_window_step(2, 3796, 3797, 1410, 16, 2269, 523, 3426, 1355, 949, 3091, 712, 237, 1, 3);
    lemma_window_step(2, 3, 3797, 1, 8, 1, 0, 1, 0, 1, 0, 1, 0, 8, 0);
    lemma_window_step(2, 52, 3797, 8, 16, 64, 0, 299, 1, 2070, 23, 1884, 1128, 3565, 7);
    lemma_pocklington_one(3797, 2, 73, 52, 3565, 3564, -440int, 413int);
}

/// 1224481 is prime: a Pocklington certificate with base 2.
proof fn lemma_prime_1224481()
    ensures
        is_prime(1224481),
{
    lemma_prime_2551();
    lemma_pow_nat_two();
    lemma_pow_mod_zero(2, 1224481);
    lemma_window_step(2, 1, 1224481, 1, 2, 1, 0, 1, 0, 1, 0, 1, 0, 2, 0);
    lemma_window_step(2, 18, 1224481, 2, 4, 4, 0, 16, 0, 256, 0, 65536, 0, 262144, 0);
    lemma_window_step(2, 298, 1224481, 262144, 1024, 378535, 56121, 1204086, 117019, 856966, 1184030, 898520, 599756, 499249, 751);
    lemma_window_step(2, 4783, 1224481, 499249, 32768, 334046, 203555, 1001067, 91129, 296393, 818416, 870066, 71743, 731565, 23283);
    lemma_window_step(2, 76530, 1224481, 731565, 4, 989593, 437072, 932127, 799762, 863035, 709574, 884064, 608281, 1087294, 2);
    lemma_window_step(2, 1224480, 1224481, 1087294, 1, 1224480, 965476, 1, 1224479, 1, 0, 1, 0, 1, 0);
    lemma_window_step(2, 30, 1224481, 2, 16384, 4, 0, 16, 0, 256, 0, 65536, 0, 1096468, 876);
    lemma_window_step(2, 480, 1224481, 1096468, 1, 98946, 981838, 585321, 7995, 685089, 279792, 921659, 383302, 921659, 0);
    lemma_pocklington_one(1224481, 2, 2551, 480, 921659, 921658, -123850int, 93221int);
}

/// 531581 is prime: a Pocklington certificate with base 2.
proof fn lemma_prime_531581()
    ensures
        is_prime(531581),
{
    lemma_prime_3797();
    lemma_pow_nat_two();
    lemma_pow_mod_zero(2, 531581);
    lemma_window_step(2, 8, 531581, 1, 256, 1, 0, 1, 0, 1, 0, 1, 0, 256, 0);
    lemma_window_step(2, 129, 531581, 256, 2, 65536, 0, 324397, 8079, 44106, 197963, 284357, 3659, 37133, 1);
    lemma_window_step(2, 2076, 531581, 37133, 4096, 470156, 2593, 400268, 415828, 211072, 301392, 117155, 83809, 380818, 902);
    lemma_window_step(2, 33223, 531581, 380818, 128, 141771, 272813, 470412, 37809, 379483, 416281, 459646, 270903, 360778, 110);
    lemma_window_step(2, 531580, 531581, 360778, 4096, 499529, 244855, 316212, 469409, 174425, 188099, 105252, 57233, 1, 811);
    lemma_window_step(2, 140, 531581, 256, 4096, 65536, 0, 324397, 8079, 44106, 197963, 284357, 3659, 32301, 2191);
    lemma_pocklington_one(531581, 2, 3797, 140, 32301, 32300, 50673int, -3079int);
}

/// 1257559732178653 is prime: a Pocklington certificate with base 2.
proof fn lemma_prime_1257559732178653()
    ensures
        is_prime(1257559732178653nat),
{
    lemma_prime_531581();
    lemma_prime_1224481();
    lemma_pow_nat_two();
    lemma_pow_mod_zero(2, 1257559732178653nat);
    lemma_window_step(2, 4, 1257559732178653nat, 1, 16, 1, 0, 1, 0, 1, 0, 1, 0, 16, 0);
    lemma_window_step(2, 71, 1257559732178653nat, 16, 128, 256, 0, 65536, 0, 4294967296nat, 0, 857922113069412nat, 14668, 406333773341925nat, 87);
    lemma_window_step(2, 1143, 1257559732178653nat, 406333773341925nat, 128, 810971103482243nat, 131291684310094nat, 800288157069670nat, 522976454998143nat, 982718005680884nat, 509288837705072nat, 268676287915352nat, 767943385890968nat, 436452084341425nat, 27);
    lemma_window_step(2, 18299, 1257559732178653nat, 436452084341425nat, 2048, 1150856348543518nat, 151476241685919nat, 345502571452524nat, 1053206699524600nat, 518323659491230nat, 94923544246682nat, 241197973829786nat, 213635510993138nat, 1010035389369752nat, 392);
    lemma_window_step(2, 292798, 1257559732178653nat, 1010035389369752nat, 16384, 1014968389713910nat, 811231038713298nat, 426508572911365nat, 819174473989995nat, 857758633194653nat, 144652820945324nat, 474106571649599nat, 585061571226770nat, 1073163971669088nat, 6176);
    lemma_window_step(2, 4684775, 1257559732178653nat, 1073163971669088nat, 128, 162104577725480nat, 915806128821688nat, 415948710194003nat, 20895941120849nat, 1091060516427124nat, 137578617607545nat, 580608288261710nat, 946605572718122nat, 121836698958353nat, 59);
    lemma_window_step(2, 74956401, 1257559732178653nat, 121836698958353nat, 2, 607762201312033nat, 11803957166592nat, 923389432588245nat, 293723537651548nat, 704546735069912nat, 678017928212821nat, 344346260577280nat, 394721689313088nat, 688692521154560nat, 0);
    lemma_window_step(2, 1199302417, 1257559732178653nat, 688692521154560nat, 2, 1092939976475754nat, 377156946551182nat, 584031472151214nat, 949869625762734nat, 536335552623627nat, 271233844194573nat, 492687353380757nat, 228741281743924nat, 985374706761514nat, 0);
    lemma_window_step(2, 19188838686nat, 1257559732178653nat, 985374706761514nat, 16384, 81778230886407nat, 772101147866113nat, 910622862144944nat, 5317981226485nat, 193585119307282nat, 659399292011718nat, 1209165828953426nat, 29799935111066nat, 634480562610875nat, 15753);
    lemma_window_step(2, 307021418988nat, 1257559732178653nat, 634480562610875nat, 4096, 946699335852172nat, 320116471631601nat, 947379035479020nat, 712681560620788nat, 532269201376912nat, 713705292797696nat, 870465464561286nat, 225285921205186nat, 244702116546201nat, 2835);
    lemma_window_step(2, 4912342703822nat, 1257559732178653nat, 244702116546201nat, 16384, 601936289542093nat, 47615333339636nat, 45922734470660nat, 288119353217513nat, 1133475597473552nat, 1676976041216nat, 1198520716572079nat, 1021634914981125nat, 1025762079454394nat, 15614);
    lemma_window_step(2, 78597483261165nat, 1257559732178653nat, 1025762079454394nat, 8192, 679151497383230nat, 836690152143902nat, 450839880168600nat, 366779203083100nat, 314354981957525nat, 161627787809575nat, 923596303067073nat, 78580008688984nat, 621565938685568nat, 6016);
    lemma_window_step(2, 1257559732178652nat, 1257559732178653nat, 621565938685568nat, 4096, 416493698495052nat, 307217387968324nat, 994221681859184nat, 137939372935840nat, 1041416653210447nat, 786027675175653nat, 514260876806456nat, 862423165939901nat, 1, 1675);
    lemma_window_step(2, 8, 1257559732178653nat, 1, 256, 1, 0, 1, 0, 1, 0, 1, 0, 256, 0);
    lemma_window_step(2, 141, 1257559732178653nat, 256, 8192, 65536, 0, 4294967296nat, 0, 857922113069412nat, 14668, 395569840760503nat, 585284605780397nat, 1034265417830448nat, 2576);
    lemma_window_step(2, 2256, 1257559732178653nat, 1034265417830448nat, 1, 828851905356744nat, 850619598535320nat, 1004589674489045nat, 546292524668647nat, 983518057514242nat, 802506941234211nat, 191049562566899nat, 769194293284805nat, 191049562566899nat, 0);
    lemma_window_step(2, 36097, 1257559732178653nat, 191049562566899nat, 2, 865881535542853nat, 29024414843316nat, 303718770876872nat, 596195007210629nat, 365581635939763nat, 73352453503857nat, 1251009668392843nat, 106277204268342nat, 1244459604607033nat, 1);
    lemma_window_step(2, 577562, 1257559732178653nat, 1244459604607033nat, 1024, 783666621041297nat, 1231495942396064nat, 330879149665444nat, 488353242569505nat, 1136318000632282nat, 87058299404718nat, 655649478568451nat, 1026765222773141nat, 1105728802871775nat, 533);
    lemma_window_step(2, 9241005, 1257559732178653nat, 1105728802871775nat, 8192, 945395279736188nat, 972229115019529nat, 1051421962082305nat, 710719508646363nat, 1129934038711939nat, 879074062298262nat, 421696934637829nat, 1015260666487764nat, 24704258335377nat, 2747);
    lemma_window_step(2, 147856080, 1257559732178653nat, 24704258335377nat, 1, 79716087550755nat, 485305281558nat, 783499602899019nat, 5053163242902nat, 1037150469860731nat, 488145105186710nat, 1121547834025745nat, 855371772495272nat, 1121547834025745nat, 0);
    lemma_window_step(2, 2365697292nat, 1257559732178653nat, 1121547834025745nat, 4096, 320688185343903nat, 1000246359533674nat, 1164652740540799nat, 81778153027370nat, 1117081940840550nat, 1078609605047767nat, 464494667257985nat, 992296453696255nat, 1139842034583224nat, 1512);
    lemma_window_step(2, 3, 1257559732178653nat, 1, 8, 1, 0, 1, 0, 1, 0, 1, 0, 8, 0);
    lemma_window_step(2, 61, 1257559732178653nat, 8, 8192, 64, 0, 4096, 0, 16777216, 0, 281474976710656nat, 0, 736020130223003nat, 1833);
    lemma_window_step(2, 979, 1257559732178653nat, 736020130223003nat, 8, 576012532405335nat, 430775269143658nat, 769983143964867nat, 263836722024486nat, 797512086879748nat, 471448016996297nat, 664476367675641nat, 505761684669571nat, 285572012690516nat, 4);
    lemma_window_step(2, 15670, 1257559732178653nat, 285572012690516nat, 64, 345654423429051nat, 64848907248985nat, 218613769483287nat, 95007002354538nat, 526079273073410nat, 38003745655003nat, 805174237120387nat, 220076545452021nat, 1228761888558648nat, 40);
    lemma_window_step(2, 250735, 1257559732178653nat, 1228761888558648nat, 32768, 287933005714313nat, 1200623509277347nat, 245316536523356nat, 65925628547321nat, 1162305920994706nat, 47854747215510nat, 1178860579409886nat, 1074267105896350nat, 441172771460247nat, 30717);
    lemma_window_step(2, 4011775, 1257559732178653nat, 441172771460247nat, 32768, 330534517725110nat, 154770711320983nat, 413241545215147nat, 86877040201101nat, 1085016106474977nat, 135793609100344nat, 697488270366588nat, 936146348508297nat, 405070757515962nat, 18174);
    lemma_window_step(2, 64188405, 1257559732178653nat, 405070757515962nat, 32, 162049868081184nat, 130476759390420nat, 858316388665558nat, 20881838908466nat, 695308252005594nat, 585822688339090nat, 258523587139674nat, 384437854470354nat, 727396395397650nat, 6);
    lemma_window_step(2, 1027014492, 1257559732178653nat, 727396395397650nat, 4096, 227661361789518nat, 420739868253294nat, 28406556990180nat, 41214500055648nat, 13796483939559nat, 641665329597nat, 800096641120555nat, 151358988542nat, 1252739704402215nat, 2605);
    lemma_pocklington_two(1257559732178653nat, 2, 531581, 2365697292nat, 1139842034583224nat, 1139842034583223nat, 212927577457398int, -192995844966701int, 1224481, 1027014492, 1252739704402215nat, 1252739704402214nat, -466659544684812int, 464870912375773int, 650910834461nat);
}

/// 4434155615661930479 is prime: a Pocklington certificate with base 2.
proof fn lemma_prime_4434155615661930479()
    ensures
        is_prime(4434155615661930479nat),
{
    lemma_prime_1257559732178653();
    lemma_pow_nat_two();
    lemma_pow_mod_zero(2, 4434155615661930479nat);
    lemma_window_step(2, 3, 4434155615661930479nat, 1, 8, 1, 0, 1, 0, 1, 0, 1, 0, 8, 0);
    lemma_window_step(2, 61, 4434155615661930479nat, 8, 8192, 64, 0, 4096, 0, 16777216, 0, 281474976710656nat, 0, 2305843009213693952nat, 0);
    lemma_window_step(2, 984, 4434155615661930479nat, 2305843009213693952nat, 256, 3820415851030447201nat, 1199081052626962257nat, 3376808764115304818nat, 3291624954084041377nat, 1637378732276643699nat, 2571591621441936575nat, 1224380939133294714nat, 604626753161807553nat, 3050627321788313254nat, 70);
    lemma_window_step(2, 15753, 4434155615661930479nat, 3050627321788313254nat, 512, 2123363862376582884nat, 2098782240201574208nat, 483856367176370294nat, 1016805561834966278nat, 3564089052097412722nat, 52798549340529966nat, 2381419386792808196nat, 2864746272416145472nat, 4328087346548845106nat, 274);
    lemma_window_step(2, 252052, 4434155615661930479nat, 4328087346548845106nat, 16, 2399250445823975930nat, 4224556308576883414nat, 313405599209233575nat, 1298195913885902675nat, 589219318715391398nat, 22151471019367013nat, 1237599911150291766nat, 78296621868919922nat, 2064976115756946340nat, 4);
    lemma_window_step(2, 4032841, 4434155615661930479nat, 2064976115756946340nat, 512, 4108958878265608528nat, 961654648200725568nat, 2056269895966279669nat, 3807611758965611685nat, 3714414910040256751nat, 953562809145114390nat, 4224427948774911370nat, 3111500659831888089nat, 3473324945394478167nat, 487);
    lemma_window_step(2, 64525456, 4434155615661930479nat, 3473324945394478167nat, 1, 1030441034681136947nat, 2720695262405364098nat, 419060351845740148nat, 239461313041045659nat, 1801367293494397626nat, 39604288552435082nat, 2672427657744952121nat, 731802040192251845nat, 2672427657744952121nat, 0);
    lemma_window_step(2, 1032407306, 4434155615661930479nat, 2672427657744952121nat, 1024, 894624930137507660nat, 1610649288142773739nat, 485849146196449042nat, 180497446412706402nat, 2815847752537922773nat, 53234350194220929nat, 618891126948471392nat, 1788164253294757303nat, 4094416571240577390nat, 142);
    lemma_window_step(2, 16518516896nat, 4434155615661930479nat, 4094416571240577390nat, 1, 3993249705004720652nat, 3780707875843658312nat, 2090434687995528713nat, 3596184840738807529nat, 3355223940600569708nat, 985512815414039659nat, 2181897489167196893nat, 2538821067040673149nat, 2181897489167196893nat, 0);
    lemma_window_step(2, 264296270350nat, 4434155615661930479nat, 2181897489167196893nat, 16384, 4013873007491004915nat, 1073637703742033546nat, 165971728783255264nat, 3633426049225340359nat, 2713635740357477003nat, 6212369872181467nat, 502990788623026631nat, 1660703766312495982nat, 2339946899801492322nat, 1858);
    lemma_window_step(2, 4228740325605nat, 4434155615661930479nat, 2339946899801492322nat, 32, 1970882187865918687nat, 1234812660735465643nat, 219376802171430658nat, 876012692185881009nat, 516185887741939001nat, 10853516543482597nat, 3183660085234954989nat, 60089878163682428nat, 4325699182956089110nat, 22);
    lemma_window_step(2, 67659845209685nat, 4434155615661930479nat, 4325699182956089110nat, 32, 3309614577844964534nat, 4219895520882322354nat, 34001979504984738nat, 2470267082011003742nat, 4374839675440402188nat, 260733882720264nat, 3352680082588693095nat, 4316317207769078631nat, 866027866951847544nat, 24);
    lemma_window_step(2, 1082557523354963nat, 4434155615661930479nat, 866027866951847544nat, 8, 3785010879448809124nat, 169142522578158628nat, 928338760317279302nat, 3230898642109838806nat, 2423045865042032071nat, 194357827872211827nat, 985361174559522121nat, 1324074248400243480nat, 3448733780814246489nat, 1);
    lemma_window_step(2, 17320920373679415nat, 4434155615661930479nat, 3448733780814246489nat, 128, 92491745314753372nat, 2682306558867539131nat, 3071422132471013398nat, 1929278918663334nat, 332780977216195359nat, 2127492748001929355nat, 1791297360462019352nat, 24975032090846951nat, 3144125740380022627nat, 51);
    lemma_window_step(2, 277134725978870654nat, 4434155615661930479nat, 3144125740380022627nat, 16384, 1023306773145692946nat, 2229404542412414777nat, 3859208916805791799nat, 236156969382665923nat, 3502170058061922925nat, 3358811632805095644nat, 530683266838490662nat, 2766072321021711597nat, 3769637184447267368nat, 1960);
    lemma_window_step(2, 4434155615661930478nat, 4434155615661930479nat, 3769637184447267368nat, 16384, 459250142321416043nat, 3204705863767081339nat, 2883557100674598299nat, 47565018349216450nat, 3914528004451548001nat, 1875193897905102600nat, 2836571350570843100nat, 3455794253929882219nat, 1, 10481);
    lemma_window_step(2, 13, 4434155615661930479nat, 1, 8192, 1, 0, 1, 0, 1, 0, 1, 0, 8192, 0);
    lemma_window_step(2, 220, 4434155615661930479nat, 8192, 4096, 67108864, 0, 4503599627370496nat, 0, 3634447733974654094nat, 4574131212718nat, 715916954614219048nat, 2978968596487028772nat, 1418984147305173989nat, 661);
    lemma_window_step(2, 3526, 4434155615661930479nat, 1418984147305173989nat, 64, 1642176686889080452nat, 454092319897711611nat, 3314537946461786420nat, 608175378743316196nat, 1454431184836115419nat, 2477622066246563739nat, 3817099166781913408nat, 477062659675737207nat, 415787812636281767nat, 55);
    lemma_pocklington_one(4434155615661930479nat, 2, 1257559732178653nat, 3526, 415787812636281767nat, 415787812636281766nat, 1010501025739283171int, -94754006754933215int);
}

/// 172054593956031949258510691 is prime: a Pocklington certificate with base 2.
proof fn lemma_prime_172054593956031949258510691()
    ensures
        is_prime(172054593956031949258510691nat),
{
    lemma_prime_4434155615661930479();
    lemma_pow_nat_two();
    lemma_pow_mod_zero(2, 172054593956031949258510691nat);
    lemma_window_step(2, 8, 172054593956031949258510691nat, 1, 256, 1, 0, 1, 0, 1, 0, 1, 0, 256, 0);
    lemma_window_step(2, 142, 172054593956031949258510691nat, 256, 16384, 65536, 0, 4294967296nat, 0, 18446744073709551616nat, 0, 115190641538854573611511849nat, 1977758100477nat, 16629868878882634406364437nat, 10969);
    lemma_window_step(2, 2277, 172054593956031949258510691nat, 16629868878882634406364437nat, 32, 96871806178257332331883805nat, 1607353413646725202964404nat, 88172204824674154893154005nat, 54541681314455032074292220nat, 16286495610492892719216189nat, 45185295695336107628272596nat, 85711143924590130261928509nat, 1541661475998647919384132nat, 161937696246404929504051923nat, 15);
    lemma_window_step(2, 36433, 172054593956031949258510691nat, 161937696246404929504051923nat, 2, 81846030359905255095158454nat, 152415677272147289636874225nat, 50130339001185226473878114nat, 38933994912024171843644822nat, 94360963610943572245837325nat, 14606124896705492504610781nat, 27979235111131166562825987nat, 51750966067556476328589218nat, 55958470222262333125651974nat, 0);
    lemma_window_step(2, 582943, 172054593956031949258510691nat, 55958470222262333125651974nat, 32768, 48471085373646801032856895nat, 18199748798430966212595991nat, 119060169457355154588508153nat, 13655236185671107176562392nat, 36078095539374614338700836nat, 82388523463875588152023503nat, 160477695302281860886550014nat, 7565209087534564414802502nat, 28564586967552342608609719nat, 30563);
    lemma_window_step(2, 9327098, 172054593956031949258510691nat, 28564586967552342608609719nat, 1024, 14727382673526691736308954nat, 4742306554368267035414877nat, 25244498745112732438711532nat, 1260621965536830112066024nat, 93508639663017074364663465nat, 3703968038510233429176749nat, 105107589796718891380333944nat, 50820297735627096271153491nat, 96050729320176486892776781nat, 625);
    lemma_window_step(2, 149233571, 172054593956031949258510691nat, 96050729320176486892776781nat, 8, 67166299682207802843152821nat, 53621018717439318846156540nat, 11413594539312451538153147nat, 26220234573643529689115434nat, 12043118753581798975484884nat, 757144214011008436545975nat, 167283432578431927263170630nat, 842969117987848277197486nat, 133885302935231773295790203nat, 7);
    lemma_window_step(2, 2387737146nat, 172054593956031949258510691nat, 133885302935231773295790203nat, 1024, 127332637434614516630902635nat, 104183642702615272096977914nat, 44178776936108901900176216nat, 94235208623364817480334699nat, 139287963216232895493733614nat, 11343866424567748235584262nat, 41785944158848126591004303nat, 112761515114699885077378823nat, 119267517564558213077754904nat, 248);
    lemma_window_step(2, 38203794340nat, 172054593956031949258510691nat, 119267517564558213077754904nat, 16, 150557999360806761038659825nat, 82675739246156327383345701nat, 47729674590214689082038nat, 131747200992037194216111257nat, 95773540012226676175433702nat, 13240691713642665962nat, 64202611432487927428165220nat, 53311979387296150514233024nat, 166968813139647092558090065nat, 5);
    lemma_window_step(2, 611260709448nat, 172054593956031949258510691nat, 166968813139647092558090065nat, 256, 129025751623884478890359935nat, 162033363482213550970643190nat, 100492746108674855049852390nat, 96757919677300714001214185nat, 157323098681815333705303584nat, 58695276820352161776956076nat, 15958796044637637337332964nat, 143852929525224641745941812nat, 128196126438500325411492891nat, 23);
    lemma_window_step(2, 9780171351168nat, 172054593956031949258510691nat, 128196126438500325411492891nat, 1, 66479288483572313897489986nat, 95517628770991642779254845nat, 37946554125071460122040136nat, 25686589911173309160624660nat, 56297240282281070749220758nat, 8369093418888603291258318nat, 22337541034681035881423099nat, 18420776746076400036162115nat, 22337541034681035881423099nat, 0);
    lemma_window_step(2, 156482741618703nat, 172054593956031949258510691nat, 22337541034681035881423099nat, 32768, 72994981224242102663448353nat, 2900043108430852858217128nat, 66325320077446015027118283nat, 30968468562304592076483986nat, 142900343302162049963866391nat, 25567745575569039438765878nat, 107058565489135946892331024nat, 118686212593045737980977227nat, 73957778471294336128515633nat, 20389);
    lemma_window_step(2, 2503723865899256nat, 172054593956031949258510691nat, 73957778471294336128515633nat, 256, 134595730430427517761233518nat, 31790798900765343408383281nat, 101781082335340540474161797nat, 105292222855321177374532597nat, 72158435411486951608553155nat, 60209893169145380949862194nat, 96763626670397184290960051nat, 30262718834257496365307314nat, 167681491909110434518744243nat, 143);
    lemma_window_step(2, 40059581854388105nat, 172054593956031949258510691nat, 167681491909110434518744243nat, 512, 91433556257770227647204411nat, 163419540753734868445388218nat, 73846631357284034270718027nat, 48589781985590173522089434nat, 114197139148342972125337303nat, 31695317384040247903076086nat, 2395392544690375158205639nat, 75795631431954634153677870nat, 22058825189248436191712331nat, 7);
    lemma_window_step(2, 640953309670209695nat, 172054593956031949258510691nat, 22058825189248436191712331nat, 32768, 51008425097746161363740562nat, 2828124245576194362476589nat, 29490804969259381575457854nat, 15122289798418739674333890nat, 152428085104973211881328776nat, 5054834966842821262777940nat, 26896425009408619107934483nat, 135040399646093840897675823nat, 78424465505986826705379642nat, 5122);
    lemma_window_step(2, 10255252954723355129nat, 172054593956031949258510691nat, 78424465505986826705379642nat, 512, 144271857450463944055122729nat, 35746774604992143473563785nat, 161306096852272985208592987nat, 120975373999755217382704594nat, 27258704559505509999685849nat, 151229073769248615680507520nat, 80907701652358351433757635nat, 4318611652138084823247226nat, 131640696559808112041343280nat, 240);
    lemma_window_step(2, 164084047275573682077nat, 172054593956031949258510691nat, 131640696559808112041343280nat, 8192, 104134018020036501775596858nat, 100719618071807606500565762nat, 163998252094376463872370618nat, 63025888816246384859771406nat, 73104155930710175499064273nat, 156319143078990975583540561nat, 34386871474566507697962703nat, 31061173616249310863460486nat, 43880813624530125528461809nat, 1637);
    lemma_window_step(2, 2625344756409178913246nat, 172054593956031949258510691nat, 43880813624530125528461809nat, 16384, 114709172642184964489398815nat, 11191365252605874666112726nat, 72038874457571755702428317nat, 76476855314988763173026188nat, 94492092363076351926021799nat, 30162515942119925904553590nat, 22522561059620886790399378nat, 51894897508135526547594453nat, 124590959096109963656487648nat, 2144);
    lemma_window_step(2, 42005516102546862611941nat, 172054593956031949258510691nat, 124590959096109963656487648nat, 32, 152051311594972909760853895nat, 90220823121150603052195699nat, 114478199346723429286666136nat, 134373635868506307198183379nat, 109002605503077101330930079nat, 76169184584615968839833387nat, 44774883799669379325106351nat, 69056964613776918383934790nat, 56359529941164544335317704nat, 8);
    lemma_window_step(2, 672088257640749801791057nat, 172054593956031949258510691nat, 56359529941164544335317704nat, 2, 59344311240781236886621714nat, 18461562357357000631801722nat, 163971234199517154342589839nat, 20468777936511747744632327nat, 123747702650551333537318103nat, 156267641721811203970121198nat, 31493031722044698397315852nat, 89003690974985465024795127nat, 62986063444089396794631704nat, 0);
    lemma_window_step(2, 10753412122251996828656918nat, 172054593956031949258510691nat, 62986063444089396794631704nat, 64, 33466043495908907808984287nat, 23058054405665403805498219nat, 66260457224599139374567883nat, 6509422628705127954905746nat, 72597615398193644378098129nat, 25517762069956112543423160nat, 11157562650446959307766833nat, 30632217602111117337723088nat, 25865633804477598663034548nat, 4);
    lemma_window_step(2, 172054593956031949258510690nat, 172054593956031949258510691nat, 25865633804477598663034548nat, 4, 124986276829901698524723212nat, 3888480956679966491760812nat, 42203025079099066766622177nat, 90794259174462198739751237nat, 86027296978015974629255345nat, 10351919613853603453141424nat, 43013648489007987314627673nat, 43013648489007987314627672nat, 1, 1);
    lemma_window_step(2, 2, 172054593956031949258510691nat, 1, 4, 1, 0, 1, 0, 1, 0, 1, 0, 4, 0);
    lemma_window_step(2, 37, 172054593956031949258510691nat, 4, 32, 16, 0, 256, 0, 65536, 0, 4294967296nat, 0, 137438953472nat, 0);
    lemma_window_step(2, 592, 172054593956031949258510691nat, 137438953472nat, 1, 18889465931478580854784nat, 0, 31984044512296906456259822nat, 2073829677966472774nat, 29024443532358241270411834nat, 5945665732273380560698350nat, 19808387174203048784497920nat, 4896226848661359734432396nat, 19808387174203048784497920nat, 0);
    lemma_window_step(2, 9473, 172054593956031949258510691nat, 19808387174203048784497920nat, 2, 150010420116626843684561259nat, 2280509885969109424278951nat, 140535356440195322503150377nat, 130790614921432972698007344nat, 9305664854811807573173237nat, 114790229982582456155186612nat, 59437877788357209096870025nat, 503301867151590626831184nat, 118875755576714418193740050nat, 0);
    lemma_window_step(2, 151570, 172054593956031949258510691nat, 118875755576714418193740050nat, 4, 144280111927389765958270015nat, 82133495764408352887561335nat, 90133693166330921620135190nat, 120989217545099543588439385nat, 65639251607399514294788953nat, 47218051299916904018079417nat, 102615276464843099485570695nat, 25041536250293481019050254nat, 66351917947308499425261398nat, 2);
    lemma_window_step(2, 2425131, 172054593956031949258510691nat, 66351917947308499425261398nat, 2048, 97600549175164628856544611nat, 25588256111379539769822923nat, 127897524626106247905308924nat, 55365375490805183342817167nat, 87422468871155917352290741nat, 95073176654996125144841385nat, 128467172738069432559519024nat, 44420133678507253726195427nat, 29295608793347465632114613nat, 1529);
    lemma_window_step(2, 38802110, 172054593956031949258510691nat, 29295608793347465632114613nat, 16384, 99776113337475071559481089nat, 4988141698745784251597480nat, 143323807547722366163136575nat, 57861127470253493211957206nat, 79532736734155735102380505nat, 119390673260522958631819320nat, 51493265161379666398269520nat, 36764238995216698428672555nat, 81982237619807054769897707nat, 4903);
    lemma_pocklington_one(172054593956031949258510691nat, 2, 4434155615661930479nat, 38802110, 81982237619807054769897707nat, 81982237619807054769897706nat, -17779243434318459953124787int, 8471625932319896702492053int);
}

/// 19757330305831588566944191468367130476339 is prime: a Pocklington certificate with base 2.
proof fn lemma_prime_19757330305831588566944191468367130476339()
    ensures
        is_prime(19757330305831588566944191468367130476339nat),
{
    lemma_prime_172054593956031949258510691();
    lemma_pow_nat_two();
    lemma_pow_mod_zero(2, 19757330305831588566944191468367130476339nat);
    lemma_window_step(2, 3, 19757330305831588566944191468367130476339nat, 1, 8, 1, 0, 1, 0, 1, 0, 1, 0, 8, 0);
    lemma_window_step(2, 58, 19757330305831588566944191468367130476339nat, 8, 1024, 64, 0, 4096, 0, 16777216, 0, 281474976710656nat, 0, 288230376151711744nat, 0);
    lemma_window_step(2, 928, 19757330305831588566944191468367130476339nat, 288230376151711744nat, 1, 83076749736557242056487941267521536nat, 0, 1619361847007976702014523425326475170303nat, 349325857287178071418934062587nat, 19562361158645873597581409104891251722287nat, 132727081592145878700922027800538989798nat, 11703182838014489695100769160889534803008nat, 19369316004619452272808222939004939638299nat, 11703182838014489695100769160889534803008nat, 0);
    lemma_window_step(2, 14863, 19757330305831588566944191468367130476339nat, 11703182838014489695100769160889534803008nat, 32768, 9440308863944277395953676010645122756106nat, 6932337842201805131702634200677684137522nat, 10901923122835813113193447139460696210748nat, 4510702107377348166919239159463649908792nat, 10768697354501671260650999570950388741879nat, 6015586414584653804908591555999819679875nat, 3239432216446673582547494047155170120944nat, 5869459128221540261655151126895274660123nat, 13336465597306171292088369112389604199884nat, 5372);
    lemma_window_step(2, 237820, 19757330305831588566944191468367130476339nat, 13336465597306171292088369112389604199884nat, 4096, 18207924950610251732922197077537795856071nat, 9002294939394386293765257880500811325715nat, 13647429413699205781313065801423869513629nat, 16780026748310277824793873606156772529308nat, 13735212417399396579651913261348368769116nat, 9426998826199097814611778635118779450975nat, 15278298508499955617215751331893952417124nat, 9548661546413419535014806849799620103588nat, 8445612247177216603463075118926881974291nat, 3167);
    lemma_window_step(2, 3805123, 19757330305831588566944191468367130476339nat, 8445612247177216603463075118926881974291nat, 8, 7742269166387525084957806299243274421937nat, 3610222895783468269446270307527004129896nat, 5342816821726778074614170052046377125079nat, 3033948965620230608190408766559355666510nat, 16098652082982592050602449825646151915267nat, 1444815222940371774340755587909243153466nat, 497334863139761562047694802739865445732nat, 13117490818707623689520960405036908145863nat, 3978678905118092496381558421918923565856nat, 0);
    lemma_window_step(2, 60881974, 19757330305831588566944191468367130476339nat, 3978678905118092496381558421918923565856nat, 64, 13138802078496741084939323099265587826000nat, 801215831541741355132612946980309921424nat, 2087685238993320108593804060462991820063nat, 8737421371497607503565649882257067184283nat, 5799889002885702031417975361013358498195nat, 220598106608773894073993714756277456666nat, 1588849516592741088257313336248926460354nat, 1702594020805820871509449318781608806589nat, 2899717532777486813747096178095641080961nat, 5);
    lemma_window_step(2, 974111591, 19757330305831588566944191468367130476339nat, 2899717532777486813747096178095641080961nat, 128, 15554825367944987205289407003058023693694nat, 425581879724678029498043171561441927793nat, 17541797789416754362132955530738468400196nat, 12246218921381802092174339194336691120960nat, 3792372956297175162432966406415635697471nat, 15574708977455381975934359353186902795755nat, 12351741892025356159992985099199415761813nat, 727937044986748370831246852922122199652nat, 436537712718503123566775228154779404944nat, 80);
    lemma_window_step(2, 15585785469nat, 19757330305831588566944191468367130476339nat, 436537712718503123566775228154779404944nat, 8192, 17421459279119111048198803185598536125334nat, 9645289706436451213892704291826478318nat, 13717086750395371705360737722132848794325nat, 15361753775226501563773545963215253800629nat, 14691974264918260974281040575624498518888nat, 9523476401178314175541186680568743285483nat, 10803884841244574346534608141804374698474nat, 10925266949518418137027530538356787906130nat, 12342179655867855468476310845060126376627nat, 4479);
    lemma_window_step(2, 249372567516nat, 19757330305831588566944191468367130476339nat, 12342179655867855468476310845060126376627nat, 4096, 16483542626051188014849559416450728555287nat, 7710019334583717246266502913964738656678nat, 19253683365451130690091289843956762766910nat, 13752221241381443087181753899748101818081nat, 5143438084459561610768714688832746882638nat, 18762875216376385100819301689349169030258nat, 12386235683126269143243784221600209572649nat, 1338994434934388873368701029958829997305nat, 16954463015510559380800672376034476808091nat, 2567);
    lemma_window_step(2, 3989961080271nat, 19757330305831588566944191468367130476339nat, 16954463015510559380800672376034476808091nat, 32768, 5057695273671637145438135514781859200602nat, 14549223589154164445098491514360911613061nat, 12798678644750162342059863253070485497015nat, 1294723582860287622847372533500899353951nat, 5989695710211906396135959869296023669556nat, 8290906337848423661817807926008297215471nat, 1698649652364079908281149254907708294847nat, 1815855388637279209740092476250336291051nat, 4952337138585441474911418425578853699533nat, 2817);
    lemma_window_step(2, 63839377284336nat, 19757330305831588566944191468367130476339nat, 4952337138585441474911418425578853699533nat, 1, 18460587600651156974321413410847427819311nat, 1241343984970157165950930951382113519902nat, 3074910640844818053279930998090810043712nat, 17248954655615917600497788026957760565531nat, 11158197767385901331818491026167089529449nat, 478560377481259318552294620760140040205nat, 7463426772326548444198858830457048511586nat, 6301730825411498617992850329882980148885nat, 7463426772326548444198858830457048511586nat, 0);
    lemma_window_step(2, 1021430036549391nat, 19757330305831588566944191468367130476339nat, 7463426772326548444198858830457048511586nat, 32768, 2477207790856613767889508482267791165738nat, 2819345444128117761307069446012493621822nat, 2126555610496467627612592820480132260350nat, 310596540326576079203736858999276649346nat, 2268833731326613253165541257910217005278nat, 228889161366058486206136344308231724098nat, 693113193524328494062900989329997197681nat, 260541602570974442933097563267038908577nat, 10760604004700830034263621211515256297497nat, 1149);
    lemma_window_step(2, 16342880584790271nat, 19757330305831588566944191468367130476339nat, 10760604004700830034263621211515256297497nat, 32768, 11387737817621470338775558939012231036922nat, 5860639912053639162778156723572460425133nat, 12577440978055810354623603330338059248415nat, 6563668805223628421380005006544324170471nat, 19450834347223589675914860425305158446780nat, 8006750867033154907164826668114291841255nat, 7619399551768783057813838463753059488117nat, 19149093068078296777866443756079769448697nat, 18858767871530106537055385973192607598252nat, 12636);
    lemma_window_step(2, 261486089356644336nat, 19757330305831588566944191468367130476339nat, 18858767871530106537055385973192607598252nat, 1, 9479982266044965941139418391621652893078nat, 18001072013625309445392982645607419247134nat, 8390565137055451058771314261375179903585nat, 4548694705883462977981585899980320355441nat, 2510370284539389580222553436897459342213nat, 3563314589035876754676145224631864458708nat, 15381213368278193359867389444171394377860nat, 318968143364910229071008615537422987031nat, 15381213368278193359867389444171394377860nat, 0);
    lemma_window_step(2, 4183777429706309386nat, 19757330305831588566944191468367130476339nat, 15381213368278193359867389444171394377860nat, 1024, 6570631793602181534822296232971752957037nat, 11974377156141898652947298471265567563217nat, 214500186240790735515248699222551792202nat, 2185173882240192446275370301233902890853nat, 14813182009351050487998801375328922886522nat, 2328772621863464385747696599603862638nat, 8388461741880674667412394837777979293205nat, 11106275890796561422125696971087805889461nat, 15103470954901421376513216613316169510794nat, 434);
    lemma_window_step(2, 66940438875300950181nat, 19757330305831588566944191468367130476339nat, 15103470954901421376513216613316169510794nat, 32, 3414241553426565695093199834103937908566nat, 11545832931599078745574029588029197190330nat, 5838347438259289800621743605480536614304nat, 590011160652810775395733326238007089068nat, 9065996285950019937771500962242102257149nat, 1725248314534068066079231295839377376753nat, 16939393955369747767723724846961716965152nat, 4160090831330567852554986103636863275891nat, 8612688314379037259666025456862420023711nat, 27);
    lemma_window_step(2, 1071047022004815202906nat, 19757330305831588566944191468367130476339nat, 8612688314379037259666025456862420023711nat, 1024, 4707452150107620616130312357143652507745nat, 3754474863374970729815614644136974986784nat, 108926277037586725991289782635358454100nat, 1121614378184084249340457961079759524575nat, 11082727101452300415920540271861316569964nat, 600533252499556096694258446695266124nat, 19005065060281995334126053027211270116874nat, 6216773121873234325339742930639964428898nat, 216270484648483705049703522717080485061nat, 985);
    lemma_window_step(2, 17136752352077043246497nat, 19757330305831588566944191468367130476339nat, 216270484648483705049703522717080485061nat, 2, 3625678127686420775532009167387543345886nat, 2367370581251278403722965816223282265nat, 5149350621479649566232555868905117386366nat, 665350109660497077405722145502054899170nat, 12361746476791716654432770976843388785812nat, 1342074633185963699652324110467744524496nat, 10464730684696038321182031665578296971588nat, 7734485053953270452265599274656577321604nat, 1172131063560488075419871862789463466837nat, 1);
    lemma_window_step(2, 274188037633232691943965nat, 19757330305831588566944191468367130476339nat, 1172131063560488075419871862789463466837nat, 8192, 973728018014416302926948865331851229629nat, 69538303449728841210568287120873901460nat, 6790779988426739748542211622209242339940nat, 47989593654079259608605760372091788359nat, 16661939477206485396488329179797810549108nat, 2334054861531865162370726763383151703028nat, 5507805804237601763057855910616650274979nat, 14051505079112299474979111536065176760415nat, 13960060100916944636366497489440175146031nat, 2283);
    lemma_window_step(2, 4387008602131723071103451nat, 19757330305831588566944191468367130476339nat, 13960060100916944636366497489440175146031nat, 2048, 18551822947962884660890862355200160720063nat, 9863846734580902290299155554138059512982nat, 2730747241632033050617073142135697959617nat, 17419870466556748249229039953990773224768nat, 9826899006506598318259995142515548933547nat, 377428548404636890241765841815142023378nat, 19007489329582741217044589781835682010004nat, 4887702062437924702337690397420235601095nat, 5397444497224535627262680516229718100362nat, 1970);
    lemma_window_step(2, 70192137634107569137655216nat, 19757330305831588566944191468367130476339nat, 5397444497224535627262680516229718100362nat, 1, 18041248118887594315696159565989522034839nat, 1474511315530351631114481833479063396095nat, 14255677331121657048233458658898316659536nat, 16474221397776311879920831178914924326715nat, 8635475489388849910809319681279090177522nat, 10286022100317472646128932109436410644666nat, 16180048278757857621174426190295818586755nat, 3774368083820769808332372710458169806011nat, 16180048278757857621174426190295818586755nat, 0);
    lemma_window_step(2, 1123074202145721106202483467nat, 19757330305831588566944191468367130476339nat, 16180048278757857621174426190295818586755nat, 2048, 4416092354785081362679133789548901067881nat, 13250472520857932259311165761601473782496nat, 10797143726706527640973462511091070799284nat, 987070185299025836261163103977055549743nat, 10369237204960155578830584791675624520156nat, 5900509373007181089121533135045053157500nat, 12841911020809524171409614192078779661096nat, 5442085471486696565494149714177164951160nat, 3227133556061120444171020980690081917399nat, 1331);
    lemma_window_step(2, 17969187234331537699239735473nat, 19757330305831588566944191468367130476339nat, 3227133556061120444171020980690081917399nat, 2, 5807354526329973776940839584007547898291nat, 527115294801837335384314394076250827690nat, 1682996929309808442595278090651632956112nat, 1706979944781852908541666704435200725571nat, 13894969628929111689595452049907247743592nat, 143363431203567407571437881109704892168nat, 11969011636298489326922310798043707885870nat, 9772078413442107360509595831368328635046nat, 4180692966765390086900430127720285295401nat, 1);
    lemma_window_step(2, 287506995749304603187835767579nat, 19757330305831588566944191468367130476339nat, 4180692966765390086900430127720285295401nat, 2048, 17054847615086817411508440129696501083388nat, 884643492405586911990499780794569209367nat, 18411761456855658626255871803612265175295nat, 14722020772613177178716905303376320747691nat, 12959934028702388543957077928275254763228nat, 17157832292964104888822979116503486462023nat, 13552579652517325264157462975438698325828nat, 8501142989887806598147487185143087379204nat, 16391378967931793004839352111002982515788nat, 1404);
    lemma_window_step(2, 4600111931988873651005372281271nat, 19757330305831588566944191468367130476339nat, 16391378967931793004839352111002982515788nat, 128, 11564717337363423036608599393638092771816nat, 13598866866696748753999737946278859450552nat, 16996356919032669366714264172256744097431nat, 6769269178722924331744814949244892785075nat, 14343234080213387897620951059310614639215nat, 14621213698790306216335027238644305216214nat, 18042472503350442507697855975287072230415nat, 10412761273676325183316300159541761402790nat, 17586164952392367219799354506158110237796nat, 116);
    lemma_window_step(2, 73601790911821978416085956500348nat, 19757330305831588566944191468367130476339nat, 17586164952392367219799354506158110237796nat, 4096, 15842939331891693131963043094851341460279nat, 15653592512014050829417362348024457330883nat, 14883603925086619073116932664473744244102nat, 12704081107553070254870247742005655806601nat, 6093311143657447720256853115297960272948nat, 11212125442548749161537387272840795277904nat, 2062657124142715042031827225477603879663nat, 1879223565061377489460216414510121555419nat, 12263539898472494077194558563500777702895nat, 427);
    lemma_window_step(2, 1177628654589151654657375304005571nat, 19757330305831588566944191468367130476339nat, 12263539898472494077194558563500777702895nat, 8, 9946549506586676508295279814957564176894nat, 7612081617982375999688556402149779227729nat, 15683757686931630381278583322938517589512nat, 5007450174469081418196467463253201501716nat, 2118781517209463446992612697969572482643nat, 12450075560551988474178611409082682878559nat, 6797241852765009234623084458937292824944nat, 227218710634370971358553976516234309795nat, 14863274210456896743096292734764081646874nat, 2);
    lemma_window_step(2, 18842058473426426474518004864089136nat, 19757330305831588566944191468367130476339nat, 14863274210456896743096292734764081646874nat, 1, 265872784925332325263061557017076124501nat, 11181516775575042234692148879173769995125nat, 8772235075335678664098979803506257989067nat, 3577828414554956165570638043829062106nat, 7187407821868695670541883281535586388325nat, 3894863679747071770256829760512653083676nat, 758198465794860330415470502304657237140nat, 2614666576820434511794370425187651080615nat, 758198465794860330415470502304657237140nat, 0);
    lemma_window_step(2, 301472935574822823592288077825426185nat, 19757330305831588566944191468367130476339nat, 758198465794860330415470502304657237140nat, 512, 5326873591184990702696754068670750912893nat, 29096285005874626060779065015643383713nat, 6268264753164310948466745346848508953328nat, 1436205287719906222498784003349239435139nat, 10549796202055517990531349790369040926356nat, 1988686852300325036907055663579912596452nat, 15457311639833118038391267217106258006257nat, 5633261082447671123476140647296195372261nat, 11211437261921008878652227811551908667984nat, 400);
    lemma_window_step(2, 4823566969197165177476609245206818963nat, 19757330305831588566944191468367130476339nat, 11211437261921008878652227811551908667984nat, 8, 17949873054152915805010850290192936656370nat, 6362009620342796317817042256771771609274nat, 957669989516387990413462810197008700448nat, 16307767176676938830744574323837634238668nat, 1558353232345560911116104415101003042590nat, 46419824673863824841607495119029624726nat, 18201180737334771447116811392844456644485nat, 122914622531014235361473958609026913285nat, 7308133757857051608325150864185739821507nat, 7);
    lemma_window_step(2, 77177071507154642839625747923309103423nat, 19757330305831588566944191468367130476339nat, 7308133757857051608325150864185739821507nat, 32768, 5975919141031121830698448734252537307508nat, 2703240680597704194055351970970138592919nat, 18683485753638244056346462148142073144073nat, 1807511896969271969683424139776582757469nat, 17192995749500464516097839449701783835190nat, 17668006481795300039947508757310721550201nat, 17185200721376010686993850253211056182544nat, 14961490154117218188615462758926195443804nat, 1228861237180856371139865819936152987614nat, 28502);
    lemma_window_step(2, 1234833144114474285434011966772945654771nat, 19757330305831588566944191468367130476339nat, 1228861237180856371139865819936152987614nat, 8, 12269325361069731028457136747049201098831nat, 76432388226052114724526162604356095735nat, 5918703698850793400733836064887586253145nat, 7619265482004745560154399259635426915544nat, 8169557225800447572670336180095742398651nat, 1773066144693155787409705322267100686066nat, 2385618451294383815237503998631218170456nat, 3378071036547320600884592312396227591355nat, 19084947610355070521900031989049745363648nat, 0);
    lemma_window_step(2, 19757330305831588566944191468367130476338nat, 19757330305831588566944191468367130476339nat, 19084947610355070521900031989049745363648nat, 4, 14844156124004850728336875399467522171200nat, 18435447484647749799414404734316296361536nat, 18290544821388317092614628490158416946687nat, 11152770522280145523811701749013994537467nat, 9878665152915794283472095734183565238169nat, 16932653586525843289282695480417526430200nat, 4939332576457897141736047867091782619085nat, 4939332576457897141736047867091782619084nat, 1, 1);
    lemma_window_step(2, 6, 19757330305831588566944191468367130476339nat, 1, 64, 1, 0, 1, 0, 1, 0, 1, 0, 64, 0);
    lemma_window_step(2, 104, 19757330305831588566944191468367130476339nat, 64, 256, 4096, 0, 16777216, 0, 281474976710656nat, 0, 79228162514264337593543950336nat, 0, 20282409603651670423947251286016nat, 0);
    lemma_window_step(2, 1671, 19757330305831588566944191468367130476339nat, 20282409603651670423947251286016nat, 128, 18748596071776446107177033409625920989373nat, 20821443634461049522097nat, 19739301474640662747381178294749523064127nat, 17791363975874780569836092239253423999118nat, 2309676479414100352087775915367489310962nat, 19721289095002101518342860198761365996853nat, 8024591176691990107060259609394364821926nat, 270006390386870585866302174268233619562nat, 19523825019163716789559465115755042913239nat, 51);
    lemma_window_step(2, 26736, 19757330305831588566944191468367130476339nat, 19523825019163716789559465115755042913239nat, 1, 2741074543570134387368872531500694667537nat, 19293079453473215695698998085832837987456nat, 18129074954164426131222341246417038296043nat, 380288709916973613942502556697489333234nat, 18809579709454361105253480884714360622318nat, 16635008556631933400475953206080385080329nat, 16983469284660113529419339998214789416117nat, 17907292299602302366417758034714585391413nat, 16983469284660113529419339998214789416117nat, 0);
    lemma_window_step(2, 427781, 19757330305831588566944191468367130476339nat, 16983469284660113529419339998214789416117nat, 32, 3097813472089334610536828706139684916534nat, 14599048782307286849932576057763754948145nat, 82290072194374867343729107247012671099nat, 485715841123822471004614345256312469363nat, 6762912142385513297458982511253321857705nat, 342741447196269254571593254655539664nat, 7518490119946753010651092551874473720839nat, 2314937288471897008275391306475789328974nat, 3503720168317033537504664039577593350780nat, 12);
    lemma_window_step(2, 6844505, 19757330305831588566944191468367130476339nat, 3503720168317033537504664039577593350780nat, 512, 13483153334691799117652002129862833442927nat, 621341792025825074763924189761980434907nat, 15834796894698494196511721066891001624496nat, 9201416437986649836809125644401080179147nat, 19153260898053052467687093559321851375768nat, 12691026004780829753654431758212663088632nat, 779502092725507578362967727912123139491nat, 18567660577128128731912188883531755281647nat, 3958465358828108782955647323664437892612nat, 20);
    lemma_window_step(2, 109512091, 19757330305831588566944191468367130476339nat, 3958465358828108782955647323664437892612nat, 2048, 16032473927655434276320193562807309147325nat, 793095410892489958220729624720341293921nat, 12258613079133075938003446233296329809642nat, 13009866022490046707734200706079960224997nat, 10407129570170087815791523310212377228990nat, 7605966610759027761021668997221773747266nat, 10116304947840576310083322933689799442381nat, 5481932235467069324915710168979115901421nat, 12510372665995464893132709347956518793016nat, 1048);
    lemma_window_step(2, 1752193467, 19757330305831588566944191468367130476339nat, 12510372665995464893132709347956518793016nat, 2048, 3624496945519883363123267905170067544528nat, 7921587675025660510635613342582440063952nat, 13552769990663749521217738377986111916958nat, 664916661549432311034509005745242387734nat, 11762189881463811544705734798386660919979nat, 9296679843714587157424165252193941413315nat, 17782382365108520944690329848024560075991nat, 7002419287730106168119095084022310582550nat, 5559330094633165847650652553677567736791nat, 1843);
    lemma_window_step(2, 28035095479nat, 19757330305831588566944191468367130476339nat, 5559330094633165847650652553677567736791nat, 128, 17165912182971479704515406995458772334885nat, 1564287817366282619059731248455431668964nat, 13025226487774363660242074440829968425369nat, 14914390583757871482382153348021740317504nat, 5576588436959173905307322745899289425231nat, 8587016688572693292487539361275961814870nat, 9610981896136220905632075887574994523093nat, 1574015219356218039054886375193839487812nat, 5251203743877784770365842570837209422886nat, 62);
    lemma_window_step(2, 448561527667nat, 19757330305831588566944191468367130476339nat, 5251203743877784770365842570837209422886nat, 8, 11425944374501064380602063708702788149002nat, 1395691641171629548326246902906297595646nat, 11630358414123007096396431092496607988532nat, 6607785709320182381223143520816606648848nat, 7132820694104362705125736501739928790855nat, 6846331703076140755108023687774845741971nat, 19603290949606167855581434294959003676827nat, 2575101507475760024718513887555866369682nat, 18525015456028222876042134081102116080243nat, 7);
    lemma_window_step(2, 7176984442682nat, 19757330305831588566944191468367130476339nat, 18525015456028222876042134081102116080243nat, 1024, 9812042290898475719052039893834377481610nat, 17369563211928101446291711985387282284901nat, 2151459808615686034645887916081635558898nat, 4872934370589697497822392393345901886918nat, 18280598635202857845986118506293195097187nat, 234281617831859113888512457438431243803nat, 11948612755764386183149847472085616637863nat, 16914243032255409662533748679154283415254nat, 5592002592978128606989292496417672317871nat, 619);
    lemma_window_step(2, 114831751082918nat, 19757330305831588566944191468367130476339nat, 5592002592978128606989292496417672317871nat, 64, 928513593475896652103538037313128212518nat, 1582728664036369908457436297281939119257nat, 2690119855754995733082006122874529382970nat, 43636335472665227187268112103372379886nat, 19204294277026524269851883920451126981235nat, 366281513053981588077705515520488900235nat, 18665446512938023831537866557486350449508nat, 18666738520324123627126792851573363355303nat, 9148758478138211201771971577098600188172nat, 60);
    lemma_pocklington_one(19757330305831588566944191468367130476339nat, 2, 172054593956031949258510691nat, 114831751082918nat, 9148758478138211201771971577098600188172nat, 9148758478138211201771971577098600188171nat, -3385675872469944473147229741170731090145int, 1567758921019043986448917253982060556964int);
}

/// 276602624281642239937218680557139826668747 is prime: a Pocklington certificate with base 2.
proof fn lemma_prime_276602624281642239937218680557139826668747()
    ensures
        is_prime(276602624281642239937218680557139826668747nat),
{
    lemma_prime_19757330305831588566944191468367130476339();
    lemma_pow_nat_two();
    lemma_pow_mod_zero(2, 276602624281642239937218680557139826668747nat);
    lemma_window_step(2, 3, 276602624281642239937218680557139826668747nat, 1, 8, 1, 0, 1, 0, 1, 0, 1, 0, 8, 0);
    lemma_window_step(2, 50, 276602624281642239937218680557139826668747nat, 8, 4, 64, 0, 4096, 0, 16777216, 0, 281474976710656nat, 0, 1125899906842624nat, 0);
    lemma_window_step(2, 812, 276602624281642239937218680557139826668747nat, 1125899906842624nat, 4096, 1267650600228229401496703205376nat, 0, 112520229889329691359935065456432206836131nat, 5809554585508105335nat, 245353181309303945027941561945009467335293nat, 45772530782123472373397235291057019987044nat, 262459565621736546403527909732952345493807nat, 217634173699310960061674823275934863953486nat, 156582828171149672818525621127440707882630nat, 3886);
    lemma_window_step(2, 13005, 276602624281642239937218680557139826668747nat, 156582828171149672818525621127440707882630nat, 8192, 38040715825432232641621273725291558307642nat, 88640453581202786044539279840987789484414nat, 229205397139989240296261408333576042754370nat, 5231678709735698669162930349942935788902nat, 170289275614754799094148000367877744014697nat, 189929919191973753448342369342910802228849nat, 172957589150197174153788676534433232047177nat, 104837896837418083797181255279412209498456nat, 109928747843697709402756356406844733151850nat, 5122);
    lemma_window_step(2, 208092, 276602624281642239937218680557139826668747nat, 109928747843697709402756356406844733151850nat, 4096, 145460153468745873285705270194812210128994nat, 43688412696254000047307845043396197372998nat, 247676337468992496663573243712170868611004nat, 76494777669234770476994750356388645869656nat, 247766885196897909815305112683543931950971nat, 221775076434535296523147387931746937864735nat, 168395913222615130015538381749389436077565nat, 221937263102991679098476376299576699069908nat, 179318225697468380159041016549542288519969nat, 2493);
    lemma_window_step(2, 3329482, 276602624281642239937218680557139826668747nat, 179318225697468380159041016549542288519969nat, 1024, 205421746443619703955470249586744358520942nat, 116249895136740743555536911280087471959577nat, 46406952346426136435717290360101139958783nat, 152558545030215816557101888052144290674223nat, 122466155263569456843461804301624852160693nat, 7785917547516190707567830426513087264868nat, 194133425506299602080953293427763450017892nat, 54222042267283348481376073570992634169631nat, 191943484231664255973159830003377270161062nat, 718);
    lemma_window_step(2, 53271727, 276602624281642239937218680557139826668747nat, 191943484231664255973159830003377270161062nat, 32768, 109983522528566199015171395387338003369582nat, 133195775834279823090320041230410411179746nat, 204219777493062294864703996310623236511071nat, 43731961181521044178720829753298684829199nat, 261046585398324475264549110536923420017488nat, 150778459270329590397118924118386850718899nat, 194085405950417688545792662910676911619299nat, 246365412928034285018236241298469116190135nat, 143044699768437632002074887302145173358608nat, 22992);
    lemma_window_step(2, 852347642, 276602624281642239937218680557139826668747nat, 143044699768437632002074887302145173358608nat, 1024, 57088885115688606818955039584066966001523nat, 73975386838730306047397741885129980061703nat, 192706907674561474728585605094378824863905nat, 11782754455842656058118826918041636064792nat, 110092347128777285707078990416054200900346nat, 134257411193898877079416569159266779098357nat, 185131595897280396946272849285430878548006nat, 43818546291093907829055722745293296271930nat, 101956565890192115988601486640438365066449nat, 685);
    lemma_window_step(2, 13637562286nat, 276602624281642239937218680557139826668747nat, 101956565890192115988601486640438365066449nat, 16384, 132408397761090284000741707463665592336204nat, 37581499290247329051717618686468095865951nat, 271049729017240810583621722808649221026845nat, 63383288004555182110982315739532755071993nat, 151109376951428001447019799841715831067995nat, 265608310084264260902628711615884687700490nat, 46589101783786790735353288588072292595248nat, 82551797409552727117721931897258228710491nat, 169203232511839421241940569827660101470259nat, 2759);
    lemma_window_step(2, 218200996577nat, 276602624281642239937218680557139826668747nat, 169203232511839421241940569827660101470259nat, 2, 260566261853566214888724898281293919721167nat, 103504925041145791903799772468411819718862nat, 222538270137709186403989005634748337356328nat, 245459626396058473383071313182829868423563nat, 79759462587725454381152848185850739929853nat, 179041257488065071391916062420410446701673nat, 239828087901451468303209429645359342513755nat, 22998957037389850139250528844617894999882nat, 203053551521260696669200178733578858358763nat, 1);
    lemma_window_step(2, 3491215945237nat, 276602624281642239937218680557139826668747nat, 203053551521260696669200178733578858358763nat, 32, 52447857060452146514517244401496966093093nat, 149061292865447710908122852357145068309308nat, 61467962218036283451175078786931217671962nat, 9944872061057251691011184298105643053021nat, 101763521718504791763577105831504994825831nat, 13659705467547502276671050606129104825879nat, 209896418090342819728573945820639270663396nat, 37439320684130973057975971052952006034695nat, 78222396131556472821117932889100821178744nat, 24);
    lemma_window_step(2, 55859455123794nat, 276602624281642239937218680557139826668747nat, 78222396131556472821117932889100821178744nat, 4, 133448338832920893863264675058453835499731nat, 22121060031346326443549911877730009787815nat, 140045514475016996126235836163122465818260nat, 64382827832946150187093290402215201292383nat, 85364576686964581414418385983795804524125nat, 70905857005181955889554342495527858938425nat, 87032544365519411067608215341932006666960nat, 26345053565091186602411470090599381269195nat, 71527553180435404333214180810588199999093nat, 1);
    lemma_window_step(2, 893751281980717nat, 276602624281642239937218680557139826668747nat, 71527553180435404333214180810588199999093nat, 8192, 177203124340802378142286253664959216816248nat, 18496537685667828735865799137818552333283nat, 94955108111828857457388406753848630445436nat, 113523678084011253926276819441624867357644nat, 166354322724186057572616354449790292110274nat, 32597205395088213422390752958719246589226nat, 181934842475584728327876263625611063288207nat, 100048800190863979491208303827303741288127nat, 75289930501705680228100779136444365782908nat, 5388);
    lemma_window_step(2, 14300020511691487nat, 276602624281642239937218680557139826668747nat, 75289930501705680228100779136444365782908nat, 32768, 179498481218288205148341638711897114316488nat, 20493564186794619923037211628401293410008nat, 224286322053876683060221787183336763853733nat, 116483727670151912799925514799369316256113nat, 142109276374561540159981001617783832434009nat, 181865065058943207580155230234216567466240nat, 235056313367496940779607616158515309799593nat, 73011044216046629717776317790653212012504nat, 48600679529942174390987488114058095134462nat, 27846);
    lemma_window_step(2, 228800328187063794nat, 276602624281642239937218680557139826668747nat, 48600679529942174390987488114058095134462nat, 4, 242330486699291841957025536627366274011638nat, 8539420249198644067693178334696677089898nat, 212155371055178793120292836638250788250906nat, 212304799842107285817424104402172239223454nat, 15349612702509190244240089394478830334641nat, 162724057967471152684900980795503334744185nat, 175665733814616941017867977176070255611108nat, 851801788681253158100864749792252531159nat, 149457686695183284197034547590001369106938nat, 2);
    lemma_window_step(2, 3660805250993020713nat, 276602624281642239937218680557139826668747nat, 149457686695183284197034547590001369106938nat, 512, 254287140704528376812913291741167802216101nat, 80757007169718614445655159218202654624669nat, 149449149989845418144215673369975202124354nat, 233772004497847936150341266316948410675301nat, 269580295304946393845596091429171706434907nat, 80747782096041599832063545892083566857947nat, 268452504038579681521689082691830230431543nat, 262736247732431046616153534247274042581798nat, 252780424058245930244344781875723953251504nat, 496);
    lemma_window_step(2, 58572884015888331408nat, 276602624281642239937218680557139826668747nat, 252780424058245930244344781875723953251504nat, 1, 40457958014587486528759939115417282898325nat, 231009893535950309810325312229730439568353nat, 230995144897712490814626354204924874212905nat, 5917681984981655941697449426894753635760nat, 53021299221740305600621423418692846517229nat, 192907630955750628364155894284769403401068nat, 158661503378933536954813767050257900540457nat, 10163526750559100613171704951530267700672nat, 158661503378933536954813767050257900540457nat, 0);
    lemma_window_step(2, 937166144254213302542nat, 276602624281642239937218680557139826668747nat, 158661503378933536954813767050257900540457nat, 16384, 141284869999274930459621241824619455381898nat, 91009522125253636412834316832396277018933nat, 133606645025622373651019046042574501654047nat, 72166395899363962285479985784003303267631nat, 136548577304494342145486057201717860048371nat, 64535669686295865346735780974555954352554nat, 39454348158853258554326272748256265416539nat, 67409027706462530834534522017214638183466nat, 276309912735515660738814925952017486381984nat, 2336);
    lemma_window_step(2, 14994658308067412840685nat, 276602624281642239937218680557139826668747nat, 276309912735515660738814925952017486381984nat, 8192, 211299750973674472038727791455587303644426nat, 276017510948016492722844727964248532601890nat, 19646646553726997004905638494046801551271nat, 161414176302520527870730968389838434821015nat, 134641598716394803570587686757924650493829nat, 1395470204989991468452009276023918617796nat, 241213686348352127587923762907273721799328nat, 65539364103964659085085276557950893224779nat, 249973321930109328718430516736547085235155nat, 7143);
    lemma_window_step(2, 239914532929078605450969nat, 276602624281642239937218680557139826668747nat, 249973321930109328718430516736547085235155nat, 512, 187947360496814936462484359932202440486138nat, 225907696425717667126543707693172417968621nat, 106473664027028773746940171643798891895319nat, 127707430142643567250498741611025990007175nat, 203239577192850880174845731873943630969140nat, 40985298533528770377027824088662013079543nat, 254204496139712716085982418865859560535464nat, 149334540280680335245744119518894680015288nat, 149468611161057865530218597464376459846478nat, 470);
    lemma_window_step(2, 3838632526865257687215519nat, 276602624281642239937218680557139826668747nat, 149468611161057865530218597464376459846478nat, 32768, 185984801017874329711120801077181425448135nat, 80768813312731271957579322694033490874967nat, 208368374706361143741042170730665684459657nat, 125054295126418383203072534990716006177144nat, 156746922018472994049767257661134792194358nat, 156966622028726999464759556691805497735153nat, 49776825378749107765199459454803191759070nat, 88826335708398795814977978332935231854802nat, 237941246288116580214546850094569522273448nat, 5896);
    lemma_window_step(2, 61418120429844122995448314nat, 276602624281642239937218680557139826668747nat, 237941246288116580214546850094569522273448nat, 1024, 47344620449488144325398841029574020651647nat, 204683657041137066777863639830708741149731nat, 149806503314854991994591786536002214208304nat, 8103730365275703983554459122910340767315nat, 126996741063006337791244595758364907765937nat, 81134401720544722917013621318980041567757nat, 251348648174731418324747996531094196001574nat, 58308095530584183814283496189095501160785nat, 140575148997689222928575529700417903677066nat, 930);
    lemma_window_step(2, 982689926877505967927173033nat, 276602624281642239937218680557139826668747nat, 140575148997689222928575529700417903677066nat, 512, 89796105950058974751654834600658262963696nat, 71443185208543454119144706518019195906780nat, 172950893879820542275660221907949222106151nat, 29151352647992104918049081344336429093995nat, 269934664790212557605756126785579009180953nat, 108140737173093293796198827343241660565384nat, 27516400033870082315037385751401701920636nat, 263427447388250816929509491059946799754559nat, 258265603259370148438207476860680049928282nat, 50);
    lemma_window_step(2, 15723038830040095486834768539nat, 276602624281642239937218680557139826668747nat, 258265603259370148438207476860680049928282nat, 2048, 148473950530249090839946156039043388585240nat, 241144211845980133103372766683837056129572nat, 32150108165749700961975859279223406640353nat, 79697414452628966959301362873812138525501nat, 66175930636408965466481084041212808453150nat, 3736875084803764305626047554677775369097nat, 16070279999620878504238117337632359957331nat, 15832293012288156159565929760142205447027nat, 272823773989774864087860001728573645701742nat, 118);
    lemma_window_step(2, 251568621280641527789356296632nat, 276602624281642239937218680557139826668747nat, 272823773989774864087860001728573645701742nat, 256, 14946780004380186790402030490667431212157nat, 269096549056001727684877798892865335473781nat, 162744729675618845694083922992466492368852nat, 807679367032551182765185435239581169151nat, 106619546931780093922794070222611065580583nat, 95754142268085794603174271578240341679643nat, 121823551529454613486583946983844404037997nat, 41097685958189658065154705026312322081036nat, 207335271996450179596998205464506846827568nat, 112);
    lemma_window_step(2, 4025097940490264444629700746112nat, 276602624281642239937218680557139826668747nat, 207335271996450179596998205464506846827568nat, 1, 179666137266174470148399040054455651583202nat, 155413981069358316342157950989114373392026nat, 51917688246056186138339340006614244686737nat, 116701426691020094924660494941284623677561nat, 229461634340221322260043665222001064567540nat, 9744832898151118407665289329936950847207nat, 11788757005839887734863395228031117396032nat, 190354815941563448168850417881308220348144nat, 11788757005839887734863395228031117396032nat, 0);
    lemma_window_step(2, 64401567047844231114075211937804nat, 276602624281642239937218680557139826668747nat, 11788757005839887734863395228031117396032nat, 4096, 124598783130239687723328898157657882693686nat, 502434827231545586123262162842020737054nat, 139611159145347718112422471714283080459602nat, 56126932265576725946513211577816787968502nat, 76401950784145368940660711303423957760370nat, 70466705833062548664275639015325241824822nat, 194629481868012511606245388735712100394551nat, 21103408179090014728448316511608765512967nat, 33594551686312040116874895799782756752042nat, 2882);
    lemma_window_step(2, 1030425072765507697825203391004874nat, 276602624281642239937218680557139826668747nat, 33594551686312040116874895799782756752042nat, 1024, 259748710096755324018528837690692054803775nat, 4080199549571643245628889520767353355087nat, 114935412548635610732985802843751485738114nat, 243921736361508909655247035748118548560413nat, 121660229291894651852447819883303955257712nat, 47758581799550210563749092737459339168572nat, 181994391319060518408917576317505520843236nat, 53510741012657553466251184042107313847764nat, 208690569172743372983426134170549995406933nat, 673);
    lemma_window_step(2, 16486801164248123165203254256077994nat, 276602624281642239937218680557139826668747nat, 208690569172743372983426134170549995406933nat, 1024, 241629190306066513215775971809427832243737nat, 157452423941207200063564743056128703992416nat, 77760747202124026379873969050466657376623nat, 211077771802037897483207346935156102021318nat, 170019317221020200297459953371566150118735nat, 21860724644737051160993436836113220315702nat, 198057089740239707871139255450028364891809nat, 104505762746736122568621404615387436830528nat, 60736295561698986065304732445552701020865nat, 733);
    lemma_window_step(2, 263788818627969970643252068097247912nat, 276602624281642239937218680557139826668747nat, 60736295561698986065304732445552701020865nat, 256, 68984052175518736736614509766235324746185nat, 13336451915951266473917107755378654049320nat, 89462823790658970618485735842040404800106nat, 17204462419377438813174512094079663329877nat, 107548065274635666365612449819756387194650nat, 28935361193280208248788258068804819748638nat, 273741103136643191388210911203503990027780nat, 41816618241987350208095912277862312801760nat, 97258459725170291265667087140645299918689nat, 253);
    lemma_window_step(2, 4220621098047519530292033089555966593nat, 276602624281642239937218680557139826668747nat, 97258459725170291265667087140645299918689nat, 2, 53681303967761676999050688458591287723807nat, 34197824451878734629881594509410819485862nat, 148869847657225780635933793553387918615718nat, 10418131075810183904691659441242756537073nat, 14261549569120370996774703612027084589805nat, 80122998106191471235957918968950885892677nat, 161656197273149515576037227943896188397359nat, 735321281353353708175577209738191207278nat, 46709770264656791214855775330652550125971nat, 1);
    lemma_window_step(2, 67529937568760312484672529432895465495nat, 276602624281642239937218680557139826668747nat, 46709770264656791214855775330652550125971nat, 128, 99990267136941987179324002108135651966059nat, 7887859501851512966122659782920135886906nat, 261440388533902630917080851481261027415039nat, 36145909852022248807745037090270794728686nat, 71153605821825077101626184480507562588471nat, 247109285149664934735327478590404381093150nat, 25195235933152566291288464040865392871401nat, 18303642760426526393714120093183640334520nat, 182361332345463845975517911102232194183111nat, 11);
    lemma_window_step(2, 1080479001100164999754760470926327447924nat, 276602624281642239937218680557139826668747nat, 182361332345463845975517911102232194183111nat, 16, 183006249711494574980820017591168019026194nat, 120228995011092717901681934939580758060541nat, 195012440787033662510846380530487866423298nat, 121080873764105794267245984166381961970054nat, 86916112092681330790779582274197230998178nat, 137489122384441175803230770511255493737958nat, 104442951562986376907848845824043272916267nat, 27311420348693063231236281265744957317611nat, 11471479317928590902269449841853406647790nat, 6);
    lemma_window_step(2, 17287664017602639996076167534821239166796nat, 276602624281642239937218680557139826668747nat, 11471479317928590902269449841853406647790nat, 4096, 57032039078163217587120858739810831416661nat, 475754118687142149100273548879626675437nat, 172979280331809192409471238714012670170152nat, 11759300873809572086714525235074972695827nat, 1755646455051467831649296740682259029079nat, 108176238391880304151305594916894954994075nat, 12087998978227778126425748594471029414107nat, 11143402862282075511727468158594721122nat, 574068407018257077722423225307506476559nat, 179);
    lemma_window_step(2, 276602624281642239937218680557139826668746nat, 276602624281642239937218680557139826668747nat, 574068407018257077722423225307506476559nat, 1024, 121740361472321625104175039640838042689019nat, 1191436765259755282503014185761615346nat, 95951004310695216034694933225354691797458nat, 53581254515939758326913391909263335752949nat, 25931496026403959994114251302231858750195nat, 33284554881361918451949378214261176598227nat, 215285440969207876201136023832070743999015nat, 2431077752475371249448211059584236757830nat, 1, 797);
    lemma_window_step(2, 14, 276602624281642239937218680557139826668747nat, 1, 16384, 1, 0, 1, 0, 1, 0, 1, 0, 16384, 0);
    lemma_pocklington_one(276602624281642239937218680557139826668747nat, 2, 19757330305831588566944191468367130476339nat, 14, 16384, 16383, 94074944912245044309966580483695483989395int, -5572int);
}

/// `ℓ`, the order of the Ristretto group, is prime: a Pocklington
/// certificate with base 2.
pub proof fn lemma_group_order_prime()
    ensures
        is_prime(group_order()),
{
    lemma_prime_276602624281642239937218680557139826668747();
    lemma_pow_nat_two();
    lemma_pow_mod_zero(2, 7237005577332262213973186563042994240857116359379907606001950938285454250989nat);
    lemma_window_step(2, 1, 7237005577332262213973186563042994240857116359379907606001950938285454250989nat, 1, 2, 1, 0, 1, 0, 1, 0, 1, 0, 2, 0);
    lemma_window_step(2, 16, 7237005577332262213973186563042994240857116359379907606001950938285454250989nat, 2, 1, 4, 0, 16, 0, 256, 0, 65536, 0, 65536, 0);
    lemma_window_step(2, 256, 7237005577332262213973186563042994240857116359379907606001950938285454250989nat, 65536, 1, 4294967296nat, 0, 18446744073709551616nat, 0, 340282366920938463463374607431768211456nat, 0, 7237005577332262213973186563042994240413239274941949949428319933631315875101nat, 15, 7237005577332262213973186563042994240413239274941949949428319933631315875101nat, 0);
    lemma_window_step(2, 4096, 7237005577332262213973186563042994240857116359379907606001950938285454250989nat, 7237005577332262213973186563042994240413239274941949949428319933631315875101nat, 1, 1627715501170711445284395025044413883736156588369414752970002579683115011841nat, 7237005577332262213973186563042994239969362190503992292854688928977177499240nat, 4460531758850015836181350679139994174100493552997170650645149546199170259469nat, 366098619717808128819716404516769999285687009209230871130201714971063287108nat, 6296368983248914727815342852381933597288498944308070913585183069169991320937nat, 2749250827445665192446140270154516795078445639981165598865190313677752906816nat, 6835038230836649041129843311500620796431096176830742705941271920348483012040nat, 5477992513560120794091624584356882757115879159076018145870596263255392560461nat, 6835038230836649041129843311500620796431096176830742705941271920348483012040nat, 0);
    lemma_window_step(2, 65536, 7237005577332262213973186563042994240857116359379907606001950938285454250989nat, 6835038230836649041129843311500620796431096176830742705941271920348483012040nat, 1, 7039930457811067649673902465159767523690970682995390718697680416150800611408nat, 6455397486956186243939054146344199889966432884838984090389805380206955652528nat, 5645917675513515478896491896805673757446698105415329748759467109354945772118nat, 6848222005804396403532409446759737605095915534899677084212128472147524458514nat, 6776315972082996496340175452773963442869618238981245500410996383150051780300nat, 4404637533860566105224845558775561502567995599334282561130869252656244708216nat, 4784498346523861356500353588357029728336905222471856861391858715160818914763nat, 6344952710459813663401061200246444799712370231571395486938305767254096773433nat, 4784498346523861356500353588357029728336905222471856861391858715160818914763nat, 0);
    lemma_window_step(2, 1048576, 7237005577332262213973186563042994240857116359379907606001950938285454250989nat, 4784498346523861356500353588357029728336905222471856861391858715160818914763nat, 1, 4361217650212848722569037915529088465155124838597941966462485170908909564727nat, 3163107197207370937930991316012012106014371812879058366484028739607151408778nat, 5090056102835009019844514877008137113277824563772687693310110189925913393981nat, 2628189130059977259604009887393911648678018574174390891857497164229346540132nat, 227396815405719726307642340825831039572788470745306523928840959560116752274nat, 3580026414676122394183928986360043766884554686494593054927996580121262596083nat, 3311227481411755661686655794442654976534142452219419120844711389927761641038nat, 7145125301357622140591966255111047871363928676335560979025758388457046542nat, 3311227481411755661686655794442654976534142452219419120844711389927761641038nat, 0);
    lemma_window_step(2, 16777216, 7237005577332262213973186563042994240857116359379907606001950938285454250989nat, 3311227481411755661686655794442654976534142452219419120844711389927761641038nat, 1, 6017948102341605966222449087741595862266139983146683263060410333785619746962nat, 1515022659095161548900299684217948022186501425454672017185996982379240606138nat, 6784969975362325110915850597444091200171356168159339713179362017887564274936nat, 5004238144559635885309856792530035627214407298699067711348595712045700619772nat, 5235914857497286385831850575113627039878959066303084051095178639741267652547nat, 6361169281223376129754080860584115998493510754666201571212199917201126649041nat, 649396332513218500543574328056481486767705355943565670769658882545902208111nat, 3788141946557211057232979619043239968366074548177822530131911716997283382082nat, 649396332513218500543574328056481486767705355943565670769658882545902208111nat, 0);
    lemma_window_step(2, 268435456, 7237005577332262213973186563042994240857116359379907606001950938285454250989nat, 649396332513218500543574328056481486767705355943565670769658882545902208111nat, 1, 3203750950569865977825263413989989492829691449473068942606726992663540122079nat, 58272111604074977346670768098860224042312863419570940591746295022589491978nat, 6024473293013539979509879166593198570232139409848614682394132883951552378846nat, 1418268929545428020808796892624387889159162513634399091099428603123913991055nat, 903762493064593465276469589444421811734708922725249386868393985629702442558nat, 5015096101613392387313879377591511020302573455830953689339086832636222206622nat, 5038801569111668581892234830961465457736391435301653445755125023933941548947nat, 112862514080225007213758983391407509839427967941092271776062268741101388053nat, 5038801569111668581892234830961465457736391435301653445755125023933941548947nat, 0);
    lemma_window_step(2, 4294967296nat, 7237005577332262213973186563042994240857116359379907606001950938285454250989nat, 5038801569111668581892234830961465457736391435301653445755125023933941548947nat, 1, 2901084670550627560751107433798296916867461085354494449071761621209378166859nat, 3508290961168695654617931500777477337422909145233684818696301782414245582550nat, 5163316386418799127306362420515719783955892287169087990875515794646706657631nat, 1162952297848897753561006296451807016629854512007663636735016971565896589250nat, 801679053654715595599176086362913140070049364209555133674472093135544840154nat, 3683821412237788459395340409318992124758409751528627494865108078682334947363nat, 2527106544734160346671529848292917923101391282423788522012798805426611027914nat, 88805970674079735938139350135373028713269631928012987132793027312168982018nat, 2527106544734160346671529848292917923101391282423788522012798805426611027914nat, 0);
    lemma_window_step(2, 68719476736nat, 7237005577332262213973186563042994240857116359379907606001950938285454250989nat, 2527106544734160346671529848292917923101391282423788522012798805426611027914nat, 1, 4115028273789676276137754823479233519074461028408880619795407895900740187023nat, 882446119489155019619427471450529950705933243102420410089804274243902482057nat, 2774991396082907723563304118367568615157822848201642816560447811813141770719nat, 2339843117867339109358751222222393047407036896425305512903773409013182905290nat, 4802947769841506627746524329116232691746185839077551683569956880907024905297nat, 1064055729410227555868913812154114098778045610653859872923133831392720518576nat, 1654392169876241757967827305791037195957733675253372880758909168327146354186nat, 3187548639188564239291021907342051216725966550642248342513819099519254213907nat, 1654392169876241757967827305791037195957733675253372880758909168327146354186nat, 0);
    lemma_window_step(2, 1099511627776nat, 7237005577332262213973186563042994240857116359379907606001950938285454250989nat, 1654392169876241757967827305791037195957733675253372880758909168327146354186nat, 1, 2360512569251797307066580412610128569404770369868557506201923185742053545190nat, 378196952109680405488439724256051506715635609523665580363442045836367216054nat, 5654093843388139231176296626096271764126730183104386283788212698080317447943nat, 769934405888589115162258549464431527665042676276394620316330391967670297713nat, 1793712940137299701659334466329257271604359156042581919055305378676330727411nat, 4417403972987421051356363482232091307476451264533282013946035361398372730742nat, 1999258849202363690312241303707473942454030729292749507700673727029509203170nat, 444576983841708039923907759923972463130844037138045986882061346158599622659nat, 1999258849202363690312241303707473942454030729292749507700673727029509203170nat, 0);
    lemma_window_step(2, 17592186044416nat, 7237005577332262213973186563042994240857116359379907606001950938285454250989nat, 1999258849202363690312241303707473942454030729292749507700673727029509203170nat, 1, 3937677029153955925763807715669731076566333470761797474917854455586117345548nat, 552305218422584814255837714583191643004819486592375678668581833631737114968nat, 3030796489495847121575099210710718566347085566654760562117928854061352917453nat, 2142502202083746126790373097488306986624396283884547600603526589966585800559nat, 1296727118465386674581327637950578847043798768012600615911462252048590406459nat, 1269271836615943992518934017810528121274611735274854711908701729216884331750nat, 136675057104026925736830340276351863128312430608104820284023016529906673482nat, 232347647351598085284573391833414518300859631034751207175070316754040126891nat, 136675057104026925736830340276351863128312430608104820284023016529906673482nat, 0);
    lemma_window_step(2, 281474976710656nat, 7237005577332262213973186563042994240857116359379907606001950938285454250989nat, 136675057104026925736830340276351863128312430608104820284023016529906673482nat, 1, 3590557691305450296932333198739207599948454890516968931953929528928676945685nat, 2581187900821675684808705644622435981219048268706815161287293937230503851nat, 5013866656166822929625398177645817344577670663832670478585948588233815630313nat, 1781414204650243104157023672078993588233493503831220870032655247404226229008nat, 6063941872717738342464268490555204725393364189154959156978785731513377441150nat, 3473654756403860370369952276065119666506368480716566826755720694999671289471nat, 4561337922418587014220864864158082618484769863401585380438786083197804504863nat, 5081022895833437830707779944264570939889238735731304010309058550568013315033nat, 4561337922418587014220864864158082618484769863401585380438786083197804504863nat, 0);
    lemma_window_step(2, 4503599627370496nat, 7237005577332262213973186563042994240857116359379907606001950938285454250989nat, 4561337922418587014220864864158082618484769863401585380438786083197804504863nat, 1, 4022409813790765622358643002525431716533498153070041701085110212459439635426nat, 2874918834892406057122680400571829481164099436581489108246196541762950865787nat, 5738791276211700196695032930573463670498227861141831918925134062017199913566nat, 2235701014347501144551491374302573737602074563853514356871945551567919400190nat, 1576821451744277353777906453826111118872133909548495175322513104761365895448nat, 4550739247055229395527306011770540945540358252041714054040504422027234857372nat, 5763231549419467457229453942902837224864886132638133070154463182617758709112nat, 343562798744928680226326157874145223528923566439678599129360147608850065128nat, 5763231549419467457229453942902837224864886132638133070154463182617758709112nat, 0);
    lemma_window_step(2, 72057594037927936nat, 7237005577332262213973186563042994240857116359379907606001950938285454250989nat, 5763231549419467457229453942902837224864886132638133070154463182617758709112nat, 1, 2113179715659523647084026883209351097038403644276148593798459445173209820936nat, 4589583017078137945073885316075168951650370439264340345229000808732033787672nat, 4664589445957162846185028758443339771802290308725284581397964559427647131323nat, 617040910492287966847360910780666291541838171429730324583858830052056465657nat, 604896687342319865654410239608819116377470725345534211791138166117134579088nat, 3006546625787682408267960222263959120535579887220906941085114509984065197069nat, 1349327741689056282167937949047857107732533036106013632860439865213997635616nat, 50559585514730526309468333045055157235061094560121531345488908613683552352nat, 1349327741689056282167937949047857107732533036106013632860439865213997635616nat, 0);
    lemma_window_step(2, 1152921504606846976nat, 7237005577332262213973186563042994240857116359379907606001950938285454250989nat, 1349327741689056282167937949047857107732533036106013632860439865213997635616nat, 1, 2695305814247621705406359817066654382894962111800545373824000052288560579492nat, 251579929714913647953866607325129006719690073408770390047581439344935923276nat, 5878498742647980943044726250055191511888047617563341410405870531419344053703nat, 1003823108147302530705174551873390522180940744334328634643905535423179043149nat, 5353596239867494319434398659407317871377259209595089301343881858159568769142nat, 4775006333496893297388294568409353766279116604947064423075045936215055400903nat, 2699272742937149238076182943388817317777877650755075886176572849650313683225nat, 3960338622550643212623860077445943987021951095471274811298886453318305142551nat, 2699272742937149238076182943388817317777877650755075886176572849650313683225nat, 0);
    lemma_window_step(2, 18446744073709551616nat, 7237005577332262213973186563042994240857116359379907606001950938285454250989nat, 2699272742937149238076182943388817317777877650755075886176572849650313683225nat, 1, 5491000976391381730598124088057415827097718321166071349853135112520781831471nat, 1006780119609810597829075256124770821301930432436857407681664958636088446986nat, 4555094810867386227372892730917739278752024965334339174650034776270475566496nat, 4166238563801900446761204423051479520121043807662739888967423843137916581605nat, 3716585689011103498565366456309547669841787181570210684088513032598756128921nat, 2867054407278699166456624574815007264405049733773994256539717994792953592355nat, 3112734776432989962555634119511870139882290373513408335273112745603847135968nat, 1908663609024597844698787339875401237475567677834140548365298299795744447157nat, 3112734776432989962555634119511870139882290373513408335273112745603847135968nat, 0);
    lemma_window_step(2, 295147905179352825856nat, 7237005577332262213973186563042994240857116359379907606001950938285454250989nat, 3112734776432989962555634119511870139882290373513408335273112745603847135968nat, 1, 6278898245724447578865135499102378136855295925630925790437981138288272982503nat, 1338829669934700050892845480995378192129845834615140146135348124917744138589nat, 174964831033501327789167062032881038825479773330446602293992530788695770259nat, 5447634765357526005473109885891474464039141980192716469631976701129507897750nat, 5221759499469622561358071617093815613094059124477777653876984615756019933971nat, 4230021902216946829437423743755255216776754758622144647176317622013226990nat, 1643171063341245148086671817357975575892142005642835547278557116497781419318nat, 3767687060475148103976842769588609008462146942726786594409099442186938613407nat, 1643171063341245148086671817357975575892142005642835547278557116497781419318nat, 0);
    lemma_window_step(2, 4722366482869645213696nat, 7237005577332262213973186563042994240857116359379907606001950938285454250989nat, 1643171063341245148086671817357975575892142005642835547278557116497781419318nat, 1, 1893507714358118229195435350290342188485700321650104140562429681666123209388nat, 373084021360846956223288192432147711484334075415174954807874646198949968024nat, 3794355272946009140577876564632940104208542330028573759993495114503836932805nat, 495421956777786667018549766997104802908328842141657291216835599164656281751nat, 586266673329763448275258970951685537681599285979218606492564693322491710238nat, 1989376929931884829546856454419667748963025122325407879095441307773245061383nat, 5773628544683968332506775502429672672657470217399578138295340208012715890337nat, 47493208148645229379691690290545079405991123734819432938178754656191426063nat, 5773628544683968332506775502429672672657470217399578138295340208012715890337nat, 0);
    lemma_window_step(2, 75557863725914323419136nat, 7237005577332262213973186563042994240857116359379907606001950938285454250989nat, 5773628544683968332506775502429672672657470217399578138295340208012715890337nat, 1, 2926385833074357836135739373960351477108957070479182516785079781418845927336nat, 4606157369340806584613763895433739512795140676705292238255420762098413272797nat, 5078301719985989153348867604287517029256809531274035743511183436291371737468nat, 1183325610642282490843336503609556120120992117772879902602281040275346612052nat, 5219758006287543812754313265118022342277298475498496234365483333260413804999nat, 3563510913959965262704127517259054092755368135625437338032052812729635611725nat, 1520303490747869935228237090254882500987851861146607852613280359092025669246nat, 3764799315554267081882624116270822057826175125098769029647906944301981211295nat, 1520303490747869935228237090254882500987851861146607852613280359092025669246nat, 0);
    lemma_window_step(2, 1208925819614629174706176nat, 7237005577332262213973186563042994240857116359379907606001950938285454250989nat, 1520303490747869935228237090254882500987851861146607852613280359092025669246nat, 1, 1200697656009093473978003255637454047951825835775530233269909221766670003326nat, 319375559308628983155697962082615473687260046107089437207543726477497727710nat, 6077890308093419811098488486305037695544342295022000547803283659655766781204nat, 199208753639950638420435835718056318846534885675814195114321985883514742448nat, 3916093088720375213210376643563813981706237052444265342177994950580808001923nat, 5104424779348200040037676486045999342053117968617292633618365909056807499937nat, 6609368818009231778209319308495775710651113640858197906565696118354603430052nat, 2119078797943476936188903322073701101054945468860107952904274823585017743193nat, 6609368818009231778209319308495775710651113640858197906565696118354603430052nat, 0);
    lemma_window_step(2, 19342813113834066795298816nat, 7237005577332262213973186563042994240857116359379907606001950938285454250989nat, 6609368818009231778209319308495775710651113640858197906565696118354603430052nat, 1, 2867083320775550404507374091242790170506008625711179843599325163386346093114nat, 6036164502801952199802136967430594362769365217300935457631900950011033107310nat, 2557487986015732046390795822129712787210558008608183750613881736037039168008nat, 1135851932188162383121458795872507790055356116573102484390734182384235822092nat, 239502159355461752651170687171368239314532128709287644525566104513061541270nat, 903791592907115627561977526657093746325920868736150043114862348126510281746nat, 7029377834924118161651725575212505184038502003004462006021199011689141556070nat, 7926107520988504206730777653511049135406213355518906886834908121614028470nat, 7029377834924118161651725575212505184038502003004462006021199011689141556070nat, 0);
    lemma_window_step(2, 309485009821345068724781056nat, 7237005577332262213973186563042994240857116359379907606001950938285454250989nat, 7029377834924118161651725575212505184038502003004462006021199011689141556070nat, 1, 5777651029092684768918792594016609915912975785913296569745757593059263350777nat, 6827706876569385569883199367751530024958933265021382768877415751661754914807nat, 5281529253197589591731240254948543950594945843533327500372380429025375707297nat, 4612577820657270722347264030870846536419913927735641281487108361590963444688nat, 229117608023388194543032939011246619176069783728891003009839411327159299718nat, 3854432742148653186004824637757889194356861904535781002705670995096575029319nat, 3400263337827589751837938958039834490850334455779005350426853280479331434493nat, 7253673877326188032161559302662706664948316392819412228616881873440862179nat, 3400263337827589751837938958039834490850334455779005350426853280479331434493nat, 0);
    lemma_window_step(2, 4951760157141521099596496896nat, 7237005577332262213973186563042994240857116359379907606001950938285454250989nat, 3400263337827589751837938958039834490850334455779005350426853280479331434493nat, 1, 3294707410101899408861710264163503364765740125469082672296337731832730061849nat, 1597593181741941043220755343500328011110870376117980001866167804561082426800nat, 6675158481851869024456830337590819033879935796853324859602138554898690071400nat, 1499943146676670184935008498744961287705370242488709964411428022657445866509nat, 6194827431353048296434699430280066913625464639838264911640783190117493927605nat, 6156930553902381422914762610155927486919783357223050647992505083758239252055nat, 2779519471025543971833181157400530365917218753226401085636021676386908272324nat, 5302730044100712108517502989217108554488927377259811470939161977346698063209nat, 2779519471025543971833181157400530365917218753226401085636021676386908272324nat, 0);
    lemma_window_step(2, 79228162514264337593543950336nat, 7237005577332262213973186563042994240857116359379907606001950938285454250989nat, 2779519471025543971833181157400530365917218753226401085636021676386908272324nat, 1, 4901785170600030310207267223836026686734515213301920225970758540828760437074nat, 1067531095182327165696497720993927818696906233721263513275322696223842044918nat, 1065494124639771462418168578394484582974212381611375329461155789634485600049nat, 3320088343440450045825756761238226744514279616272597511557210589627012710143nat, 5279631207024979636111789920061169261593373640826337087508618446027882985382nat, 156871197280514472776279603596767705567258317462732490939645609002494291271nat, 1006648077550984713180657050131269058832870355007884743443154882090922190976nat, 3851662871381573532341037996454240167816914668397061625233364405314108839732nat, 1006648077550984713180657050131269058832870355007884743443154882090922190976nat, 0);
    lemma_window_step(2, 1267650600228229401496703205376nat, 7237005577332262213973186563042994240857116359379907606001950938285454250989nat, 1006648077550984713180657050131269058832870355007884743443154882090922190976nat, 1, 4521897602811648443428454193739825206056846860493328120785502985914535759141nat, 140022049341937283012208358295545908362751529784108035526020792589181917415nat, 2794423109620188500490658504104520347136597326935637761516159911608436131467nat, 2825416909219960025880796797012020217257692711451279682541226421409717536326nat, 3909764884290748338534032657663562023671249735289292259534497580196990607782nat, 1079009879450428648654584439939912408840448126683122330644103138410297168063nat, 1931248268365753333736857532558533744453485878739627763729407197811129808376nat, 2112235687410916670945605054302904976339289431275277014421481525688946125532nat, 1931248268365753333736857532558533744453485878739627763729407197811129808376nat, 0);
    lemma_window_step(2, 20282409603651670423947251286016nat, 7237005577332262213973186563042994240857116359379907606001950938285454250989nat, 1931248268365753333736857532558533744453485878739627763729407197811129808376nat, 1, 4461818637230369236813191578795454658503258715691449423760409025575431328260nat, 515367831931475040768056415954354812027150254955672514894509296672549910444nat, 2460522624638185793747797906988269159548260376911710420286939523654222063768nat, 2750837392455731964840052843044144488425155985411964757765869503791866611288nat, 6381183279019772237478764772501738581443190937808862058220600625700486118851nat, 836557540499796423405266095551284213250639024415798070437786383253582133457nat, 3610949101229093389825561072062767585287701888203791068833140377669749495195nat, 5626567453254850051401070287785856585877929979429723999169022554707011444454nat, 3610949101229093389825561072062767585287701888203791068833140377669749495195nat, 0);
    lemma_window_step(2, 324518553658426726783156020576256nat, 7237005577332262213973186563042994240857116359379907606001950938285454250989nat, 3610949101229093389825561072062767585287701888203791068833140377669749495195nat, 1, 4141312058583009739579106052765494658052016233795135731232020130479621875735nat, 1801705591122906861964605961563647781682567574006683882043457801858247081610nat, 3252197776791476477041552551652628412029260573590170708725927466439738748466nat, 2369828982899185248015565494918121864431027059699727244453043114990441239931nat, 1316826441265737247606827515664071518314928413148486988069559722537341762429nat, 1461487111809893981783359087343299724023859942277389410295443544297397363843nat, 304752334069101649281068473201523012887809802065485162327596207758363928949nat, 239606265034245397954452989916436565021537011654581865425252670468738870628nat, 304752334069101649281068473201523012887809802065485162327596207758363928949nat, 0);
    lemma_window_step(2, 5192296858534827628530496329220096nat, 7237005577332262213973186563042994240857116359379907606001950938285454250989nat, 304752334069101649281068473201523012887809802065485162327596207758363928949nat, 1, 5601146537701769101288776846658045618287968094537588725186752294893344612362nat, 12833206238152570694228999947486413903172079375490499389598184071204306251nat, 2626085790022234232850138573813823528977362949772857647324855792363125036574nat, 4335058499205042049362759876350671564986994313320304864553971399845718595230nat, 2775030876097027041615047031499193195603949065056931723943936587222913610000nat, 952925419617937790101762517816463092915007320438860251349679939340070239684nat, 5100257159183706229215089334335782924459993721664035483404757240320570395078nat, 1064086006429545394315043222928690967872501519177599420349644432992296272098nat, 5100257159183706229215089334335782924459993721664035483404757240320570395078nat, 0);
    lemma_window_step(2, 83076749736557242056487941267521536nat, 7237005577332262213973186563042994240857116359379907606001950938285454250989nat, 5100257159183706229215089334335782924459993721664035483404757240320570395078nat, 1, 6496871582713998839374068436039225394745834481875820256164880038503146915726nat, 3594390361019113693466200928758649705252185197778983533762305758699992837422nat, 5467726557670796714144020172396976471612284721592681975344572366945897366223nat, 5832431647487564677703582192953771905822507757304168759649137513752033262377nat, 2295701645331855481892231607237782226642037552360982062722069380726527138971nat, 4130994979898709939610137291401495673104954749406001905721929497073883125022nat, 2000089611710161015208022833114889299973315082077228907571799240144374836143nat, 728235730657282476806371796397220838478671962600511124393991513611055534482nat, 2000089611710161015208022833114889299973315082077228907571799240144374836143nat, 0);
    lemma_window_step(2, 1329227995784915872903807060280344576nat, 7237005577332262213973186563042994240857116359379907606001950938285454250989nat, 2000089611710161015208022833114889299973315082077228907571799240144374836143nat, 1, 5340626186873345878356431788968822954284435214358008599722430357676223811193nat, 552764318352996615715132760962257648134142702611490887895819140114522581704nat, 284333590015813164928410001516181207391266916591960075635451505703611409833nat, 3941172597303890622482402542517241483995439813434489978069389265719303679144nat, 5956132822642793884530647383648478028216370279999705754503336961440458081352nat, 11171138331647133502311251210497400467675368916099043978709852007578125133nat, 3841839563262087987611863382675405896108780372051087756073376032593139614531nat, 4901960876205371316897491413634105695864029702242674389737346461463461343057nat, 3841839563262087987611863382675405896108780372051087756073376032593139614531nat, 0);
    lemma_window_step(2, 21267647932558653966460912964485513216nat, 7237005577332262213973186563042994240857116359379907606001950938285454250989nat, 3841839563262087987611863382675405896108780372051087756073376032593139614531nat, 1, 5192733042727783197411439637178374188835998808824055809903277308036755012407nat, 2039480427661440323138711856813373009164143598277519116380298299071336522586nat, 182267987389002183830776996679131846668529110766288759506011978739186483070nat, 3725916218372835489934028297384696002730442133873423967929123055573929237311nat, 5883654767348131456829308458711588264878663725267287384844031128736477575829nat, 4590520053058154879197853946252538247946124883174056940299432034883294539nat, 7056929592589063046722350420976464130419380011782753640540668979178346765302nat, 4783386312395135020870605330269019672318431825134295305137436913956776093551nat, 7056929592589063046722350420976464130419380011782753640540668979178346765302nat, 0);
    lemma_window_step(2, 340282366920938463463374607431768211457nat, 7237005577332262213973186563042994240857116359379907606001950938285454250989nat, 7056929592589063046722350420976464130419380011782753640540668979178346765302nat, 2, 3892664850987322762817638910543859297949601037144316263690907809828758414497nat, 6881334378232831913248478618206235428793286754850668119838972434323625879663nat, 4769198355059561213418962719079810354882345975046607184411986474280005326265nat, 2093799635801560917771467374599641500453035779492095580363000365990190896296nat, 5078024576175201683193588698867252846113301830106001236940206944347486772985nat, 3142909412857918883332269870547636673448531741128950517342155548214835371160nat, 4408649309197712236945138111549374819583140347843823893028897574929761136731nat, 3563121973680281701187694719250939930469758904562401772675664677715189352046nat, 1580293041063162259917089660055755398309164336307740180055844211574068022473nat, 1);
    lemma_window_step(2, 5444517870735015415413993718908291383316nat, 7237005577332262213973186563042994240857116359379907606001950938285454250989nat, 1580293041063162259917089660055755398309164336307740180055844211574068022473nat, 16, 955205760628093481865558375264795038397723528857385921886082566165374252246nat, 345077265582712608755432515067601426110098091761112356106779945722802183047nat, 6222189612219002591303629582031110223224028275495711326643892015082876561559nat, 126076736488219523751692886120620552988324519185337871638111880261221970913nat, 4091787390584692126075403041621898352669399263491512385646989881239076976846nat, 5349677177487763908936822008872097653068875632196993564539198466837983039215nat, 5598577122036084897016568683017006306371145028385278147175130862350567469974nat, 2313487791440899045996827865083741641435859037393918070801118720041419485478nat, 2733167024590211784586860171756170011652924141605559082778682538183628507716nat, 12);
    lemma_window_step(2, 87112285931760246646623899502532662133069nat, 7237005577332262213973186563042994240857116359379907606001950938285454250989nat, 2733167024590211784586860171756170011652924141605559082778682538183628507716nat, 8192, 2711596637013659381477420756060263683273520096707665749222636624760743072045nat, 1032222775633262818642275810022517450023854839351574418111964796463708880399nat, 6115397673602797705522820475879735957040071204737677635138166648378279726842nat, 1015994287042430826022107365083863949764840120358230403436862168667554758347nat, 6906422326232833227038538779571217687274973044345615535081426451014250018264nat, 5167619163296591406852824217206697704165438836140807783413972943461172002300nat, 1714323568077537627360012243067860450498570840680299772682612975223134136073nat, 6590939973528421555228057344152893245853373187354648917275523534029301056307nat, 3947849666599548225238362908503983221486589655994982172180672754133595791356nat, 1940);
    lemma_window_step(2, 1393796574908163946345982392040522594129118nat, 7237005577332262213973186563042994240857116359379907606001950938285454250989nat, 3947849666599548225238362908503983221486589655994982172180672754133595791356nat, 16384, 6541523927836136012613862174335400281137732208719366489800538356455035464412nat, 2153586427912546665065939679382689925450829321530867764078957838893203696516nat, 2588091298833684085798568738476938849945620717002806189091204537023597798034nat, 5912878585099380069959460672014917746214193990634797521199435426481903198390nat, 729033760315955689849719717575490174475757231756094688152982103430112564847nat, 925550837224551760193674013628949144233528748293345039545692316025901311881nat, 5023449714235713198535783052173960671764502803430376163400947700161409546342nat, 73440626513423617342055554289915972370224143492048433144091176282083096903nat, 4972692615439147507191931893241139162486692534973765706941049262348265020420nat, 11372);
    lemma_window_step(2, 22300745198530623141535718272648361506065903nat, 7237005577332262213973186563042994240857116359379907606001950938285454250989nat, 4972692615439147507191931893241139162486692534973765706941049262348265020420nat, 32768, 1020875984933606821179863055048213289082885587957285127725455527915551798255nat, 3416837472820942027236574408392748544404140051121961783533039870009744988805nat, 2654206064033206412496453004539125038193147463822913647375022885096674385330nat, 144008148878384283574432700176258468957027962215739244044925419759848167755nat, 1476927281941211188507828870439817540223508517430338948009728229984042465584nat, 973442642135911568245660097057442444006361346663026517120535095957125318244nat, 1663582164156782151062254568587457767683539563547846179706763792776564997955nat, 301411153112077584877608111244541586632837435020913998206624446424172417809nat, 3134346622838530361916510633983509318423999486359528224541494536440434540292nat, 7532);
    lemma_window_step(2, 356811923176489970264571492362373784097054457nat, 7237005577332262213973186563042994240857116359379907606001950938285454250989nat, 3134346622838530361916510633983509318423999486359528224541494536440434540292nat, 512, 5543672749268017196790419754567063956637906167113600291551201329807259422726nat, 1357485308961267285913892340399779896743236516538938589902976045014313229042nat, 4407861776823375667678827497751400009580780668116050973178189246205232907798nat, 4246550209555800662459177769786887515896302691092111462816009948038656621702nat, 167992731080747017049873826716658003779835334180126141267201031351686734802nat, 2684707816784994510071497467314573420000985942567464859586252208558829985818nat, 395472535428626561793368717240207951316346924164524126071346671218822849517nat, 3899618066395265001569790539377705805329358118694131378041475345396918483nat, 7082787551485719860928746024825626570827483468978847186476820330330034176001nat, 27);
    lemma_window_step(2, 5708990770823839524233143877797980545552871325nat, 7237005577332262213973186563042994240857116359379907606001950938285454250989nat, 7082787551485719860928746024825626570827483468978847186476820330330034176001nat, 8192, 1596696092104782621907476590769534854318235293977050574622413734610482505207nat, 6931855857153208463765475023800521687568937017618996868546418206592194581746nat, 2780176146817303041654216554452364926536667428584367269004006381498841909765nat, 352278077348459085748100679497299034683997084291963690863072826558916559356nat, 539414860977797782010886707211437955954417075505552953104749304297276919818nat, 1068035574207909483983548843268726959177375150047137516059228008277442297963nat, 2438431533301125430834022649551113507967529501630713696895616145400631382561nat, 40205633273942424600914511428008332654090236340733011891273765746827158767nat, 1495727365775818826318631124057752504360525470261612403502873454118553210072nat, 2760);
    lemma_window_step(2, 91343852333181432387730302044767688728845941214nat, 7237005577332262213973186563042994240857116359379907606001950938285454250989nat, 1495727365775818826318631124057752504360525470261612403502873454118553210072nat, 16384, 6717089778810022049453962484008025785395349136982732042677090280149421910711nat, 309133429403181012022755792672696813387742894157534212551590610240665442957nat, 6024933203813393735208000959861799308132504148621261456076636194864957533303nat, 6234525400659722847778111083002070618875540141572729502380523268796479788162nat, 4656735266261045008289901133112196505564101668949973543762347621816655888806nat, 5015861839890156505055548768880375323974873304550417884518411187704266388727nat, 7137791428411768026322334770237742746260941734549223969336970964446847431360nat, 2996430375563288744125928313418734989103453835493652733754609498469797200884nat, 2801638986382227672411203363433216729126127634558508231407069742493073670989nat, 16159);
    lemma_window_step(2, 1461501637330902918203684832716283019661535059434nat, 7237005577332262213973186563042994240857116359379907606001950938285454250989nat, 2801638986382227672411203363433216729126127634558508231407069742493073670989nat, 1024, 4721978688637928838048657451940264594991762864628835907326308463397844095951nat, 1084589603551229645588042038396796770957665296490404900921084223009976262530nat, 5771865361720862239501469563853054217263666429719672865112828294484664282590nat, 3080981836712916526965151567294486168038258213211268804398761473061872785199nat, 1418867153236667193467035065629085189814403579349090801243180948310965884650nat, 4603344490735298830875765835620667220247836197667556555999833056226860666050nat, 3061354730484393571113001521533541556518017484836611183189814365626610928878nat, 278179141500127602516861112359867251517078885427168969652998249475045200398nat, 1203829031149478169323776252730047583318520861189858187525154124047900492835nat, 433);
    lemma_window_step(2, 23384026197294446691258957323460528314584560950946nat, 7237005577332262213973186563042994240857116359379907606001950938285454250989nat, 1203829031149478169323776252730047583318520861189858187525154124047900492835nat, 4, 1238213006080193961691924083892168051090475512032934898532050256616623171983nat, 200249166696442363265970586544264097940452062029566471981183175501361482978nat, 5822411392818364804708567947331826824281379045444829492066529883317722098687nat, 211851632839464392772094768258106436530881383296404650328133610497372242218nat, 4517069082344025488383698313609329923467843928799220495433342927918366704311nat, 4684323380018402206483816918365076860462182529468187252479306013814096291122nat, 2284983036611388247305409888459305091498367862679942648170802021094426439403nat, 2819386122704865927580735945795388327693451835692182844242283547783485456062nat, 1902926569113290775248452990794226125136355091339862986681257146092251506623nat, 1);
    lemma_window_step(2, 374144419156711147060143317175368453033352975215151nat, 7237005577332262213973186563042994240857116359379907606001950938285454250989nat, 1902926569113290775248452990794226125136355091339862986681257146092251506623nat, 32768, 2276007306871898582823778355032924209199642803180017956560605887207344800327nat, 500362959340445470108276027301662442462180830024932212613074740149629314018nat, 867008901042730139468993094828560375614019457582463686085011024808638229079nat, 715794565249433583372294129113887074243335800827228994663076400935187915650nat, 2182050253440208472485475751654536175911310082856277702721179942463985265257nat, 103869539197511482098013984890363675327592126531111263516284991263990048456nat, 7141740778973277389381589714228910941860312120801303483529981380216703395720nat, 657916213779349603631506541373613927661336542609108057059320229278490130061nat, 4749496780322544218971053294691970522992977508420200631344326542488210972656nat, 32336);
    lemma_window_step(2, 5986310706507378352962293074805895248533647603442423nat, 7237005577332262213973186563042994240857116359379907606001950938285454250989nat, 4749496780322544218971053294691970522992977508420200631344326542488210972656nat, 128, 3392041359446561654433209740290403250075186171501844142951379253054692782181nat, 3116996308106970215845590076866841312060289413821465369537120054492882793895nat, 4614146538824733385926475290734702247200023258294181576911703370402186375464nat, 1589876429035094306008748752021256042304646838862356511929413649767633861973nat, 5791261696383328953374455344341158530726323648179365292999937405465850402108nat, 2941872581725494743575542476011243294752742934535377078507630653411317279892nat, 6853821226287655165593250620537755501932107469902917097133843808700514290257nat, 4634335524218278269798007943943733464735417132070663853808518719191270559963nat, 1611442107616133305180505300630401103598676662604568106895943981125864783227nat, 121);
    lemma_window_step(2, 95780971304118053647396689196894323976538361655078777nat, 7237005577332262213973186563042994240857116359379907606001950938285454250989nat, 1611442107616133305180505300630401103598676662604568106895943981125864783227nat, 512, 3899395342549272240548768392488922504351437853556695153450839624058683848621nat, 358814932287996094846296205523409084942352429604974374216217520161306153372nat, 5555470802118075837276949679037295123307932589597964027944465892679042970469nat, 2101046334014295024533653897745757214832488826015822316476560495375482883348nat, 6087526141340275354707363989315710040950549967193194227850110953289164793980nat, 4264644472550401175762894871794317041060386605917947935654431710013199335729nat, 2577283417257072936446602664810190090566529913487176354071245483571502036562nat, 5120622628449279237511949105854982450196054454739727789170029688179994730742nat, 2434094561149620517540609908992374534068138298291108992122616820656369039746nat, 182);
    lemma_window_step(2, 1532495540865888858358347027150309183624613786481260444nat, 7237005577332262213973186563042994240857116359379907606001950938285454250989nat, 2434094561149620517540609908992374534068138298291108992122616820656369039746nat, 4096, 496299447567790317338245815364008756326660496422902411695535202282324606826nat, 818683400103471571206185637277228715887092359587147693067578718935450870210nat, 2288009854787651383223845073424020692242691653212871274746785659899273954351nat, 34035228938830100588706193609657286180979730911239470594799289714055566825nat, 2469667197088866362098272550548314239832725375196042847838589898693423655071nat, 723363971419675894307222525919734443691984385184237325264811275755998772170nat, 5880820355378102143111553537540858579251712558485062253282567647203032831196nat, 842787254922237173862648516918407260146104134900559526986795505414410470105nat, 3085614266937730082158407960271907042531395538482476670904360329630729287424nat, 3328);
    lemma_window_step(2, 24519928653854221733733552434404946937993820583700167117nat, 7237005577332262213973186563042994240857116359379907606001950938285454250989nat, 3085614266937730082158407960271907042531395538482476670904360329630729287424nat, 8192, 900975147258244834203683789246078133796382815730878199829893964059937156492nat, 1315601501559066813967102855757643171986512482395884192348108416955813705156nat, 6875720569219669628635529589323335600306877701975059699329823549759694520734nat, 112167416109170558121833954322955181251998073950188090055427393518601294970nat, 3504365483832153419327331249476242406980441236592736320033985492855142436006nat, 6532471592127386342501759662219751248806206432347576323133195886443364889750nat, 6066580727169807994318402550591990247257891413973340080714396023876608057818nat, 1696914188202281975815054141709968007541116024409453094245485892565465226162nat, 912017434422466102481566033342653570828423407776410796935134390958868103593nat, 6867);
    lemma_window_step(2, 392318858461667547739736838950479151007901129339202673878nat, 7237005577332262213973186563042994240857116359379907606001950938285454250989nat, 912017434422466102481566033342653570828423407776410796935134390958868103593nat, 64, 717351126503581048920165496326933736356707165666368435191845046823346370396nat, 114933696236993950471995065112725229699201225861483063504225812751157007977nat, 6602675514155652832160076970203059710984225595782919713142997014761778214492nat, 71105740239825573168214615567235658989374450955177014727347804322454048516nat, 3438358096995955771199771042765533806450135897001320584428711707914497365173nat, 6023945052879304304987950906886854144695000635930025592852324149895603746919nat, 3000723188099562933570518104442486899807409762082655937945224091142645737697nat, 1633590892925032475556365687008966447830559439717288562399489448072603936888nat, 3884139027733210185210308045201311325389199429412382272443617437707516686894nat, 26);
    lemma_window_step(2, 6277101735386680763835789423207666416126418069427242782053nat, 7237005577332262213973186563042994240857116359379907606001950938285454250989nat, 3884139027733210185210308045201311325389199429412382272443617437707516686894nat, 32, 6097438884853476462517098477054110921478368914508083110759126301892800441853nat, 2084637883106558910684496544873192597853685690073899903007433019471901270147nat, 4306640917576670793843607457674941806232327226020600336601210419120324102668nat, 5137312740365222975425525841989853174955564135207798346046202208314046604369nat, 1724543039778281086301021314873309391214713636332898045967543517765175168247nat, 2562821845963336349876827698933903722594805956646512933536071560756917072093nat, 1117119019123694248358106980647728648776306312755995716708589079042063287262nat, 410950173282030450856171626541716298944127914201651519230476113757694637023nat, 6799786302629167091566677128555339797413336570672232510667046776204208188428nat, 4);
    lemma_window_step(2, 100433627766186892221372630771322662658022689110835884512856nat, 7237005577332262213973186563042994240857116359379907606001950938285454250989nat, 6799786302629167091566677128555339797413336570672232510667046776204208188428nat, 256, 2451286108944672293674563838800015600440571306465931017777619132159777356319nat, 6388981363541710264087667976277362177680279771523603867716549958196285707285nat, 3649493055616199267744863595207000997306726350310238435020317118889170740073nat, 830288649593676865579609402180174212696774271731295593243912142738978718392nat, 253348836418136104261265233596030534006721117583621302667968632149130210787nat, 1840374367640117138424311515392614205749695989855426226666954540353014576678nat, 6283357841967406681123488018754104620871852084274674420785516718576793191628nat, 8869087114630065769056975895882244079590962194705963485375117605986895569nat, 1924369375893898865565515805506061472914301791977163188659171656288213337210nat, 222);
    lemma_window_step(2, 1606938044258990275541962092341162602528363025773374152205697nat, 7237005577332262213973186563042994240857116359379907606001950938285454250989nat, 1924369375893898865565515805506061472914301791977163188659171656288213337210nat, 2, 3071921769744303537658284684317210900987504138984096458906547836422274529031nat, 511703004137156305417996270916492166563775036174553944258292265510840628721nat, 6089254402540305892640717039443072924358280949657688529946233443547968169179nat, 1303951373063273800981209312782560116913861698713584368052892117300511609838nat, 1662602277539411405464082222122501216865362446578588724157942092564502894012nat, 5123530551778949122423295587407871560929073510654679756477586856126778997361nat, 347344737185385053003460005109987889755318106503304140006607973588397070492nat, 381959956192020374136877539308070821173118555295456632814275138777346025668nat, 694689474370770106006920010219975779510636213006608280013215947176794140984nat, 0);
    lemma_window_step(2, 25711008708143844408671393477458601640453808412373986435291154nat, 7237005577332262213973186563042994240857116359379907606001950938285454250989nat, 694689474370770106006920010219975779510636213006608280013215947176794140984nat, 4, 43770926721728239072652872974658773378672335681490253730414002085387779658nat, 66684136227988461204858962626216572959061732580926224743526006951176397582nat, 6756767847804747046451866231415486318049515203022496036281260203053637178215nat, 264735739886654715916059960546671996302629674644532695774424660553333841nat, 5395313000562485631526764844889681722735000060516904339369916834180379468136nat, 6308398033038015862431976914898988829079434962429778777820319015102121093901nat, 686556606909975991375181742287204361252393523752374691757448610944853284409nat, 4022299287044215858577807685461318834580406263431827906238314606126708982083nat, 2746226427639903965500726969148817445009574095009498767029794443779413137636nat, 0);
    lemma_window_step(2, 411376139330301510538742295639337626247260934597983782964658470nat, 7237005577332262213973186563042994240857116359379907606001950938285454250989nat, 2746226427639903965500726969148817445009574095009498767029794443779413137636nat, 64, 3486194560665547504159461172094694679978072289850852015212421960497445833172nat, 1042110512597933672269345094716121225765480538148000215833736282334930425516nat, 6094219160765583306383525800087307878255791770493464559664597363700121050029nat, 1679362048978017697171045329526545398733298219849344240044754699227013428495nat, 1630452117242610125209403109867766345148249377501145286088334470265778701036nat, 5131888704876873111509694970950447294707474893382395820204817750220685617745nat, 595939139127274681709238626360612129553270304924341406083711642809313416330nat, 367330669876428640471127347550177001563159405479474466447836761635483776094nat, 1955077017484268559525339271864205087123717718258311959347790448368787390175nat, 5);
    lemma_window_step(2, 6582018229284824168619876730229402019956174953567740527434535523nat, 7237005577332262213973186563042994240857116359379907606001950938285454250989nat, 1955077017484268559525339271864205087123717718258311959347790448368787390175nat, 8, 6463140795414429342383265909388786123819431886350942003314503991698516665676nat, 528164045674839196775837058964605716431510406570469546739057264413816729641nat, 1479537244890886228919412082582275867641550717039842674242308175072262443370nat, 5772026633804048546405650502167982550796852884365293799763050850945138841854nat, 4250330660367564347823275413282627846061180854459232612057785770359800835030nat, 302477376261224960195478813687129758120212452318673345102654000993430109830nat, 1208389424286002856079477203252361983922539046109121814308391610305758254656nat, 2496241094389192432379252234359431195844981590468729465183806103614131631796nat, 2430109816955760634662631062975901630523196009493066908465181944160611786259nat, 1);
    lemma_window_step(2, 105312291668557186697918027683670432319298799257083848438952568369nat, 7237005577332262213973186563042994240857116359379907606001950938285454250989nat, 2430109816955760634662631062975901630523196009493066908465181944160611786259nat, 2, 494628165741899640760429894160074187989422236625897882267235570198251586025nat, 816005136290311965279319651650910434288646144492422698848599475556187115904nat, 6052514108774584372752491858618533392672298836043985993308048955658658633448nat, 33806388530569948999472969566113526286564077763275345286137652258021406893nat, 2664993804721090504134628959291139445207398291211286539288848221633394621701nat, 5061890120916446342815476454643115019922328803584137529645769911696455702727nat, 2411195694575481745230989179384023018571042582369114322604953593178922578119nat, 981371632688424160985896666576116067528348227600941112692649852160654389338nat, 4822391389150963490461978358768046037142085164738228645209907186357845156238nat, 0);
    lemma_window_step(2, 1684996666696914987166688442938726917108780788113341575023241093914nat, 7237005577332262213973186563042994240857116359379907606001950938285454250989nat, 4822391389150963490461978358768046037142085164738228645209907186357845156238nat, 1024, 1523757740272827040216765603030815025450128055266249104639955061160345349865nat, 3213408979951331190173172605185906902571801893532016833458564128368137627111nat, 3313891203301839893359035915344847747410695742376978596536238435639621421843nat, 320828500991322787321452237609993068258178626213963831969721475800625149238nat, 2198527555432572507131224213366868246850348334064547701557410863009524070905nat, 1517461164009425128808760270098423737070803811199982542164344943291941077296nat, 4681976791294510915085696252037813872331016165294108171609750069244873470172nat, 667889966415927301030204334948473860991739531677847557436625803867490234377nat, 3446542091621591397503457352259217819549523351667932555092549761779719301410nat, 662);
    lemma_window_step(2, 26959946667150639794667015087019630673740492609813465200371857502629nat, 7237005577332262213973186563042994240857116359379907606001950938285454250989nat, 3446542091621591397503457352259217819549523351667932555092549761779719301410nat, 32, 1727502720758804117469086107606774002455200068237445416036762157875795796084nat, 1641376707864594015672902632839896326749105939399257895666961296211951486544nat, 471417776501959573911322720620246523895826286339236432888103566111073777586nat, 412361938696908435948295938595368090560876240844414094109913992018801070230nat, 3963429665700268074668797713923955389088462858256460567809911375332170655292nat, 30708104011710970328091567127592355624323842121548795524968790445361018536nat, 4975840673369600540330028225892935428929936515439269919735722602684186871886nat, 2170618019717428276034402253293878020053395507277171985514072181300490942602nat, 12778846517448583150798841628060426901408587698670099500202643613986378594nat, 22);
    lemma_window_step(2, 431359146674410236714672241392314090779847881757015443205949720042076nat, 7237005577332262213973186563042994240857116359379907606001950938285454250989nat, 12778846517448583150798841628060426901408587698670099500202643613986378594nat, 4096, 555766472168356641786049119395102505644451091689461849156950107125057587076nat, 22564431735135371958299050893097378897236049420815252874225937797091840nat, 3492255736228314716377577927910752682445373167643278019500923663345512169422nat, 42680134523306550399989734138500564858492450072667657387240506571520747786nat, 6112839410366338793257666704830795731648056911499943614604728902023051984662nat, 1685206677941411506252668839755840291346666638197245539632318129954745842598nat, 1424631482992247837268526767683982567614912255347155725303301163574162918872nat, 5163296512298973484020617511417099018401350331482101649397642444000941801148nat, 2264059006443796989497270620939238819844812241744320404749109741695189402578nat, 806);
    lemma_window_step(2, 6901746346790563787434755862277025452477566108112247091295195520673231nat, 7237005577332262213973186563042994240857116359379907606001950938285454250989nat, 2264059006443796989497270620939238819844812241744320404749109741695189402578nat, 32768, 2044219008847012314175538872261328628321022907663875888735869051664352126320nat, 708298913118819089308995449455156442320703356702120467400290862120492141476nat, 1348170834351509664950260217595590781143422436521261729133758041018943035779nat, 577425471277843226197302658924598038385572154267315217296247045991867457489nat, 6839173583829299360894279218881755915805481647175837485868151036939105662492nat, 251148707731968421387073394329737855322511562960767832452347016202807274241nat, 965794989058527005502776380008557185547693980722499814972668484682781856955nat, 6463211173452025322195520778467135857159787592409011681493418377199088867081nat, 6981817373162516824204766496431034999523637105917883583871403901389903377532nat, 4372);
    lemma_window_step(2, 110427941548649020598956093796432407239641057729795953460723128330771701nat, 7237005577332262213973186563042994240857116359379907606001950938285454250989nat, 6981817373162516824204766496431034999523637105917883583871403901389903377532nat, 32, 6024126807776609759032675225498239559476948236478786088868507761530129208755nat, 6735627506613423768328207340092283028263934492348306977397830147896632233521nat, 3883306726891749947264816407806722978866332972105859901860322663518784971055nat, 5014519252249938029413859155900753979724872925202582097758952630954698413730nat, 2323665463821137044660527296575953459113898137573011323651147489425559850322nat, 2083744578331747031910750916117999482659004163952980012205930415529110074027nat, 3861026860690152771245029044810284941672033289939093897385461188728715419963nat, 746084983638420664897261194973605669381046012074429509083232051645615141389nat, 523764727436431042296757862198216038934087168592575414301592088466171172003nat, 17);
    lemma_window_step(2, 1766847064778384329583297500742918515834256923676735255371570053292347229nat, 7237005577332262213973186563042994240857116359379907606001950938285454250989nat, 523764727436431042296757862198216038934087168592575414301592088466171172003nat, 8192, 1574229809580606949606632443524652354463815764804430662159225241477872376208nat, 37906491403822225613086077439656105669184357539892700255803852474377882109nat, 7111458727240849365834039612809616251790915947235769184083746383651979345772nat, 342434376606590807936296528443264164439264342461420369581063683462314192228nat, 5820356341912712188621612947702533717472137216625681605272253978734657756852nat, 6988089851368116884443389583285871769568825609331978052304625954264954678988nat, 3820885906518924328277395774872525783124692272675574605822444464007175044255nat, 4681017250138869621567352705646075261925116146615002646444386211562777025941nat, 648224240994021814394302594781123650450843440206774939027241062188327009535nat, 4325);
    lemma_window_step(2, 28269553036454149273332760011886696253348110778827764085945120852677555667nat, 7237005577332262213973186563042994240857116359379907606001950938285454250989nat, 648224240994021814394302594781123650450843440206774939027241062188327009535nat, 8, 1935888718308138893846486140149975227483450954720608955452611967819865617764nat, 58061951469045258524015422016540099069088898489234847151027529334013000049nat, 3873001265330890846632359068171634851271984639792962026539994157746535731865nat, 517847483966457027496171379611095975093138551595522815913979512162029227379nat, 5938642694600551440665611733003993282432681196225509052165422136373704030672nat, 2072699632599164126835766210424281892680956349564919437991187912365737052677nat, 4778535778556285114666223183097584735805198756037390614451814924341351715805nat, 4873214021638623038375731803264341278038035982239021640403354634618529164111nat, 2043258341788969847463852649565706682156008251399586885604764703303542471495nat, 5);
    lemma_window_step(2, 452312848583266388373324160190187140053569772461244225375121933642840890686nat, 7237005577332262213973186563042994240857116359379907606001950938285454250989nat, 2043258341788969847463852649565706682156008251399586885604764703303542471495nat, 16384, 4077315181908318417725308075141540292307971901842029300868643126343334916002nat, 576882884319840885557349165040525375167064591965500219716718426516545548907nat, 7089638456019399732148144915853174009670603283166569136616807984889833680301nat, 2297151620926104341728164032962823083993641396776769576106890734264874163027nat, 7168421470962879269771111396468164202903253557205465382039160558404125184039nat, 6945272170924221273678024989240750368552693630740344281188271877825414462858nat, 5170932763497202686460312502260406266031952885531667883264973982047232259588nat, 7100487326735465651327322666264066787804300959492306058838756723616236932097nat, 4175108886707338195638130053205679194111973649648163554496038292325879012558nat, 11706);
    lemma_window_step(2, 7237005577332262213973186563042994240857116359379907606001950938285454250988nat, 7237005577332262213973186563042994240857116359379907606001950938285454250989nat, 4175108886707338195638130053205679194111973649648163554496038292325879012558nat, 4096, 758662275365074523568363040873642697915891747347082884374707843460533973766nat, 2408666682593366204317674424478167579235008646947695936579602372602797486582nat, 4143797348150126621949060081465050051577751850938900811563865414698141919985nat, 79531298119336369433589289897876795277622344860166002659789899730767207839nat, 4183893849395214092453248481759231045495520395266509084719877886196278238853nat, 2372674206072077442461446423117112137956784322005891106525267158037613635148nat, 6380084750914745814125287275182678760677501751396691007146739462438665844805nat, 2418813631681608147199534278517055448177097728513450564603679402957223356836nat, 1, 3611);
    lemma_window_step(2, 5, 7237005577332262213973186563042994240857116359379907606001950938285454250989nat, 1, 32, 1, 0, 1, 0, 1, 0, 1, 0, 32, 0);
    lemma_window_step(2, 80, 7237005577332262213973186563042994240857116359379907606001950938285454250989nat, 32, 1, 1024, 0, 1048576, 0, 1099511627776nat, 0, 1208925819614629174706176nat, 0, 1208925819614629174706176nat, 0);
    lemma_window_step(2, 1289, 7237005577332262213973186563042994240857116359379907606001950938285454250989nat, 1208925819614629174706176nat, 512, 1461501637330902918203684832716283019655932542976nat, 0, 7237005577332262205785099586231624600664197829225752203328093420762508415981nat, 295147905179352825855nat, 5138679136424097540314056911209753954303976540412756213920152942858578553044nat, 7237005577332262197597012609420254969735438020991816906667425818659471342153nat, 4841940220429666245095556115694630739923860981706758711720444415743604007139nat, 3648749884873546940100539694065234465342975576112231271294690890575578369473nat, 4017485412355440310094926674946908467883027725932059148200319967099897816930nat, 342);
    lemma_window_step(2, 20639, 7237005577332262213973186563042994240857116359379907606001950938285454250989nat, 4017485412355440310094926674946908467883027725932059148200319967099897816930nat, 32768, 6595677557097297738507001069370012036949677097283665703890232060787073003862nat, 2230230288759627000077307454041984854567991419081184616770743276079499765542nat, 6345574578860346781155100876686322646106206998801714697589254117985099638731nat, 6011182660057205094816053679406053873815095895810794998673989050023724135517nat, 2864670899909975089359877589312980028171461185502568794242735903039774463525nat, 5563947174781896399738145795545782002165295687521966875480341917845904917924nat, 4984391902235407242072757081966967254899962495772581136920924081142681570775nat, 1133941279594271711912321153399277148091648311814975595599702066624145208650nat, 3811983215330863293229707139288980898569062990183842372811515657258174835448nat, 22568);
    lemma_window_step(2, 330234, 7237005577332262213973186563042994240857116359379907606001950938285454250989nat, 3811983215330863293229707139288980898569062990183842372811515657258174835448nat, 1024, 468890904341930859138937806989726997364721261128219783026084408548042757622nat, 2007904495676897012902728017053565627373254847211179515839596671547031039538nat, 5705273249949024722880663551521829864364304214471526546620903786508877533993nat, 30379785924614287537100696982290116150371590141901874109339393812773918919nat, 5992643657799122326569146790807494249384096043515315226487290953995674708620nat, 4497736323229791937115992822723097223366518414374662480005504158700284035961nat, 741967143411421812769369652509968428000157871380225905812102711744310022569nat, 4962242688031478159354797083508062616495209216357770597000521699997684713379nat, 7125774810740666022623121613736269223021558917840936527390279244486221007800nat, 104);
    lemma_window_step(2, 5283759, 7237005577332262213973186563042994240857116359379907606001950938285454250989nat, 7125774810740666022623121613736269223021558917840936527390279244486221007800nat, 32768, 5707325963207345955806790447549943725511321300105859912590860348053614624710nat, 7016253630151781588002278827377174690965977742435972636204466652513986808610nat, 1506826344421927586182784628941493156229389239560115786485219847576378313531nat, 4500973407057684777237786120375401730257085859902794213142510026937013018221nat, 3016805987206250355397835935886868945269217124073297685341532729932560916085nat, 313738273099538080843867599054208173774846336360197958396167712418536319284nat, 1532701176149487982443369204290343912886970213286154846808771848935024251208nat, 1257580675763189652083047465118896139863633992429761952921686353338008202453nat, 5970438957854705944380525230652300172709531223543142182298385140107615971073nat, 6939);
    lemma_window_step(2, 84540145, 7237005577332262213973186563042994240857116359379907606001950938285454250989nat, 5970438957854705944380525230652300172709531223543142182298385140107615971073nat, 2, 1175903960616180080889157288408106529894096820106321245821673607801845378634nat, 4925537360523802348250306482711578556825987725710529495005551291821681464755nat, 3726150025039699938929026044735931681432159900307483822495469680013652136783nat, 191066610328982834746374093136655894302694606187925785179162474035355085257nat, 3235137147955153393239389755332453315147462078442311316029612338584072229152nat, 1918499835427985255930231457452197729189608629537182893618618577797591965733nat, 2939159667188146624182696415886680805729716603148259043772785746265524845630nat, 1446193768160321056192111508599465381382692018603290509655761719511908233866nat, 5878319334376293248365392831773361611459433206296518087545571492531049691260nat, 0);
    lemma_window_step(2, 1352642333, 7237005577332262213973186563042994240857116359379907606001950938285454250989nat, 5878319334376293248365392831773361611459433206296518087545571492531049691260nat, 8192, 712712724290418104779066344698346914618110633086992617667743469158454773885nat, 4774714877260027565980190382735362296140544742120560639491632620593014551935nat, 4788199579352048958818716282318715693361065704366792477069301706210780859607nat, 70189171742039176211678094215398399295585801881324030446688761793032920762nat, 5661715616428244229512181845569911682815257048778399900157449547460970768286nat, 3168002976744774023130949104184248117989687768845676029355287155687930499167nat, 6767163341253728513711308513939899613497300812159506804763273498895422201049nat, 4429321406316191015242043839897895813853528539029776564742088471589000236023nat, 1139369185415425288430273286321748804376940360587482645792315684719108417668nat, 7660);
    lemma_window_step(2, 21642277335nat, 7237005577332262213973186563042994240857116359379907606001950938285454250989nat, 1139369185415425288430273286321748804376940360587482645792315684719108417668nat, 128, 1437977444237429928769915285643319893610097778392045018724035324094128381558nat, 179378352939275221605994312316747492950830748011258065255282512451272883394nat, 6899347099125087108988699967924960675849341676915368171368388223171840471855nat, 285723025640923301885847356341468650211489386115224850691140514402050808681nat, 2373560379429362175181530720834537096988881279990617915599773868250186619344nat, 6577442822940679191828443504505354125118958929986064136065530151694540887029nat, 464035073602888408950929818086836071661111670198363171804114663384737391370nat, 778469605224984573912777970435366523052205983436046093269467843412621454094nat, 1500444802511618633933524210771063245765362910351225142911069406962752087448nat, 8);
    lemma_window_step(2, 346276437372nat, 7237005577332262213973186563042994240857116359379907606001950938285454250989nat, 1500444802511618633933524210771063245765362910351225142911069406962752087448nat, 4096, 5447012882118708668736288125300283804293955090690296249385014056650921418684nat, 311086482016230172209207561675350120740479166990311197301052764926877404180nat, 2415544417554019956631759912591364699125918657361703480119051080604748156570nat, 4099754936060755721569662857361789802111905126423355423132335198143073848974nat, 1001200444669661255854787446214491902271838076849232996436115066406645786754nat, 806252637341100425311876608436046614696487739114925313609205411365281348714nat, 608624521249562114500974135328186491075104811831321080573797502559920783796nat, 138510647766591540840742931608287854475668382522921265691576100487945582480nat, 3396120435908219389213880617461848588781281634402929565603447715239268088200nat, 344);
    lemma_window_step(2, 5540422997959nat, 7237005577332262213973186563042994240857116359379907606001950938285454250989nat, 3396120435908219389213880617461848588781281634402929565603447715239268088200nat, 128, 965619591279968602344434368338918612134160240133832769149408062948701102111nat, 1593702518527699478232578782661590362687633959821591661271486741547990292101nat, 2845696077972217917155312579075581094990496110547448544056753439582712825927nat, 128840745678602467138405855220016468713737447078864761406083986047778074146nat, 632985505642639670798878212546151665837584385827380006889998643409781706172nat, 1118969176084506999656217751877184093816753676572601030903780320444671932713nat, 1892165724165549985661437174761576186536057877740035195258601268532225180256nat, 55364148344537444594622724448252798276047186317847854284892831055767767152nat, 3376028641225745103548801789062941928330568491187553995036581408704832790131nat, 33);
    lemma_window_step(2, 88646767967347nat, 7237005577332262213973186563042994240857116359379907606001950938285454250989nat, 3376028641225745103548801789062941928330568491187553995036581408704832790131nat, 8, 435843798335572085711041021712287037888841710763420579974071716651598038858nat, 1574901285426116034546009205495524138297729754386896180622023468516931474427nat, 1623984475907613967740195506245056013989799347608068708149069746581161819680nat, 26248399910395354020782229867858275012688375227454362187330713354291711956nat, 3488555795857782877905183813092177009561841076028181237779501083086264411338nat, 364422211618788128063474633165984783730450506736363556350818604514357633358nat, 5295451378438303439605615679432778992114275370904494225335372800159763502761nat, 1681637717529450539173524393928670240084578042636602069725964165786541759047nat, 6178583140845116446978992620247260732628621170336415772673227709850836767143nat, 5);
    lemma_window_step(2, 1418348287477564nat, 7237005577332262213973186563042994240857116359379907606001950938285454250989nat, 6178583140845116446978992620247260732628621170336415772673227709850836767143nat, 4096, 4709847351873591215083554834989897479268155890474023535422461626723111662613nat, 5274956502438914085126430047546154230856629617472875915491162854315762654924nat, 5788435885753345215999714666880576656117254293148198408989550427403268484094nat, 3065171339294138439047721867057512072039996726752849033791697839349794165575nat, 4151217911309369019658880365196897873442625322003188853346947194560262491840nat, 4629814036405405678426352635107284421009566118209384625565779053498415441364nat, 2078970141982814314600838902009932623927062798487028956833137737883302016805nat, 2381179614003846489188892319848662003174927022611483916122198159801814439655nat, 4743142618867068972568744494122800357280383972099262530237870946310861670216nat, 1176);
    lemma_window_step(2, 22693572599641036nat, 7237005577332262213973186563042994240857116359379907606001950938285454250989nat, 4743142618867068972568744494122800357280383972099262530237870946310861670216nat, 4096, 4172279976729042601772294058812127749468604325833533923207714138989226194466nat, 3108661678164168520737337316080342443339194705485222457090404415035264810710nat, 7079281007452938206081017681064846752767432800050474867920288865013551467993nat, 2405403729235633212502536318537662314511019057955416270919572360650094578167nat, 4497135341903237325291932926244926074803345055556233862127495840688344783207nat, 6924993914535292601270136281260765795034300238581389242567461003932047019378nat, 60364915397401679424540730504225393014698165906684256904092713245699514059nat, 2794557233276348144255960250918520891423306364017177810069545760219170538110nat, 1196503838460363647830489001845405599061731334861857675097421552679765052038nat, 34);
    lemma_window_step(2, 363097161594256583nat, 7237005577332262213973186563042994240857116359379907606001950938285454250989nat, 1196503838460363647830489001845405599061731334861857675097421552679765052038nat, 128, 6274767538492446986828372664311936975920639425811260434366619472276321168512nat, 197819584378172438452565870086241223158391154858942676408286465143828491188nat, 1837508010356276345067225537268702501288991738050905986297109845776973510091nat, 5440469437448230911896072281930518227346105790091361431547023767154123331177nat, 2413475619419927015859201078758788579063398470305060676795570880447278510729nat, 466551483489130928295740543974485433070967164376446176342258031503144222768nat, 6433102818104350683135436754370471958719413118376593370524069603230763283475nat, 804872195176832841165660713985697101533443222608540473391290082604423615094nat, 5655530478811257262365822935562061499230730542274391948860453187281369923043nat, 113);
    lemma_window_step(2, 5809554585508105335nat, 7237005577332262213973186563042994240857116359379907606001950938285454250989nat, 5655530478811257262365822935562061499230730542274391948860453187281369923043nat, 128, 267123692686847191988093182870624308622236491355678879225205325375911871010nat, 4419649073775282851911850544639413680037464361129072120896031457692106535651nat, 4541183619585389174576727673117761113301037752910319525619811344071750561015nat, 9859750200850392072067140964230658703600417092451912546770534483947423265nat, 4805694402721036874992576591099031176583945577295660838537771230739191129523nat, 2849569265413300983698004431874331454270605687402470798696533102450537356118nat, 1604839264457693567337380223552815575285110081158409778369264993395968461486nat, 3191195370179274592146406462397017086066701602708004668669575227674874190087nat, 2783269685281434627935444849556554892494832325639038663211292882691244042516nat, 28);
    lemma_window_step(2, 92952873368129685366nat, 7237005577332262213973186563042994240857116359379907606001950938285454250989nat, 2783269685281434627935444849556554892494832325639038663211292882691244042516nat, 64, 6725323525365839703718628360323971980066436962981005526849248157025817734851nat, 1070413730959455653525368758291795756660876345783129608640980765195155138145nat, 5970903810818012875066366733176312797523873453536686405996861483118870116422nat, 6249819215630905349406226164217829607423219158099593993524621257906390544111nat, 6677841149891581790326792741256437313434313620272862261965017973881453148089nat, 4926304386127495129240557452441287384675876577159804574536153238549637206455nat, 4273552504313692617825719521275984140654877948903019011260567632684594118378nat, 6161880344940069034084421528965716202890740274675920743367764291115113827587nat, 5738153914782625623838146529072198090198883432736635298604143775252216289599nat, 37);
    lemma_window_step(2, 1487245973890074965864nat, 7237005577332262213973186563042994240857116359379907606001950938285454250989nat, 5738153914782625623838146529072198090198883432736635298604143775252216289599nat, 256, 5574948913713708627891926440214086443075177540168019137861685878692408908986nat, 4549728475112306675750671765248159351632932704229414878699194522252394264835nat, 816078171292378561205363040211576358877728518436160703617848301797637856856nat, 4294601552866915253442641820249127949629347917542764046319479336265504488060nat, 6292047141436174290422731995042020963006566023673283520885835843962270409984nat, 92024743458248190185124354087677314995574890733384161659186730687507797568nat, 6250475560909432791677379452842613902620590313311848551284387705688230426113nat, 5470474881774089336113743903498571599738350872903288253917017783131443752987nat, 743511002384845381334909495207431841448404784873648202372095295101599616359nat, 221);
    lemma_window_step(2, 23795935582241199453826nat, 7237005577332262213973186563042994240857116359379907606001950938285454250989nat, 743511002384845381334909495207431841448404784873648202372095295101599616359nat, 4, 3497422166423102048698901595977028881009387895649021247599372731509316450362nat, 76386373446888563696907795802901235523895681745275726694886109721522686771nat, 2909471083522110165711060240657929524451861520969684902813887100622618826972nat, 1690196543236141280905447628689239788262711520194952425797987134721873849448nat, 1786290212296306924543567216716881274130011677495347951981831388887767379409nat, 1169685707078277049825647014580870589320017032034156495523015209584209846875nat, 5860677905700293840005340393361803451361651508896940939185413850099884276685nat, 440905107568233279947226991441272181992706287625847042578363266552230713764nat, 1731694890804388718101801884318231082875256957448040938735802585543174353773nat, 3);
    lemma_window_step(2, 380734969315859191261219nat, 7237005577332262213973186563042994240857116359379907606001950938285454250989nat, 1731694890804388718101801884318231082875256957448040938735802585543174353773nat, 8, 1063930095449879844393366599576955776084541343883679968111228369066671733578nat, 414365743233742665779160911601057711009836395510202707265620284724117782459nat, 7025378486590662371498458191466820183502228385479041901486335420701066215995nat, 156410995667804080878366343374135399268399252916009773516485698474564425901nat, 674278073120165833543025598427857759253761978195476139264382678412410175833nat, 6819939870496095005322925672944012605034545869269518985248606905161258078528nat, 2189533308973323483567760532363951914467687575713052906713762664517706538906nat, 62823071646469448271954522503906816554964173385832704409230894713457326547nat, 3042255317122063440595711132825626834027267886944608041706199439570743809270nat, 2);
    lemma_window_step(2, 6091759509053747060179514nat, 7237005577332262213973186563042994240857116359379907606001950938285454250989nat, 3042255317122063440595711132825626834027267886944608041706199439570743809270nat, 1024, 674126054995870586367724925676092721579726972889041067249289583729071286002nat, 1278887699568307342878325088615588218130071876500727340002880261332004012282nat, 7041196610387508366482306747449684893000981210370828530514341152202872433154nat, 62794747519293118339487473188764844860229110507334356873302028377033312650nat, 5119324787270667879696158092077737233032171384725987843963712232614721986002nat, 6850685573798931637469604720933948071219790337322221273448825607584965284026nat, 7032828995086966751209692236820740367647220402118366626253008748125700180989nat, 3621316302373859890711520062899222222295406929801075362379562144142570965635nat, 796341523453050335404220276658866817922914186199357311139774486690005598681nat, 995);
    lemma_window_step(2, 97468152144859952962872227nat, 7237005577332262213973186563042994240857116359379907606001950938285454250989nat, 796341523453050335404220276658866817922914186199357311139774486690005598681nat, 8, 6194617715409362199404257189122770961122006463841266473352560544216410932138nat, 87627377815189135763551196719921277597252160498296968966491051925211186307nat, 1958832464138357784733598358479952567123214779175085325295519136846109194283nat, 5302371019342069018214281194594999684423831177585825109857029367229435994749nat, 5591735073504563035961630941234606652262764801856505832702713361046874413623nat, 530195062247937653007778490372419798165590255380640687448639360228105147594nat, 7148903604208709849052990451711539166564238718583328125366041703290551754977nat, 4320502561197009456477093794131968244808036247352890184897565565868192085168nat, 6532189792343843294611617672391353646514095233007271760914677058326234282893nat, 7);
    lemma_window_step(2, 1559490434317759247405955636nat, 7237005577332262213973186563042994240857116359379907606001950938285454250989nat, 6532189792343843294611617672391353646514095233007271760914677058326234282893nat, 16, 6869235043837095817381338677346472732152352974841671659348381791487966993068nat, 5896016387889827810156885668389368292044113528660142563938624360774503829329nat, 5464438263746635436312719558974553814216261841796006054836682111678770903615nat, 6520153892830588173530737001770380532660938236562706778405053278242355480181nat, 2548832071559550933425313029594985294113227131890031116286713940268703091145nat, 4126027708452520453492275273693876013077259213827503939744423638428479885720nat, 2501698402345855769191840390402845015717642991042049178007811655622422698549nat, 897684112522867171418036028624721868673395859897652314807427761772879724684nat, 3842146550872381237203513431230549047196706059773248818115231798531491921839nat, 5);
    lemma_window_step(2, 24951846949084147958495290184nat, 7237005577332262213973186563042994240857116359379907606001950938285454250989nat, 3842146550872381237203513431230549047196706059773248818115231798531491921839nat, 256, 7128320454499458121053539088982808058314313552432298901414879044802745794368nat, 2039806375805254549394386198168017080211824603363800363264229445800240052677nat, 3951732519795470327661466567235540714006306605681725747742759219618063378665nat, 7021267561433365922060583896277471011561480258166697067453331762674578230931nat, 4016889564954711980497133990484249250586867650788394973778134491422641765914nat, 2157824771742896454181646078339627558206481666904985040514194562709728275699nat, 2329259628710274405089355332928866474874753414751284071620081257940835429217nat, 2229568791211289931040978739074051805610316403328160898438632577173522057711nat, 2856007608584746157073667060264289817653332707176298642580825093446621298454nat, 82);
    lemma_window_step(2, 399229551185346367335924642956nat, 7237005577332262213973186563042994240857116359379907606001950938285454250989nat, 2856007608584746157073667060264289817653332707176298642580825093446621298454nat, 4096, 1613034208945974149602227670495564570728456013667446177804534253108913168744nat, 1127093156573295002655926506521868716692431339208030398154422406438156775148nat, 3964581007437721443772684826060328256623241697192408675732163965467461012184nat, 359524299301297643813611367715819965987654881847011924272856683596406312968nat, 6763347464757205959641896291283452396908813374014548841789388015669443521594nat, 2171879294078132070939854649995291107333849073032907021118535325705424248158nat, 4092028383264144168106883128337513667969935770859143038167796577469000042665nat, 6320690020236196765660011872615921189108177088542854182660728288242985266439nat, 43340748415225003893213662881322179775429115183868834776408243912129465316nat, 2316);
    lemma_window_step(2, 6387672818965541877374794287306nat, 7237005577332262213973186563042994240857116359379907606001950938285454250989nat, 43340748415225003893213662881322179775429115183868834776408243912129465316nat, 1024, 4227465696562477876072556953384615928199864931629632378020415367650984620845nat, 259557693181198369648738819077756535156996077178825429362156898588489999nat, 1826532551558363067144980897150420002160590535519865270730873346178693627924nat, 2469455913035282904695410995171379429351338270164562388804993742612608924809nat, 561375959734147181335636970775896675773929154492047860514770507521846232471nat, 460994692660181311745259867503298839853064754007221156221213037940850925245nat, 4066774865074226023904052536182932200293823599064769562681053541220853005238nat, 43546044672747684448151678214307393173116151443467992820968936938298465127nat, 3099254869956675443167523301600884608033458798877158734277036696017283045037nat, 575);
    lemma_window_step(2, 102202765103448670037996708596906nat, 7237005577332262213973186563042994240857116359379907606001950938285454250989nat, 3099254869956675443167523301600884608033458798877158734277036696017283045037nat, 1024, 3625590182774990529536031443964115948545597156331147978910478327996351785764nat, 1327258994940687635222443791810248971963657050120301012717179684397186149945nat, 3651632742015462514804489859993434481657063113898806285808526320692896284973nat, 1816345729317500867430168692044330509621941908168948195328570467535199016207nat, 4272988761941169266991020483461074353916985773025147322281295801910206431232nat, 1842533011764619967607372324335081877141430727855179319658036563345431985773nat, 5559976402061248959553472510285981093433729315073811295280126666010625823088nat, 2522926473466396416212512809387233400560245561331821271051067898190395619024nat, 5129451927560834399831211981051166362445360162975388049316268502513801564758nat, 786);
    lemma_window_step(2, 1635244241655178720607947337550500nat, 7237005577332262213973186563042994240857116359379907606001950938285454250989nat, 5129451927560834399831211981051166362445360162975388049316268502513801564758nat, 16, 5457226314789839271281202031632734691260975151199518578614870093195262803274nat, 3635657979810006127563023890795605377791458167194151074125861847802556028610nat, 2118692377045251549608470083039561518391946101069219475212857171147473652113nat, 4115143857856858895954791169584997590115918389407396703617622322036876786367nat, 6179617109766154056980544651507625951499090234500799445028711675789091149451nat, 620264464436734799991050380866231510897557992979914091323774660184826486062nat, 675016723237446880657860150548105371924768147772239946748783294755041646721nat, 5276722149133883406856449632624503668738989037046345517716600169291368924120nat, 3563261994466887876552575845726691709939174004975931541978581777795212096547nat, 1);
    lemma_window_step(2, 26163907866482859529727157400808004nat, 7237005577332262213973186563042994240857116359379907606001950938285454250989nat, 3563261994466887876552575845726691709939174004975931541978581777795212096547nat, 16, 3233177761479467822872886232408611582284494554515571783939188293838617613983nat, 1754432258692898357239585418871764500034893269313110597920198388853503020434nat, 182989970118574678304043993257430824352557795729532852388288603522271217635nat, 1444442501200721247126845533749189300986483830306053656095124464167206734486nat, 2745070479588336586048508583365293238976814755854568776331538710584340376003nat, 4626959148529545201791594513910631602497551402905286874933677567768152798nat, 5161412029736750467084620728189763619909311459833599800076078076827098152095nat, 1041233402045418613620961206549078546856278215401673005227708714734820383826nat, 2975531125133123119648879457563281269120703404158613135195788908093573672641nat, 11);
    lemma_pocklington_one(7237005577332262213973186563042994240857116359379907606001950938285454250989nat, 2, 276602624281642239937218680557139826668747nat, 26163907866482859529727157400808004nat, 2975531125133123119648879457563281269120703404158613135195788908093573672641nat, 2975531125133123119648879457563281269120703404158613135195788908093573672640nat, 2233364593245673852815932892735013076939656528578070433728021143254617821614int, -918259049265850385831298250211759012539362291049224222049079815310237912731int);
}

} // verus!
