//! The correctness of Shamir sharing: enough distinct shares of a secret,
//! combined modulo a prime, give the secret back.

use crate::bignum::decimal_string;
use crate::nt::{
    gcd, inverse_mod, is_prime, lemma_distinct_in_range, lemma_inverse_exists, lemma_prime_coprime,
    lemma_prime_product,
};
use crate::poly::{
    interp_poly, lagrange_weights, lemma_add_cong, lemma_interp_poly, lemma_interp_sum_at_node,
    lemma_lagrange_at_zero, lemma_mul_cong, node_inverses, poly_eval, prod_except, weighted_sum,
};
use crate::shamir::{
    basis_denominator, basis_numerator, basis_total, basis_value, den_factor, has_duplicate,
    invertible_at, num_factor, reconstruct_error, reduced_terms, secret_from, share_value,
};
use vstd::arithmetic::div_mod::*;
use vstd::arithmetic::power::pow;
use vstd::prelude::*;

verus! {

/// The coefficients `secret, c[0], c[1], ...` as integers.
pub open spec fn polynomial_of(secret: nat, c: Seq<nat>) -> Seq<int> {
    seq![secret as int] + Seq::new(c.len(), |i: int| c[i] as int)
}

/// The nodes as integers.
pub open spec fn as_ints(s: Seq<nat>) -> Seq<int> {
    Seq::new(s.len(), |i: int| s[i] as int)
}

proof fn lemma_pow_nonneg(b: int, e: nat)
    requires
        b >= 0,
    ensures
        pow(b, e) >= 0,
    decreases e,
{
    reveal(pow);
    if e > 0 {
        lemma_pow_nonneg(b, (e - 1) as nat);
        let q = pow(b, (e - 1) as nat);
        assert(b * q >= 0) by (nonlinear_arith)
            requires
                b >= 0,
                q >= 0,
        ;
    }
}

/// `Σ_{i<k} c[i] * x^(i+1)`.
pub open spec fn power_terms(c: Seq<int>, x: int, k: int) -> int
    decreases k,
{
    if k <= 0 {
        0
    } else {
        power_terms(c, x, k - 1) + c[k - 1] * pow(x, k as nat)
    }
}

proof fn lemma_power_terms_horner(c: Seq<int>, x: int, k: int)
    requires
        0 <= k <= c.len(),
    ensures
        x * poly_eval(c, x) == power_terms(c, x, k) + pow(x, (k + 1) as nat) * poly_eval(
            c.skip(k),
            x,
        ),
    decreases k,
{
    reveal(pow);
    if k == 0 {
        assert(c.skip(0) == c);
        assert(pow(x, 1) == x * pow(x, 0));
        assert(pow(x, 0) == 1);
        assert(x * 1 == x);
    } else {
        lemma_power_terms_horner(c, x, k - 1);
        let t = c.skip(k - 1);
        assert(t.drop_first() == c.skip(k));
        assert(t[0] == c[k - 1]);
        let e1 = poly_eval(c.skip(k), x);
        let pk = pow(x, k as nat);
        assert(pow(x, (k + 1) as nat) == x * pk);
        assert(poly_eval(t, x) == c[k - 1] + x * e1);
        assert(pk * (c[k - 1] + x * e1) == c[k - 1] * pk + (x * pk) * e1) by (nonlinear_arith);
    }
}

proof fn lemma_reduced_terms(c: Seq<nat>, x: nat, p: nat, k: int)
    requires
        p > 0,
        0 <= k <= c.len(),
    ensures
        reduced_terms(c, x, p, k) as int % p as int == power_terms(
            Seq::new(c.len(), |i: int| c[i] as int),
            x as int,
            k,
        ) % p as int,
    decreases k,
{
    let ci = Seq::new(c.len(), |i: int| c[i] as int);
    if k == 0 {
    } else {
        lemma_reduced_terms(c, x, p, k - 1);
        lemma_pow_nonneg(x as int, k as nat);
        let t = c[k - 1] * pow(x as int, k as nat);
        assert(t >= 0) by (nonlinear_arith)
            requires
                pow(x as int, k as nat) >= 0,
                t == c[k - 1] * pow(x as int, k as nat),
        ;
        let a = reduced_terms(c, x, p, k - 1) as int;
        let b = power_terms(ci, x as int, k - 1);
        lemma_mod_twice(t, p as int);
        lemma_add_mod_noop(a, t % (p as int), p as int);
        lemma_add_mod_noop(b, t, p as int);
        lemma_add_mod_noop(a, t, p as int);
    }
}

/// A share value is the polynomial's value modulo `p`.
pub proof fn lemma_share_value_poly(secret: nat, c: Seq<nat>, x: nat, p: nat)
    requires
        p > 0,
    ensures
        share_value(secret, c, x, p) as int == poly_eval(polynomial_of(secret, c), x as int) % (
        p as int),
{
    let f = polynomial_of(secret, c);
    let ci = Seq::new(c.len(), |i: int| c[i] as int);
    assert(f.drop_first() == ci);
    lemma_reduced_terms(c, x, p, c.len() as int);
    lemma_power_terms_horner(ci, x as int, c.len() as int);
    assert(ci.skip(c.len() as int).len() == 0);
    let pe = pow(x as int, (c.len() + 1) as nat);
    assert(pe * 0 == 0) by (nonlinear_arith);
    let r = reduced_terms(c, x, p, c.len() as int) as int;
    let w = power_terms(ci, x as int, c.len() as int);
    lemma_add_mod_noop(r, secret as int, p as int);
    lemma_add_mod_noop(w, secret as int, p as int);
    assert(poly_eval(f, x as int) == secret + x * poly_eval(ci, x as int));
}

/// Numerators and denominators of the basis, read as integers.
proof fn lemma_basis_parts(xs: Seq<nat>, i: int, k: int, p: nat)
    requires
        p > 1,
        0 <= i < xs.len(),
        0 <= k <= xs.len(),
        xs.no_duplicates(),
        forall|j: int| 0 <= j < xs.len() ==> #[trigger] xs[j] <= p,
    ensures
        ({
            let xi = as_ints(xs);
            let num = basis_numerator(xs, i, k, p) as int;
            let den = basis_denominator(xs, i, k) as int;
            let d = prod_except(xi, i, k, xi[i]);
            let z = prod_except(xi, i, k, 0);
            &&& (num * d) % (p as int) == (z * den) % (p as int)
            &&& den == d || den == -d
        }),
    decreases k,
{
    let xi = as_ints(xs);
    let m = p as int;
    if k == 0 {
        assert(1int * 1 == 1);
    } else {
        lemma_basis_parts(xs, i, k - 1, p);
        let num0 = basis_numerator(xs, i, k - 1, p) as int;
        let den0 = basis_denominator(xs, i, k - 1) as int;
        let d0 = prod_except(xi, i, k - 1, xi[i]);
        let z0 = prod_except(xi, i, k - 1, 0);
        if k - 1 == i {
            assert(xs[k - 1] == xs[i]);
        } else {
            assert(xs[k - 1] != xs[i]);
            let a = xs[i] as int;
            let b = xs[k - 1] as int;
            let nf = num_factor(xs[i], xs[k - 1], p) as int;
            let df = den_factor(xs[i], xs[k - 1]) as int;
            // nf * (a - b) ≡ (0 - b) * df
            if a < b {
                lemma_mod_twice(b, m);
                lemma_mul_cong(b % m, b, a - b, m);
                assert(b * (a - b) == (0 - b) * df) by (nonlinear_arith)
                    requires
                        df == b - a,
                ;
                assert((nf * (a - b)) % m == ((0 - b) * df) % m);
            } else {
                assert(nf * (a - b) == m * (a - b) + (0 - b) * df) by (nonlinear_arith)
                    requires
                        nf == m - b,
                        df == a - b,
                ;
                lemma_mod_multiples_vanish(a - b, (0 - b) * df, m);
            }
            // multiply the congruences
            let lhs0 = num0 * d0;
            let rhs0 = z0 * den0;
            let lf = nf * (a - b);
            let rf = (0 - b) * df;
            lemma_mul_cong(lhs0, rhs0, lf, m);
            lemma_mul_cong(lf, rf, rhs0, m);
            assert((num0 * nf) * ((a - b) * d0) == (num0 * d0) * (nf * (a - b))) by (nonlinear_arith);
            assert(((0 - b) * z0) * (den0 * df) == ((0 - b) * df) * (z0 * den0)) by (nonlinear_arith);
            assert((nf * (a - b)) * (z0 * den0) == (z0 * den0) * (nf * (a - b))) by (nonlinear_arith);
            assert(den0 * df == d0 * (a - b) || den0 * df == -(d0 * (a - b))) by (nonlinear_arith)
                requires
                    den0 == d0 || den0 == -d0,
                    df == a - b || df == b - a,
            ;
            assert((a - b) * d0 == d0 * (a - b)) by (nonlinear_arith);
        }
    }
}

/// Without duplicates, value equality of nodes is index equality.
proof fn lemma_no_dup_index(xs: Seq<nat>, i: int, j: int)
    requires
        xs.no_duplicates(),
        0 <= i < xs.len(),
        0 <= j < xs.len(),
    ensures
        (xs[i] == xs[j]) == (i == j),
{
}

/// The denominators are products of numbers in `[1, p)`, hence prime to `p`.
proof fn lemma_denominator_coprime(xs: Seq<nat>, i: int, k: int, p: nat)
    requires
        is_prime(p),
        0 <= i < xs.len(),
        0 <= k <= xs.len(),
        forall|j: int| 0 <= j < xs.len() ==> 1 <= #[trigger] xs[j] <= p,
    ensures
        basis_denominator(xs, i, k) % p != 0,
    decreases k,
{
    if k == 0 {
        lemma_small_mod(1, p);
    } else {
        lemma_denominator_coprime(xs, i, k - 1, p);
        if xs[k - 1] != xs[i] {
            let f = den_factor(xs[i], xs[k - 1]);
            assert(1 <= xs[k - 1] <= p);
            assert(0 < f < p);
            lemma_small_mod(f, p);
            lemma_prime_product(basis_denominator(xs, i, k - 1), f, p);
        }
    }
}

proof fn lemma_secret_from_sum(xs: Seq<nat>, ys: Seq<nat>, p: nat, k: int)
    requires
        p > 0,
        0 <= k <= xs.len(),
        k <= ys.len(),
    ensures
        secret_from(xs, ys, p, k) as int == weighted_sum(
            as_ints(ys),
            Seq::new(xs.len(), |i: int| basis_value(xs, i, p) as int),
            k,
        ) % (p as int),
    decreases k,
{
    if k == 0 {
        lemma_small_mod(0, p);
    } else {
        lemma_secret_from_sum(xs, ys, p, k - 1);
        let ws = Seq::new(xs.len(), |i: int| basis_value(xs, i, p) as int);
        let w0 = weighted_sum(as_ints(ys), ws, k - 1);
        let t = (ys[k - 1] * basis_value(xs, k - 1, p)) as int;
        assert(as_ints(ys)[k - 1] * ws[k - 1] == t);
        assert(secret_from(xs, ys, p, k) as int == ((secret_from(xs, ys, p, k - 1) as int) + t) % (
        p as int));
        lemma_add_mod_noop(w0, t, p as int);
        lemma_mod_twice(w0, p as int);
        lemma_add_mod_noop(w0 % (p as int), t, p as int);
        assert(weighted_sum(as_ints(ys), ws, k) == w0 + t);
    }
}

proof fn lemma_basis_total_sum(xs: Seq<nat>, p: nat, k: int)
    requires
        0 <= k <= xs.len(),
    ensures
        basis_total(xs, p, k) as int == weighted_sum(
            Seq::new(xs.len(), |i: int| 1int),
            Seq::new(xs.len(), |i: int| basis_value(xs, i, p) as int),
            k,
        ),
    decreases k,
{
    if k > 0 {
        lemma_basis_total_sum(xs, p, k - 1);
        let b = basis_value(xs, k - 1, p) as int;
        assert(1int * b == b);
    }
}

/// Shamir's scheme is correct: for a prime `p`, a secret below `p` and a
/// polynomial with `c.len() + 1 >= 2` coefficients, any shares
/// `(x, f(x) mod p)` at distinct `x` in `1..=n`, `n <= p`, at least as many as
/// the coefficients, pass every check of `reconstruct` and give the secret.
pub proof fn lemma_reconstruct_recovers_secret(
    secret: nat,
    c: Seq<nat>,
    p: nat,
    n: nat,
    xs: Seq<nat>,
    ys: Seq<nat>,
)
    requires
        is_prime(p),
        secret < p,
        c.len() >= 1,
        n <= p,
        xs.len() == ys.len(),
        xs.len() >= c.len() + 1,
        xs.no_duplicates(),
        forall|i: int| 0 <= i < xs.len() ==> 1 <= #[trigger] xs[i] <= n,
        forall|i: int| 0 <= i < xs.len() ==> #[trigger] ys[i] == share_value(secret, c, xs[i], p),
    ensures
        reconstruct_error(xs, ys, p) is None,
        secret_from(xs, ys, p, xs.len() as int) == secret,
{
    let k = xs.len() as int;
    let m = p as int;
    let xi = as_ints(xs);
    // at most n distinct nodes in 1..=n
    assert(xi.no_duplicates());
    lemma_distinct_in_range(xi, 1, n as int + 1);
    assert forall|i: int| 0 <= i < k implies !#[trigger] has_duplicate(xs, i) by {
        if has_duplicate(xs, i) {
            let j = choose|j: int| 0 <= j < xs.len() && j != i && #[trigger] xs[j] == xs[i];
            lemma_no_dup_index(xs, i, j);
        }
    }
    // every denominator is invertible
    let us = Seq::new(xs.len(), |i: int| inverse_mod(basis_denominator(xs, i, k), p) as int);
    assert forall|i: int| 0 <= i < k implies #[trigger] invertible_at(xs, p, i) by {
        lemma_denominator_coprime(xs, i, k, p);
        lemma_prime_coprime(basis_denominator(xs, i, k), p);
    }
    // the basis values are Lagrange weights
    let ws = Seq::new(xs.len(), |i: int| basis_value(xs, i, p) as int);
    let signed = Seq::new(
        xs.len(),
        |i: int|
            if basis_denominator(xs, i, k) as int == prod_except(xi, i, k, xi[i]) {
                us[i]
            } else {
                -us[i]
            },
    );
    assert forall|i: int| 0 <= i < k implies {
        &&& (#[trigger] ws[i] * prod_except(xi, i, k, xi[i])) % m == prod_except(xi, i, k, 0) % m
        &&& (signed[i] * prod_except(xi, i, k, xi[i])) % m == 1
    } by {
        lemma_basis_parts(xs, i, k, p);
        let num = basis_numerator(xs, i, k, p) as int;
        let den = basis_denominator(xs, i, k) as int;
        let d = prod_except(xi, i, k, xi[i]);
        let z = prod_except(xi, i, k, 0);
        let u = us[i];
        assert(invertible_at(xs, p, i));
        lemma_inverse_exists(den as nat, p);
        assert((den * u) % m == 1);
        // signed[i] * d == u * den
        assert(signed[i] * d == u * den) by (nonlinear_arith)
            requires
                den == d || den == -d,
                den == d ==> signed[i] == u,
                den != d ==> signed[i] == -u,
        ;
        assert(u * den == den * u) by (nonlinear_arith);
        // ws[i] ≡ num * u, so ws[i] * d ≡ num * d * u ≡ z * den * u ≡ z
        let w = ws[i];
        assert(w == ((num % m) * u) % m);
        lemma_mul_mod_noop_left(num, u, m);
        assert(w % m == (num * u) % m) by {
            lemma_mod_twice((num % m) * u, m);
        }
        lemma_mul_cong(w, num * u, d, m);
        assert((num * u) * d == (num * d) * u) by (nonlinear_arith);
        lemma_mul_cong(num * d, z * den, u, m);
        assert((z * den) * u == z * (den * u)) by (nonlinear_arith);
        lemma_mul_mod_noop_right(z, den * u, m);
        assert(z * 1 == z);
    }
    assert forall|i: int| 0 <= i < k implies (#[trigger] signed[i] * prod_except(xi, i, k, xi[i]))
        % m == 1 by {
        assert((ws[i] * prod_except(xi, i, k, xi[i])) % m == prod_except(xi, i, k, 0) % m);
    }
    assert(lagrange_weights(m, xi, ws));
    assert(node_inverses(m, xi, signed));
    // the secret
    let f = polynomial_of(secret, c);
    let yi = as_ints(ys);
    assert forall|i: int| 0 <= i < k implies #[trigger] yi[i] % m == poly_eval(f, xi[i]) % m by {
        lemma_share_value_poly(secret, c, xs[i], p);
        lemma_mod_twice(poly_eval(f, xi[i]), m);
    }
    lemma_lagrange_at_zero(m, f, xi, yi, ws, signed);
    lemma_secret_from_sum(xs, ys, p, k);
    assert(poly_eval(f, 0) == secret + 0 * poly_eval(f.drop_first(), 0));
    assert(0 * poly_eval(f.drop_first(), 0) == 0);
    lemma_small_mod(secret, p);
    // the weights sum to one
    let one = seq![1int];
    let ones = Seq::new(xs.len(), |i: int| 1int);
    assert forall|i: int| 0 <= i < k implies #[trigger] ones[i] % m == poly_eval(one, xi[i]) % m by {
        assert(poly_eval(one, xi[i]) == 1 + xi[i] * poly_eval(one.drop_first(), xi[i]));
        assert(xi[i] * 0 == 0);
    }
    lemma_lagrange_at_zero(m, one, xi, ones, ws, signed);
    assert(poly_eval(one, 0) == 1 + 0 * poly_eval(one.drop_first(), 0));
    assert(0 * poly_eval(one.drop_first(), 0) == 0);
    lemma_small_mod(1, p);
    lemma_basis_total_sum(xs, p, k);
}

/// A product of two integers that a prime does not divide is not divisible by it.
proof fn lemma_int_prime_product(a: int, b: int, p: nat)
    requires
        is_prime(p),
        a % (p as int) != 0,
        b % (p as int) != 0,
    ensures
        (a * b) % (p as int) != 0,
{
    let m = p as int;
    lemma_mul_mod_noop(a, b, m);
    lemma_mod_bound(a, m);
    lemma_mod_bound(b, m);
    let ra = (a % m) as nat;
    let rb = (b % m) as nat;
    lemma_small_mod(ra, p);
    lemma_small_mod(rb, p);
    lemma_prime_product(ra, rb, p);
}

/// Distinct nodes in `[0, p)` have a denominator `Π_{j≠i}(x_i - x_j)` prime to `p`.
proof fn lemma_node_denominator(xs: Seq<int>, i: int, k: int, p: nat)
    requires
        is_prime(p),
        0 <= i < xs.len(),
        0 <= k <= xs.len(),
        xs.no_duplicates(),
        forall|j: int| 0 <= j < xs.len() ==> 0 <= #[trigger] xs[j] < p,
    ensures
        prod_except(xs, i, k, xs[i]) % (p as int) != 0,
    decreases k,
{
    let m = p as int;
    if k == 0 {
        lemma_small_mod(1, p);
    } else {
        lemma_node_denominator(xs, i, k - 1, p);
        if k - 1 != i {
            let d = xs[i] - xs[k - 1];
            assert(xs[i] != xs[k - 1]);
            assert(d % m != 0) by {
                if d > 0 {
                    lemma_small_mod(d as nat, p);
                } else {
                    lemma_fundamental_div_mod_converse(d, m, -1, d + m);
                }
            }
            lemma_int_prime_product(d, prod_except(xs, i, k - 1, xs[i]), p);
        }
    }
}

/// The polynomial `f` padded with zero coefficients to `n` of them.
pub open spec fn padded(f: Seq<int>, n: nat) -> Seq<int> {
    Seq::new(n, |j: int| if j < f.len() { f[j] } else { 0 })
}

/// Zero coefficients appended to a polynomial do not change its values.
proof fn lemma_padded(f: Seq<int>, n: nat, z: int)
    requires
        f.len() <= n,
    ensures
        poly_eval(padded(f, n), z) == poly_eval(f, z),
    decreases n,
{
    let g = padded(f, n);
    if n > 0 {
        let f1 = if f.len() == 0 {
            f
        } else {
            f.drop_first()
        };
        lemma_padded(f1, (n - 1) as nat, z);
        assert(g.drop_first() =~= padded(f1, (n - 1) as nat));
        if f.len() == 0 {
            assert(g[0] == 0);
            assert(poly_eval(g, z) == 0 + z * poly_eval(g.drop_first(), z));
            assert(z * 0 == 0) by (nonlinear_arith);
        }
    }
}

/// Polynomials whose coefficients agree modulo `m` agree modulo `m` everywhere.
proof fn lemma_poly_eval_cong(a: Seq<int>, b: Seq<int>, z: int, m: int)
    requires
        m > 0,
        a.len() == b.len(),
        forall|j: int| 0 <= j < a.len() ==> #[trigger] a[j] % m == b[j] % m,
    ensures
        poly_eval(a, z) % m == poly_eval(b, z) % m,
    decreases a.len(),
{
    if a.len() > 0 {
        let a1 = a.drop_first();
        let b1 = b.drop_first();
        assert forall|j: int| 0 <= j < a1.len() implies #[trigger] a1[j] % m == b1[j] % m by {
            assert(a1[j] == a[j + 1] && b1[j] == b[j + 1]);
        }
        lemma_poly_eval_cong(a1, b1, z, m);
        let ea = poly_eval(a1, z);
        let eb = poly_eval(b1, z);
        lemma_mul_cong(ea, eb, z, m);
        assert(ea * z == z * ea && eb * z == z * eb) by (nonlinear_arith);
        lemma_add_cong(a[0], b[0], z * ea, z * eb, m);
    }
}

/// Fewer shares than the threshold say nothing of the secret: for a prime
/// `p`, any `k - 1 >= 1` shares at distinct points in `[1, p)`, any candidate
/// secret below `p` and any further point `x` in `[1, p]`, there is a `k`-th
/// share `(x, y)` that completes them to `k` shares of one polynomial with
/// that secret, so that reconstruction accepts them and returns that secret.
pub proof fn lemma_shares_hide_secret(p: nat, xs: Seq<nat>, ys: Seq<nat>, secret: nat, x: nat) -> (y:
    nat)
    requires
        is_prime(p),
        secret < p,
        xs.len() >= 1,
        xs.len() == ys.len(),
        xs.no_duplicates(),
        !xs.contains(x),
        1 <= x <= p,
        forall|i: int| 0 <= i < xs.len() ==> 1 <= #[trigger] xs[i] < p,
        forall|i: int| 0 <= i < ys.len() ==> #[trigger] ys[i] < p,
    ensures
        y < p,
        reconstruct_error(xs.push(x), ys.push(y), p) is None,
        secret_from(xs.push(x), ys.push(y), p, xs.len() + 1int) == secret,
{
    let m = p as int;
    let k = xs.len() + 1;
    // interpolation nodes: 0 and the given points
    let nodes = seq![0int] + as_ints(xs);
    let vals = seq![secret as int] + as_ints(ys);
    assert(nodes.len() == k);
    assert forall|j: int| 0 <= j < k implies 0 <= #[trigger] nodes[j] < p by {
        if j > 0 {
            assert(nodes[j] == xs[j - 1]);
        }
    }
    assert(nodes.no_duplicates()) by {
        assert forall|i: int, j: int| 0 <= i < k && 0 <= j < k && i != j implies nodes[i]
            != nodes[j] by {
            if i > 0 && j > 0 {
                assert(nodes[i] == xs[i - 1] && nodes[j] == xs[j - 1]);
            } else if i > 0 {
                assert(nodes[i] == xs[i - 1]);
            } else {
                assert(nodes[j] == xs[j - 1]);
            }
        }
    }
    // the inverse of every denominator
    let dens = Seq::new(k as nat, |i: int| prod_except(nodes, i, k as int, nodes[i]));
    let us = Seq::new(k as nat, |i: int| inverse_mod((dens[i] % m) as nat, p) as int);
    assert forall|i: int| 0 <= i < k implies (#[trigger] us[i] * dens[i]) % m == 1 by {
        lemma_node_denominator(nodes, i, k as int, p);
        lemma_mod_bound(dens[i], m);
        let r = (dens[i] % m) as nat;
        lemma_small_mod(r, p);
        lemma_prime_coprime(r, p);
        lemma_inverse_exists(r, p);
        lemma_mul_mod_noop_right(us[i], dens[i], m);
        assert(us[i] * (r as int) == (r as int) * us[i]) by (nonlinear_arith);
    }
    // the interpolating polynomial
    let cs = Seq::new(k as nat, |i: int| vals[i] * us[i]);
    let f = interp_poly(nodes, cs, k as int);
    lemma_interp_poly(nodes, cs, k as int, 0);
    assert forall|t: int| 0 <= t < k implies #[trigger] poly_eval(f, nodes[t]) % m == vals[t] % m by {
        lemma_interp_poly(nodes, cs, k as int, nodes[t]);
        lemma_interp_sum_at_node(nodes, cs, k as int, t);
        let d = dens[t];
        assert((vals[t] * us[t]) * d == vals[t] * (us[t] * d)) by (nonlinear_arith);
        lemma_mul_mod_noop_right(vals[t], us[t] * d, m);
        assert(vals[t] * 1 == vals[t]);
    }
    let g = padded(f, k as nat);
    // its coefficients of degree 1 ..= k - 1, reduced
    let c = Seq::new(xs.len(), |j: int| (g[j + 1] % m) as nat);
    let h = polynomial_of(secret, c);
    assert forall|j: int| 0 <= j < k implies #[trigger] h[j] % m == g[j] % m by {
        if j == 0 {
            lemma_padded(f, k as nat, 0);
            assert(poly_eval(g, 0) == g[0] + 0 * poly_eval(g.drop_first(), 0));
            assert(0 * poly_eval(g.drop_first(), 0) == 0);
            assert(nodes[0] == 0 && vals[0] == secret);
            lemma_small_mod(secret, p);
        } else {
            assert(h[j] == c[j - 1]);
            lemma_mod_bound(g[j], m);
            lemma_mod_twice(g[j], m);
        }
    }
    // the shares of that polynomial
    assert forall|z: int| #[trigger] poly_eval(h, z) % m == poly_eval(f, z) % m by {
        lemma_poly_eval_cong(h, g, z, m);
        lemma_padded(f, k as nat, z);
    }
    let xs2 = xs.push(x);
    let y = share_value(secret, c, x, p);
    lemma_share_value_poly(secret, c, x, p);
    lemma_mod_bound(poly_eval(h, x as int), m);
    let ys2 = ys.push(y);
    assert forall|i: int| 0 <= i < xs2.len() implies #[trigger] ys2[i] == share_value(
        secret,
        c,
        xs2[i],
        p,
    ) by {
        if i < xs.len() {
            assert(xs2[i] == xs[i] && ys2[i] == ys[i]);
            lemma_share_value_poly(secret, c, xs[i], p);
            assert(nodes[i + 1] == xs[i] && vals[i + 1] == ys[i]);
            assert(poly_eval(h, xs[i] as int) % m == poly_eval(f, nodes[i + 1]) % m);
            lemma_small_mod(ys[i], p);
        }
    }
    assert(xs2.no_duplicates()) by {
        assert forall|i: int, j: int| 0 <= i < xs2.len() && 0 <= j < xs2.len() && i != j implies
            xs2[i] != xs2[j] by {
            if i < xs.len() && j < xs.len() {
                assert(xs2[i] == xs[i] && xs2[j] == xs[j]);
            } else if i < xs.len() {
                assert(xs2[i] == xs[i]);
                assert(xs.contains(xs[i]));
            } else {
                assert(xs2[j] == xs[j]);
                assert(xs.contains(xs[j]));
            }
        }
    }
    assert forall|i: int| 0 <= i < xs2.len() implies 1 <= #[trigger] xs2[i] <= p by {
        if i < xs.len() {
            assert(xs2[i] == xs[i]);
        }
    }
    lemma_reconstruct_recovers_secret(secret, c, p, p, xs2, ys2);
    y
}

} // verus!
