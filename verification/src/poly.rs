//! Polynomials over the integers, read modulo `m`, and Lagrange interpolation at zero.
//!
//! The main result, [`lemma_lagrange_at_zero`], says that combining the values
//! of a polynomial of fewer than `n` coefficients at `n` nodes with the
//! Lagrange weights of those nodes gives its value at zero, modulo `m`.

use vstd::arithmetic::div_mod::*;
use vstd::arithmetic::mul::*;
use vstd::arithmetic::power::pow;
use vstd::prelude::*;

verus! {

/// The value at `z` of the polynomial whose coefficients are `c`, constant term first.
pub open spec fn poly_eval(c: Seq<int>, z: int) -> int
    decreases c.len(),
{
    if c.len() == 0 {
        0
    } else {
        c[0] + z * poly_eval(c.drop_first(), z)
    }
}

/// Coefficient-wise sum of two polynomials.
pub open spec fn poly_add(a: Seq<int>, b: Seq<int>) -> Seq<int>
    decreases a.len() + b.len(),
{
    if a.len() == 0 {
        b
    } else if b.len() == 0 {
        a
    } else {
        seq![a[0] + b[0]] + poly_add(a.drop_first(), b.drop_first())
    }
}

/// A polynomial multiplied by the constant `k`.
pub open spec fn poly_scale(k: int, a: Seq<int>) -> Seq<int>
    decreases a.len(),
{
    if a.len() == 0 {
        a
    } else {
        seq![k * a[0]] + poly_scale(k, a.drop_first())
    }
}

/// The polynomial `(z - a) * c(z)`.
pub open spec fn poly_mul_linear(c: Seq<int>, a: int) -> Seq<int> {
    poly_add(seq![0int] + c, poly_scale(-a, c))
}

/// The quotient of `c(z) - c(a)` by `z - a` (synthetic division).
pub open spec fn poly_quotient(c: Seq<int>, a: int) -> Seq<int>
    decreases c.len(),
{
    if c.len() <= 1 {
        Seq::<int>::empty()
    } else {
        poly_add(c.drop_first(), poly_scale(a, poly_quotient(c.drop_first(), a)))
    }
}

pub proof fn lemma_eval_cons(x: int, t: Seq<int>, z: int)
    ensures
        poly_eval(seq![x] + t, z) == x + z * poly_eval(t, z),
{
    assert((seq![x] + t).drop_first() == t);
}

pub proof fn lemma_poly_add(a: Seq<int>, b: Seq<int>, z: int)
    ensures
        poly_eval(poly_add(a, b), z) == poly_eval(a, z) + poly_eval(b, z),
        poly_add(a, b).len() == if a.len() >= b.len() {
            a.len()
        } else {
            b.len()
        },
    decreases a.len() + b.len(),
{
    if a.len() > 0 && b.len() > 0 {
        lemma_poly_add(a.drop_first(), b.drop_first(), z);
        let t = poly_add(a.drop_first(), b.drop_first());
        lemma_eval_cons(a[0] + b[0], t, z);
        let ea = poly_eval(a.drop_first(), z);
        let eb = poly_eval(b.drop_first(), z);
        assert(z * (ea + eb) == z * ea + z * eb) by (nonlinear_arith);
    }
}

pub proof fn lemma_poly_scale(k: int, a: Seq<int>, z: int)
    ensures
        poly_eval(poly_scale(k, a), z) == k * poly_eval(a, z),
        poly_scale(k, a).len() == a.len(),
    decreases a.len(),
{
    if a.len() > 0 {
        lemma_poly_scale(k, a.drop_first(), z);
        lemma_eval_cons(k * a[0], poly_scale(k, a.drop_first()), z);
        let e = poly_eval(a.drop_first(), z);
        assert(k * a[0] + z * (k * e) == k * (a[0] + z * e)) by (nonlinear_arith);
    }
}

pub proof fn lemma_poly_mul_linear(c: Seq<int>, a: int, z: int)
    ensures
        poly_eval(poly_mul_linear(c, a), z) == (z - a) * poly_eval(c, z),
        poly_mul_linear(c, a).len() == c.len() + 1,
{
    lemma_poly_add(seq![0int] + c, poly_scale(-a, c), z);
    lemma_poly_scale(-a, c, z);
    lemma_eval_cons(0, c, z);
    let e = poly_eval(c, z);
    assert(0 + z * e + (-a) * e == (z - a) * e) by (nonlinear_arith);
}

/// Synthetic division: `c(z) - c(a) == (z - a) * q(z)` with `q` one coefficient shorter.
pub proof fn lemma_poly_quotient(c: Seq<int>, a: int, z: int)
    ensures
        poly_eval(c, z) - poly_eval(c, a) == (z - a) * poly_eval(poly_quotient(c, a), z),
        c.len() >= 1 ==> poly_quotient(c, a).len() == c.len() - 1,
        c.len() == 0 ==> poly_quotient(c, a).len() == 0,
    decreases c.len(),
{
    if c.len() == 0 {
        assert((z - a) * 0 == 0) by (nonlinear_arith);
    } else if c.len() == 1 {
        assert(c.drop_first().len() == 0);
        assert((z - a) * 0 == 0 && z * 0 == 0 && a * 0 == 0) by (nonlinear_arith);
        assert(poly_eval(c.drop_first(), z) == 0);
        assert(poly_eval(c.drop_first(), a) == 0);
        assert(poly_eval(c, z) == c[0]);
        assert(poly_eval(c, a) == c[0]);
    } else {
        let t = c.drop_first();
        let q1 = poly_quotient(t, a);
        lemma_poly_quotient(t, a, z);
        lemma_poly_scale(a, q1, z);
        lemma_poly_add(t, poly_scale(a, q1), z);
        let tz = poly_eval(t, z);
        let ta = poly_eval(t, a);
        let qz = poly_eval(q1, z);
        assert(c[0] + z * tz - (c[0] + a * ta) == (z - a) * (tz + a * qz)) by (nonlinear_arith)
            requires
                tz - ta == (z - a) * qz,
        ;
        assert(poly_eval(c, z) == c[0] + z * tz);
        assert(poly_eval(c, a) == c[0] + a * ta);
        assert(poly_eval(poly_quotient(c, a), z) == tz + a * qz);
    }
}

/// `d` has an inverse modulo `m`.
pub open spec fn invertible_mod(d: int, m: int) -> bool {
    exists|u: int| #[trigger] ((d * u) % m) == 1
}

/// Cancelling an invertible factor: `d * q ≡ 0` and `d * u ≡ 1` give `q ≡ 0`.
pub proof fn lemma_cancel_invertible(d: int, q: int, u: int, m: int)
    requires
        m > 1,
        (d * q) % m == 0,
        (d * u) % m == 1,
    ensures
        q % m == 0,
{
    assert(q * (d * u) == (d * q) * u) by (nonlinear_arith);
    lemma_mul_mod_noop_right(q, d * u, m);
    lemma_mul_mod_noop_left(d * q, u, m);
    assert(q * 1 == q);
    assert(0 * u == 0);
    lemma_small_mod(0, m as nat);
}

/// A polynomial with at most `n` coefficients that vanishes modulo `m` at `n`
/// nodes whose pairwise differences are invertible vanishes everywhere.
pub proof fn lemma_few_roots(m: int, c: Seq<int>, xs: Seq<int>, z: int)
    requires
        m > 1,
        c.len() <= xs.len(),
        forall|i: int| 0 <= i < xs.len() ==> #[trigger] poly_eval(c, xs[i]) % m == 0,
        forall|i: int, j: int|
            0 <= i < xs.len() && 0 <= j < xs.len() && i != j ==> invertible_mod(
                #[trigger] xs[i] - #[trigger] xs[j],
                m,
            ),
    ensures
        poly_eval(c, z) % m == 0,
    decreases xs.len(),
{
    if c.len() == 0 {
        lemma_small_mod(0, m as nat);
    } else {
        let n = xs.len() as int;
        let a = xs[n - 1];
        let q = poly_quotient(c, a);
        let ys = xs.take(n - 1);
        assert forall|i: int| 0 <= i < ys.len() implies #[trigger] poly_eval(q, ys[i]) % m
            == 0 by {
            let x = xs[i];
            assert(ys[i] == x);
            lemma_poly_quotient(c, a, x);
            assert(poly_eval(c, x) % m == 0);
            assert(poly_eval(c, a) % m == 0);
            lemma_sub_mod_noop(poly_eval(c, x), poly_eval(c, a), m);
            lemma_small_mod(0, m as nat);
            assert(invertible_mod(xs[i] - xs[n - 1], m));
            let u = choose|u: int| #[trigger] (((x - a) * u) % m) == 1;
            lemma_cancel_invertible(x - a, poly_eval(q, x), u, m);
        }
        assert forall|i: int, j: int|
            0 <= i < ys.len() && 0 <= j < ys.len() && i != j implies invertible_mod(
            #[trigger] ys[i] - #[trigger] ys[j],
            m,
        ) by {
            assert(ys[i] == xs[i] && ys[j] == xs[j]);
        }
        lemma_poly_quotient(c, a, z);
        lemma_few_roots(m, q, ys, z);
        let qz = poly_eval(q, z);
        assert(poly_eval(c, a) % m == 0);
        lemma_mul_mod_noop_right(z - a, qz, m);
        assert((z - a) * 0 == 0) by (nonlinear_arith);
        lemma_small_mod(0, m as nat);
        lemma_add_mod_noop(poly_eval(c, a), (z - a) * qz, m);
    }
}

/// `a ≡ b (mod m)` gives `a * c ≡ b * c (mod m)`.
pub proof fn lemma_mul_cong(a: int, b: int, c: int, m: int)
    requires
        m > 0,
        a % m == b % m,
    ensures
        (a * c) % m == (b * c) % m,
{
    lemma_mul_mod_noop_left(a, c, m);
    lemma_mul_mod_noop_left(b, c, m);
}

/// `a ≡ b` and `c ≡ d (mod m)` give `a + c ≡ b + d (mod m)`.
pub proof fn lemma_add_cong(a: int, b: int, c: int, d: int, m: int)
    requires
        m > 0,
        a % m == b % m,
        c % m == d % m,
    ensures
        (a + c) % m == (b + d) % m,
{
    lemma_add_mod_noop(a, c, m);
    lemma_add_mod_noop(b, d, m);
}

/// The product of `z - xs[j]` over `j < k`, `j != i`.
pub open spec fn prod_except(xs: Seq<int>, i: int, k: int, z: int) -> int
    decreases k,
{
    if k <= 0 {
        1
    } else if k - 1 == i {
        prod_except(xs, i, k - 1, z)
    } else {
        (z - xs[k - 1]) * prod_except(xs, i, k - 1, z)
    }
}

/// The coefficients of the polynomial `z ↦ prod_except(xs, i, k, z)`.
pub open spec fn prod_except_poly(xs: Seq<int>, i: int, k: int) -> Seq<int>
    decreases k,
{
    if k <= 0 {
        seq![1int]
    } else if k - 1 == i {
        prod_except_poly(xs, i, k - 1)
    } else {
        poly_mul_linear(prod_except_poly(xs, i, k - 1), xs[k - 1])
    }
}

pub proof fn lemma_prod_except_poly(xs: Seq<int>, i: int, k: int, z: int)
    requires
        0 <= k,
    ensures
        poly_eval(prod_except_poly(xs, i, k), z) == prod_except(xs, i, k, z),
        prod_except_poly(xs, i, k).len() == if 0 <= i < k {
            k
        } else {
            k + 1
        },
    decreases k,
{
    if k == 0 {
        lemma_eval_cons(1, Seq::<int>::empty(), z);
        assert(seq![1int] + Seq::<int>::empty() == seq![1int]);
        assert(z * 0 == 0) by (nonlinear_arith);
    } else {
        lemma_prod_except_poly(xs, i, k - 1, z);
        if k - 1 != i {
            lemma_poly_mul_linear(prod_except_poly(xs, i, k - 1), xs[k - 1], z);
        }
    }
}

/// `prod_except` vanishes at every other node.
pub proof fn lemma_prod_except_vanishes(xs: Seq<int>, i: int, k: int, t: int)
    requires
        0 <= t < k,
        t != i,
    ensures
        prod_except(xs, i, k, xs[t]) == 0,
    decreases k,
{
    if k - 1 == t {
        let r = prod_except(xs, i, k - 1, xs[t]);
        assert((xs[t] - xs[k - 1]) * r == 0) by (nonlinear_arith)
            requires
                xs[t] - xs[k - 1] == 0,
        ;
    } else {
        lemma_prod_except_vanishes(xs, i, k - 1, t);
        if k - 1 != i {
            let d = xs[t] - xs[k - 1];
            assert(d * 0 == 0) by (nonlinear_arith);
        }
    }
}

/// Every factor `z - xs[j]`, `j != i`, divides `prod_except(xs, i, k, z)`.
pub proof fn lemma_prod_except_factor(xs: Seq<int>, i: int, j: int, k: int, z: int) -> (r: int)
    requires
        0 <= j < k,
        j != i,
    ensures
        prod_except(xs, i, k, z) == (z - xs[j]) * r,
    decreases k,
{
    if k - 1 == j {
        prod_except(xs, i, k - 1, z)
    } else {
        let r1 = lemma_prod_except_factor(xs, i, j, k - 1, z);
        if k - 1 == i {
            r1
        } else {
            let a = z - xs[k - 1];
            let b = z - xs[j];
            assert(a * (b * r1) == b * (a * r1)) by (nonlinear_arith);
            a * r1
        }
    }
}

/// `Σ_{i<k} cs[i] * prod_except(xs, i, |xs|, z)`.
pub open spec fn interp_sum(xs: Seq<int>, cs: Seq<int>, k: int, z: int) -> int
    decreases k,
{
    if k <= 0 {
        0
    } else {
        interp_sum(xs, cs, k - 1, z) + cs[k - 1] * prod_except(xs, k - 1, xs.len() as int, z)
    }
}

/// The coefficients of `z ↦ interp_sum(xs, cs, k, z)`.
pub open spec fn interp_poly(xs: Seq<int>, cs: Seq<int>, k: int) -> Seq<int>
    decreases k,
{
    if k <= 0 {
        Seq::<int>::empty()
    } else {
        poly_add(
            interp_poly(xs, cs, k - 1),
            poly_scale(cs[k - 1], prod_except_poly(xs, k - 1, xs.len() as int)),
        )
    }
}

pub proof fn lemma_interp_poly(xs: Seq<int>, cs: Seq<int>, k: int, z: int)
    requires
        0 <= k <= xs.len(),
    ensures
        poly_eval(interp_poly(xs, cs, k), z) == interp_sum(xs, cs, k, z),
        interp_poly(xs, cs, k).len() <= xs.len(),
    decreases k,
{
    if k > 0 {
        let n = xs.len() as int;
        lemma_interp_poly(xs, cs, k - 1, z);
        lemma_prod_except_poly(xs, k - 1, n, z);
        lemma_poly_scale(cs[k - 1], prod_except_poly(xs, k - 1, n), z);
        lemma_poly_add(
            interp_poly(xs, cs, k - 1),
            poly_scale(cs[k - 1], prod_except_poly(xs, k - 1, n)),
            z,
        );
    }
}

/// At a node, only that node's own term of `interp_sum` survives.
pub proof fn lemma_interp_sum_at_node(xs: Seq<int>, cs: Seq<int>, k: int, t: int)
    requires
        0 <= k <= xs.len(),
        0 <= t < xs.len(),
    ensures
        interp_sum(xs, cs, k, xs[t]) == if t < k {
            cs[t] * prod_except(xs, t, xs.len() as int, xs[t])
        } else {
            0
        },
    decreases k,
{
    if k > 0 {
        lemma_interp_sum_at_node(xs, cs, k - 1, t);
        if k - 1 != t {
            lemma_prod_except_vanishes(xs, k - 1, xs.len() as int, t);
            assert(cs[k - 1] * 0 == 0) by (nonlinear_arith);
        }
    }
}

/// `Σ_{i<k} ys[i] * ws[i]`.
pub open spec fn weighted_sum(ys: Seq<int>, ws: Seq<int>, k: int) -> int
    decreases k,
{
    if k <= 0 {
        0
    } else {
        weighted_sum(ys, ws, k - 1) + ys[k - 1] * ws[k - 1]
    }
}

/// The Lagrange weights of the nodes `xs` at zero: `w_i * Π_{j≠i}(x_i - x_j) ≡ Π_{j≠i}(-x_j)`.
pub open spec fn lagrange_weights(m: int, xs: Seq<int>, ws: Seq<int>) -> bool {
    &&& ws.len() == xs.len()
    &&& forall|i: int|
        0 <= i < xs.len() ==> (#[trigger] ws[i] * prod_except(xs, i, xs.len() as int, xs[i])) % m
            == prod_except(xs, i, xs.len() as int, 0) % m
}

/// Every node's denominator `Π_{j≠i}(x_i - x_j)` has the inverse `us[i]` modulo `m`.
pub open spec fn node_inverses(m: int, xs: Seq<int>, us: Seq<int>) -> bool {
    &&& us.len() == xs.len()
    &&& forall|i: int|
        0 <= i < xs.len() ==> (#[trigger] us[i] * prod_except(xs, i, xs.len() as int, xs[i])) % m
            == 1
}

proof fn lemma_weighted_sum_cong(ys: Seq<int>, ws: Seq<int>, vs: Seq<int>, k: int, m: int)
    requires
        m > 0,
        0 <= k <= ys.len(),
        k <= ws.len(),
        k <= vs.len(),
        forall|i: int| 0 <= i < k ==> (#[trigger] ws[i]) % m == vs[i] % m,
    ensures
        weighted_sum(ys, ws, k) % m == weighted_sum(ys, vs, k) % m,
    decreases k,
{
    if k > 0 {
        lemma_weighted_sum_cong(ys, ws, vs, k - 1, m);
        assert(ws[k - 1] % m == vs[k - 1] % m);
        lemma_mul_cong(ws[k - 1], vs[k - 1], ys[k - 1], m);
        assert(ws[k - 1] * ys[k - 1] == ys[k - 1] * ws[k - 1]) by (nonlinear_arith);
        assert(vs[k - 1] * ys[k - 1] == ys[k - 1] * vs[k - 1]) by (nonlinear_arith);
        lemma_add_cong(
            weighted_sum(ys, ws, k - 1),
            weighted_sum(ys, vs, k - 1),
            ys[k - 1] * ws[k - 1],
            ys[k - 1] * vs[k - 1],
            m,
        );
    }
}

proof fn lemma_interp_sum_as_weighted(xs: Seq<int>, ys: Seq<int>, us: Seq<int>, k: int)
    requires
        0 <= k <= xs.len(),
        ys.len() == xs.len(),
        us.len() == xs.len(),
    ensures
        interp_sum(xs, Seq::new(xs.len(), |i: int| ys[i] * us[i]), k, 0) == weighted_sum(
            ys,
            Seq::new(xs.len(), |i: int| us[i] * prod_except(xs, i, xs.len() as int, 0)),
            k,
        ),
    decreases k,
{
    if k > 0 {
        lemma_interp_sum_as_weighted(xs, ys, us, k - 1);
        let p = prod_except(xs, k - 1, xs.len() as int, 0);
        assert((ys[k - 1] * us[k - 1]) * p == ys[k - 1] * (us[k - 1] * p)) by (nonlinear_arith);
    }
}

/// Lagrange interpolation at zero: for a polynomial `f` with at most `|xs|`
/// coefficients, values `ys[i] ≡ f(xs[i])` and Lagrange weights `ws` of nodes
/// whose denominators are invertible, `Σ ys[i] * ws[i] ≡ f(0) (mod m)`.
pub proof fn lemma_lagrange_at_zero(
    m: int,
    f: Seq<int>,
    xs: Seq<int>,
    ys: Seq<int>,
    ws: Seq<int>,
    us: Seq<int>,
)
    requires
        m > 1,
        f.len() <= xs.len(),
        ys.len() == xs.len(),
        forall|i: int| 0 <= i < xs.len() ==> #[trigger] ys[i] % m == poly_eval(f, xs[i]) % m,
        lagrange_weights(m, xs, ws),
        node_inverses(m, xs, us),
    ensures
        weighted_sum(ys, ws, xs.len() as int) % m == poly_eval(f, 0) % m,
{
    let n = xs.len() as int;
    let cs = Seq::new(xs.len(), |i: int| ys[i] * us[i]);
    let p = interp_poly(xs, cs, n);
    let g = poly_add(f, poly_scale(-1, p));
    lemma_interp_poly(xs, cs, n, 0);
    lemma_poly_add(f, poly_scale(-1, p), 0);
    lemma_poly_scale(-1, p, 0);
    // g vanishes at every node
    assert forall|t: int| 0 <= t < xs.len() implies #[trigger] poly_eval(g, xs[t]) % m == 0 by {
        let x = xs[t];
        lemma_interp_poly(xs, cs, n, x);
        lemma_poly_add(f, poly_scale(-1, p), x);
        lemma_poly_scale(-1, p, x);
        lemma_interp_sum_at_node(xs, cs, n, t);
        let d = prod_except(xs, t, n, x);
        assert(us[t] * d % m == 1);
        assert((ys[t] * us[t]) * d == ys[t] * (us[t] * d)) by (nonlinear_arith);
        lemma_mul_mod_noop_right(ys[t], us[t] * d, m);
        assert(ys[t] * 1 == ys[t]);
        assert(poly_eval(p, x) == cs[t] * d);
        assert(poly_eval(g, x) == poly_eval(f, x) + (-1) * poly_eval(p, x));
        assert((-1) * poly_eval(p, x) == -poly_eval(p, x));
        lemma_sub_mod_noop(poly_eval(f, x), poly_eval(p, x), m);
        lemma_small_mod(0, m as nat);
    }
    // pairwise differences of nodes are invertible
    assert forall|i: int, j: int|
        0 <= i < xs.len() && 0 <= j < xs.len() && i != j implies invertible_mod(
        #[trigger] xs[i] - #[trigger] xs[j],
        m,
    ) by {
        let r = lemma_prod_except_factor(xs, i, j, n, xs[i]);
        let d = prod_except(xs, i, n, xs[i]);
        assert(us[i] * d % m == 1);
        assert((xs[i] - xs[j]) * (r * us[i]) == us[i] * d) by (nonlinear_arith)
            requires
                d == (xs[i] - xs[j]) * r,
        ;
    }
    lemma_interp_poly(xs, cs, n, 0);
    lemma_few_roots(m, g, xs, 0);
    // hence f(0) ≡ interp_sum(0)
    assert(poly_eval(g, 0) == poly_eval(f, 0) - poly_eval(p, 0));
    lemma_sub_mod_noop(poly_eval(f, 0), poly_eval(p, 0), m);
    lemma_small_mod(0, m as nat);
    assert(poly_eval(f, 0) % m == poly_eval(p, 0) % m) by {
        lemma_fundamental_div_mod(poly_eval(f, 0) - poly_eval(p, 0), m);
        lemma_fundamental_div_mod(poly_eval(f, 0), m);
        lemma_fundamental_div_mod(poly_eval(p, 0), m);
        lemma_mod_sub_eq(poly_eval(f, 0), poly_eval(p, 0), m);
    }
    // the weights agree with us[i] * N_i
    let vs = Seq::new(xs.len(), |i: int| us[i] * prod_except(xs, i, n, 0));
    assert forall|i: int| 0 <= i < n implies (#[trigger] ws[i]) % m == vs[i] % m by {
        let d = prod_except(xs, i, n, xs[i]);
        let nn = prod_except(xs, i, n, 0);
        assert(ws[i] * d % m == nn % m);
        assert(us[i] * d % m == 1);
        lemma_mul_cong(ws[i] * d, nn, us[i], m);
        assert((ws[i] * d) * us[i] == ws[i] * (us[i] * d)) by (nonlinear_arith);
        lemma_mul_mod_noop_right(ws[i], us[i] * d, m);
        assert(ws[i] * 1 == ws[i]);
        assert(nn * us[i] == us[i] * nn) by (nonlinear_arith);
    }
    lemma_weighted_sum_cong(ys, ws, vs, n, m);
    lemma_interp_sum_as_weighted(xs, ys, us, n);
}

/// `a % m == b % m` exactly when `m` divides `a - b`.
pub proof fn lemma_mod_sub_eq(a: int, b: int, m: int)
    requires
        m > 0,
        (a - b) % m == 0,
    ensures
        a % m == b % m,
{
    lemma_fundamental_div_mod(a - b, m);
    lemma_mod_multiples_vanish((a - b) / m, b, m);
    assert(a == m * ((a - b) / m) + b);
}

/// `Σ_{j<k} c[j] * x^j`.
pub open spec fn power_sum(c: Seq<int>, x: int, k: int) -> int
    decreases k,
{
    if k <= 0 {
        0
    } else {
        power_sum(c, x, k - 1) + c[k - 1] * pow(x, (k - 1) as nat)
    }
}

proof fn lemma_power_sum_prefix(c: Seq<int>, x: int, k: int)
    requires
        0 <= k <= c.len(),
    ensures
        poly_eval(c, x) == power_sum(c, x, k) + pow(x, k as nat) * poly_eval(c.skip(k), x),
    decreases k,
{
    reveal(pow);
    if k == 0 {
        assert(c.skip(0) == c);
        let e = poly_eval(c, x);
        assert(1 * e == e);
    } else {
        lemma_power_sum_prefix(c, x, k - 1);
        let t = c.skip(k - 1);
        assert(t.drop_first() == c.skip(k));
        assert(t[0] == c[k - 1]);
        let e1 = poly_eval(c.skip(k), x);
        let p = pow(x, (k - 1) as nat);
        assert(pow(x, k as nat) == x * p);
        assert(p * (c[k - 1] + x * e1) == c[k - 1] * p + (x * p) * e1) by (nonlinear_arith);
    }
}

/// Horner's form and the sum of powers agree.
pub proof fn lemma_power_sum(c: Seq<int>, x: int)
    ensures
        poly_eval(c, x) == power_sum(c, x, c.len() as int),
{
    lemma_power_sum_prefix(c, x, c.len() as int);
    assert(c.skip(c.len() as int).len() == 0);
    let p = pow(x, c.len() as nat);
    assert(p * 0 == 0);
}

/// Power sums are linear: `Σ (a_j + h b_j) x^j == Σ a_j x^j + h Σ b_j x^j`.
pub proof fn lemma_power_sum_linear(a: Seq<int>, b: Seq<int>, d: Seq<int>, h: int, x: int, k: int)
    requires
        0 <= k <= a.len(),
        k <= b.len(),
        k <= d.len(),
        forall|j: int| 0 <= j < k ==> #[trigger] d[j] == a[j] + h * b[j],
    ensures
        power_sum(d, x, k) == power_sum(a, x, k) + h * power_sum(b, x, k),
    decreases k,
{
    if k > 0 {
        lemma_power_sum_linear(a, b, d, h, x, k - 1);
        let p = pow(x, (k - 1) as nat);
        let sb = power_sum(b, x, k - 1);
        assert(d[k - 1] == a[k - 1] + h * b[k - 1]);
        assert((a[k - 1] + h * b[k - 1]) * p == a[k - 1] * p + h * (b[k - 1] * p))
            by (nonlinear_arith);
        assert(h * (sb + b[k - 1] * p) == h * sb + h * (b[k - 1] * p)) by (nonlinear_arith);
    }
}

} // verus!
