//! The correctness of Pedersen sharing: honestly dealt shares pass
//! verification, and enough of them reconstruct the secret.

use crate::arith::{
    le_bytes_fixed, le_value, lemma_le_value_bound, lemma_le_value_injective,
    lemma_pow256_monotonic,
};
use crate::group::{group_order, lemma_group_order_bound, ristretto_log};
use crate::nt::{
    inverse_mod, is_prime, lemma_inverse_exists, lemma_prime_coprime,
};
use crate::poly::{
    lagrange_weights, lemma_add_cong, lemma_lagrange_at_zero, lemma_mul_cong, lemma_power_sum,
    lemma_power_sum_linear, node_inverses, poly_eval, power_sum, prod_except, weighted_sum,
};
use crate::shamir::values;
use crate::shamir_law::as_ints;
use crate::vss::{
    commitment_sum, commitments_error, dealt, encodes, lagrange_coefficient, lagrange_combination,
    neg_mod, pedersen_h_log, poly_mod, scalar_of, share_commitment_log, sub_mod, DealResult,
};
use vstd::arithmetic::div_mod::*;
use vstd::arithmetic::power::pow;
use vstd::prelude::*;

verus! {

/// Scalars below `ℓ` stand for themselves.
pub proof fn lemma_scalar_of_small(n: nat)
    requires
        n < group_order(),
    ensures
        scalar_of(n) == n,
{
    lemma_small_mod(n, group_order());
}

pub proof fn lemma_commitments_decode(cs: Seq<nat>, us: Seq<crate::bignum::UBig>, k: int)
    requires
        0 <= k <= cs.len(),
        cs.len() == us.len(),
        forall|j: int| 0 <= j < cs.len() ==> #[trigger] cs[j] == us[j]@,
        forall|j: int|
            0 <= j < cs.len() ==> (#[trigger] us[j]).le_bytes@.len() == 32
                && crate::group::ristretto_decodes(us[j].le_bytes@),
    ensures
        commitments_error(cs, k) is None,
        forall|j: int|
            0 <= j < k ==> le_bytes_fixed(#[trigger] cs[j], 32) == us[j].le_bytes@,
    decreases k,
{
    if k > 0 {
        lemma_commitments_decode(cs, us, k - 1);
        let b = us[k - 1].le_bytes@;
        lemma_le_value_injective(b);
        lemma_le_value_bound(b);
        assert(cs[k - 1] == le_value(b));
        assert(le_bytes_fixed(cs[k - 1], 32) == b);
    }
}

pub proof fn lemma_commitment_sum(cs: Seq<nat>, x: nat, k: int)
    requires
        0 <= k <= cs.len(),
    ensures
        commitment_sum(cs, x, k) as int == power_sum(
            Seq::new(cs.len(), |j: int| ristretto_log(le_bytes_fixed(cs[j], 32)) as int),
            x as int,
            k,
        ) % (group_order() as int),
    decreases k,
{
    let l = group_order() as int;
    if k == 0 {
        lemma_small_mod(0, group_order());
    } else {
        lemma_commitment_sum(cs, x, k - 1);
        let logs = Seq::new(cs.len(), |j: int| ristretto_log(le_bytes_fixed(cs[j], 32)) as int);
        let p = pow(x as int, (k - 1) as nat);
        let lg = logs[k - 1];
        let prev = power_sum(logs, x as int, k - 1);
        lemma_pow_nonneg(x as int, (k - 1) as nat);
        lemma_mod_bound(p, l);
        let pm = p % l;
        lemma_mul_mod_noop_right(lg, p, l);
        assert((lg * pm) % l == (lg * p) % l);
        lemma_add_mod_noop(prev, lg * p, l);
        lemma_mod_twice(prev, l);
        lemma_mod_twice(lg * p, l);
        lemma_add_mod_noop(prev % l, (lg * p) % l, l);
        assert(lg * pm >= 0) by (nonlinear_arith)
            requires
                lg >= 0,
                pm >= 0,
        ;
    }
}

proof fn lemma_pow_nonneg(b: int, e: nat)
    requires
        b >= 0,
    ensures
        pow(b, e) >= 0,
    decreases e,
{
    reveal(pow);
    if e > 0 {
        lemma_pow_nonneg(b, (e - 1) as nat);
        let q = pow(b, (e - 1) as nat);
        assert(b * q >= 0) by (nonlinear_arith)
            requires
                b >= 0,
                q >= 0,
        ;
    }
}

pub proof fn lemma_power_sum_cong(u: Seq<int>, v: Seq<int>, x: int, k: int, m: int)
    requires
        m > 0,
        0 <= k <= u.len(),
        k <= v.len(),
        forall|j: int| 0 <= j < k ==> #[trigger] u[j] % m == v[j] % m,
    ensures
        power_sum(u, x, k) % m == power_sum(v, x, k) % m,
    decreases k,
{
    if k > 0 {
        lemma_power_sum_cong(u, v, x, k - 1, m);
        let p = pow(x, (k - 1) as nat);
        assert(u[k - 1] % m == v[k - 1] % m);
        lemma_mul_cong(u[k - 1], v[k - 1], p, m);
        lemma_add_cong(
            power_sum(u, x, k - 1),
            power_sum(v, x, k - 1),
            u[k - 1] * p,
            v[k - 1] * p,
            m,
        );
    }
}

/// Verification accepts every share of an honest deal: the commitments all
/// decode, and `s·G + t·H` equals `Σ_j E_j · i^j`.
pub proof fn lemma_dealt_shares_verify(
    res: DealResult,
    secret: nat,
    players: nat,
    threshold: nat,
    i: int,
)
    requires
        dealt(res, secret, players, threshold),
        0 <= i < players,
    ensures
        commitments_error(values(res.commitments@), threshold as int) is None,
        share_commitment_log(res.shares@[i].1@, res.shares@[i].2@) == commitment_sum(
            values(res.commitments@),
            res.shares@[i].0 as nat,
            threshold as int,
        ),
{
    let l = group_order() as int;
    let h = pedersen_h_log() as int;
    let cs = values(res.commitments@);
    let us = res.commitments@;
    let a = values(res.coeffs_a@);
    let b = values(res.coeffs_b@);
    let t = threshold as int;
    assert forall|j: int| 0 <= j < cs.len() implies (#[trigger] us[j]).le_bytes@.len() == 32
        && crate::group::ristretto_decodes(us[j].le_bytes@) by {
        assert(encodes(us[j], (a[j] + (pedersen_h_log() * b[j]) % group_order()) % group_order()));
    }
    lemma_commitments_decode(cs, us, t);
    let x = res.shares@[i].0 as nat;
    assert(x == i + 1);
    lemma_commitment_sum(cs, x, t);
    let logs = Seq::new(cs.len(), |j: int| ristretto_log(le_bytes_fixed(cs[j], 32)) as int);
    let ai = as_ints(a);
    let bi = as_ints(b);
    let d = Seq::new(cs.len(), |j: int| ai[j] + h * bi[j]);
    assert forall|j: int| 0 <= j < t implies #[trigger] logs[j] % l == d[j] % l by {
        assert(encodes(us[j], (a[j] + (pedersen_h_log() * b[j]) % group_order()) % group_order()));
        assert(le_bytes_fixed(cs[j], 32) == us[j].le_bytes@);
        let hb = h * bi[j];
        lemma_mod_twice(a[j] + hb % l, l);
        lemma_add_mod_noop(ai[j], hb, l);
        lemma_mod_twice(hb, l);
        lemma_add_mod_noop(ai[j], hb % l, l);
    }
    lemma_power_sum_cong(logs, d, x as int, t, l);
    lemma_power_sum_linear(ai, bi, d, h, x as int, t);
    lemma_power_sum(ai, x as int);
    lemma_power_sum(bi, x as int);
    let fa = poly_eval(ai, x as int);
    let fb = poly_eval(bi, x as int);
    // the share side
    let s = res.shares@[i].1@;
    let tt = res.shares@[i].2@;
    assert(s == poly_mod(a, x) && tt == poly_mod(b, x));
    lemma_mod_bound(fa, l);
    lemma_mod_bound(fb, l);
    lemma_scalar_of_small(s);
    lemma_scalar_of_small(tt);
    // (s + (h * t) % l) % l ≡ fa + h * fb
    lemma_mul_mod_noop_right(h, fb, l);
    lemma_add_mod_noop(s as int, (h * tt) % l, l);
    lemma_mod_twice(h * tt, l);
    lemma_mod_twice(fa, l);
    lemma_add_mod_noop(fa, h * fb, l);
    assert(share_commitment_log(s, tt) as int == (s as int + (h * tt) % l) % l);
    lemma_mod_twice(fa + h * fb, l);
    assert(share_commitment_log(s, tt) as int == (fa + h * fb) % l);
    assert(commitment_sum(cs, x, t) as int == (fa + h * fb) % l);
}

/// The inverses used by the Lagrange coefficient of share `i`.
pub open spec fn inverse_product(xs: Seq<nat>, i: int, k: int) -> int
    decreases k,
{
    if k <= 0 {
        1
    } else if xs[k - 1] == xs[i] {
        inverse_product(xs, i, k - 1)
    } else {
        inverse_product(xs, i, k - 1) * inverse_mod(sub_mod(xs[i], xs[k - 1]), group_order())
    }
}

proof fn lemma_coefficient_weights(xs: Seq<nat>, i: int, k: int)
    requires
        is_prime(group_order()),
        0 <= i < xs.len(),
        0 <= k <= xs.len(),
        xs.no_duplicates(),
        forall|j: int| 0 <= j < xs.len() ==> #[trigger] xs[j] < group_order(),
    ensures
        ({
            let xi = as_ints(xs);
            let l = group_order() as int;
            let d = prod_except(xi, i, k, xi[i]);
            let z = prod_except(xi, i, k, 0);
            &&& (lagrange_coefficient(xs, i, k) * d) % l == z % l
            &&& (inverse_product(xs, i, k) * d) % l == 1
        }),
    decreases k,
{
    let xi = as_ints(xs);
    let l = group_order() as int;
    if k == 0 {
        lemma_small_mod(1, group_order());
    } else {
        lemma_coefficient_weights(xs, i, k - 1);
        let d0 = prod_except(xi, i, k - 1, xi[i]);
        let z0 = prod_except(xi, i, k - 1, 0);
        let c0 = lagrange_coefficient(xs, i, k - 1) as int;
        let u0 = inverse_product(xs, i, k - 1);
        if k - 1 == i {
        } else {
            assert(xs[k - 1] != xs[i]);
            let a = xs[i] as int;
            let b = xs[k - 1] as int;
            let sd = sub_mod(xs[i], xs[k - 1]);
            // sd ≡ a - b and is invertible
            lemma_mod_add_multiples_vanish(a - b, l);
            assert(sd as int == (a - b + l) % l);
            assert(sd as int % l == (a - b) % l) by {
                lemma_mod_bound(a - b + l, l);
                lemma_mod_twice(a - b + l, l);
            }
            crate::vss::lemma_sub_mod_nonzero(xs[i], xs[k - 1]);
            lemma_small_mod(sd, group_order());
            lemma_prime_coprime(sd, group_order());
            lemma_inverse_exists(sd, group_order());
            let v = inverse_mod(sd, group_order()) as int;
            // v * (a - b) ≡ 1
            lemma_mul_cong(sd as int, a - b, v, l);
            assert((sd * v) as int == sd as int * v);
            assert(((a - b) * v) % l == 1);
            let ng = neg_mod(xs[k - 1]) as int;
            assert(ng % l == (0 - b) % l) by {
                lemma_mod_add_multiples_vanish(0 - b, l);
                lemma_mod_twice(l - b, l);
            }
            // the coefficient
            let c = lagrange_coefficient(xs, i, k) as int;
            assert(c == ((c0 * ng) % l * v) % l);
            let d = (a - b) * d0;
            let z = (0 - b) * z0;
            assert(prod_except(xi, i, k, xi[i]) == d);
            assert(prod_except(xi, i, k, 0) == z);
            // c ≡ c0 * ng * v, so c * d ≡ (c0 * d0) * ng * (v * (a - b)) ≡ z0 * (0 - b) * 1
            lemma_mul_mod_noop_left(c0 * ng, v, l);
            lemma_mod_twice((c0 * ng % l) * v, l);
            assert(c % l == (c0 * ng * v) % l);
            lemma_mul_cong(c, c0 * ng * v, d, l);
            assert((c0 * ng * v) * d == (c0 * d0) * (ng * ((a - b) * v))) by (nonlinear_arith)
                requires
                    d == (a - b) * d0,
            ;
            lemma_mul_cong(c0 * d0, z0, ng * ((a - b) * v), l);
            lemma_mul_mod_noop_right(ng, (a - b) * v, l);
            assert(ng * 1 == ng);
            lemma_mul_mod_noop_right(z0, ng * ((a - b) * v), l);
            lemma_mul_mod_noop_right(z0, ng, l);
            lemma_mul_cong(ng, 0 - b, z0, l);
            assert(ng * z0 == z0 * ng) by (nonlinear_arith);
            assert((0 - b) * z0 == z);
            // the inverse product
            let u = inverse_product(xs, i, k);
            assert(u == u0 * v);
            assert(u * d == (u0 * d0) * ((a - b) * v)) by (nonlinear_arith)
                requires
                    u == u0 * v,
                    d == (a - b) * d0,
            ;
            lemma_mul_cong(u0 * d0, 1, (a - b) * v, l);
            lemma_mul_mod_noop_right(1, (a - b) * v, l);
            assert(1 * ((a - b) * v) == (a - b) * v);
            lemma_small_mod(1, group_order());
        }
    }
}

proof fn lemma_combination_sum(xs: Seq<nat>, ys: Seq<nat>, k: int)
    requires
        0 <= k <= xs.len(),
        k <= ys.len(),
    ensures
        lagrange_combination(xs, ys, k) as int == weighted_sum(
            as_ints(ys),
            Seq::new(xs.len(), |j: int| lagrange_coefficient(xs, j, xs.len() as int) as int),
            k,
        ) % (group_order() as int),
    decreases k,
{
    let l = group_order() as int;
    if k == 0 {
        lemma_small_mod(0, group_order());
    } else {
        lemma_combination_sum(xs, ys, k - 1);
        let ws = Seq::new(xs.len(), |j: int| lagrange_coefficient(xs, j, xs.len() as int) as int);
        let w0 = weighted_sum(as_ints(ys), ws, k - 1);
        let c = lagrange_coefficient(xs, k - 1, xs.len() as int) as int;
        let y = ys[k - 1] as int;
        assert(as_ints(ys)[k - 1] * ws[k - 1] == y * c);
        assert(c * y == y * c) by (nonlinear_arith);
        lemma_mod_twice(y * c, l);
        lemma_add_mod_noop(w0 % l, (y * c) % l, l);
        lemma_mod_twice(w0, l);
        lemma_add_mod_noop(w0, y * c, l);
        assert(weighted_sum(as_ints(ys), ws, k) == w0 + y * c);
    }
}

/// Any `threshold` or more shares of an honest deal, at distinct indices,
/// reconstruct the dealt secret `secret mod ℓ`.
pub proof fn lemma_dealt_shares_reconstruct(
    res: DealResult,
    secret: nat,
    players: usize,
    threshold: nat,
    idx: Seq<int>,
)
    requires
        dealt(res, secret, players as nat, threshold),
        idx.no_duplicates(),
        idx.len() >= threshold,
        forall|k: int| 0 <= k < idx.len() ==> 0 <= #[trigger] idx[k] < players,
    ensures
        lagrange_combination(
            Seq::new(idx.len(), |k: int| scalar_of((idx[k] + 1) as nat)),
            Seq::new(idx.len(), |k: int| scalar_of(res.shares@[idx[k]].1@)),
            idx.len() as int,
        ) == scalar_of(secret),
{
    crate::primality::lemma_group_order_prime();
    let l = group_order() as int;
    let n = idx.len() as int;
    let xs = Seq::new(idx.len(), |k: int| scalar_of((idx[k] + 1) as nat));
    let ys = Seq::new(idx.len(), |k: int| scalar_of(res.shares@[idx[k]].1@));
    let a = values(res.coeffs_a@);
    let f = as_ints(a);
    lemma_group_order_bound();
    assert forall|k: int| 0 <= k < n implies #[trigger] xs[k] == idx[k] + 1 by {
        assert(idx[k] + 1 <= usize::MAX);
        lemma_scalar_of_small((idx[k] + 1) as nat);
    }
    assert(xs.no_duplicates()) by {
        assert forall|p: int, q: int| 0 <= p < n && 0 <= q < n && p != q implies xs[p] != xs[q] by {
            assert(xs[p] == idx[p] + 1 && xs[q] == idx[q] + 1);
        }
    }
    let xi = as_ints(xs);
    let ws = Seq::new(xs.len(), |j: int| lagrange_coefficient(xs, j, n) as int);
    let us = Seq::new(xs.len(), |j: int| inverse_product(xs, j, n));
    assert forall|j: int| 0 <= j < n implies (#[trigger] ws[j] * prod_except(xi, j, n, xi[j])) % l
        == prod_except(xi, j, n, 0) % l by {
        lemma_coefficient_weights(xs, j, n);
    }
    assert forall|j: int| 0 <= j < n implies (#[trigger] us[j] * prod_except(xi, j, n, xi[j])) % l
        == 1 by {
        lemma_coefficient_weights(xs, j, n);
    }
    assert(lagrange_weights(l, xi, ws));
    assert(node_inverses(l, xi, us));
    let yi = as_ints(ys);
    assert forall|k: int| 0 <= k < n implies #[trigger] yi[k] % l == poly_eval(f, xi[k]) % l by {
        let s = res.shares@[idx[k]];
        assert(s.1@ == poly_mod(a, (idx[k] + 1) as nat));
        let fe = poly_eval(f, xi[k]);
        lemma_mod_bound(fe, l);
        lemma_scalar_of_small(s.1@);
        lemma_mod_twice(fe, l);
    }
    lemma_lagrange_at_zero(l, f, xi, yi, ws, us);
    lemma_combination_sum(xs, ys, n);
    assert(poly_eval(f, 0) == f[0] + 0 * poly_eval(f.drop_first(), 0));
    assert(0 * poly_eval(f.drop_first(), 0) == 0);
    assert(f[0] == a[0]);
    lemma_small_mod(a[0], group_order());
}

} // verus!
