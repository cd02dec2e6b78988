//! Pedersen verifiable secret sharing over the Ristretto group.
//!
//! The dealer shares the secret with a polynomial `A` and hides it with a
//! second random polynomial `B`; it publishes the commitments
//! `E_j = a_j·G + b_j·H` and hands player `i` the share `(i, A(i), B(i))`.
//! A player accepts when `s·G + t·H == Σ_j E_j · i^j`.

use crate::arith::{le_bytes_fixed, le_value, lemma_le_value_injective};
use crate::bignum::{decimal_string, usize_to_decimal, UBig};
use crate::convert::{
    biguint_to_ristretto_point, biguint_to_scalar, point_conversion_error,
    ristretto_point_to_biguint, scalar_to_biguint,
};
use crate::group::{
    basepoint, group_order, hash_to_group, identity, point_add, point_eq, point_mul,
    ristretto_decodes, ristretto_hash_from_bytes, ristretto_log, scalar_add, scalar_from_u64,
    scalar_eq, scalar_invert, scalar_mul, scalar_neg, scalar_random, scalar_sub, GroupElement, GroupScalar,
};
use crate::nt::{inverse_mod, lemma_inverse_unique};
use crate::poly::poly_eval;
use crate::shamir::values;
use crate::shamir_law::as_ints;
use vstd::arithmetic::div_mod::*;
use vstd::arithmetic::power::pow;
use vstd::prelude::*;

verus! {

/// The message whose hash to the group is the second generator `H`.
pub const PEDERSEN_H_MESSAGE: &'static str = "VSS_pedersen_h_generator_v1";

/// The discrete logarithm of the second generator `H`.
pub open spec fn pedersen_h_log() -> nat {
    ristretto_log(ristretto_hash_from_bytes(PEDERSEN_H_MESSAGE@))
}

/// What the dealer is asked to share.
#[derive(Debug)]
pub struct DealParams {
    pub secret: UBig,
    pub players: usize,
    pub threshold: usize,
}

/// The commitments `E_j`, the shares `(i, s_i, t_i)` and both polynomials' coefficients.
#[derive(Debug)]
pub struct DealResult {
    pub commitments: Vec<UBig>,
    pub shares: Vec<(usize, UBig, UBig)>,
    pub coeffs_a: Vec<UBig>,
    pub coeffs_b: Vec<UBig>,
}

/// A share to check against the commitments.
#[derive(Debug)]
pub struct VerifyParams {
    pub commitments: Vec<UBig>,
    pub share: (usize, UBig, UBig),
}

/// Whether the share is consistent, with both sides of the check.
#[derive(Debug)]
pub struct VerifyResult {
    pub result: bool,
    pub verify_commitment_value: UBig,
    pub verify_share_value: UBig,
}

/// Shares `(i, s_i)` to combine.
#[derive(Debug)]
pub struct ReconstructParams {
    pub shares: Vec<(UBig, UBig)>,
}

/// The values of a sequence of scalars.
pub open spec fn scalar_values(v: Seq<GroupScalar>) -> Seq<nat> {
    Seq::new(v.len(), |i: int| v[i]@)
}

/// The value at `x` modulo `ℓ` of the polynomial with coefficients `c`.
pub open spec fn poly_mod(c: Seq<nat>, x: nat) -> nat {
    (poly_eval(as_ints(c), x as int) % (group_order() as int)) as nat
}

/// The number `u` holds a group element's encoding, whose logarithm is `log`.
pub open spec fn encodes(u: UBig, log: nat) -> bool {
    &&& u.le_bytes@.len() == 32
    &&& ristretto_decodes(u.le_bytes@)
    &&& ristretto_log(u.le_bytes@) == log
}

/// The message of a refused deal.
pub open spec fn deal_error_message(players: usize, threshold: usize) -> Seq<char> {
    "threshold must be greater than 1 and smaller than number of players "@ + decimal_string(
        players as nat,
    ) + ", receive "@ + decimal_string(threshold as nat)
}

/// `res` is a deal of `secret` to `players` players with threshold `threshold`.
pub open spec fn dealt(res: DealResult, secret: nat, players: nat, threshold: nat) -> bool {
    let a = values(res.coeffs_a@);
    let b = values(res.coeffs_b@);
    let l = group_order();
    &&& threshold >= 2
    &&& a.len() == threshold
    &&& b.len() == threshold
    &&& forall|j: int| 0 <= j < threshold ==> #[trigger] a[j] < l && b[j] < l
    &&& a[0] == secret % l
    &&& res.commitments@.len() == threshold
    &&& forall|j: int|
        0 <= j < threshold ==> encodes(
            #[trigger] res.commitments@[j],
            (a[j] + (pedersen_h_log() * b[j]) % l) % l,
        )
    &&& res.shares@.len() == players
    &&& forall|i: int|
        0 <= i < players ==> {
            &&& (#[trigger] res.shares@[i]).0 == i + 1
            &&& res.shares@[i].1@ == poly_mod(a, (i + 1) as nat)
            &&& res.shares@[i].2@ == poly_mod(b, (i + 1) as nat)
        }
}

/// `a·G + b·H`.
fn commit(a: &GroupScalar, b: &GroupScalar, g: &GroupElement, h: &GroupElement) -> (r:
    GroupElement)
    requires
        a.wf(),
        b.wf(),
        g.wf(),
        h.wf(),
        g.log() == 1,
    ensures
        r.wf(),
        r.log() == (a@ + (h.log() * b@) % group_order()) % group_order(),
{
    let x = point_mul(g, a);
    let y = point_mul(h, b);
    proof {
        assert(1 * a@ == a@);
        lemma_small_mod(a@, group_order());
    }
    point_add(&x, &y)
}

proof fn lemma_horner_step(acc: int, x: int, c: int, e: int, l: int)
    requires
        l > 0,
        acc == e % l,
        0 <= c < l,
    ensures
        ((acc * x) % l + c) % l == (c + x * e) % l,
{
    lemma_mul_mod_noop_left(e, x, l);
    lemma_small_mod(c as nat, l as nat);
    lemma_add_mod_noop(acc * x, c, l);
    lemma_mod_twice(acc * x, l);
    lemma_add_mod_noop(e * x, c, l);
    lemma_mod_twice(e * x, l);
    assert(e * x == x * e) by (nonlinear_arith);
}

/// `A(x) mod ℓ` by Horner's rule.
fn gen_share(x: &GroupScalar, coeffs: &Vec<GroupScalar>) -> (r: GroupScalar)
    requires
        x.wf(),
        forall|j: int| 0 <= j < coeffs.len() ==> (#[trigger] coeffs@[j]).wf(),
    ensures
        r.wf(),
        r@ == poly_mod(scalar_values(coeffs@), x@),
{
    let ghost c = as_ints(scalar_values(coeffs@));
    let mut acc = scalar_from_u64(0);
    let mut j: usize = coeffs.len();
    proof {
        lemma_small_mod(0, group_order());
    }
    while j > 0
        invariant
            x.wf(),
            forall|k: int| 0 <= k < coeffs.len() ==> (#[trigger] coeffs@[k]).wf(),
            c == as_ints(scalar_values(coeffs@)),
            j <= coeffs.len(),
            acc.wf(),
            acc@ as int == poly_eval(c.skip(j as int), x@ as int) % (group_order() as int),
        decreases j,
    {
        let ghost e = poly_eval(c.skip(j as int), x@ as int);
        let ghost old_acc = acc@;
        let prod = scalar_mul(&acc, x);
        acc = scalar_add(&prod, &coeffs[j - 1]);
        proof {
            lemma_horner_step(
                old_acc as int,
                x@ as int,
                coeffs@[j - 1]@ as int,
                e,
                group_order() as int,
            );
            let t = c.skip(j - 1);
            assert(t.drop_first() == c.skip(j as int));
            assert(t[0] == coeffs@[j - 1]@);
        }
        j = j - 1;
    }
    assert(c.skip(0) == c);
    acc
}

/// Shares the secret among `players` players so that any `threshold` of
/// them can recover it, with commitments that let each check its share.
pub fn deal(params: DealParams) -> (r: Result<DealResult, String>)
    ensures
        r is Err <==> params.threshold < 2 || params.threshold > params.players,
        r matches Err(e) ==> e@ == deal_error_message(params.players, params.threshold),
        r matches Ok(res) ==> dealt(
            res,
            params.secret@,
            params.players as nat,
            params.threshold as nat,
        ),
{
    if params.threshold < 2 || params.threshold > params.players {
        let mut msg = String::from_str(
            "threshold must be greater than 1 and smaller than number of players ",
        );
        msg.append(usize_to_decimal(params.players).as_str());
        msg.append(", receive ");
        msg.append(usize_to_decimal(params.threshold).as_str());
        return Err(msg);
    }
    let threshold = params.threshold;
    let players = params.players;
    let k = biguint_to_scalar(&params.secret);
    let t = scalar_random();
    let mut coeffs_a: Vec<GroupScalar> = Vec::new();
    let mut coeffs_b: Vec<GroupScalar> = Vec::new();
    coeffs_a.push(k);
    coeffs_b.push(t);
    let mut i: usize = 1;
    while i < threshold
        invariant
            1 <= i <= threshold,
            coeffs_a.len() == i,
            coeffs_b.len() == i,
            coeffs_a@[0] == k,
            forall|j: int| 0 <= j < i ==> (#[trigger] coeffs_a@[j]).wf(),
            forall|j: int| 0 <= j < i ==> (#[trigger] coeffs_b@[j]).wf(),
        decreases threshold - i,
    {
        coeffs_a.push(scalar_random());
        coeffs_b.push(scalar_random());
        i = i + 1;
    }
    let ghost a = scalar_values(coeffs_a@);
    let ghost b = scalar_values(coeffs_b@);
    let g = basepoint();
    let h = hash_to_group(PEDERSEN_H_MESSAGE);
    let l = Ghost(group_order());
    let mut commitments: Vec<UBig> = Vec::new();
    let mut i: usize = 0;
    while i < threshold
        invariant
            coeffs_a.len() == threshold,
            coeffs_b.len() == threshold,
            a == scalar_values(coeffs_a@),
            b == scalar_values(coeffs_b@),
            forall|j: int| 0 <= j < threshold ==> (#[trigger] coeffs_a@[j]).wf(),
            forall|j: int| 0 <= j < threshold ==> (#[trigger] coeffs_b@[j]).wf(),
            g.wf(),
            g.log() == 1,
            h.wf(),
            h.log() == pedersen_h_log(),
            l@ == group_order(),
            i <= threshold,
            commitments.len() == i,
            forall|j: int|
                0 <= j < i ==> encodes(
                    #[trigger] commitments@[j],
                    (a[j] + (pedersen_h_log() * b[j]) % l@) % l@,
                ),
        decreases threshold - i,
    {
        let e = commit(&coeffs_a[i], &coeffs_b[i], &g, &h);
        commitments.push(ristretto_point_to_biguint(&e));
        i = i + 1;
    }
    let mut shares: Vec<(usize, UBig, UBig)> = Vec::new();
    let mut i: usize = 0;
    while i < players
        invariant
            coeffs_a.len() == threshold,
            coeffs_b.len() == threshold,
            a == scalar_values(coeffs_a@),
            b == scalar_values(coeffs_b@),
            forall|j: int| 0 <= j < threshold ==> (#[trigger] coeffs_a@[j]).wf(),
            forall|j: int| 0 <= j < threshold ==> (#[trigger] coeffs_b@[j]).wf(),
            i <= players,
            shares.len() == i,
            forall|j: int|
                0 <= j < i ==> {
                    &&& (#[trigger] shares@[j]).0 == j + 1
                    &&& shares@[j].1@ == poly_mod(a, (j + 1) as nat)
                    &&& shares@[j].2@ == poly_mod(b, (j + 1) as nat)
                },
        decreases players - i,
    {
        let x = scalar_from_u64((i + 1) as u64);
        let s = gen_share(&x, &coeffs_a);
        let t = gen_share(&x, &coeffs_b);
        shares.push((i + 1, scalar_to_biguint(&s), scalar_to_biguint(&t)));
        i = i + 1;
    }
    let mut out_a: Vec<UBig> = Vec::new();
    let mut out_b: Vec<UBig> = Vec::new();
    let mut i: usize = 0;
    while i < threshold
        invariant
            coeffs_a.len() == threshold,
            coeffs_b.len() == threshold,
            a == scalar_values(coeffs_a@),
            b == scalar_values(coeffs_b@),
            i <= threshold,
            out_a.len() == i,
            out_b.len() == i,
            forall|j: int| 0 <= j < i ==> #[trigger] out_a@[j]@ == a[j],
            forall|j: int| 0 <= j < i ==> #[trigger] out_b@[j]@ == b[j],
        decreases threshold - i,
    {
        out_a.push(scalar_to_biguint(&coeffs_a[i]));
        out_b.push(scalar_to_biguint(&coeffs_b[i]));
        i = i + 1;
    }
    assert(values(out_a@) == a);
    assert(values(out_b@) == b);
    Ok(DealResult { commitments, shares, coeffs_a: out_a, coeffs_b: out_b })
}

/// The first refusal among converting the commitments `cs[..k]` to group elements.
pub open spec fn commitments_error(cs: Seq<nat>, k: int) -> Option<Seq<char>>
    decreases k,
{
    if k <= 0 {
        None
    } else {
        match commitments_error(cs, k - 1) {
            Some(e) => Some(e),
            None => point_conversion_error(cs[k - 1]),
        }
    }
}

/// The logarithm of `Σ_{j<k} E_j · (x^j mod ℓ)` for the commitments `cs`.
pub open spec fn commitment_sum(cs: Seq<nat>, x: nat, k: int) -> nat
    decreases k,
{
    if k <= 0 {
        0
    } else {
        (commitment_sum(cs, x, k - 1) + (ristretto_log(le_bytes_fixed(cs[k - 1], 32)) * ((pow(
            x as int,
            (k - 1) as nat,
        ) % (group_order() as int)) as nat)) % group_order()) % group_order()
    }
}

/// The scalar that a number stands for: `n mod ℓ`.
pub open spec fn scalar_of(n: nat) -> nat {
    n % group_order()
}

/// The logarithm of `s·G + t·H`.
pub open spec fn share_commitment_log(s: nat, t: nat) -> nat {
    let l = group_order();
    (scalar_of(s) + (pedersen_h_log() * scalar_of(t)) % l) % l
}

/// `x^(j+1) mod l` from `x^j mod l`.
pub proof fn lemma_pow_mod_step(x: int, j: nat, l: int)
    requires
        l > 0,
    ensures
        ((pow(x, j) % l) * x) % l == pow(x, j + 1) % l,
{
    reveal(pow);
    lemma_mul_mod_noop_left(pow(x, j), x, l);
    assert(pow(x, j + 1) == x * pow(x, j));
    assert(x * pow(x, j) == pow(x, j) * x) by (nonlinear_arith);
}

/// Checks a share `(i, s, t)` against the commitments: `s·G + t·H == Σ_j E_j · i^j`.
pub fn verify(params: VerifyParams) -> (r: Result<VerifyResult, String>)
    ensures
        ({
            let cs = values(params.commitments@);
            let n = cs.len() as int;
            let lhs = share_commitment_log(params.share.1@, params.share.2@);
            let rhs = commitment_sum(cs, params.share.0 as nat, n);
            &&& r is Ok <==> commitments_error(cs, n) is None
            &&& r matches Err(e) ==> commitments_error(cs, n) == Some(e@)
            &&& r matches Ok(res) ==> {
                &&& res.result == (lhs == rhs)
                &&& res.result == (res.verify_commitment_value@ == res.verify_share_value@)
                &&& encodes(res.verify_commitment_value, lhs)
                &&& encodes(res.verify_share_value, rhs)
            }
        }),
{
    let ghost cs = values(params.commitments@);
    let si = biguint_to_scalar(&params.share.1);
    let ti = biguint_to_scalar(&params.share.2);
    let g = basepoint();
    let h = hash_to_group(PEDERSEN_H_MESSAGE);
    let lhs = commit(&si, &ti, &g, &h);
    let mut rhs = identity();
    let x = scalar_from_u64(params.share.0 as u64);
    let mut x_pow_j = scalar_from_u64(1);
    proof {
        reveal(pow);
        lemma_small_mod(1, group_order());
        lemma_small_mod(0, group_order());
    }
    let commitments = &params.commitments;
    let mut j: usize = 0;
    while j < commitments.len()
        invariant
            cs == values(commitments@),
            cs == values(params.commitments@),
            lhs.wf(),
            lhs.log() == share_commitment_log(params.share.1@, params.share.2@),
            x.wf(),
            x@ == params.share.0 as nat,
            j <= commitments.len(),
            commitments_error(cs, j as int) is None,
            rhs.wf(),
            rhs.log() == commitment_sum(cs, x@, j as int),
            x_pow_j.wf(),
            x_pow_j@ as int == pow(x@ as int, j as nat) % (group_order() as int),
        decreases commitments.len() - j,
    {
        let ej = match biguint_to_ristretto_point(&commitments[j]) {
            Ok(p) => p,
            Err(e) => {
                assert(commitments_error(cs, (j + 1) as int) == Some(e@));
                proof {
                    lemma_error_persists(cs, (j + 1) as int, cs.len() as int);
                }
                return Err(e);
            },
        };
        let term = point_mul(&ej, &x_pow_j);
        rhs = point_add(&rhs, &term);
        proof {
            lemma_pow_mod_step(x@ as int, j as nat, group_order() as int);
        }
        x_pow_j = scalar_mul(&x_pow_j, &x);
        j = j + 1;
    }
    let result = point_eq(&lhs, &rhs);
    proof {
        lemma_le_value_injective(lhs.enc@);
        lemma_le_value_injective(rhs.enc@);
    }
    Ok(
        VerifyResult {
            result,
            verify_commitment_value: ristretto_point_to_biguint(&lhs),
            verify_share_value: ristretto_point_to_biguint(&rhs),
        },
    )
}

/// Once a conversion has been refused, the first refusal stays the answer.
pub proof fn lemma_error_persists(cs: Seq<nat>, k: int, n: int)
    requires
        0 <= k <= n,
        commitments_error(cs, k) is Some,
    ensures
        commitments_error(cs, n) == commitments_error(cs, k),
    decreases n - k,
{
    if k < n {
        lemma_error_persists(cs, k, n - 1);
    }
}

/// `-v mod ℓ`.
pub open spec fn neg_mod(v: nat) -> nat {
    ((group_order() - v) % (group_order() as int)) as nat
}

/// `a - b mod ℓ`.
pub open spec fn sub_mod(a: nat, b: nat) -> nat {
    ((a + group_order() - b) % (group_order() as int)) as nat
}

/// `Π_{j<k, x_j ≠ x_i} (-x_j) · (x_i - x_j)^{-1} mod ℓ`, the Lagrange coefficient
/// of share `i` at zero over the first `k` shares.
pub open spec fn lagrange_coefficient(xs: Seq<nat>, i: int, k: int) -> nat
    decreases k,
{
    if k <= 0 {
        1
    } else if xs[k - 1] == xs[i] {
        lagrange_coefficient(xs, i, k - 1)
    } else {
        (((lagrange_coefficient(xs, i, k - 1) * neg_mod(xs[k - 1])) % group_order())
            * inverse_mod(sub_mod(xs[i], xs[k - 1]), group_order())) % group_order()
    }
}

/// `Σ_{i<k} L_i(0) · y_i mod ℓ`, reduced at each step.
pub open spec fn lagrange_combination(xs: Seq<nat>, ys: Seq<nat>, k: int) -> nat
    decreases k,
{
    if k <= 0 {
        0
    } else {
        (lagrange_combination(xs, ys, k - 1) + (lagrange_coefficient(
            xs,
            k - 1,
            xs.len() as int,
        ) * ys[k - 1]) % group_order()) % group_order()
    }
}

/// The scalars that the shares' components stand for.
pub open spec fn share_scalars(v: Seq<(UBig, UBig)>, second: bool) -> Seq<nat> {
    Seq::new(v.len(), |i: int| scalar_of(if second { v[i].1@ } else { v[i].0@ }))
}

/// Distinct scalars have a nonzero difference modulo `ℓ`.
pub proof fn lemma_sub_mod_nonzero(a: nat, b: nat)
    requires
        a < group_order(),
        b < group_order(),
        a != b,
    ensures
        sub_mod(a, b) != 0,
        sub_mod(a, b) < group_order(),
{
    let l = group_order() as int;
    let d = a + l - b;
    if d < l {
        lemma_small_mod(d as nat, l as nat);
    } else {
        lemma_mod_sub_multiples_vanish(d, l);
        lemma_small_mod((d - l) as nat, l as nat);
    }
}

/// `Σ_i s_i · L_i(0)` over the scalars of the shares `(x_i, s_i)`.
pub fn reconstruct(params: ReconstructParams) -> (r: UBig)
    ensures
        r@ == lagrange_combination(
            share_scalars(params.shares@, false),
            share_scalars(params.shares@, true),
            params.shares@.len() as int,
        ),
{
    let ghost xs = share_scalars(params.shares@, false);
    let ghost ys = share_scalars(params.shares@, true);
    let n = params.shares.len();
    let mut sx: Vec<GroupScalar> = Vec::new();
    let mut sy: Vec<GroupScalar> = Vec::new();
    let mut i: usize = 0;
    while i < n
        invariant
            n == params.shares.len(),
            xs == share_scalars(params.shares@, false),
            ys == share_scalars(params.shares@, true),
            i <= n,
            sx.len() == i,
            sy.len() == i,
            forall|j: int| 0 <= j < i ==> (#[trigger] sx@[j]).wf() && sx@[j]@ == xs[j],
            forall|j: int| 0 <= j < i ==> (#[trigger] sy@[j]).wf() && sy@[j]@ == ys[j],
        decreases n - i,
    {
        sx.push(biguint_to_scalar(&params.shares[i].0));
        sy.push(biguint_to_scalar(&params.shares[i].1));
        i = i + 1;
    }
    let mut sum = scalar_from_u64(0);
    proof {
        lemma_small_mod(0, group_order());
    }
    let mut i: usize = 0;
    while i < n
        invariant
            n == sx.len(),
            n == sy.len(),
            n == xs.len(),
            forall|j: int| 0 <= j < n ==> (#[trigger] sx@[j]).wf() && sx@[j]@ == xs[j],
            forall|j: int| 0 <= j < n ==> (#[trigger] sy@[j]).wf() && sy@[j]@ == ys[j],
            i <= n,
            sum.wf(),
            sum@ == lagrange_combination(xs, ys, i as int),
        decreases n - i,
    {
        let xi = &sx[i];
        let mut li = scalar_from_u64(1);
        let mut j: usize = 0;
        while j < n
            invariant
                n == sx.len(),
                n == xs.len(),
                forall|k: int| 0 <= k < n ==> (#[trigger] sx@[k]).wf() && sx@[k]@ == xs[k],
                i < n,
                xi == sx@[i as int],
                j <= n,
                li.wf(),
                li@ == lagrange_coefficient(xs, i as int, j as int),
            decreases n - j,
        {
            let xj = &sx[j];
            if !scalar_eq(xj, xi) {
                let neg = scalar_neg(xj);
                let prod = scalar_mul(&li, &neg);
                let diff = scalar_sub(xi, xj);
                let inv = scalar_invert(&diff);
                proof {
                    lemma_sub_mod_nonzero(xs[i as int], xs[j as int]);
                    assert(diff@ == sub_mod(xs[i as int], xs[j as int]));
                    lemma_inverse_unique(diff@, inv@, group_order());
                }
                li = scalar_mul(&prod, &inv);
            }
            j = j + 1;
        }
        let term = scalar_mul(&li, &sy[i]);
        sum = scalar_add(&sum, &term);
        i = i + 1;
    }
    scalar_to_biguint(&sum)
}

} // verus!
